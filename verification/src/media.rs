//! Safe construction of local file names for downloaded media: untrusted
//! identifiers are reduced to a conservative character set so the resulting
//! path can neither escape its directory nor smuggle path separators.

use vstd::prelude::*;
use crate::text::{
    chars_of, string_of, push_all, subvec, trim_char, trim_char_spec, replace_all, replace_spec,
};

verus! {

/// The characters kept by `sanitize_filename_component`: ASCII letters and
/// digits, dot, underscore and dash.
pub open spec fn keep_char(c: char) -> bool {
    ('a' <= c && c <= 'z') || ('A' <= c && c <= 'Z') || ('0' <= c && c <= '9') || c == '.' || c
        == '_' || c == '-'
}

/// Every character outside the kept set replaced by an underscore.
pub open spec fn mask_spec(s: Seq<char>) -> Seq<char> {
    s.map_values(|c: char| if keep_char(c) { c } else { '_' })
}

/// What `sanitize_filename_component` returns: the masked input with
/// underscores, then dots, trimmed from both ends and parent-directory
/// dot pairs defused; the fallback if nothing remains; truncated to
/// eighty characters.
pub open spec fn sanitize_filename_spec(s: Seq<char>, fallback: Seq<char>) -> Seq<char> {
    let m = replace_spec(trim_char_spec(trim_char_spec(mask_spec(s), '_'), '.'), ".."@, "_"@);
    if m.len() == 0 {
        fallback
    } else if m.len() > 80 {
        m.subrange(0, 80)
    } else {
        m
    }
}

fn keep(c: char) -> (r: bool)
    ensures
        r == keep_char(c),
{
    ('a' <= c && c <= 'z') || ('A' <= c && c <= 'Z') || ('0' <= c && c <= '9') || c == '.' || c
        == '_' || c == '-'
}

/// Reduces an untrusted string to a safe file-name component: path
/// separators become underscores and dot pairs are broken up, so the
/// result can never climb out of its directory; if nothing safe remains,
/// the fallback is used instead.
pub fn sanitize_filename_component(input: &str, fallback: &str) -> (r: String)
    ensures
        r@ == sanitize_filename_spec(input@, fallback@),
{
    let v = chars_of(input);
    let n = v.len();
    let mut m: Vec<char> = Vec::new();
    let mut i: usize = 0;
    while i < n
        invariant
            i <= n,
            n == v@.len(),
            m@ =~= mask_spec(v@.subrange(0, i as int)),
        decreases n - i,
    {
        let c = v[i];
        if keep(c) {
            m.push(c);
        } else {
            m.push('_');
        }
        proof {
            assert(v@.subrange(0, i + 1).drop_last() =~= v@.subrange(0, i as int));
            assert(m@ =~= mask_spec(v@.subrange(0, i + 1)));
        }
        i = i + 1;
    }
    proof {
        assert(v@.subrange(0, n as int) =~= v@);
    }
    let m = trim_char(&m, '_');
    let m = trim_char(&m, '.');
    proof {
        reveal_strlit("..");
    }
    let m = replace_all(&m, &chars_of(".."), &chars_of("_"));
    if m.len() == 0 {
        let fb = chars_of(fallback);
        string_of(&fb)
    } else if m.len() > 80 {
        let head = subvec(&m, 0, 80);
        string_of(&head)
    } else {
        string_of(&m)
    }
}

/// What `build_safe_media_path` returns: a path under `/tmp` assembled
/// from the three sanitized components.
pub open spec fn safe_media_path_spec(
    event_id: Seq<char>,
    kind: Seq<char>,
    original_name: Seq<char>,
) -> Seq<char> {
    "/tmp/matrix_"@ + sanitize_filename_spec(event_id, "event"@) + "_"@ + sanitize_filename_spec(
        kind,
        "media"@,
    ) + "_"@ + sanitize_filename_spec(original_name, "file"@)
}

/// Builds the local path a piece of media is written to, from identifiers
/// that are sanitized first so the path stays inside `/tmp`.
pub fn build_safe_media_path(event_id: &str, kind: &str, original_name: &str) -> (r: String)
    ensures
        r@ == safe_media_path_spec(event_id@, kind@, original_name@),
{
    let safe_event = sanitize_filename_component(event_id, "event");
    let safe_kind = sanitize_filename_component(kind, "media");
    let safe_name = sanitize_filename_component(original_name, "file");
    let mut v = chars_of("/tmp/matrix_");
    push_all(&mut v, &chars_of(safe_event.as_str()));
    push_all(&mut v, &chars_of("_"));
    push_all(&mut v, &chars_of(safe_kind.as_str()));
    push_all(&mut v, &chars_of("_"));
    push_all(&mut v, &chars_of(safe_name.as_str()));
    string_of(&v)
}

} // verus!
