//! Formatting of Matrix messages as HTML for the host chat UI: escaping,
//! tag stripping for untrusted input, and the styled snippets (replies,
//! redactions, edits, mentions, notices, polls).

use vstd::prelude::*;
use crate::text::{
    chars_of, string_of, push_all, replace_all, dec_u64, dec_spec, replace_spec, subvec,
    contains_sub, has_sub, is_space_char,
};

verus! {

/// HTML-escaping of the five significant characters, applied as successive
/// whole-string replacements (ampersands first, so entities introduced by
/// the later replacements are not rescanned).
pub open spec fn escape_html_spec(s: Seq<char>) -> Seq<char> {
    replace_spec(
        replace_spec(
            replace_spec(
                replace_spec(replace_spec(s, "&"@, "&amp;"@), "<"@, "&lt;"@),
                ">"@,
                "&gt;"@,
            ),
            "\""@,
            "&quot;"@,
        ),
        "'"@,
        "&#x27;"@,
    )
}

proof fn escape_pattern_lengths()
    ensures
        "&"@.len() == 1,
        "<"@.len() == 1,
        ">"@.len() == 1,
        "\""@.len() == 1,
        "'"@.len() == 1,
{
    reveal_strlit("&");
    reveal_strlit("<");
    reveal_strlit(">");
    reveal_strlit("\"");
    reveal_strlit("'");
}

/// Escapes a character vector; see `escape_html`.
pub fn escape_chars(input: &Vec<char>) -> (r: Vec<char>)
    ensures
        r@ == escape_html_spec(input@),
{
    proof {
        escape_pattern_lengths();
    }
    let v = replace_all(input, &chars_of("&"), &chars_of("&amp;"));
    let v = replace_all(&v, &chars_of("<"), &chars_of("&lt;"));
    let v = replace_all(&v, &chars_of(">"), &chars_of("&gt;"));
    let v = replace_all(&v, &chars_of("\""), &chars_of("&quot;"));
    let v = replace_all(&v, &chars_of("'"), &chars_of("&#x27;"));
    v
}

/// Escapes `&`, `<`, `>`, `"` and `'` for safe inclusion in HTML text.
pub fn escape_html(input: &str) -> (r: String)
    ensures
        r@ == escape_html_spec(input@),
{
    let v = chars_of(input);
    let v = escape_chars(&v);
    string_of(&v)
}

/// Removal of everything between `<` and `>`: `<` enters a tag, `>` leaves
/// it, and only characters seen outside a tag are kept.
pub open spec fn strip_tags_spec(s: Seq<char>, inside: bool) -> Seq<char>
    decreases s.len(),
{
    if s.len() == 0 {
        Seq::<char>::empty()
    } else if s[0] == '<' {
        strip_tags_spec(s.drop_first(), true)
    } else if s[0] == '>' {
        strip_tags_spec(s.drop_first(), false)
    } else if inside {
        strip_tags_spec(s.drop_first(), inside)
    } else {
        seq![s[0]] + strip_tags_spec(s.drop_first(), inside)
    }
}

/// Decoding of the common entities after tags are removed, as successive
/// whole-string replacements.
pub open spec fn decode_entities_spec(s: Seq<char>) -> Seq<char> {
    replace_spec(
        replace_spec(
            replace_spec(
                replace_spec(replace_spec(s, "&lt;"@, "<"@), "&gt;"@, ">"@),
                "&amp;"@,
                "&"@,
            ),
            "&quot;"@,
            "\""@,
        ),
        "&nbsp;"@,
        " "@,
    )
}

/// What `strip_html_tags` returns: tags removed, then common entities
/// decoded.
pub open spec fn strip_html_spec(s: Seq<char>) -> Seq<char> {
    decode_entities_spec(strip_tags_spec(s, false))
}

proof fn entity_pattern_lengths()
    ensures
        "&lt;"@.len() == 4,
        "&gt;"@.len() == 4,
        "&amp;"@.len() == 5,
        "&quot;"@.len() == 6,
        "&nbsp;"@.len() == 6,
{
    reveal_strlit("&lt;");
    reveal_strlit("&gt;");
    reveal_strlit("&amp;");
    reveal_strlit("&quot;");
    reveal_strlit("&nbsp;");
}

/// Strips all HTML tags from the input and decodes the common entities,
/// leaving plain text.
pub fn strip_html_tags(input: &str) -> (r: String)
    ensures
        r@ == strip_html_spec(input@),
{
    let v = chars_of(input);
    let n = v.len();
    let mut out: Vec<char> = Vec::new();
    let mut inside: bool = false;
    let mut i: usize = 0;
    proof {
        assert(v@.subrange(0, n as int) =~= v@);
        assert(Seq::<char>::empty() + strip_tags_spec(v@, false) =~= strip_tags_spec(v@, false));
    }
    while i < n
        invariant
            i <= n,
            n == v@.len(),
            strip_tags_spec(v@, false) == out@ + strip_tags_spec(
                v@.subrange(i as int, n as int),
                inside,
            ),
        decreases n - i,
    {
        let ghost rest = v@.subrange(i as int, n as int);
        proof {
            assert(rest.drop_first() =~= v@.subrange(i + 1, n as int));
        }
        let c = v[i];
        if c == '<' {
            inside = true;
        } else if c == '>' {
            inside = false;
        } else if !inside {
            proof {
                assert(out@ + (seq![rest[0]] + strip_tags_spec(rest.drop_first(), inside))
                    =~= out@.push(rest[0]) + strip_tags_spec(rest.drop_first(), inside));
            }
            out.push(c);
        }
        i = i + 1;
    }
    proof {
        assert(v@.subrange(n as int, n as int) =~= Seq::<char>::empty());
        assert(out@ + Seq::<char>::empty() =~= out@);
        entity_pattern_lengths();
    }
    let out = replace_all(&out, &chars_of("&lt;"), &chars_of("<"));
    let out = replace_all(&out, &chars_of("&gt;"), &chars_of(">"));
    let out = replace_all(&out, &chars_of("&amp;"), &chars_of("&"));
    let out = replace_all(&out, &chars_of("&quot;"), &chars_of("\""));
    let out = replace_all(&out, &chars_of("&nbsp;"), &chars_of(" "));
    string_of(&out)
}

/// What `sanitize_untrusted_html` returns: every tag stripped, and what
/// remains escaped.
pub open spec fn sanitize_untrusted_spec(s: Seq<char>) -> Seq<char> {
    escape_html_spec(strip_html_spec(s))
}

/// Conservative sanitizer for untrusted HTML: strips all tags, then
/// escapes the remaining text.
pub fn sanitize_untrusted_html(input: &str) -> (r: String)
    ensures
        r@ == sanitize_untrusted_spec(input@),
{
    let stripped = strip_html_tags(input);
    escape_html(stripped.as_str())
}

/// What `style_reply` returns.
pub open spec fn style_reply_spec(quoted: Seq<char>, reply: Seq<char>) -> Seq<char> {
    "<blockquote style=\"border-left: 3px solid #ccc; padding-left: 8px; margin-left: 5px; color: #666; font-size: 90%;\">"@
        + quoted + "</blockquote><br/>"@ + reply
}

/// Renders a reply: the quoted body in a bordered blockquote, the reply
/// body after it. Both bodies are taken as already-safe HTML.
pub fn style_reply(quoted_body: &str, reply_body: &str) -> (r: String)
    ensures
        r@ == style_reply_spec(quoted_body@, reply_body@),
{
    let mut v = chars_of(
        "<blockquote style=\"border-left: 3px solid #ccc; padding-left: 8px; margin-left: 5px; color: #666; font-size: 90%;\">",
    );
    push_all(&mut v, &chars_of(quoted_body));
    push_all(&mut v, &chars_of("</blockquote><br/>"));
    push_all(&mut v, &chars_of(reply_body));
    string_of(&v)
}

/// What `style_redaction` returns.
pub open spec fn style_redaction_spec(sender: Seq<char>) -> Seq<char> {
    "<span style=\"color: #999; font-style: italic;\">\u{1F6AB} [Redacted] "@
        + escape_html_spec(sender) + " removed a message.</span>"@
}

/// Renders a redaction notice naming the sender, whose name is escaped.
pub fn style_redaction(sender: &str) -> (r: String)
    ensures
        r@ == style_redaction_spec(sender@),
{
    let mut v = chars_of("<span style=\"color: #999; font-style: italic;\">\u{1F6AB} [Redacted] ");
    let esc = escape_html(sender);
    push_all(&mut v, &chars_of(esc.as_str()));
    push_all(&mut v, &chars_of(" removed a message.</span>"));
    string_of(&v)
}

/// What `style_edit` returns.
pub open spec fn style_edit_spec(body: Seq<char>) -> Seq<char> {
    body + " <span style=\"color: #888; font-size: 80%;\">(edited)</span>"@
}

/// Marks an edited message body with an "(edited)" suffix.
pub fn style_edit(body: &str) -> (r: String)
    ensures
        r@ == style_edit_spec(body@),
{
    let mut v = chars_of(body);
    push_all(&mut v, &chars_of(" <span style=\"color: #888; font-size: 80%;\">(edited)</span>"));
    string_of(&v)
}

/// What `style_thread_prefix` returns.
pub open spec fn style_thread_prefix_spec(body: Seq<char>) -> Seq<char> {
    "&nbsp;&nbsp;\u{1F9F5} "@ + body
}

/// Prefixes a threaded message body with an indent and a thread marker.
pub fn style_thread_prefix(body: &str) -> (r: String)
    ensures
        r@ == style_thread_prefix_spec(body@),
{
    let mut v = chars_of("&nbsp;&nbsp;\u{1F9F5} ");
    push_all(&mut v, &chars_of(body));
    string_of(&v)
}

/// What `style_mention` returns.
pub open spec fn style_mention_spec(name: Seq<char>) -> Seq<char> {
    "<b style=\"color: #2D3E50;\">@"@ + escape_html_spec(name) + "</b>"@
}

/// Renders a user mention as a bold pill, escaping the display name.
pub fn style_mention(display_name: &str) -> (r: String)
    ensures
        r@ == style_mention_spec(display_name@),
{
    let mut v = chars_of("<b style=\"color: #2D3E50;\">@");
    let esc = escape_html(display_name);
    push_all(&mut v, &chars_of(esc.as_str()));
    push_all(&mut v, &chars_of("</b>"));
    string_of(&v)
}

/// What `style_notice` returns.
pub open spec fn style_notice_spec(body: Seq<char>) -> Seq<char> {
    "<span style=\"color: #666;\">"@ + body + "</span>"@
}

/// Renders a notice body in a muted colour.
pub fn style_notice(body: &str) -> (r: String)
    ensures
        r@ == style_notice_spec(body@),
{
    let mut v = chars_of("<span style=\"color: #666;\">");
    push_all(&mut v, &chars_of(body));
    push_all(&mut v, &chars_of("</span>"));
    string_of(&v)
}

/// One numbered poll option line; options are numbered from one.
pub open spec fn poll_item_spec(opt: Seq<char>, num: int) -> Seq<char> {
    "<li><b>"@ + dec_spec(num) + ".</b> "@ + escape_html_spec(opt) + "</li>"@
}

/// The poll option lines for `opts[from..]`, numbered `from + 1` on.
pub open spec fn poll_items_spec(opts: Seq<Seq<char>>, from: int) -> Seq<char>
    decreases opts.len() - from,
{
    if from < 0 || from >= opts.len() {
        Seq::<char>::empty()
    } else {
        poll_item_spec(opts[from], from + 1) + poll_items_spec(opts, from + 1)
    }
}

/// What `style_poll` returns.
pub open spec fn style_poll_spec(question: Seq<char>, opts: Seq<Seq<char>>) -> Seq<char> {
    "<div style=\"background-color: #f0f0f0; padding: 10px; border: 1px solid #ccc; border-radius: 5px; margin-top: 5px; margin-bottom: 5px;\"><div style=\"font-size: 1.1em; font-weight: bold; margin-bottom: 8px;\">\u{1F4CA} "@
        + escape_html_spec(question)
        + "</div><ul style=\"list-style-type: none; padding-left: 10px; margin-top: 0; margin-bottom: 5px;\">"@
        + poll_items_spec(opts, 0)
        + "</ul><div style=\"font-size: smaller; color: #777; margin-top: 5px;\">(Use 'Active Polls' menu to vote)</div></div>"@
}

/// Renders a poll question with its numbered options as a styled block.
/// Question and options are escaped.
pub fn style_poll(question: &str, options: Vec<String>) -> (r: String)
    ensures
        r@ == style_poll_spec(question@, options.deep_view()),
{
    let mut items: Vec<char> = Vec::new();
    let n = options.len();
    let mut i: usize = 0;
    proof {
        assert(poll_items_spec(options.deep_view(), n as int) =~= Seq::<char>::empty());
        assert(Seq::<char>::empty() + poll_items_spec(options.deep_view(), 0)
            =~= poll_items_spec(options.deep_view(), 0));
    }
    while i < n
        invariant
            i <= n,
            n == options.deep_view().len(),
            options.deep_view().len() == options@.len(),
            forall|j: int| 0 <= j < n ==> options.deep_view()[j] == options@[j]@,
            poll_items_spec(options.deep_view(), 0) == items@ + poll_items_spec(
                options.deep_view(),
                i as int,
            ),
        decreases n - i,
    {
        let ghost items0 = items@;
        let ghost opts = options.deep_view();
        push_all(&mut items, &chars_of("<li><b>"));
        let num = dec_u64((i as u64) + 1);
        push_all(&mut items, &num);
        push_all(&mut items, &chars_of(".</b> "));
        let esc = escape_html(options[i].as_str());
        push_all(&mut items, &chars_of(esc.as_str()));
        push_all(&mut items, &chars_of("</li>"));
        proof {
            assert(num@ == dec_spec(i as int + 1));
            assert(esc@ == escape_html_spec(opts[i as int]));
            assert(items@ =~= items0 + poll_item_spec(opts[i as int], i as int + 1));
            assert(poll_items_spec(opts, i as int) == poll_item_spec(opts[i as int], i as int + 1)
                + poll_items_spec(opts, i as int + 1));
            assert(items0 + (poll_item_spec(opts[i as int], i as int + 1) + poll_items_spec(
                opts,
                i as int + 1,
            )) =~= items@ + poll_items_spec(opts, i as int + 1));
        }
        i = i + 1;
    }
    let mut v = chars_of(
        "<div style=\"background-color: #f0f0f0; padding: 10px; border: 1px solid #ccc; border-radius: 5px; margin-top: 5px; margin-bottom: 5px;\"><div style=\"font-size: 1.1em; font-weight: bold; margin-bottom: 8px;\">\u{1F4CA} ",
    );
    let esc_q = escape_html(question);
    push_all(&mut v, &chars_of(esc_q.as_str()));
    push_all(
        &mut v,
        &chars_of(
            "</div><ul style=\"list-style-type: none; padding-left: 10px; margin-top: 0; margin-bottom: 5px;\">",
        ),
    );
    push_all(&mut v, &items);
    push_all(
        &mut v,
        &chars_of(
            "</ul><div style=\"font-size: smaller; color: #777; margin-top: 5px;\">(Use 'Active Polls' menu to vote)</div></div>",
        ),
    );
    string_of(&v)
}

/// The whitespace class accepted between a tag name and its attributes.
pub open spec fn tag_space(c: char) -> bool {
    is_space_char(c) || c == '\u{000B}'
}

/// Case-insensitive comparison of one character against a lower-case
/// reference character.
pub open spec fn ci_eq(a: char, b: char) -> bool {
    a == b || ('a' <= b && b <= 'z' && 'A' <= a && a <= 'Z' && (a as u32) + 32 == (b as u32))
}

fn ci_eq_exec(a: char, b: char) -> (r: bool)
    ensures
        r == ci_eq(a, b),
{
    a == b || ('a' <= b && b <= 'z' && 'A' <= a && a <= 'Z' && (a as u32) + 32 == (b as u32))
}

/// The lower-case reference name matches the input at `j`, ignoring case.
pub open spec fn ci_match_at(s: Seq<char>, j: int, name: Seq<char>) -> bool {
    0 <= j && j + name.len() <= s.len() && forall|k: int|
        0 <= k < name.len() ==> ci_eq(s[j + k], name[k])
}

/// The position of the first `>` at or after `from`.
pub open spec fn first_gt(s: Seq<char>, from: int) -> Option<int>
    decreases s.len() - from,
{
    if from < 0 || from >= s.len() {
        None
    } else if s[from] == '>' {
        Some(from)
    } else {
        first_gt(s, from + 1)
    }
}

proof fn lemma_first_gt(s: Seq<char>, from: int)
    requires
        0 <= from,
    ensures
        match first_gt(s, from) {
            Some(l) => from <= l < s.len() && s[l] == '>' && forall|m: int|
                from <= m < l ==> s[m] != '>',
            None => forall|m: int| from <= m < s.len() ==> s[m] != '>',
        },
    decreases s.len() - from,
{
    if from < s.len() && s[from] != '>' {
        lemma_first_gt(s, from + 1);
    }
}

/// Where a tag's tail ends, if it is valid: either `>` directly after the
/// name, or whitespace, then anything but `>`, then `>`. The returned
/// position is the one after the `>`.
pub open spec fn tail_end(s: Seq<char>, k: int) -> Option<int> {
    if 0 <= k < s.len() && s[k] == '>' {
        Some(k + 1)
    } else if 0 <= k < s.len() && tag_space(s[k]) {
        match first_gt(s, k + 1) {
            Some(l) => Some(l + 1),
            None => None,
        }
    } else {
        None
    }
}

/// Where a tag whose name is `name` ends, when the name matches at `j`
/// and a valid tail follows.
pub open spec fn name_match_end(s: Seq<char>, j: int, name: Seq<char>) -> Option<int> {
    if ci_match_at(s, j, name) {
        tail_end(s, j + name.len())
    } else {
        None
    }
}

/// The allowed tag names, in the order they are tried.
pub open spec fn tag_names() -> Seq<Seq<char>> {
    seq![
        "b"@,
        "strong"@,
        "i"@,
        "em"@,
        "u"@,
        "s"@,
        "strike"@,
        "del"@,
        "blockquote"@,
        "p"@,
        "br"@,
        "span"@,
        "a"@,
    ]
}

/// The first allowed name, from `idx` on, that matches at `j` with a
/// valid tail, together with the tag's end.
pub open spec fn first_name_end(s: Seq<char>, j: int, idx: int) -> Option<(Seq<char>, int)>
    decreases tag_names().len() - idx,
{
    if idx < 0 || idx >= tag_names().len() {
        None
    } else {
        match name_match_end(s, j, tag_names()[idx]) {
            Some(end) => Some((tag_names()[idx], end)),
            None => first_name_end(s, j, idx + 1),
        }
    }
}

/// The allowed tag starting at `i`, if one does: the position after its
/// `>`, whether it is a closing tag, its lower-case name, and its
/// attribute text (with its leading whitespace).
pub open spec fn tag_try(s: Seq<char>, i: int) -> Option<(int, bool, Seq<char>, Seq<char>)> {
    if 0 <= i < s.len() && s[i] == '<' {
        let close = i + 1 < s.len() && s[i + 1] == '/';
        let j = if close {
            i + 2
        } else {
            i + 1
        };
        match first_name_end(s, j, 0) {
            Some((name, end)) => Some((end, close, name, s.subrange(j + name.len(), end - 1))),
            None => None,
        }
    } else {
        None
    }
}

proof fn lemma_tail_end_bounds(s: Seq<char>, k: int)
    ensures
        match tail_end(s, k) {
            Some(e) => k < e <= s.len(),
            None => true,
        },
{
    if 0 <= k < s.len() && s[k] != '>' && tag_space(s[k]) {
        if first_gt(s, k + 1) is Some {
            lemma_first_gt(s, k + 1);
        }
    }
}

proof fn lemma_first_name_end_bounds(s: Seq<char>, j: int, idx: int)
    requires
        0 <= j,
    ensures
        match first_name_end(s, j, idx) {
            Some((name, end)) => j + name.len() < end <= s.len(),
            None => true,
        },
    decreases tag_names().len() - idx,
{
    if 0 <= idx < tag_names().len() {
        lemma_tail_end_bounds(s, j + tag_names()[idx].len());
        lemma_first_name_end_bounds(s, j, idx + 1);
    }
}

/// A matched tag lies inside the input and ends after where it starts.
pub proof fn lemma_tag_try_bounds(s: Seq<char>, i: int)
    ensures
        match tag_try(s, i) {
            Some((end, close, name, attrs)) => i < end <= s.len(),
            None => true,
        },
{
    if 0 <= i < s.len() && s[i] == '<' {
        let close = i + 1 < s.len() && s[i + 1] == '/';
        let j = if close {
            i + 2
        } else {
            i + 1
        };
        lemma_first_name_end_bounds(s, j, 0);
    }
}

/// How one matched tag is rendered: an opening mention link gains the
/// pill style in front of its attributes; every other allowed tag is
/// kept as it stands.
pub open spec fn render_tag_spec(
    full: Seq<char>,
    close: bool,
    name: Seq<char>,
    attrs: Seq<char>,
) -> Seq<char> {
    if name == "a"@ && !close && has_sub(attrs, "matrix.to/#/@"@) {
        "<a style=\"font-weight: bold; background-color: #eee; color: #2D3E50;\""@ + attrs + ">"@
    } else {
        full
    }
}

/// The sanitizer's scan: text outside allowed tags gathers in `pending`
/// and is escaped at each flush; allowed tags are rendered in place.
pub open spec fn smh_scan(s: Seq<char>, i: int, pending: Seq<char>) -> Seq<char>
    decreases s.len() - i, s.len() - pending.len() + 1,
{
    if i < 0 || i >= s.len() {
        escape_html_spec(pending)
    } else {
        match tag_try(s, i) {
            Some((end, close, name, attrs)) => {
                if i < end <= s.len() {
                    escape_html_spec(pending) + render_tag_spec(
                        s.subrange(i, end),
                        close,
                        name,
                        attrs,
                    ) + smh_scan(s, end, Seq::<char>::empty())
                } else {
                    escape_html_spec(pending)
                }
            },
            None => smh_scan(s, i + 1, pending.push(s[i])),
        }
    }
}

/// What `sanitize_matrix_html` returns.
pub open spec fn sanitize_matrix_spec(s: Seq<char>) -> Seq<char> {
    smh_scan(s, 0, Seq::<char>::empty())
}

/// Whether the lower-case reference name matches the input at `j`,
/// ignoring case.
fn ci_match(v: &Vec<char>, j: usize, name: &Vec<char>) -> (r: bool)
    ensures
        r == ci_match_at(v@, j as int, name@),
{
    let n = v.len();
    if j > n || name.len() > n - j {
        return false;
    }
    let mut k: usize = 0;
    while k < name.len()
        invariant
            k <= name@.len(),
            j + name@.len() <= n,
            n == v@.len(),
            forall|m: int| 0 <= m < k ==> ci_eq(v@[j + m], name@[m]),
        decreases name@.len() - k,
    {
        if !ci_eq_exec(v[j + k], name[k]) {
            return false;
        }
        k = k + 1;
    }
    true
}

fn is_tag_space(c: char) -> (r: bool)
    ensures
        r == tag_space(c),
{
    c == ' ' || c == '\t' || c == '\n' || c == '\r' || c == '\u{000C}' || c == '\u{000B}'
}

/// Where the tag tail starting at `k` ends, if it is valid.
#[verifier::loop_isolation(false)]
fn tail_end_exec(v: &Vec<char>, k: usize) -> (r: Option<usize>)
    ensures
        match r {
            Some(e) => tail_end(v@, k as int) == Some(e as int),
            None => tail_end(v@, k as int) is None,
        },
{
    let n = v.len();
    if k >= n {
        return None;
    }
    if v[k] == '>' {
        return Some(k + 1);
    }
    if !is_tag_space(v[k]) {
        return None;
    }
    let mut l: usize = k + 1;
    proof {
        lemma_first_gt(v@, k + 1);
    }
    while l < n
        invariant
            k + 1 <= l <= n,
            n == v@.len(),
            forall|m: int| k + 1 <= m < l ==> v@[m] != '>',
        decreases n - l,
    {
        if v[l] == '>' {
            proof {
                lemma_first_gt(v@, k + 1);
                match first_gt(v@, k + 1) {
                    Some(g) => {
                        if g < l {
                            assert(v@[g] != '>');
                        }
                        if g > l {
                            assert(v@[l as int] != '>');
                        }
                    },
                    None => {
                        assert(v@[l as int] != '>');
                    },
                }
            }
            return Some(l + 1);
        }
        l = l + 1;
    }
    proof {
        lemma_first_gt(v@, k + 1);
    }
    None
}

fn name_match_end_exec(v: &Vec<char>, j: usize, name: &Vec<char>) -> (r: Option<usize>)
    ensures
        match r {
            Some(e) => name_match_end(v@, j as int, name@) == Some(e as int),
            None => name_match_end(v@, j as int, name@) is None,
        },
{
    if !ci_match(v, j, name) {
        return None;
    }
    let n = v.len();
    proof {
        assert(j + name@.len() <= n);
    }
    tail_end_exec(v, j + name.len())
}

/// An allowed tag matched at `i`: where it ends, whether it closes,
/// whether its name is `a`, and where its attribute text lies.
struct TagMatch {
    end: usize,
    close: bool,
    is_a: bool,
    attrs_start: usize,
}

fn try_tag(v: &Vec<char>, i: usize) -> (r: Option<TagMatch>)
    ensures
        match r {
            Some(tm) => tag_try(v@, i as int) matches Some((end, close, name, attrs)) && end
                == tm.end as int && close == tm.close && (tm.is_a <==> name == "a"@) && i < tm.end
                <= v@.len() && attrs == v@.subrange(tm.attrs_start as int, tm.end - 1) && tm.attrs_start
                <= tm.end - 1,
            None => tag_try(v@, i as int) is None,
        },
{
    let n = v.len();
    if i >= n || v[i] != '<' {
        return None;
    }
    let close = i + 1 < n && v[i + 1] == '/';
    let j = if close {
        i + 2
    } else {
        i + 1
    };
    proof {
        reveal_strlit("b");
        reveal_strlit("strong");
        reveal_strlit("i");
        reveal_strlit("em");
        reveal_strlit("u");
        reveal_strlit("s");
        reveal_strlit("strike");
        reveal_strlit("del");
        reveal_strlit("blockquote");
        reveal_strlit("p");
        reveal_strlit("br");
        reveal_strlit("span");
        reveal_strlit("a");
        reveal_with_fuel(first_name_end, 15);
        lemma_first_name_end_bounds(v@, j as int, 0);
        assert("b"@[0] == 'b' && "i"@[0] == 'i' && "u"@[0] == 'u' && "s"@[0] == 's' && "p"@[0]
            == 'p' && "a"@[0] == 'a');
        assert("b"@ != "a"@ && "i"@ != "a"@ && "u"@ != "a"@ && "s"@ != "a"@ && "p"@ != "a"@);
    }
    let mut found: Option<(usize, bool)> = None;
    let mut name_len: usize = 0;
    if let Some(e) = name_match_end_exec(v, j, &chars_of("b")) {
        found = Some((e, false));
        name_len = 1;
        proof {
            assert(first_name_end(v@, j as int, 0) == Some(("b"@, e as int)));
        }
    } else if let Some(e) = name_match_end_exec(v, j, &chars_of("strong")) {
        found = Some((e, false));
        name_len = 6;
        proof {
            assert(first_name_end(v@, j as int, 0) == Some(("strong"@, e as int)));
        }
    } else if let Some(e) = name_match_end_exec(v, j, &chars_of("i")) {
        found = Some((e, false));
        name_len = 1;
        proof {
            assert(first_name_end(v@, j as int, 0) == Some(("i"@, e as int)));
        }
    } else if let Some(e) = name_match_end_exec(v, j, &chars_of("em")) {
        found = Some((e, false));
        name_len = 2;
        proof {
            assert(first_name_end(v@, j as int, 0) == Some(("em"@, e as int)));
        }
    } else if let Some(e) = name_match_end_exec(v, j, &chars_of("u")) {
        found = Some((e, false));
        name_len = 1;
        proof {
            assert(first_name_end(v@, j as int, 0) == Some(("u"@, e as int)));
        }
    } else if let Some(e) = name_match_end_exec(v, j, &chars_of("s")) {
        found = Some((e, false));
        name_len = 1;
        proof {
            assert(first_name_end(v@, j as int, 0) == Some(("s"@, e as int)));
        }
    } else if let Some(e) = name_match_end_exec(v, j, &chars_of("strike")) {
        found = Some((e, false));
        name_len = 6;
        proof {
            assert(first_name_end(v@, j as int, 0) == Some(("strike"@, e as int)));
        }
    } else if let Some(e) = name_match_end_exec(v, j, &chars_of("del")) {
        found = Some((e, false));
        name_len = 3;
        proof {
            assert(first_name_end(v@, j as int, 0) == Some(("del"@, e as int)));
        }
    } else if let Some(e) = name_match_end_exec(v, j, &chars_of("blockquote")) {
        found = Some((e, false));
        name_len = 10;
        proof {
            assert(first_name_end(v@, j as int, 0) == Some(("blockquote"@, e as int)));
        }
    } else if let Some(e) = name_match_end_exec(v, j, &chars_of("p")) {
        found = Some((e, false));
        name_len = 1;
        proof {
            assert(first_name_end(v@, j as int, 0) == Some(("p"@, e as int)));
        }
    } else if let Some(e) = name_match_end_exec(v, j, &chars_of("br")) {
        found = Some((e, false));
        name_len = 2;
        proof {
            assert(first_name_end(v@, j as int, 0) == Some(("br"@, e as int)));
        }
    } else if let Some(e) = name_match_end_exec(v, j, &chars_of("span")) {
        found = Some((e, false));
        name_len = 4;
        proof {
            assert(first_name_end(v@, j as int, 0) == Some(("span"@, e as int)));
        }
    } else if let Some(e) = name_match_end_exec(v, j, &chars_of("a")) {
        found = Some((e, true));
        name_len = 1;
        proof {
            assert(first_name_end(v@, j as int, 0) == Some(("a"@, e as int)));
        }
    } else {
        proof {
            assert(first_name_end(v@, j as int, 0) is None);
        }
        return None;
    }
    match found {
        Some((end, is_a)) => Some(TagMatch { end, close, is_a, attrs_start: j + name_len }),
        None => None,
    }
}

/// Sanitizes untrusted Matrix HTML while keeping basic formatting: the
/// allowed tags (`b`, `strong`, `i`, `em`, `u`, `s`, `strike`, `del`,
/// `blockquote`, `p`, `br`, `span`, `a`) pass through, Matrix user links
/// are styled as mention pills, and everything else is escaped.
pub fn sanitize_matrix_html(input: &str) -> (r: String)
    ensures
        r@ == sanitize_matrix_spec(input@),
{
    let v = chars_of(input);
    let n = v.len();
    let mut out: Vec<char> = Vec::new();
    let mut pending: Vec<char> = Vec::new();
    let mut i: usize = 0;
    proof {
        assert(Seq::<char>::empty() + smh_scan(v@, 0, Seq::<char>::empty()) =~= smh_scan(
            v@,
            0,
            Seq::<char>::empty(),
        ));
        assert(pending@ =~= Seq::<char>::empty());
    }
    while i < n
        invariant
            i <= n,
            n == v@.len(),
            sanitize_matrix_spec(v@) == out@ + smh_scan(v@, i as int, pending@),
        decreases n - i,
    {
        match try_tag(&v, i) {
            Some(tm) => {
                let ghost pend0 = pending@;
                let ghost out0 = out@;
                let esc = escape_chars(&pending);
                push_all(&mut out, &esc);
                pending = Vec::new();
                let ghost rendered_spec = (match tag_try(v@, i as int) {
                    Some((end, close, name, attrs)) => render_tag_spec(
                        v@.subrange(i as int, end),
                        close,
                        name,
                        attrs,
                    ),
                    None => Seq::<char>::empty(),
                });
                let mention = if tm.is_a && !tm.close {
                    let attrs = subvec(&v, tm.attrs_start, tm.end - 1);
                    contains_sub(&attrs, &chars_of("matrix.to/#/@"))
                } else {
                    false
                };
                let ghost out1 = out@;
                if tm.is_a && !tm.close && mention {
                    push_all(
                        &mut out,
                        &chars_of(
                            "<a style=\"font-weight: bold; background-color: #eee; color: #2D3E50;\"",
                        ),
                    );
                    let attrs = subvec(&v, tm.attrs_start, tm.end - 1);
                    push_all(&mut out, &attrs);
                    push_all(&mut out, &chars_of(">"));
                    proof {
                        assert(out@ =~= out1 + rendered_spec);
                    }
                } else {
                    let full = subvec(&v, i, tm.end);
                    push_all(&mut out, &full);
                    proof {
                        assert(out@ =~= out1 + rendered_spec);
                    }
                }
                proof {
                    assert(out0 + (escape_html_spec(pend0) + rendered_spec + smh_scan(
                        v@,
                        tm.end as int,
                        Seq::<char>::empty(),
                    )) =~= out@ + smh_scan(v@, tm.end as int, Seq::<char>::empty()));
                    assert(pending@ =~= Seq::<char>::empty());
                }
                i = tm.end;
            },
            None => {
                pending.push(v[i]);
                i = i + 1;
            },
        }
    }
    let esc = escape_chars(&pending);
    push_all(&mut out, &esc);
    string_of(&out)
}

} // verus!
