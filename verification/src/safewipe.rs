//! The guard in front of the destructive data-directory wipe: a path may
//! only be removed when it plainly belongs to this plugin (it contains the
//! sentinel directory name) and is deep enough not to be a system path.

use vstd::prelude::*;
use crate::text::{chars_of, contains_sub, has_sub};

verus! {

/// Number of starts of non-empty path segments in `s` from position `i` on:
/// positions holding a non-slash character that follow a slash or open the
/// string.
pub open spec fn seg_starts_from(s: Seq<char>, i: int) -> int
    decreases s.len() - i,
{
    if i < 0 || i >= s.len() {
        0
    } else {
        (if s[i] != '/' && (i == 0 || s[i - 1] == '/') {
            1int
        } else {
            0int
        }) + seg_starts_from(s, i + 1)
    }
}

/// The depth of a path string: one for a leading root slash, plus one for
/// each non-empty segment.
pub open spec fn path_depth_spec(s: Seq<char>) -> int {
    (if s.len() > 0 && s[0] == '/' {
        1int
    } else {
        0int
    }) + seg_starts_from(s, 0)
}

/// From any position, the segment-start count is non-negative and at most
/// the number of characters that remain.
proof fn lemma_seg_bounds(s: Seq<char>, i: int)
    requires
        0 <= i <= s.len(),
    ensures
        0 <= seg_starts_from(s, i) <= s.len() - i,
    decreases s.len() - i,
{
    if i < s.len() {
        lemma_seg_bounds(s, i + 1);
    }
}

/// Counts the root and the non-empty segments of a path string.
pub fn path_depth(path: &Vec<char>) -> (r: usize)
    ensures
        r == path_depth_spec(path@),
{
    let n = path.len();
    let mut count: usize = 0;
    if n > 0 && path[0] == '/' {
        count = 1;
    }
    let mut i: usize = 0;
    let ghost base = count as int;
    proof {
        lemma_seg_bounds(path@, 0);
        if n > 0 && path@[0] == '/' {
            assert(seg_starts_from(path@, 0) == seg_starts_from(path@, 1));
            lemma_seg_bounds(path@, 1);
        }
    }
    while i < n
        invariant
            i <= n,
            n == path@.len(),
            base == (if path@.len() > 0 && path@[0] == '/' {
                1int
            } else {
                0int
            }),
            base + seg_starts_from(path@, 0) <= n,
            count + seg_starts_from(path@, i as int) == base + seg_starts_from(path@, 0),
        decreases n - i,
    {
        proof {
            lemma_seg_bounds(path@, i as int);
            lemma_seg_bounds(path@, i + 1);
        }
        if path[i] != '/' && (i == 0 || path[i - 1] == '/') {
            count = count + 1;
        }
        i = i + 1;
    }
    count
}

/// A wipe is permitted only for a path that contains the plugin's data
/// directory sentinel and has more than three segments counting the root.
pub open spec fn wipe_allowed_spec(path: Seq<char>) -> bool {
    has_sub(path, "matrix_rust_data"@) && path_depth_spec(path) > 3
}

/// Decides whether the data-directory wipe may touch `path`. Callers must
/// treat `false` as a refusal and leave the file system alone.
pub fn wipe_allowed(path: &str) -> (r: bool)
    ensures
        r == wipe_allowed_spec(path@),
{
    let v = chars_of(path);
    let sentinel = chars_of("matrix_rust_data");
    if !contains_sub(&v, &sentinel) {
        return false;
    }
    path_depth(&v) > 3
}

} // verus!
