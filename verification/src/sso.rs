//! The single-sign-on callback flow: the one-per-process guard, the
//! anti-forgery state token, extraction of the login token from a redirect
//! (a full URL or a bare pasted token), and the per-request decisions of
//! the local callback listener.

use vstd::prelude::*;
use crate::text::{
    chars_of, string_of, push_all, subvec, trim_chars, trim_spec, chars_eq, starts_with,
    seq_starts_with, contains_sub, has_sub, find_char, find_char_spec, lemma_find_char_spec,
    is_space, is_space_char, hex_u64, hex_spec, dec_u64, dec_spec,
};

verus! {

/// How long the callback listener waits for a redirect, in seconds.
pub const SSO_CALLBACK_TIMEOUT_SECS: u64 = 180;

/// What `url::form_urlencoded::parse` yields on a query text: its pairs in
/// order, names and values decoded. The result depends on the text alone.
pub uninterp spec fn query_pairs_of(q: Seq<char>) -> Seq<(Seq<char>, Seq<char>)>;

/// Relies on `url::form_urlencoded::parse`: splits the text on `&` and the
/// pieces on the first `=`, skips empty pieces, and percent-decodes names
/// and values with `+` read as space. An empty text yields no pairs.
#[verifier::external_body]
fn parse_query_pairs(q: &str) -> (r: Vec<(String, String)>)
    ensures
        r@.len() == query_pairs_of(q@).len(),
        forall|i: int|
            0 <= i < r@.len() ==> r@[i].0@ == query_pairs_of(q@)[i].0 && r@[i].1@
                == query_pairs_of(q@)[i].1,
        q@.len() == 0 ==> r@.len() == 0,
{
    url::form_urlencoded::parse(q.as_bytes()).into_owned().collect()
}

/// The query part of a redirect input: the text between the first `?` and
/// the next `?` or the end; the whole input when it has no `?`.
pub open spec fn query_of(s: Seq<char>) -> Seq<char> {
    match find_char_spec(s, '?') {
        None => s,
        Some(i) => {
            let rest = s.subrange(i + 1, s.len() as int);
            match find_char_spec(rest, '?') {
                None => rest,
                Some(j) => rest.subrange(0, j),
            }
        },
    }
}

/// The value of the first pair with the given name and a non-empty value.
pub open spec fn first_pair_match(pairs: Seq<(Seq<char>, Seq<char>)>, key: Seq<char>) -> Option<
    Seq<char>,
>
    decreases pairs.len(),
{
    if pairs.len() == 0 {
        None
    } else if pairs[0].0 == key && pairs[0].1.len() > 0 {
        Some(pairs[0].1)
    } else {
        first_pair_match(pairs.drop_first(), key)
    }
}

/// What `extract_query_param` returns: the first non-empty value under the
/// key among the decoded pairs of the input's query part.
pub open spec fn query_param_spec(input: Seq<char>, key: Seq<char>) -> Option<Seq<char>> {
    first_pair_match(query_pairs_of(query_of(input)), key)
}

/// Extracts the first non-empty value of the named query parameter from a
/// redirect input.
#[verifier::loop_isolation(false)]
pub fn extract_query_param(input: &str, key: &str) -> (r: Option<String>)
    ensures
        match r {
            Some(v) => query_param_spec(input@, key@) == Some(v@),
            None => query_param_spec(input@, key@) is None,
        },
{
    let v = chars_of(input);
    let q: Vec<char>;
    match find_char(&v, '?') {
        None => {
            q = v;
        },
        Some(i) => {
            let n = v.len();
            proof {
                lemma_find_char_spec(v@, '?');
            }
            let rest = subvec(&v, i + 1, n);
            match find_char(&rest, '?') {
                None => {
                    q = rest;
                },
                Some(j) => {
                    proof {
                        lemma_find_char_spec(rest@, '?');
                    }
                    q = subvec(&rest, 0, j);
                },
            }
        },
    }
    let qs = string_of(&q);
    let pairs = parse_query_pairs(qs.as_str());
    let keyv = chars_of(key);
    let n = pairs.len();
    let ghost all = query_pairs_of(query_of(input@));
    let mut i: usize = 0;
    proof {
        assert(all.skip(0) =~= all);
    }
    while i < n
        invariant
            i <= n,
            n == pairs@.len(),
            n == all.len(),
            keyv@ == key@,
            forall|k: int| 0 <= k < n ==> pairs@[k].0@ == all[k].0 && pairs@[k].1@ == all[k].1,
            first_pair_match(all, key@) == first_pair_match(all.skip(i as int), key@),
        decreases n - i,
    {
        proof {
            assert(all.skip(i as int).drop_first() =~= all.skip(i + 1));
            assert(all.skip(i as int)[0] == all[i as int]);
        }
        let name = chars_of(pairs[i].0.as_str());
        if chars_eq(&name, &keyv) && !pairs[i].1.as_str().is_empty() {
            proof {
                assert(all.skip(i as int).len() > 0);
                assert(first_pair_match(all.skip(i as int), key@) == Some(all[i as int].1));
            }
            return Some(pairs[i].1.clone());
        }
        i = i + 1;
    }
    proof {
        assert(all.skip(n as int) =~= Seq::<(Seq<char>, Seq<char>)>::empty());
    }
    None
}

/// What `extract_login_token` returns: the trimmed input's `loginToken`
/// query parameter when the input looks like a URL or carries a query,
/// the bare trimmed input when it is a single whitespace-free word, and
/// nothing otherwise.
pub open spec fn login_token_spec(input: Seq<char>) -> Option<Seq<char>> {
    let t = trim_spec(input);
    if t.len() == 0 {
        None
    } else if seq_starts_with(t, "http://"@) || seq_starts_with(t, "https://"@) || find_char_spec(
        t,
        '?',
    ) is Some || has_sub(t, "loginToken="@) {
        query_param_spec(t, "loginToken"@)
    } else if exists|i: int| 0 <= i < t.len() && is_space_char(t[i]) {
        None
    } else {
        Some(t)
    }
}

/// Extracts a login token from a redirect: either a full redirect URL
/// carrying `loginToken`, or, for backward compatibility, a raw token
/// pasted directly, which must be free of whitespace.
#[verifier::loop_isolation(false)]
pub fn extract_login_token(input: &str) -> (r: Option<String>)
    ensures
        match r {
            Some(t) => login_token_spec(input@) == Some(t@),
            None => login_token_spec(input@) is None,
        },
{
    let v = chars_of(input);
    let t = trim_chars(&v);
    if t.len() == 0 {
        return None;
    }
    let has_q = match find_char(&t, '?') {
        Some(_) => true,
        None => false,
    };
    let looks_like_url = starts_with(&t, &chars_of("http://")) || starts_with(
        &t,
        &chars_of("https://"),
    ) || has_q || contains_sub(&t, &chars_of("loginToken="));
    if looks_like_url {
        let ts = string_of(&t);
        extract_query_param(ts.as_str(), "loginToken")
    } else {
        let n = t.len();
        let mut i: usize = 0;
        while i < n
            invariant
                i <= n,
                n == t@.len(),
                forall|j: int| 0 <= j < i ==> !is_space_char(t@[j]),
            decreases n - i,
        {
            if is_space(t[i]) {
                proof {
                    assert(exists|j: int| 0 <= j < t@.len() && is_space_char(t@[j])) by {
                        assert(0 <= i < t@.len() && is_space_char(t@[i as int]));
                    }
                }
                return None;
            }
            i = i + 1;
        }
        Some(string_of(&t))
    }
}

/// The state token embedded in the SSO redirect: the nanosecond timestamp
/// and the process id, both in hexadecimal.
pub open spec fn sso_state_spec(nanos: u64, pid: u64) -> Seq<char> {
    hex_spec(nanos as int) + hex_spec(pid as int)
}

/// Formats the anti-forgery state token from the entropy the caller read:
/// a timestamp in nanoseconds and the process id.
pub fn sso_state_string(nanos: u64, pid: u64) -> (r: String)
    ensures
        r@ == sso_state_spec(nanos, pid),
{
    let mut v = hex_u64(nanos);
    let p = hex_u64(pid);
    push_all(&mut v, &p);
    string_of(&v)
}

/// The redirect URL the provider sends the browser back to: the local
/// listener's port and the state token.
pub open spec fn redirect_url_spec(port: u16, state: Seq<char>) -> Seq<char> {
    "http://localhost:"@ + dec_spec(port as int) + "/login?state="@ + state
}

/// Builds the local redirect URL for the given listener port and state
/// token.
pub fn sso_redirect_url(port: u16, state: &str) -> (r: String)
    ensures
        r@ == redirect_url_spec(port, state@),
{
    let mut v = chars_of("http://localhost:");
    let d = dec_u64(port as u64);
    push_all(&mut v, &d);
    push_all(&mut v, &chars_of("/login?state="));
    push_all(&mut v, &chars_of(state));
    string_of(&v)
}

/// The one SSO flow the process may have in flight: the guard flag, the
/// issued state token, and the deadline for the callback.
pub struct SsoFlow {
    pub in_progress: bool,
    pub state_token: String,
    pub deadline: u64,
}

/// What a redirect request completes: the token it carries, but only when
/// its state parameter equals the issued state token.
pub open spec fn sso_captures(state_token: Seq<char>, url: Seq<char>) -> Option<Seq<char>> {
    match login_token_spec(url) {
        Some(t) => if query_param_spec(url, "state"@) == Some(state_token) {
            Some(t)
        } else {
            None
        },
        None => None,
    }
}

/// What the listener answers one redirect request with.
pub enum SsoRequestOutcome {
    /// The request carried the token and the right state: answer the
    /// success page, stop listening, and exchange the token.
    TokenCaptured(String),
    /// A token with the wrong state: answer the verification-failed page
    /// and keep waiting.
    StateMismatch,
    /// No token yet: answer the waiting page and keep waiting.
    NoToken,
}

impl SsoFlow {
    /// A flow with nothing in flight.
    pub fn new() -> (r: SsoFlow)
        ensures
            !r.in_progress,
    {
        SsoFlow { in_progress: false, state_token: String::new(), deadline: 0 }
    }

    /// Starts a flow unless one is already in flight: a second start is a
    /// no-op that leaves the first flow's state token and deadline alone.
    /// The machine-limit premise is needed only where a deadline is
    /// actually computed, so the no-op case holds unconditionally.
    pub fn try_begin(&mut self, now: u64, state_token: String) -> (r: bool)
        requires
            old(self).in_progress || now + SSO_CALLBACK_TIMEOUT_SECS <= u64::MAX,
        ensures
            old(self).in_progress ==> !r && *final(self) == *old(self),
            !old(self).in_progress ==> r && final(self).in_progress && final(self).state_token@
                == state_token@ && final(self).deadline == now + SSO_CALLBACK_TIMEOUT_SECS,
    {
        if self.in_progress {
            false
        } else {
            self.in_progress = true;
            self.state_token = state_token;
            self.deadline = now + SSO_CALLBACK_TIMEOUT_SECS;
            true
        }
    }

    /// Releases the guard; token and deadline keep their last values.
    pub fn release(&mut self)
        ensures
            !final(self).in_progress,
            final(self).state_token == old(self).state_token,
            final(self).deadline == old(self).deadline,
    {
        self.in_progress = false;
    }

    /// Checks the deadline: at or past it the guard is released and the
    /// caller reports the timeout; before it nothing changes.
    pub fn check_timeout(&mut self, now: u64) -> (r: bool)
        ensures
            r == (now >= old(self).deadline),
            final(self).state_token == old(self).state_token,
            final(self).deadline == old(self).deadline,
            final(self).in_progress == (old(self).in_progress && !r),
    {
        if now >= self.deadline {
            self.in_progress = false;
            true
        } else {
            false
        }
    }

    /// Decides the answer to one redirect request. The flow itself is not
    /// touched: a wrong or missing token never consumes the waiting loop,
    /// so a later valid redirect still succeeds.
    pub fn handle_request(&self, request_url: &str) -> (r: SsoRequestOutcome)
        ensures
            (r matches SsoRequestOutcome::TokenCaptured(u) && sso_captures(
                self.state_token@,
                request_url@,
            ) == Some(u@)) || (r matches SsoRequestOutcome::StateMismatch && login_token_spec(
                request_url@,
            ) is Some && sso_captures(self.state_token@, request_url@) is None) || (r
                matches SsoRequestOutcome::NoToken && login_token_spec(request_url@) is None),
    {
        match extract_login_token(request_url) {
            None => SsoRequestOutcome::NoToken,
            Some(token) => {
                let returned_state = extract_query_param(request_url, "state");
                let issued = chars_of(self.state_token.as_str());
                match returned_state {
                    Some(st) => {
                        let stv = chars_of(st.as_str());
                        if chars_eq(&stv, &issued) {
                            SsoRequestOutcome::TokenCaptured(token)
                        } else {
                            SsoRequestOutcome::StateMismatch
                        }
                    },
                    None => SsoRequestOutcome::StateMismatch,
                }
            },
        }
    }
}

/// A redirect whose state parameter does not equal the issued token never
/// completes the flow; one that carries the token under the issued state
/// always does. Together: mismatched redirects are invisible, and a valid
/// redirect after any number of them still succeeds.
pub proof fn lemma_state_mismatch_never_completes(
    state_token: Seq<char>,
    bad: Seq<char>,
    good: Seq<char>,
)
    requires
        query_param_spec(bad, "state"@) != Some(state_token),
        login_token_spec(good) is Some,
        query_param_spec(good, "state"@) == Some(state_token),
    ensures
        sso_captures(state_token, bad) is None,
        sso_captures(state_token, good) == login_token_spec(good),
{
}

} // verus!
