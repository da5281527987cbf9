//! Classification of errors surfaced by the background synchronization
//! stream and by the engine's untyped login errors. The string matching
//! is a compatibility shim over the engine's error text; the rest of the
//! crate works with the classified kind.

use vstd::prelude::*;
use crate::text::{chars_of, contains_sub, has_sub};

verus! {

/// The error texts that mean the session's authentication is gone for
/// good: unknown or inactive token, invalid token, or a 401 status.
pub open spec fn auth_failure_spec(s: Seq<char>) -> bool {
    has_sub(s, "M_UNKNOWN_TOKEN"@) || has_sub(s, "Token is not active"@) || has_sub(
        s,
        "Invalid access token"@,
    ) || has_sub(s, "401"@)
}

/// Recognises a sync-stream error as an authentication failure, which
/// triggers the destructive recovery (registry and stored session are
/// purged and the user is told to re-login). Anything else is surfaced
/// for logging only.
pub fn is_auth_failure(error_str: &str) -> (r: bool)
    ensures
        r == auth_failure_spec(error_str@),
{
    let v = chars_of(error_str);
    contains_sub(&v, &chars_of("M_UNKNOWN_TOKEN")) || contains_sub(
        &v,
        &chars_of("Token is not active"),
    ) || contains_sub(&v, &chars_of("Invalid access token")) || contains_sub(&v, &chars_of("401"))
}

/// The error texts the engine uses for an account mismatch between the
/// local store and the account being authenticated.
pub open spec fn mismatch_error_spec(s: Seq<char>) -> bool {
    has_sub(s, "Mismatched"@) || has_sub(s, "Session"@)
}

/// Recognises an engine error text as an account mismatch; the host maps
/// texts to the typed error kind with this before feeding results back.
pub fn is_mismatch_error(error_str: &str) -> (r: bool)
    ensures
        r == mismatch_error_spec(error_str@),
{
    let v = chars_of(error_str);
    contains_sub(&v, &chars_of("Mismatched")) || contains_sub(&v, &chars_of("Session"))
}

} // verus!
