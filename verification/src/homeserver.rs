//! How the homeserver argument is turned into a connection plan: a bare
//! server name is tried as such, and a full URL is inspected — a plain
//! root URL without a port is reduced to its host so the engine can run
//! discovery on it, anything else is used as the URL it is. The insecure
//! TLS override is an explicit opt-in.

use vstd::prelude::*;
use crate::text::{chars_of, string_of, starts_with, seq_starts_with, chars_eq};

verus! {

/// How the engine client should be pointed at the homeserver.
pub enum ConnectPlan {
    /// Try the text as a server name first; fall back to using the
    /// original argument as a URL if the engine rejects the name.
    TryServerName(String),
    /// Use the argument as the homeserver URL directly.
    DirectUrl,
}

/// What the `url` crate reads out of a text: `None` where `Url::parse`
/// rejects it, otherwise the parsed URL's host (when it has one), its
/// explicitly written port, and its path. The result depends on the text
/// alone.
pub uninterp spec fn url_parts_of(s: Seq<char>) -> Option<
    (Option<Seq<char>>, Option<u16>, Seq<char>),
>;

/// Relies on `url::Url::parse` and the parsed value's `host_str`, `port`
/// and `path` accessors: parsing succeeds exactly on the texts the crate
/// accepts as absolute URLs, and the three parts are functions of the
/// text alone.
#[verifier::external_body]
fn parse_url_parts(s: &str) -> (r: Option<(Option<String>, Option<u16>, String)>)
    ensures
        match r {
            Some(p) => url_parts_of(s@) == Some(
                (
                    (match p.0 {
                        Some(h) => Some(h@),
                        None => None,
                    }),
                    p.1,
                    p.2@,
                ),
            ),
            None => url_parts_of(s@) is None,
        },
{
    match url::Url::parse(s) {
        Ok(u) => Some((u.host_str().map(|h| h.to_owned()), u.port(), u.path().to_owned())),
        Err(_) => None,
    }
}

/// The decision on a parsed URL's parts: a host with no explicit port
/// and a root or empty path is reduced to the server name; everything
/// else keeps the URL.
pub fn plan_from_url_parts(host: Option<String>, port: Option<u16>, path: &str) -> (r: ConnectPlan)
    ensures
        match host {
            Some(h) => if port is None && (path@ == "/"@ || path@.len() == 0) {
                r matches ConnectPlan::TryServerName(x) && x@ == h@
            } else {
                r matches ConnectPlan::DirectUrl
            },
            None => r matches ConnectPlan::DirectUrl,
        },
{
    match host {
        Some(h) => {
            let pathv = chars_of(path);
            let root = chars_of("/");
            let port_is_none = match port {
                Some(_) => false,
                None => true,
            };
            if port_is_none && (chars_eq(&pathv, &root) || pathv.len() == 0) {
                ConnectPlan::TryServerName(h)
            } else {
                ConnectPlan::DirectUrl
            }
        },
        None => ConnectPlan::DirectUrl,
    }
}

/// Decides how to connect for a homeserver argument. Text that does not
/// start with `http` is taken as a server name. URL-shaped text follows
/// the parsed parts: a host with no written port and a root or empty
/// path is reduced to that host, anything else — including text the URL
/// parser rejects, which is left to the engine to refuse — is used as
/// the URL it is.
pub fn homeserver_connect_plan(homeserver: &str) -> (r: ConnectPlan)
    ensures
        !seq_starts_with(homeserver@, "http"@) ==> (r matches ConnectPlan::TryServerName(h) && h@
            == homeserver@),
        seq_starts_with(homeserver@, "http"@) ==> match url_parts_of(homeserver@) {
            Some(parts) => match parts.0 {
                Some(h) => if parts.1 is None && (parts.2 == "/"@ || parts.2.len() == 0) {
                    r matches ConnectPlan::TryServerName(x) && x@ == h
                } else {
                    r matches ConnectPlan::DirectUrl
                },
                None => r matches ConnectPlan::DirectUrl,
            },
            None => r matches ConnectPlan::DirectUrl,
        },
{
    let v = chars_of(homeserver);
    if !starts_with(&v, &chars_of("http")) {
        return ConnectPlan::TryServerName(string_of(&v));
    }
    match parse_url_parts(homeserver) {
        Some((host, port, path)) => plan_from_url_parts(host, port, path.as_str()),
        None => ConnectPlan::DirectUrl,
    }
}

/// The values that switch certificate verification off; anything else,
/// or an absent variable, leaves it on.
pub open spec fn insecure_ssl_opt_in_spec(value: Option<Seq<char>>) -> bool {
    match value {
        Some(s) => s == "1"@ || s == "true"@ || s == "TRUE"@ || s == "yes"@ || s == "YES"@,
        None => false,
    }
}

/// Decides the insecure-TLS override from the environment variable's
/// value: only the explicit opt-in values disable verification.
pub fn insecure_ssl_opt_in(value: Option<&str>) -> (r: bool)
    ensures
        r == insecure_ssl_opt_in_spec(match value {
            Some(s) => Some(s@),
            None => None::<Seq<char>>,
        }),
{
    match value {
        Some(s) => {
            let v = chars_of(s);
            chars_eq(&v, &chars_of("1")) || chars_eq(&v, &chars_of("true")) || chars_eq(
                &v,
                &chars_of("TRUE"),
            ) || chars_eq(&v, &chars_of("yes")) || chars_eq(&v, &chars_of("YES"))
        },
        None => false,
    }
}

} // verus!
