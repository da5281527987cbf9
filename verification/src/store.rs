//! The session store's decisions: what is written where when a session is
//! saved, and which source wins when one is loaded. Secrets go to the
//! OS credential store; the file beside the engine database is only a
//! sentinel marker, except for legacy plaintext records kept by older
//! versions, which are still read and are migrated on the next save.

use vstd::prelude::*;
use crate::record::{
    SessionRecord, SessionRecordView, encode_spec, encode_session_record, parse_spec,
    parse_session_record, lemma_parse_encode,
};
use crate::text::{chars_of, string_of, contains_sub, has_sub};

verus! {

/// The substring whose presence marks a session file as a sentinel rather
/// than a legacy plaintext record.
pub open spec fn sentinel_marker() -> Seq<char> {
    "\"keyring\": true"@
}

/// The full content written to the sentinel file; it holds no secret.
pub open spec fn sentinel_content_spec() -> Seq<char> {
    "{\"keyring\": true}"@
}

/// The service name the per-account credential entries are keyed under.
pub fn keyring_service() -> (r: String)
    ensures
        r@ == "purple-matrix-rust"@,
{
    let v = chars_of("purple-matrix-rust");
    string_of(&v)
}

/// The sentinel file content, signalling that the real record lives in the
/// credential store.
pub fn sentinel_content() -> (r: String)
    ensures
        r@ == sentinel_content_spec(),
{
    let v = chars_of("{\"keyring\": true}");
    string_of(&v)
}

proof fn lemma_sentinel_contains_marker()
    ensures
        has_sub(sentinel_content_spec(), sentinel_marker()),
{
    reveal_strlit("\"keyring\": true");
    reveal_strlit("{\"keyring\": true}");
    assert(sentinel_content_spec().subrange(1, 16) =~= sentinel_marker());
    assert(crate::text::sub_at(sentinel_content_spec(), sentinel_marker(), 1));
}

/// What a save writes: the serialized record for the credential store and
/// the sentinel content for the marker file.
pub fn save_session_outputs(r: &SessionRecord) -> (out: (String, String))
    ensures
        out.0@ == encode_spec(r@),
        out.1@ == sentinel_content_spec(),
{
    (encode_session_record(r), sentinel_content())
}

/// Which source a load believes: the credential store always wins; the
/// file counts only when the store has nothing, and only when it is not a
/// sentinel, in which case it is a legacy plaintext record.
pub open spec fn load_decision_spec(
    secure: Option<Seq<char>>,
    file: Option<Seq<char>>,
) -> Option<SessionRecordView> {
    match secure {
        Some(j) => parse_spec(j),
        None => match file {
            Some(f) => if has_sub(f, sentinel_marker()) {
                None
            } else {
                parse_spec(f)
            },
            None => None,
        },
    }
}

/// The view of an optional borrowed string.
pub open spec fn opt_str_view(s: Option<&str>) -> Option<Seq<char>> {
    match s {
        Some(x) => Some(x@),
        None => None,
    }
}

/// Decides what session, if any, the two storage sources hold: the
/// credential store entry is preferred; a marker-free file is read as a
/// legacy record.
pub fn load_session_from_sources(secure: Option<&str>, file: Option<&str>) -> (r: Option<
    SessionRecord,
>)
    ensures
        match r {
            Some(rec) => load_decision_spec(opt_str_view(secure), opt_str_view(file)) == Some(
                rec@,
            ),
            None => load_decision_spec(opt_str_view(secure), opt_str_view(file)) is None,
        },
{
    match secure {
        Some(j) => parse_session_record(j),
        None => match file {
            Some(f) => {
                let fv = chars_of(f);
                let marker = chars_of("\"keyring\": true");
                if contains_sub(&fv, &marker) {
                    None
                } else {
                    parse_session_record(f)
                }
            },
            None => None,
        },
    }
}

/// The store round-trips: loading from a credential-store entry that holds
/// what a save wrote yields the saved record, field for field, whatever
/// the marker file holds.
pub proof fn lemma_store_round_trip(r: SessionRecordView, file: Option<Seq<char>>)
    ensures
        load_decision_spec(Some(encode_spec(r)), file) == Some(r),
{
    lemma_parse_encode(r);
}

/// A freshly saved sentinel file is never mistaken for a legacy record:
/// with no credential-store entry, a load that sees the sentinel yields
/// nothing rather than a bogus record.
pub proof fn lemma_sentinel_not_a_record()
    ensures
        load_decision_spec(None, Some(sentinel_content_spec())) is None,
{
    lemma_sentinel_contains_marker();
}

} // verus!
