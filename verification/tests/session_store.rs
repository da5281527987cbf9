use purple_matrix_rust::record::{
    encode_session_record, parse_session_record, SessionRecord,
};
use purple_matrix_rust::store::{
    keyring_service, load_session_from_sources, save_session_outputs, sentinel_content,
};

fn sample_record() -> SessionRecord {
    SessionRecord {
        user_id: "@alice:example.com".to_string(),
        device_id: "DEVICEID".to_string(),
        access_token: "syt_SECRET-REDACTED".to_string(),
        refresh_token: Some("syr_SECRET-REDACTED".to_string()),
    }
}

#[test]
fn record_round_trips_through_its_encoding() {
    let rec = sample_record();
    let json = encode_session_record(&rec);
    let back = parse_session_record(&json).expect("a saved record must parse back");
    assert_eq!(back, rec);
}

#[test]
fn record_without_refresh_token_round_trips() {
    let rec = SessionRecord { refresh_token: None, ..sample_record() };
    let json = encode_session_record(&rec);
    assert!(json.ends_with("\"refresh_token\":null}"));
    assert_eq!(parse_session_record(&json), Some(rec));
}

#[test]
fn record_with_quotes_and_backslashes_round_trips() {
    let rec = SessionRecord {
        user_id: "@we\"ird\\user:example.com".to_string(),
        device_id: "A\\B\"C".to_string(),
        access_token: "tok\"en\\".to_string(),
        refresh_token: Some("\\\"".to_string()),
    };
    let json = encode_session_record(&rec);
    assert_eq!(parse_session_record(&json), Some(rec));
}

#[test]
fn garbage_does_not_parse_as_a_record() {
    assert_eq!(parse_session_record(""), None);
    assert_eq!(parse_session_record("{\"keyring\": true}"), None);
    assert_eq!(parse_session_record("{\"user_id\":\"x\"}"), None);
    let truncated = "{\"user_id\":\"u\",\"device_id\":\"d\",\"access_token\":\"t\"";
    assert_eq!(parse_session_record(truncated), None);
}

#[test]
fn save_then_load_returns_an_equal_record() {
    let rec = sample_record();
    let (secure_value, marker) = save_session_outputs(&rec);
    // The secure store holds the record; the marker file holds no secret.
    assert_eq!(marker, "{\"keyring\": true}");
    assert!(!marker.contains("syt_"));
    let loaded = load_session_from_sources(Some(&secure_value), Some(&marker));
    assert_eq!(loaded, Some(rec));
}

#[test]
fn load_prefers_secure_storage_over_the_file() {
    let a = sample_record();
    let b = SessionRecord { user_id: "@bob:example.com".to_string(), ..sample_record() };
    let secure_value = encode_session_record(&a);
    let legacy_file = encode_session_record(&b);
    let loaded = load_session_from_sources(Some(&secure_value), Some(&legacy_file));
    assert_eq!(loaded, Some(a));
}

#[test]
fn load_reads_legacy_plaintext_file_when_secure_store_is_empty() {
    let rec = sample_record();
    let legacy_file = encode_session_record(&rec);
    let loaded = load_session_from_sources(None, Some(&legacy_file));
    assert_eq!(loaded, Some(rec));
}

#[test]
fn sentinel_file_is_not_mistaken_for_a_legacy_record() {
    let marker = sentinel_content();
    assert_eq!(load_session_from_sources(None, Some(&marker)), None);
    assert_eq!(load_session_from_sources(None, None), None);
}

#[test]
fn keyring_service_is_stable() {
    assert_eq!(keyring_service(), "purple-matrix-rust");
}
