use purple_matrix_rust::sso::{
    extract_login_token, extract_query_param, sso_redirect_url, sso_state_string, SsoFlow,
    SsoRequestOutcome, SSO_CALLBACK_TIMEOUT_SECS,
};

#[test]
fn extract_login_token_reads_redirect_urls() {
    let url = "http://localhost:8081/login?loginToken=abc123&state=feed42";
    assert_eq!(extract_login_token(url), Some("abc123".to_string()));

    // Bare path-with-query form, as the local listener sees it.
    let path = "/login?loginToken=tok&state=s";
    assert_eq!(extract_login_token(path), Some("tok".to_string()));
}

#[test]
fn extract_login_token_accepts_raw_tokens() {
    assert_eq!(extract_login_token("  raw_token_42  "), Some("raw_token_42".to_string()));
    assert_eq!(extract_login_token("two words"), None);
    assert_eq!(extract_login_token("   "), None);
    assert_eq!(extract_login_token(""), None);
}

#[test]
fn extract_query_param_percent_decodes_values() {
    // Decoding proves the real parser ran: '+' becomes a space and %2B a plus.
    let url = "/login?loginToken=a%2Bb+c&state=s";
    assert_eq!(extract_query_param(url, "loginToken"), Some("a+b c".to_string()));
    assert_eq!(extract_query_param(url, "state"), Some("s".to_string()));
    assert_eq!(extract_query_param(url, "missing"), None);
    // An empty value does not count.
    assert_eq!(extract_query_param("/login?loginToken=&state=s", "loginToken"), None);
}

#[test]
fn sso_state_and_redirect_url_formatting() {
    assert_eq!(sso_state_string(0xabc, 0x12), "abc12");
    let url = sso_redirect_url(8081, "feed42");
    assert_eq!(url, "http://localhost:8081/login?state=feed42");
}

#[test]
fn second_sso_begin_is_a_no_op() {
    let mut flow = SsoFlow::new();
    assert!(flow.try_begin(1000, "first".to_string()));
    let first_deadline = flow.deadline;
    assert_eq!(first_deadline, 1000 + SSO_CALLBACK_TIMEOUT_SECS);

    // A second begin while one is in flight changes nothing.
    assert!(!flow.try_begin(2000, "second".to_string()));
    assert!(flow.in_progress);
    assert_eq!(flow.state_token, "first");
    assert_eq!(flow.deadline, first_deadline);
}

#[test]
fn mismatched_state_keeps_waiting_and_valid_redirect_still_succeeds() {
    let mut flow = SsoFlow::new();
    assert!(flow.try_begin(0, "right".to_string()));

    let bad = "/login?loginToken=stolen&state=wrong";
    match flow.handle_request(bad) {
        SsoRequestOutcome::StateMismatch => {},
        _ => panic!("a wrong state must only get the verification-failed page"),
    }
    assert!(flow.in_progress);
    assert_eq!(flow.state_token, "right");

    // A query without a login token only gets the waiting page.
    let none_yet = "/login?foo=bar";
    match flow.handle_request(none_yet) {
        SsoRequestOutcome::NoToken => {},
        _ => panic!("a tokenless request must only get the waiting page"),
    }

    // A bare path reads as a raw pasted token, whose state check fails.
    match flow.handle_request("/favicon.ico") {
        SsoRequestOutcome::StateMismatch => {},
        _ => panic!("a stray request must not complete the flow"),
    }

    let good = "/login?loginToken=mine&state=right";
    match flow.handle_request(good) {
        SsoRequestOutcome::TokenCaptured(t) => assert_eq!(t, "mine"),
        _ => panic!("a valid redirect after mismatches must still succeed"),
    }
}

#[test]
fn timeout_releases_the_flow_for_a_fresh_start() {
    let mut flow = SsoFlow::new();
    assert!(flow.try_begin(100, "tok".to_string()));
    assert!(!flow.check_timeout(100 + SSO_CALLBACK_TIMEOUT_SECS - 1));
    assert!(flow.in_progress);
    assert!(flow.check_timeout(100 + SSO_CALLBACK_TIMEOUT_SECS));
    assert!(!flow.in_progress);

    // A new flow can begin immediately after the timeout.
    assert!(flow.try_begin(500, "fresh".to_string()));
    assert_eq!(flow.state_token, "fresh");
}
