use purple_matrix_rust::orchestrator::{
    EngineErrorKind, EngineFailure, LoginAction, LoginStage, SessionManager,
};
use purple_matrix_rust::record::SessionRecord;
use purple_matrix_rust::safewipe::wipe_allowed;
use purple_matrix_rust::store::save_session_outputs;
use purple_matrix_rust::sync_bridge::{is_auth_failure, is_mismatch_error};
use purple_matrix_rust::homeserver::{homeserver_connect_plan, insecure_ssl_opt_in, ConnectPlan};

const DATA_DIR: &str = "/home/u/.cache/matrix_rust_data/acct1";

fn sample_record(user: &str) -> SessionRecord {
    SessionRecord {
        user_id: user.to_string(),
        device_id: "DEV".to_string(),
        access_token: "tok".to_string(),
        refresh_token: None,
    }
}

fn emit_count(actions: &[LoginAction]) -> usize {
    actions
        .iter()
        .filter(|a| matches!(a, LoginAction::EmitConnected | LoginAction::EmitLoginFailed(_)))
        .count()
}

#[test]
fn wipe_guard_decisions() {
    assert!(!wipe_allowed("/tmp/not_ours"));
    assert!(!wipe_allowed("/matrix_rust_data"));
    assert!(wipe_allowed("/home/u/.cache/matrix_rust_data/acct1"));
}

#[test]
fn restored_login_emits_exactly_one_connected() {
    let mut mgr = SessionManager::new();
    let (pending, actions) = mgr.login("@alice:example.com", "pw", "https://example.com", DATA_DIR);
    assert!(pending);
    let mut emitted = emit_count(&actions);

    let actions = mgr.on_build_result(Ok(7));
    emitted += emit_count(&actions);
    assert!(matches!(actions[0], LoginAction::LoadStoredSession));

    let rec = sample_record("@alice:example.com");
    let (secure, marker) = save_session_outputs(&rec);
    let actions = mgr.on_stored_session(Some(&secure), Some(&marker));
    emitted += emit_count(&actions);
    match &actions[0] {
        LoginAction::RestoreSession(r) => assert_eq!(*r, rec),
        _ => panic!("a stored record must be restored"),
    }

    let actions = mgr.on_restore_result(Ok(rec.clone()));
    emitted += emit_count(&actions);
    assert!(matches!(actions[0], LoginAction::PersistSession(_)));
    assert!(matches!(actions[1], LoginAction::EmitConnected));
    assert!(matches!(actions[2], LoginAction::StartSync(7)));

    assert_eq!(emitted, 1);
    assert_eq!(mgr.flow.as_ref().unwrap().stage, LoginStage::Done { connected: true });
    assert_eq!(mgr.registry.get("@alice:example.com"), Some(7));

    // Events arriving after the outcome change nothing and emit nothing.
    let late = mgr.on_build_result(Err("late".to_string()));
    assert!(late.is_empty());
}

#[test]
fn failed_build_is_retried_once_then_fails_once() {
    let mut mgr = SessionManager::new();
    let (pending, _) = mgr.login("@a:b", "pw", "https://b", DATA_DIR);
    assert!(pending);

    // First failure: guarded wipe, recreate, one rebuild.
    let actions = mgr.on_build_result(Err("db corrupt".to_string()));
    assert_eq!(emit_count(&actions), 0);
    assert!(matches!(actions[0], LoginAction::WipeDataDir));
    assert!(matches!(actions[1], LoginAction::EnsureDataDir));
    assert!(matches!(actions[2], LoginAction::BuildClient));

    // Second failure is fatal, with exactly one failure report.
    let actions = mgr.on_build_result(Err("still broken".to_string()));
    assert_eq!(emit_count(&actions), 1);
    match &actions[0] {
        LoginAction::EmitLoginFailed(m) => {
            assert_eq!(m, "Client build failed after retry: still broken")
        },
        _ => panic!("the second build failure must end the attempt"),
    }
    assert_eq!(mgr.flow.as_ref().unwrap().stage, LoginStage::Done { connected: false });
}

#[test]
fn second_login_while_pending_is_rejected() {
    let mut mgr = SessionManager::new();
    let (pending, _) = mgr.login("@a:b", "", "https://b", DATA_DIR);
    assert!(pending);
    let (again, actions) = mgr.login("@a:b", "", "https://b", DATA_DIR);
    assert!(!again);
    assert!(actions.is_empty());
}

#[test]
fn password_mismatch_wipes_rebuilds_and_instructs_retry() {
    let mut mgr = SessionManager::new();
    mgr.login("@a:b", "pw", "https://b", DATA_DIR);
    mgr.on_build_result(Ok(1));
    // No stored session: fall straight through to the password login,
    // touching nothing on disk.
    let actions = mgr.on_stored_session(None, None);
    assert!(matches!(actions[0], LoginAction::PasswordLogin));
    assert!(!actions.iter().any(|a| matches!(a, LoginAction::WipeDataDir)));

    let fail = EngineFailure {
        kind: EngineErrorKind::AccountMismatch,
        message: "M_UNKNOWN: Mismatched account".to_string(),
    };
    let actions = mgr.on_password_result(Err(fail));
    assert_eq!(emit_count(&actions), 1);
    assert!(matches!(actions[0], LoginAction::WipeDataDir));
    assert!(matches!(actions[1], LoginAction::EnsureDataDir));
    assert!(matches!(actions[2], LoginAction::RebuildForNextAttempt));
    match &actions[3] {
        LoginAction::EmitLoginFailed(m) => assert!(m.contains("retry")),
        _ => panic!("a mismatch must fail with a retry instruction"),
    }
    assert_eq!(mgr.flow.as_ref().unwrap().stage, LoginStage::Done { connected: false });
}

#[test]
fn sso_mismatch_during_exchange_starts_a_fresh_round() {
    let mut mgr = SessionManager::new();
    // Empty password: the attempt goes down the SSO path.
    mgr.login("@a:b", "", "https://b", DATA_DIR);
    mgr.on_build_result(Ok(1));
    let actions = mgr.on_stored_session(None, None);
    assert!(matches!(actions[0], LoginAction::StartSsoRound));
    assert!(!actions.iter().any(|a| matches!(a, LoginAction::WipeDataDir)));

    let (accepted, actions) = mgr.begin_sso_round(1000, "token1".to_string());
    assert!(accepted);
    assert!(matches!(actions[0], LoginAction::BindSsoListener));

    let actions = mgr.on_listener_result(Ok(8081));
    match &actions[0] {
        LoginAction::RequestSsoUrl(u) => {
            assert_eq!(u, "http://localhost:8081/login?state=token1")
        },
        _ => panic!("a bound listener must request the SSO URL"),
    }
    let actions = mgr.on_sso_url_result(Ok("https://idp.example/sso".to_string()));
    assert!(matches!(actions[0], LoginAction::EmitSsoUrl(_)));

    // A redirect with the wrong state is invisible to the flow.
    let actions = mgr.on_sso_request("/login?loginToken=evil&state=forged");
    assert!(matches!(actions[0], LoginAction::RespondMismatchPage));
    assert_eq!(mgr.sso.state_token, "token1");
    assert!(mgr.sso.in_progress);

    // The valid redirect is captured and exchanged.
    let actions = mgr.on_sso_request("/login?loginToken=once&state=token1");
    assert!(matches!(actions[0], LoginAction::RespondSuccessPage));
    match &actions[1] {
        LoginAction::ExchangeToken(t) => assert_eq!(t, "once"),
        _ => panic!("a valid redirect must be exchanged"),
    }

    // The exchange reports an account mismatch: wipe, rebuild, and a
    // fresh round with a fresh token — never the used one again.
    let fail = EngineFailure {
        kind: EngineErrorKind::AccountMismatch,
        message: "Mismatched account".to_string(),
    };
    let actions = mgr.on_exchange_result(Err(fail));
    assert_eq!(emit_count(&actions), 0);
    assert!(matches!(actions[0], LoginAction::WipeDataDir));
    assert!(matches!(actions[2], LoginAction::BuildClient));
    assert!(!mgr.sso.in_progress);

    let actions = mgr.on_build_result(Ok(3));
    assert!(matches!(actions[0], LoginAction::StartSsoRound));
    let (accepted, _) = mgr.begin_sso_round(2000, "token2".to_string());
    assert!(accepted);
    assert_eq!(mgr.sso.state_token, "token2");

    // The fresh round completes.
    mgr.on_listener_result(Ok(8082));
    mgr.on_sso_url_result(Ok("https://idp.example/sso".to_string()));
    let actions = mgr.on_sso_request("/login?loginToken=fresh&state=token2");
    match &actions[1] {
        LoginAction::ExchangeToken(t) => assert_eq!(t, "fresh"),
        _ => panic!("the fresh round must exchange the fresh token"),
    }
    let actions = mgr.on_exchange_result(Ok(sample_record("@a:b")));
    assert_eq!(emit_count(&actions), 1);
    assert!(matches!(actions[1], LoginAction::EmitConnected));
}

#[test]
fn sso_timeout_fails_once_and_frees_the_guard() {
    let mut mgr = SessionManager::new();
    mgr.login("@a:b", "", "https://b", DATA_DIR);
    mgr.on_build_result(Ok(1));
    mgr.on_stored_session(None, None);
    mgr.begin_sso_round(1000, "tok".to_string());
    mgr.on_listener_result(Ok(8081));
    mgr.on_sso_url_result(Ok("https://idp.example/sso".to_string()));

    // Before the deadline nothing happens.
    let actions = mgr.on_sso_tick(1000 + 179);
    assert!(actions.is_empty());

    // At the deadline: exactly one failure, with the timeout message.
    let actions = mgr.on_sso_tick(1000 + 180);
    assert_eq!(emit_count(&actions), 1);
    match &actions[0] {
        LoginAction::EmitLoginFailed(m) => {
            assert_eq!(m, "SSO timed out after 180 seconds. Please try login again.")
        },
        _ => panic!("a timeout must report a failure"),
    }
    assert!(!mgr.sso.in_progress);

    // A new login can begin a new SSO flow immediately.
    let (pending, _) = mgr.login("@a:b", "", "https://b", DATA_DIR);
    assert!(pending);
    mgr.on_build_result(Ok(3));
    mgr.on_stored_session(None, None);
    let (accepted, _) = mgr.begin_sso_round(5000, "tok2".to_string());
    assert!(accepted);
}

#[test]
fn finish_sso_completes_a_waiting_flow_out_of_band() {
    let mut mgr = SessionManager::new();
    mgr.login("@a:b", "", "https://b", DATA_DIR);
    mgr.on_build_result(Ok(1));
    mgr.on_stored_session(None, None);
    mgr.begin_sso_round(0, "tok".to_string());
    mgr.on_listener_result(Ok(8081));
    mgr.on_sso_url_result(Ok("https://idp.example/sso".to_string()));

    assert!(mgr.finish_sso("   ").is_err());
    let actions = mgr.finish_sso("pasted_token").expect("a pasted token completes the flow");
    match &actions[0] {
        LoginAction::ExchangeToken(t) => assert_eq!(t, "pasted_token"),
        _ => panic!("the pasted token must be exchanged"),
    }
}

#[test]
fn destroy_session_removes_account_logs_out_and_deletes_record() {
    let mut mgr = SessionManager::new();
    mgr.login("alice", "pw", "https://b", DATA_DIR);
    mgr.on_build_result(Ok(9));
    mgr.on_stored_session(None, None);
    mgr.on_password_result(Ok(sample_record("alice")));
    assert_eq!(mgr.registry.get("alice"), Some(9));

    let actions = mgr.destroy_session("alice");
    assert_eq!(mgr.registry.get("alice"), None);
    assert!(matches!(actions[0], LoginAction::ServerLogout(9)));
    match &actions[1] {
        LoginAction::ClearCredentialEntry(u) => assert_eq!(u, "alice"),
        _ => panic!("destroying a session must clear the credential entry"),
    }
    assert!(matches!(actions[2], LoginAction::DeleteSessionFile));

    // Destroying an unknown account does nothing.
    let actions = mgr.destroy_session("alice");
    assert!(actions.is_empty());
}

#[test]
fn logout_drops_the_handle_and_keeps_the_record() {
    let mut mgr = SessionManager::new();
    mgr.login("alice", "pw", "https://b", DATA_DIR);
    mgr.on_build_result(Ok(4));
    mgr.on_stored_session(None, None);
    mgr.on_password_result(Ok(sample_record("alice")));

    let actions = mgr.logout("alice");
    assert!(matches!(actions[0], LoginAction::DropHandle(4)));
    assert!(!actions.iter().any(|a| matches!(a, LoginAction::DeleteSessionFile)));
    assert!(!actions.iter().any(|a| matches!(a, LoginAction::ClearCredentialEntry(_))));
    assert_eq!(mgr.registry.get("alice"), None);
}

#[test]
fn deactivate_account_logs_out_and_optionally_wipes() {
    let mut mgr = SessionManager::new();
    mgr.login("alice", "pw", "https://b", DATA_DIR);
    mgr.on_build_result(Ok(4));
    mgr.on_stored_session(None, None);
    mgr.on_password_result(Ok(sample_record("alice")));

    let actions = mgr.deactivate_account(true);
    assert!(matches!(actions[0], LoginAction::ServerLogout(4)));
    assert!(matches!(actions[1], LoginAction::WipeDataDir));

    let actions = mgr.deactivate_account(true);
    assert!(actions.is_empty());
}

#[test]
fn sync_auth_failure_purges_state_and_asks_for_relogin() {
    let mut mgr = SessionManager::new();
    mgr.login("alice", "pw", "https://b", DATA_DIR);
    mgr.on_build_result(Ok(4));
    mgr.on_stored_session(None, None);
    mgr.on_password_result(Ok(sample_record("alice")));

    // A non-auth error touches nothing.
    let actions = mgr.on_sync_error("alice", "connection reset by peer");
    assert!(actions.is_empty());
    assert_eq!(mgr.registry.get("alice"), Some(4));

    // An auth error purges the registry entry and the stored record.
    let actions = mgr.on_sync_error("alice", "M_UNKNOWN_TOKEN: Invalid access token");
    assert_eq!(mgr.registry.get("alice"), None);
    match &actions[0] {
        LoginAction::ClearCredentialEntry(u) => assert_eq!(u, "alice"),
        _ => panic!("an auth failure must clear the credential entry"),
    }
    assert!(matches!(actions[1], LoginAction::DeleteSessionFile));
    match &actions[2] {
        LoginAction::EmitLoginFailed(m) => assert!(m.contains("re-login")),
        _ => panic!("an auth failure must ask for a re-login"),
    }
}

#[test]
fn error_classifiers_match_known_signatures() {
    assert!(is_auth_failure("M_UNKNOWN_TOKEN"));
    assert!(is_auth_failure("server said: Token is not active"));
    assert!(is_auth_failure("Invalid access token passed"));
    assert!(is_auth_failure("http status 401"));
    assert!(!is_auth_failure("connection refused"));

    assert!(is_mismatch_error("Mismatched account"));
    assert!(is_mismatch_error("Session file belongs to another user"));
    assert!(!is_mismatch_error("rate limited"));
}

#[test]
fn homeserver_plans_and_insecure_override() {
    match homeserver_connect_plan("example.com") {
        ConnectPlan::TryServerName(h) => assert_eq!(h, "example.com"),
        _ => panic!("a bare name must be tried as a server name"),
    }
    match homeserver_connect_plan("https://example.com/") {
        ConnectPlan::TryServerName(h) => assert_eq!(h, "example.com"),
        _ => panic!("a plain root URL must be reduced to its host"),
    }
    assert!(matches!(
        homeserver_connect_plan("https://example.com:8448/"),
        ConnectPlan::DirectUrl
    ));
    assert!(matches!(
        homeserver_connect_plan("https://example.com/base/path"),
        ConnectPlan::DirectUrl
    ));

    assert!(insecure_ssl_opt_in(Some("1")));
    assert!(insecure_ssl_opt_in(Some("true")));
    assert!(insecure_ssl_opt_in(Some("YES")));
    assert!(!insecure_ssl_opt_in(Some("0")));
    assert!(!insecure_ssl_opt_in(Some("maybe")));
    assert!(!insecure_ssl_opt_in(None));
}

#[test]
fn refused_wipe_is_fatal_for_the_recovery_path() {
    let mut mgr = SessionManager::new();
    // A shallow directory that does not belong to the plugin: the wipe
    // guard refuses it, so the bounded build retry cannot happen.
    mgr.login("@a:b", "pw", "https://b", "/tmp/not_ours");
    let actions = mgr.on_build_result(Err("db corrupt".to_string()));
    assert_eq!(emit_count(&actions), 1);
    match &actions[0] {
        LoginAction::EmitLoginFailed(m) => assert!(m.contains("Refusing to wipe")),
        _ => panic!("a refused wipe must end the attempt"),
    }
    assert!(!actions.iter().any(|a| matches!(a, LoginAction::WipeDataDir)));
}

#[test]
fn sso_listener_and_url_failures_fail_the_attempt_once() {
    let mut mgr = SessionManager::new();
    mgr.login("@a:b", "", "https://b", DATA_DIR);
    mgr.on_build_result(Ok(1));
    mgr.on_stored_session(None, None);
    mgr.begin_sso_round(0, "tok".to_string());
    let actions = mgr.on_listener_result(Err("port in use".to_string()));
    assert_eq!(emit_count(&actions), 1);
    match &actions[0] {
        LoginAction::EmitLoginFailed(m) => {
            assert_eq!(m, "Failed to start local SSO callback server: port in use")
        },
        _ => panic!("a bind failure must fail the attempt"),
    }
    assert!(!mgr.sso.in_progress);

    let mut mgr = SessionManager::new();
    mgr.login("@a:b", "", "https://b", DATA_DIR);
    mgr.on_build_result(Ok(1));
    mgr.on_stored_session(None, None);
    mgr.begin_sso_round(0, "tok".to_string());
    mgr.on_listener_result(Ok(8081));
    let actions = mgr.on_sso_url_result(Err("M_FORBIDDEN".to_string()));
    assert_eq!(emit_count(&actions), 1);
    match &actions[0] {
        LoginAction::EmitLoginFailed(m) => {
            assert_eq!(m, "Failed to start SSO login: M_FORBIDDEN")
        },
        _ => panic!("a failed SSO URL request must fail the attempt"),
    }
}

#[test]
fn plain_exchange_failure_and_password_failure_report_their_reason() {
    let mut mgr = SessionManager::new();
    mgr.login("@a:b", "", "https://b", DATA_DIR);
    mgr.on_build_result(Ok(1));
    mgr.on_stored_session(None, None);
    mgr.begin_sso_round(0, "tok".to_string());
    mgr.on_listener_result(Ok(8081));
    mgr.on_sso_url_result(Ok("https://idp.example/sso".to_string()));
    mgr.on_sso_request("/login?loginToken=bad&state=tok");
    let fail = EngineFailure { kind: EngineErrorKind::Other, message: "expired".to_string() };
    let actions = mgr.on_exchange_result(Err(fail));
    assert_eq!(emit_count(&actions), 1);
    match &actions[0] {
        LoginAction::EmitLoginFailed(m) => assert_eq!(m, "SSO Login Failed: expired"),
        _ => panic!("a failed exchange must fail the attempt"),
    }

    let mut mgr = SessionManager::new();
    mgr.login("@a:b", "pw", "https://b", DATA_DIR);
    mgr.on_build_result(Ok(1));
    mgr.on_stored_session(None, None);
    let fail = EngineFailure { kind: EngineErrorKind::Other, message: "bad password".to_string() };
    let actions = mgr.on_password_result(Err(fail));
    assert_eq!(emit_count(&actions), 1);
    match &actions[0] {
        LoginAction::EmitLoginFailed(m) => assert_eq!(m, "Login failed: bad password"),
        _ => panic!("a failed password login must fail the attempt"),
    }
}

#[test]
fn finish_sso_with_no_waiting_flow_is_an_error() {
    let mut mgr = SessionManager::new();
    match mgr.finish_sso("sometoken") {
        Err(err) => assert!(err.contains("no pending")),
        Ok(_) => panic!("no flow is waiting, so this must be an error"),
    }
}

#[test]
fn restore_failure_falls_through_without_wiping() {
    // With a password: the failed restore leads straight to a password
    // login; the stored record and the directory are untouched.
    let mut mgr = SessionManager::new();
    mgr.login("@a:b", "pw", "https://b", DATA_DIR);
    mgr.on_build_result(Ok(1));
    let rec = sample_record("@a:b");
    let (secure, marker) = save_session_outputs(&rec);
    mgr.on_stored_session(Some(&secure), Some(&marker));
    let actions = mgr.on_restore_result(Err("transient store error".to_string()));
    assert_eq!(emit_count(&actions), 0);
    assert!(matches!(actions[0], LoginAction::PasswordLogin));
    assert!(!actions.iter().any(|a| matches!(
        a,
        LoginAction::WipeDataDir | LoginAction::ClearCredentialEntry(_) | LoginAction::DeleteSessionFile
    )));

    // Without a password: the same fall-through starts an SSO round.
    let mut mgr = SessionManager::new();
    mgr.login("@a:b", "", "https://b", DATA_DIR);
    mgr.on_build_result(Ok(1));
    mgr.on_stored_session(Some(&secure), Some(&marker));
    let actions = mgr.on_restore_result(Err("transient store error".to_string()));
    assert!(matches!(actions[0], LoginAction::StartSsoRound));
    assert!(!actions.iter().any(|a| matches!(a, LoginAction::WipeDataDir)));
}
