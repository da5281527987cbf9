//! The login orchestrator: one state machine per login attempt, driven by
//! the results of the outside work (client build, session restore,
//! password login, the SSO callback, token exchange) and answering with
//! the actions the host must perform. The machine owns the account
//! registry, the active data path and the SSO guard, and it reports the
//! outcome of every attempt exactly once.

use vstd::prelude::*;
use crate::record::SessionRecord;
use crate::registry::AccountRegistry;
use crate::sso::{SsoFlow, SsoRequestOutcome, sso_captures, login_token_spec, SSO_CALLBACK_TIMEOUT_SECS};
use crate::safewipe::wipe_allowed_spec;

verus! {

/// How the protocol engine's failures are classified for recovery: an
/// account mismatch triggers the destructive recovery path, everything
/// else does not.
#[derive(Clone, Copy, PartialEq, Eq, Structural, Debug)]
pub enum EngineErrorKind {
    AccountMismatch,
    Other,
}

/// A failure reported by the protocol engine: its recovery class and its
/// human-readable text.
pub struct EngineFailure {
    pub kind: EngineErrorKind,
    pub message: String,
}

/// Where a login attempt stands.
#[derive(Clone, Copy, PartialEq, Eq, Structural, Debug)]
pub enum LoginStage {
    /// The first client build, or its one bounded retry.
    Building { retried: bool },
    /// The stored session is being read.
    Restoring,
    /// The engine is restoring the stored session.
    RestorePending,
    /// The engine is performing the password login.
    PasswordPending,
    /// A fresh SSO round is wanted; the guard has not been taken yet.
    AwaitingSsoRound,
    /// The local callback listener is being bound.
    SsoListenerPending,
    /// The provider's SSO URL is being fetched.
    SsoUrlPending,
    /// The listener waits for the redirect.
    SsoWaiting,
    /// The captured token is being exchanged.
    ExchangePending,
    /// A mismatch during exchange: the store was wiped and the client is
    /// being rebuilt before a fresh SSO round.
    SsoRecoverBuilding,
    /// The attempt ended; exactly one outcome was reported.
    Done { connected: bool },
}

/// One login attempt: what the caller asked for and where it stands.
pub struct LoginFlow {
    pub account_id: String,
    pub password: String,
    pub homeserver: String,
    pub data_dir: String,
    pub handle: Option<u64>,
    pub stage: LoginStage,
}

/// What the host must do after a step of the machine.
pub enum LoginAction {
    /// Create the data directory if it is missing.
    EnsureDataDir,
    /// Build a protocol-engine client and report the result.
    BuildClient,
    /// Remove the data directory; only ever emitted for a path the wipe
    /// guard allows.
    WipeDataDir,
    /// Rebuild the client for the user's next attempt; no result is fed
    /// back, the attempt is over.
    RebuildForNextAttempt,
    /// Read the stored session sources and report them.
    LoadStoredSession,
    /// Ask the engine to restore this session.
    RestoreSession(SessionRecord),
    /// Ask the engine for a password login.
    PasswordLogin,
    /// Start a fresh SSO round: draw entropy and call `begin_sso_round`.
    StartSsoRound,
    /// Bind the local callback listener and report the port.
    BindSsoListener,
    /// Ask the engine for the SSO URL under this redirect URL.
    RequestSsoUrl(String),
    /// Hand the SSO URL to the host's browser opener.
    EmitSsoUrl(String),
    /// Answer the redirect request with the success page.
    RespondSuccessPage,
    /// Answer the redirect request with the verification-failed page.
    RespondMismatchPage,
    /// Answer the redirect request with the still-waiting page.
    RespondWaitingPage,
    /// Exchange this one-time login token with the engine.
    ExchangeToken(String),
    /// Persist this record in the session store.
    PersistSession(SessionRecord),
    /// Start the background sync for this handle.
    StartSync(u64),
    /// Drop this handle inside the runtime.
    DropHandle(u64),
    /// Invalidate this handle's session on the server.
    ServerLogout(u64),
    /// Remove this account's entry from the OS credential store.
    ClearCredentialEntry(String),
    /// Delete the stored session marker file.
    DeleteSessionFile,
    /// Report the attempt's success to the host. Exactly one of this and
    /// `EmitLoginFailed` is emitted per attempt.
    EmitConnected,
    /// Report the attempt's failure to the host, with the reason.
    EmitLoginFailed(String),
}

/// An action that reports the attempt's outcome.
pub open spec fn is_outcome_emit(a: LoginAction) -> bool {
    a matches LoginAction::EmitConnected || a matches LoginAction::EmitLoginFailed(_)
}

/// How many of the actions report an outcome.
pub open spec fn emit_count(s: Seq<LoginAction>) -> int
    decreases s.len(),
{
    if s.len() == 0 {
        0
    } else {
        (if is_outcome_emit(s[0]) {
            1int
        } else {
            0int
        }) + emit_count(s.drop_first())
    }
}

/// The result of one step of the attempt, reduced to what decides the
/// next stage.
#[derive(Clone, Copy, PartialEq, Eq, Structural, Debug)]
pub enum AttemptEvent {
    BuildOk,
    BuildErr { wipe_ok: bool },
    StoreLoaded { found: bool },
    RestoreOk,
    RestoreErr,
    PasswordOk,
    PasswordErr,
    SsoRoundBegun { accepted: bool },
    ListenerOk,
    ListenerErr,
    SsoUrlOk,
    SsoUrlErr,
    SsoRedirect { captured: bool },
    SsoTick { timed_out: bool },
    SsoIoErr,
    ExchangeOk,
    ExchangeErr { mismatch: bool, wipe_ok: bool },
}

/// The attempt's transition function: which stage follows which event.
/// Events that do not belong to the current stage change nothing, and
/// `Done` is final.
pub open spec fn stage_after(s: LoginStage, e: AttemptEvent, has_password: bool) -> LoginStage {
    match s {
        LoginStage::Building { retried } => match e {
            AttemptEvent::BuildOk => LoginStage::Restoring,
            AttemptEvent::BuildErr { wipe_ok } => {
                if retried {
                    LoginStage::Done { connected: false }
                } else if wipe_ok {
                    LoginStage::Building { retried: true }
                } else {
                    LoginStage::Done { connected: false }
                }
            },
            _ => s,
        },
        LoginStage::Restoring => match e {
            AttemptEvent::StoreLoaded { found } => {
                if found {
                    LoginStage::RestorePending
                } else if has_password {
                    LoginStage::PasswordPending
                } else {
                    LoginStage::AwaitingSsoRound
                }
            },
            _ => s,
        },
        LoginStage::RestorePending => match e {
            AttemptEvent::RestoreOk => LoginStage::Done { connected: true },
            AttemptEvent::RestoreErr => {
                if has_password {
                    LoginStage::PasswordPending
                } else {
                    LoginStage::AwaitingSsoRound
                }
            },
            _ => s,
        },
        LoginStage::PasswordPending => match e {
            AttemptEvent::PasswordOk => LoginStage::Done { connected: true },
            AttemptEvent::PasswordErr => LoginStage::Done { connected: false },
            _ => s,
        },
        LoginStage::AwaitingSsoRound => match e {
            AttemptEvent::SsoRoundBegun { accepted } => {
                if accepted {
                    LoginStage::SsoListenerPending
                } else {
                    s
                }
            },
            _ => s,
        },
        LoginStage::SsoListenerPending => match e {
            AttemptEvent::ListenerOk => LoginStage::SsoUrlPending,
            AttemptEvent::ListenerErr => LoginStage::Done { connected: false },
            _ => s,
        },
        LoginStage::SsoUrlPending => match e {
            AttemptEvent::SsoUrlOk => LoginStage::SsoWaiting,
            AttemptEvent::SsoUrlErr => LoginStage::Done { connected: false },
            _ => s,
        },
        LoginStage::SsoWaiting => match e {
            AttemptEvent::SsoRedirect { captured } => {
                if captured {
                    LoginStage::ExchangePending
                } else {
                    s
                }
            },
            AttemptEvent::SsoTick { timed_out } => {
                if timed_out {
                    LoginStage::Done { connected: false }
                } else {
                    s
                }
            },
            AttemptEvent::SsoIoErr => LoginStage::Done { connected: false },
            _ => s,
        },
        LoginStage::ExchangePending => match e {
            AttemptEvent::ExchangeOk => LoginStage::Done { connected: true },
            AttemptEvent::ExchangeErr { mismatch, wipe_ok } => {
                if mismatch && wipe_ok {
                    LoginStage::SsoRecoverBuilding
                } else {
                    LoginStage::Done { connected: false }
                }
            },
            _ => s,
        },
        LoginStage::SsoRecoverBuilding => match e {
            AttemptEvent::BuildOk => LoginStage::AwaitingSsoRound,
            AttemptEvent::BuildErr { wipe_ok } => LoginStage::Done { connected: false },
            _ => s,
        },
        LoginStage::Done { connected } => s,
    }
}

/// A step reports an outcome exactly when it ends the attempt.
pub open spec fn emits_one(s: LoginStage, e: AttemptEvent, has_password: bool) -> bool {
    !(s is Done) && stage_after(s, e, has_password) is Done
}

/// The stage an attempt is in after a sequence of events.
pub open spec fn run_stages(s: LoginStage, es: Seq<AttemptEvent>, has_password: bool) -> LoginStage
    decreases es.len(),
{
    if es.len() == 0 {
        s
    } else {
        run_stages(stage_after(s, es[0], has_password), es.drop_first(), has_password)
    }
}

/// How many outcomes a sequence of events makes the attempt report.
pub open spec fn run_emits(s: LoginStage, es: Seq<AttemptEvent>, has_password: bool) -> int
    decreases es.len(),
{
    if es.len() == 0 {
        0
    } else {
        (if emits_one(s, es[0], has_password) {
            1int
        } else {
            0int
        }) + run_emits(stage_after(s, es[0], has_password), es.drop_first(), has_password)
    }
}

proof fn lemma_run_from(s: LoginStage, es: Seq<AttemptEvent>, has_password: bool)
    ensures
        s is Done ==> run_stages(s, es, has_password) == s && run_emits(s, es, has_password) == 0,
        !(s is Done) ==> run_emits(s, es, has_password) == (if run_stages(
            s,
            es,
            has_password,
        ) is Done {
            1int
        } else {
            0int
        }),
    decreases es.len(),
{
    if es.len() > 0 {
        lemma_run_from(stage_after(s, es[0], has_password), es.drop_first(), has_password);
    }
}

/// One outcome per attempt: whatever results the outside work reports, in
/// whatever order, an attempt reports its outcome exactly once — when it
/// reaches `Done` — and never again after that.
pub proof fn lemma_login_single_outcome(es: Seq<AttemptEvent>, has_password: bool)
    ensures
        run_emits(LoginStage::Building { retried: false }, es, has_password) <= 1,
        run_stages(LoginStage::Building { retried: false }, es, has_password) is Done
            ==> run_emits(LoginStage::Building { retried: false }, es, has_password) == 1,
        !(run_stages(LoginStage::Building { retried: false }, es, has_password) is Done)
            ==> run_emits(LoginStage::Building { retried: false }, es, has_password) == 0,
{
    lemma_run_from(LoginStage::Building { retried: false }, es, has_password);
}

/// `emit_count` of a short action list, element by element.
proof fn lemma_emit_count_unrolled(s: Seq<LoginAction>)
    requires
        s.len() <= 4,
    ensures
        emit_count(s) == (if s.len() > 0 && is_outcome_emit(s[0]) {
            1int
        } else {
            0int
        }) + (if s.len() > 1 && is_outcome_emit(s[1]) {
            1int
        } else {
            0int
        }) + (if s.len() > 2 && is_outcome_emit(s[2]) {
            1int
        } else {
            0int
        }) + (if s.len() > 3 && is_outcome_emit(s[3]) {
            1int
        } else {
            0int
        }),
    decreases s.len(),
{
    if s.len() > 0 {
        lemma_emit_count_unrolled(s.drop_first());
        assert(forall|k: int| 0 <= k < s.len() - 1 ==> s.drop_first()[k] == s[k + 1]);
    }
}

/// Builds the failure message `prefix + detail`.
fn concat_msg(prefix: &str, detail: &str) -> (r: String)
    ensures
        r@ == prefix@ + detail@,
{
    let mut v = crate::text::chars_of(prefix);
    crate::text::push_all(&mut v, &crate::text::chars_of(detail));
    crate::text::string_of(&v)
}

/// The failure text when the wipe guard refuses the data directory.
pub open spec fn wipe_refused_msg_spec(dir: Seq<char>) -> Seq<char> {
    "Refusing to wipe data directory that does not look like this plugin's: "@ + dir
}

fn wipe_refused_msg(dir: &str) -> (r: String)
    ensures
        r@ == wipe_refused_msg_spec(dir@),
{
    concat_msg("Refusing to wipe data directory that does not look like this plugin's: ", dir)
}

/// The event a build result stands for, given the attempt's data
/// directory (whose wipe guard decides the bounded retry).
pub open spec fn build_event_of(result: Result<u64, String>, data_dir: Seq<char>) -> AttemptEvent {
    match result {
        Ok(h) => AttemptEvent::BuildOk,
        Err(e) => AttemptEvent::BuildErr { wipe_ok: wipe_allowed_spec(data_dir) },
    }
}

/// The process-wide session state: the account registry, the active data
/// path, the SSO guard and the one login attempt that may be in flight.
pub struct SessionManager {
    pub registry: AccountRegistry,
    pub sso: SsoFlow,
    pub data_path: Option<String>,
    pub flow: Option<LoginFlow>,
}

impl LoginFlow {
    /// Stages reached only through a successful client build hold the
    /// built client's handle.
    pub open spec fn wf(&self) -> bool {
        (self.stage matches LoginStage::Restoring || self.stage
            matches LoginStage::RestorePending || self.stage matches LoginStage::PasswordPending
            || self.stage matches LoginStage::AwaitingSsoRound || self.stage
            matches LoginStage::SsoListenerPending || self.stage matches LoginStage::SsoUrlPending
            || self.stage matches LoginStage::SsoWaiting || self.stage
            matches LoginStage::ExchangePending) ==> self.handle is Some
    }

    /// The attempt's request data, unchanged by every step.
    pub open spec fn same_request(self, other: LoginFlow) -> bool {
        self.account_id@ == other.account_id@ && self.password@ == other.password@
            && self.homeserver@ == other.homeserver@ && self.data_dir@ == other.data_dir@
    }
}

impl SessionManager {
    /// The manager's structural invariant.
    pub open spec fn wf(&self) -> bool {
        &&& self.registry.wf()
        &&& match self.flow {
            Some(f) => f.wf(),
            None => true,
        }
    }

    /// Whether a login attempt is pending (started and not yet decided).
    pub open spec fn attempt_pending(&self) -> bool {
        match self.flow {
            Some(f) => !(f.stage is Done),
            None => false,
        }
    }

    /// A manager with no accounts, no attempt and no SSO flow in flight.
    pub fn new() -> (r: SessionManager)
        ensures
            r.wf(),
            r.registry@ == Map::<Seq<char>, u64>::empty(),
            !r.sso.in_progress,
            r.data_path is None,
            r.flow is None,
    {
        SessionManager {
            registry: AccountRegistry::new(),
            sso: SsoFlow::new(),
            data_path: None,
            flow: None,
        }
    }

    /// Starts a login attempt for an account. While an attempt is
    /// pending, a new request is rejected, not queued. Otherwise the
    /// attempt begins: the data path is recorded and the host is asked to
    /// ensure the directory and build the client; the outcome will be
    /// reported exactly once, through `EmitConnected` or
    /// `EmitLoginFailed`.
    pub fn login(&mut self, account_id: &str, password: &str, homeserver: &str, data_dir: &str)
        -> (r: (bool, Vec<LoginAction>))
        requires
            old(self).wf(),
        ensures
            final(self).wf(),
            final(self).registry == old(self).registry,
            final(self).sso == old(self).sso,
            old(self).attempt_pending() ==> !r.0 && *final(self) == *old(self) && r.1@
                == Seq::<LoginAction>::empty(),
            !old(self).attempt_pending() ==> r.0 && (final(self).data_path matches Some(d) && d@
                == data_dir@) && (final(self).flow matches Some(f) && f.account_id@ == account_id@
                && f.password@ == password@ && f.homeserver@ == homeserver@ && f.data_dir@
                == data_dir@ && f.handle is None && f.stage == (LoginStage::Building {
                retried: false,
            })) && r.1@ == seq![LoginAction::EnsureDataDir, LoginAction::BuildClient],
    {
        let pending = match &self.flow {
            Some(f) => !matches!(f.stage, LoginStage::Done { .. }),
            None => false,
        };
        if pending {
            let actions: Vec<LoginAction> = Vec::new();
            return (false, actions);
        }
        let dir_chars = crate::text::chars_of(data_dir);
        self.data_path = Some(crate::text::string_of(&dir_chars));
        let account_chars = crate::text::chars_of(account_id);
        let password_chars = crate::text::chars_of(password);
        let homeserver_chars = crate::text::chars_of(homeserver);
        self.flow = Some(LoginFlow {
            account_id: crate::text::string_of(&account_chars),
            password: crate::text::string_of(&password_chars),
            homeserver: crate::text::string_of(&homeserver_chars),
            data_dir: crate::text::string_of(&dir_chars),
            handle: None,
            stage: LoginStage::Building { retried: false },
        });
        let mut actions: Vec<LoginAction> = Vec::new();
        actions.push(LoginAction::EnsureDataDir);
        actions.push(LoginAction::BuildClient);
        proof {
            assert(actions@ =~= seq![LoginAction::EnsureDataDir, LoginAction::BuildClient]);
        }
        (true, actions)
    }

    /// Feeds back the result of a client build: the new handle, or the
    /// build error's text. Covers the first build, its one bounded retry
    /// (after a guarded wipe), and the rebuild during SSO mismatch
    /// recovery; a refused wipe ends the attempt instead of touching the
    /// file system.
    pub fn on_build_result(&mut self, result: Result<u64, String>) -> (actions: Vec<LoginAction>)
        requires
            old(self).wf(),
        ensures
            final(self).wf(),
            final(self).registry == old(self).registry,
            final(self).sso == old(self).sso,
            final(self).data_path == old(self).data_path,
            match old(self).flow {
                None => *final(self) == *old(self) && actions@ == Seq::<LoginAction>::empty(),
                Some(f) => {
                    let building = f.stage matches LoginStage::Building { .. } || f.stage
                        matches LoginStage::SsoRecoverBuilding;
                    let hp = f.password@.len() > 0;
                    let ev = build_event_of(result, f.data_dir@);
                    &&& !building ==> *final(self) == *old(self) && actions@
                        == Seq::<LoginAction>::empty()
                    &&& building ==> (final(self).flow matches Some(g) && f.same_request(g)
                        && g.stage == stage_after(f.stage, ev, hp) && g.handle == (match result {
                        Ok(h) => Some(h),
                        Err(_) => f.handle,
                    }) && emit_count(actions@) == (if emits_one(f.stage, ev, hp) {
                        1int
                    } else {
                        0int
                    }))
                    &&& building ==> match result {
                        Ok(h) => {
                            &&& f.stage matches LoginStage::Building { .. } ==> actions@
                                == seq![LoginAction::LoadStoredSession]
                            &&& f.stage is SsoRecoverBuilding ==> actions@
                                == seq![LoginAction::StartSsoRound]
                        },
                        Err(e) => {
                            &&& f.stage == (LoginStage::Building { retried: false })
                                && wipe_allowed_spec(f.data_dir@) ==> actions@ == seq![
                                LoginAction::WipeDataDir,
                                LoginAction::EnsureDataDir,
                                LoginAction::BuildClient,
                            ]
                            &&& f.stage == (LoginStage::Building { retried: false })
                                && !wipe_allowed_spec(f.data_dir@) ==> actions@.len() == 1 && (
                            actions@[0] matches LoginAction::EmitLoginFailed(m) && m@
                                == wipe_refused_msg_spec(f.data_dir@))
                            &&& f.stage == (LoginStage::Building { retried: true })
                                ==> actions@.len() == 1 && (actions@[0]
                                matches LoginAction::EmitLoginFailed(m) && m@
                                == "Client build failed after retry: "@ + e@)
                            &&& f.stage is SsoRecoverBuilding ==> actions@.len() == 1 && (
                            actions@[0] matches LoginAction::EmitLoginFailed(m) && m@
                                == "Failed to rebuild client during SSO recovery: "@ + e@)
                        },
                    }
                },
            },
    {
        let mut actions: Vec<LoginAction> = Vec::new();
        let f_opt = self.flow.take();
        match f_opt {
            None => {
                self.flow = None;
            },
            Some(mut f) => {
                match result {
                    Ok(h) => {
                        match f.stage {
                            LoginStage::Building { retried: _ } => {
                                f.handle = Some(h);
                                f.stage = LoginStage::Restoring;
                                actions.push(LoginAction::LoadStoredSession);
                            },
                            LoginStage::SsoRecoverBuilding => {
                                f.handle = Some(h);
                                f.stage = LoginStage::AwaitingSsoRound;
                                actions.push(LoginAction::StartSsoRound);
                            },
                            _ => {},
                        }
                    },
                    Err(e) => {
                        match f.stage {
                            LoginStage::Building { retried: false } => {
                                if crate::safewipe::wipe_allowed(f.data_dir.as_str()) {
                                    f.stage = LoginStage::Building { retried: true };
                                    actions.push(LoginAction::WipeDataDir);
                                    actions.push(LoginAction::EnsureDataDir);
                                    actions.push(LoginAction::BuildClient);
                                } else {
                                    f.stage = LoginStage::Done { connected: false };
                                    actions.push(
                                        LoginAction::EmitLoginFailed(
                                            wipe_refused_msg(f.data_dir.as_str()),
                                        ),
                                    );
                                }
                            },
                            LoginStage::Building { retried: true } => {
                                f.stage = LoginStage::Done { connected: false };
                                actions.push(
                                    LoginAction::EmitLoginFailed(
                                        concat_msg("Client build failed after retry: ", e.as_str()),
                                    ),
                                );
                            },
                            LoginStage::SsoRecoverBuilding => {
                                f.stage = LoginStage::Done { connected: false };
                                actions.push(
                                    LoginAction::EmitLoginFailed(
                                        concat_msg(
                                            "Failed to rebuild client during SSO recovery: ",
                                            e.as_str(),
                                        ),
                                    ),
                                );
                            },
                            _ => {},
                        }
                    },
                }
                self.flow = Some(f);
            },
        }
        proof {
            lemma_emit_count_unrolled(actions@);
        }
        actions
    }

    /// The shared tail of every successful authentication: the record is
    /// persisted, the handle registered under the record's user id, the
    /// success reported, and the sync started.
    fn complete_success(&mut self, record: SessionRecord, handle: u64) -> (actions: Vec<
        LoginAction,
    >)
        requires
            old(self).wf(),
        ensures
            final(self).wf(),
            final(self).registry@ == old(self).registry@.insert(record.user_id@, handle),
            final(self).sso == old(self).sso,
            final(self).data_path == old(self).data_path,
            final(self).flow == old(self).flow,
            actions@.len() == 3,
            actions@[0] matches LoginAction::PersistSession(rec) && rec@ == record@,
            actions@[1] == LoginAction::EmitConnected,
            actions@[2] == LoginAction::StartSync(handle),
    {
        let mut actions: Vec<LoginAction> = Vec::new();
        self.registry.insert(record.user_id.as_str(), handle);
        actions.push(LoginAction::PersistSession(record));
        actions.push(LoginAction::EmitConnected);
        actions.push(LoginAction::StartSync(handle));
        actions
    }

    /// Feeds back what the session store's two sources held. A stored
    /// record leads to a restore attempt; no record falls straight
    /// through to a fresh password or SSO login on the same client.
    /// Nothing is touched on disk: only the engine's account-mismatch
    /// signal triggers destructive recovery.
    pub fn on_stored_session(&mut self, secure: Option<&str>, file: Option<&str>) -> (actions: Vec<
        LoginAction,
    >)
        requires
            old(self).wf(),
        ensures
            final(self).wf(),
            final(self).registry == old(self).registry,
            final(self).sso == old(self).sso,
            final(self).data_path == old(self).data_path,
            match old(self).flow {
                None => *final(self) == *old(self) && actions@ == Seq::<LoginAction>::empty(),
                Some(f) => {
                    let loaded = crate::store::load_decision_spec(
                        crate::store::opt_str_view(secure),
                        crate::store::opt_str_view(file),
                    );
                    let hp = f.password@.len() > 0;
                    let ev = AttemptEvent::StoreLoaded { found: loaded is Some };
                    &&& !(f.stage is Restoring) ==> *final(self) == *old(self) && actions@
                        == Seq::<LoginAction>::empty()
                    &&& f.stage is Restoring ==> (final(self).flow matches Some(g)
                        && f.same_request(g) && g.stage == stage_after(f.stage, ev, hp) && g.handle
                        == f.handle && emit_count(actions@) == (if emits_one(f.stage, ev, hp) {
                        1int
                    } else {
                        0int
                    }))
                    &&& f.stage is Restoring ==> {
                        &&& loaded is Some ==> actions@.len() == 1 && (actions@[0]
                            matches LoginAction::RestoreSession(rec) && loaded == Some(rec@))
                        &&& loaded is None && hp ==> actions@ == seq![LoginAction::PasswordLogin]
                        &&& loaded is None && !hp ==> actions@ == seq![LoginAction::StartSsoRound]
                    }
                },
            },
    {
        let mut actions: Vec<LoginAction> = Vec::new();
        let f_opt = self.flow.take();
        match f_opt {
            None => {
                self.flow = None;
            },
            Some(mut f) => {
                if matches!(f.stage, LoginStage::Restoring) {
                    match crate::store::load_session_from_sources(secure, file) {
                        Some(record) => {
                            f.stage = LoginStage::RestorePending;
                            actions.push(LoginAction::RestoreSession(record));
                        },
                        None => {
                            if f.password.as_str().is_empty() {
                                f.stage = LoginStage::AwaitingSsoRound;
                                actions.push(LoginAction::StartSsoRound);
                            } else {
                                f.stage = LoginStage::PasswordPending;
                                actions.push(LoginAction::PasswordLogin);
                            }
                        },
                    }
                }
                self.flow = Some(f);
            },
        }
        proof {
            lemma_emit_count_unrolled(actions@);
        }
        actions
    }

    /// Feeds back the engine's answer to the restore attempt. Success
    /// completes the login; failure may be transient, so the stored
    /// record is kept, nothing is wiped, and the attempt falls through to
    /// a fresh password or SSO login on the same client.
    pub fn on_restore_result(&mut self, result: Result<SessionRecord, String>) -> (actions: Vec<
        LoginAction,
    >)
        requires
            old(self).wf(),
        ensures
            final(self).wf(),
            final(self).sso == old(self).sso,
            final(self).data_path == old(self).data_path,
            match old(self).flow {
                None => *final(self) == *old(self) && actions@ == Seq::<LoginAction>::empty(),
                Some(f) => {
                    let hp = f.password@.len() > 0;
                    let ev = match result {
                        Ok(_) => AttemptEvent::RestoreOk,
                        Err(_) => AttemptEvent::RestoreErr,
                    };
                    &&& !(f.stage is RestorePending) ==> *final(self) == *old(self) && actions@
                        == Seq::<LoginAction>::empty()
                    &&& f.stage is RestorePending ==> (final(self).flow matches Some(g)
                        && f.same_request(g) && g.stage == stage_after(f.stage, ev, hp) && g.handle
                        == f.handle && emit_count(actions@) == (if emits_one(f.stage, ev, hp) {
                        1int
                    } else {
                        0int
                    }))
                    &&& f.stage is RestorePending ==> match result {
                        Ok(record) => {
                            &&& final(self).registry@ == old(self).registry@.insert(
                                record.user_id@,
                                f.handle->0,
                            )
                            &&& actions@.len() == 3
                            &&& actions@[0] matches LoginAction::PersistSession(rec) && rec@
                                == record@
                            &&& actions@[1] == LoginAction::EmitConnected
                            &&& actions@[2] == LoginAction::StartSync(f.handle->0)
                        },
                        Err(_) => {
                            &&& final(self).registry == old(self).registry
                            &&& hp ==> actions@ == seq![LoginAction::PasswordLogin]
                            &&& !hp ==> actions@ == seq![LoginAction::StartSsoRound]
                        },
                    }
                },
            },
    {
        let mut actions: Vec<LoginAction> = Vec::new();
        let f_opt = self.flow.take();
        match f_opt {
            None => {
                self.flow = None;
            },
            Some(mut f) => {
                if matches!(f.stage, LoginStage::RestorePending) {
                    match result {
                        Ok(record) => {
                            let handle = match f.handle {
                                Some(h) => h,
                                None => {
                                    proof {
                                        assert(false);
                                    }
                                    0
                                },
                            };
                            actions = self.complete_success(record, handle);
                            f.stage = LoginStage::Done { connected: true };
                        },
                        Err(_) => {
                            if f.password.as_str().is_empty() {
                                f.stage = LoginStage::AwaitingSsoRound;
                                actions.push(LoginAction::StartSsoRound);
                            } else {
                                f.stage = LoginStage::PasswordPending;
                                actions.push(LoginAction::PasswordLogin);
                            }
                        },
                    }
                }
                self.flow = Some(f);
            },
        }
        proof {
            lemma_emit_count_unrolled(actions@);
        }
        actions
    }

    /// Feeds back the engine's answer to the password login. Success
    /// completes the login. An account mismatch triggers the guarded wipe
    /// and a rebuild for the user's next attempt, and the attempt fails
    /// with a message instructing the user to retry — it is not retried
    /// silently. Any other failure just fails the attempt.
    pub fn on_password_result(&mut self, result: Result<SessionRecord, EngineFailure>) -> (actions:
        Vec<LoginAction>)
        requires
            old(self).wf(),
        ensures
            final(self).wf(),
            final(self).sso == old(self).sso,
            final(self).data_path == old(self).data_path,
            match old(self).flow {
                None => *final(self) == *old(self) && actions@ == Seq::<LoginAction>::empty(),
                Some(f) => {
                    let hp = f.password@.len() > 0;
                    let ev = match result {
                        Ok(_) => AttemptEvent::PasswordOk,
                        Err(_) => AttemptEvent::PasswordErr,
                    };
                    &&& !(f.stage is PasswordPending) ==> *final(self) == *old(self) && actions@
                        == Seq::<LoginAction>::empty()
                    &&& f.stage is PasswordPending ==> (final(self).flow matches Some(g)
                        && f.same_request(g) && g.stage == stage_after(f.stage, ev, hp) && g.handle
                        == f.handle && emit_count(actions@) == (if emits_one(f.stage, ev, hp) {
                        1int
                    } else {
                        0int
                    }))
                    &&& f.stage is PasswordPending ==> match result {
                        Ok(record) => {
                            &&& final(self).registry@ == old(self).registry@.insert(
                                record.user_id@,
                                f.handle->0,
                            )
                            &&& actions@.len() == 3
                            &&& actions@[0] matches LoginAction::PersistSession(rec) && rec@
                                == record@
                            &&& actions@[1] == LoginAction::EmitConnected
                            &&& actions@[2] == LoginAction::StartSync(f.handle->0)
                        },
                        Err(fail) => {
                            &&& final(self).registry == old(self).registry
                            &&& fail.kind == EngineErrorKind::AccountMismatch
                                && wipe_allowed_spec(f.data_dir@) ==> actions@.len() == 4
                                && actions@[0] == LoginAction::WipeDataDir && actions@[1]
                                == LoginAction::EnsureDataDir && actions@[2]
                                == LoginAction::RebuildForNextAttempt && (actions@[3]
                                matches LoginAction::EmitLoginFailed(m) && m@
                                == "Account mismatch detected; the local data directory was reset. Please retry login."@)
                            &&& fail.kind == EngineErrorKind::AccountMismatch
                                && !wipe_allowed_spec(f.data_dir@) ==> actions@.len() == 1 && (
                            actions@[0] matches LoginAction::EmitLoginFailed(m) && m@
                                == wipe_refused_msg_spec(f.data_dir@))
                            &&& fail.kind == EngineErrorKind::Other ==> actions@.len() == 1 && (
                            actions@[0] matches LoginAction::EmitLoginFailed(m) && m@
                                == "Login failed: "@ + fail.message@)
                        },
                    }
                },
            },
    {
        let mut actions: Vec<LoginAction> = Vec::new();
        let f_opt = self.flow.take();
        match f_opt {
            None => {
                self.flow = None;
            },
            Some(mut f) => {
                if matches!(f.stage, LoginStage::PasswordPending) {
                    match result {
                        Ok(record) => {
                            let handle = match f.handle {
                                Some(h) => h,
                                None => {
                                    proof {
                                        assert(false);
                                    }
                                    0
                                },
                            };
                            actions = self.complete_success(record, handle);
                            f.stage = LoginStage::Done { connected: true };
                        },
                        Err(fail) => {
                            f.stage = LoginStage::Done { connected: false };
                            match fail.kind {
                                EngineErrorKind::AccountMismatch => {
                                    if crate::safewipe::wipe_allowed(f.data_dir.as_str()) {
                                        actions.push(LoginAction::WipeDataDir);
                                        actions.push(LoginAction::EnsureDataDir);
                                        actions.push(LoginAction::RebuildForNextAttempt);
                                        let msg_chars = crate::text::chars_of(
                                            "Account mismatch detected; the local data directory was reset. Please retry login.",
                                        );
                                        actions.push(
                                            LoginAction::EmitLoginFailed(
                                                crate::text::string_of(&msg_chars),
                                            ),
                                        );
                                    } else {
                                        actions.push(
                                            LoginAction::EmitLoginFailed(
                                                wipe_refused_msg(f.data_dir.as_str()),
                                            ),
                                        );
                                    }
                                },
                                EngineErrorKind::Other => {
                                    actions.push(
                                        LoginAction::EmitLoginFailed(
                                            concat_msg("Login failed: ", fail.message.as_str()),
                                        ),
                                    );
                                },
                            }
                        },
                    }
                }
                self.flow = Some(f);
            },
        }
        proof {
            lemma_emit_count_unrolled(actions@);
        }
        actions
    }

    /// Takes the SSO guard and starts a round, with the entropy the host
    /// drew for the state token. While another flow is in flight the call
    /// is a no-op: the first flow's state token and deadline are left
    /// untouched — unconditionally, since no deadline is computed then.
    pub fn begin_sso_round(&mut self, now: u64, state_token: String) -> (r: (bool, Vec<
        LoginAction,
    >))
        requires
            old(self).wf(),
            old(self).sso.in_progress || now + SSO_CALLBACK_TIMEOUT_SECS <= u64::MAX,
        ensures
            final(self).wf(),
            final(self).registry == old(self).registry,
            final(self).data_path == old(self).data_path,
            match old(self).flow {
                None => *final(self) == *old(self) && !r.0 && r.1@ == Seq::<LoginAction>::empty(),
                Some(f) => {
                    let hp = f.password@.len() > 0;
                    let accepted = !old(self).sso.in_progress;
                    &&& !(f.stage is AwaitingSsoRound) ==> *final(self) == *old(self) && !r.0
                        && r.1@ == Seq::<LoginAction>::empty()
                    &&& f.stage is AwaitingSsoRound ==> (final(self).flow matches Some(g)
                        && f.same_request(g) && g.handle == f.handle && g.stage == stage_after(
                        f.stage,
                        AttemptEvent::SsoRoundBegun { accepted },
                        hp,
                    ) && r.0 == accepted && emit_count(r.1@) == 0)
                    &&& f.stage is AwaitingSsoRound && !accepted ==> *final(self) == *old(self)
                        && r.1@ == Seq::<LoginAction>::empty()
                    &&& f.stage is AwaitingSsoRound && accepted ==> final(self).sso.in_progress
                        && final(self).sso.state_token@ == state_token@ && final(self).sso.deadline
                        == now + SSO_CALLBACK_TIMEOUT_SECS && r.1@
                        == seq![LoginAction::BindSsoListener]
                },
            },
    {
        let mut actions: Vec<LoginAction> = Vec::new();
        let f_opt = self.flow.take();
        let mut accepted = false;
        match f_opt {
            None => {
                self.flow = None;
            },
            Some(mut f) => {
                if matches!(f.stage, LoginStage::AwaitingSsoRound) {
                    accepted = self.sso.try_begin(now, state_token);
                    if accepted {
                        f.stage = LoginStage::SsoListenerPending;
                        actions.push(LoginAction::BindSsoListener);
                    }
                }
                self.flow = Some(f);
            },
        }
        proof {
            lemma_emit_count_unrolled(actions@);
        }
        (accepted, actions)
    }

    /// Feeds back the callback listener's bind result. A bound port gives
    /// the redirect URL for the provider's SSO URL request; a bind
    /// failure releases the guard and fails the attempt.
    pub fn on_listener_result(&mut self, result: Result<u16, String>) -> (actions: Vec<
        LoginAction,
    >)
        requires
            old(self).wf(),
        ensures
            final(self).wf(),
            final(self).registry == old(self).registry,
            final(self).data_path == old(self).data_path,
            match old(self).flow {
                None => *final(self) == *old(self) && actions@ == Seq::<LoginAction>::empty(),
                Some(f) => {
                    let hp = f.password@.len() > 0;
                    let ev = match result {
                        Ok(_) => AttemptEvent::ListenerOk,
                        Err(_) => AttemptEvent::ListenerErr,
                    };
                    &&& !(f.stage is SsoListenerPending) ==> *final(self) == *old(self) && actions@
                        == Seq::<LoginAction>::empty()
                    &&& f.stage is SsoListenerPending ==> (final(self).flow matches Some(g)
                        && f.same_request(g) && g.handle == f.handle && g.stage == stage_after(
                        f.stage,
                        ev,
                        hp,
                    ) && emit_count(actions@) == (if emits_one(f.stage, ev, hp) {
                        1int
                    } else {
                        0int
                    }))
                    &&& f.stage is SsoListenerPending ==> match result {
                        Ok(port) => {
                            &&& final(self).sso == old(self).sso
                            &&& actions@.len() == 1
                            &&& actions@[0] matches LoginAction::RequestSsoUrl(u) && u@
                                == crate::sso::redirect_url_spec(port, old(self).sso.state_token@)
                        },
                        Err(e) => {
                            &&& !final(self).sso.in_progress
                            &&& actions@.len() == 1
                            &&& actions@[0] matches LoginAction::EmitLoginFailed(m) && m@
                                == "Failed to start local SSO callback server: "@ + e@
                        },
                    }
                },
            },
    {
        let mut actions: Vec<LoginAction> = Vec::new();
        let f_opt = self.flow.take();
        match f_opt {
            None => {
                self.flow = None;
            },
            Some(mut f) => {
                if matches!(f.stage, LoginStage::SsoListenerPending) {
                    match result {
                        Ok(port) => {
                            f.stage = LoginStage::SsoUrlPending;
                            let url = crate::sso::sso_redirect_url(
                                port,
                                self.sso.state_token.as_str(),
                            );
                            actions.push(LoginAction::RequestSsoUrl(url));
                        },
                        Err(e) => {
                            self.sso.release();
                            f.stage = LoginStage::Done { connected: false };
                            actions.push(
                                LoginAction::EmitLoginFailed(
                                    concat_msg(
                                        "Failed to start local SSO callback server: ",
                                        e.as_str(),
                                    ),
                                ),
                            );
                        },
                    }
                }
                self.flow = Some(f);
            },
        }
        proof {
            lemma_emit_count_unrolled(actions@);
        }
        actions
    }

    /// Feeds back the provider's SSO URL. The URL goes to the host's
    /// browser opener and the listener starts waiting; a failure releases
    /// the guard and fails the attempt.
    pub fn on_sso_url_result(&mut self, result: Result<String, String>) -> (actions: Vec<
        LoginAction,
    >)
        requires
            old(self).wf(),
        ensures
            final(self).wf(),
            final(self).registry == old(self).registry,
            final(self).data_path == old(self).data_path,
            match old(self).flow {
                None => *final(self) == *old(self) && actions@ == Seq::<LoginAction>::empty(),
                Some(f) => {
                    let hp = f.password@.len() > 0;
                    let ev = match result {
                        Ok(_) => AttemptEvent::SsoUrlOk,
                        Err(_) => AttemptEvent::SsoUrlErr,
                    };
                    &&& !(f.stage is SsoUrlPending) ==> *final(self) == *old(self) && actions@
                        == Seq::<LoginAction>::empty()
                    &&& f.stage is SsoUrlPending ==> (final(self).flow matches Some(g)
                        && f.same_request(g) && g.handle == f.handle && g.stage == stage_after(
                        f.stage,
                        ev,
                        hp,
                    ) && emit_count(actions@) == (if emits_one(f.stage, ev, hp) {
                        1int
                    } else {
                        0int
                    }))
                    &&& f.stage is SsoUrlPending ==> match result {
                        Ok(url) => {
                            &&& final(self).sso == old(self).sso
                            &&& actions@.len() == 1
                            &&& actions@[0] matches LoginAction::EmitSsoUrl(u) && u@ == url@
                        },
                        Err(e) => {
                            &&& !final(self).sso.in_progress
                            &&& actions@.len() == 1
                            &&& actions@[0] matches LoginAction::EmitLoginFailed(m) && m@
                                == "Failed to start SSO login: "@ + e@
                        },
                    }
                },
            },
    {
        let mut actions: Vec<LoginAction> = Vec::new();
        let f_opt = self.flow.take();
        match f_opt {
            None => {
                self.flow = None;
            },
            Some(mut f) => {
                if matches!(f.stage, LoginStage::SsoUrlPending) {
                    match result {
                        Ok(url) => {
                            f.stage = LoginStage::SsoWaiting;
                            actions.push(LoginAction::EmitSsoUrl(url));
                        },
                        Err(e) => {
                            self.sso.release();
                            f.stage = LoginStage::Done { connected: false };
                            actions.push(
                                LoginAction::EmitLoginFailed(
                                    concat_msg("Failed to start SSO login: ", e.as_str()),
                                ),
                            );
                        },
                    }
                }
                self.flow = Some(f);
            },
        }
        proof {
            lemma_emit_count_unrolled(actions@);
        }
        actions
    }

    /// Handles one redirect request while the listener waits. A token
    /// under the issued state is captured and exchanged; a token under a
    /// wrong state only gets the verification-failed page — the flow, its
    /// state token and its deadline are untouched, so later valid
    /// redirects still succeed; anything else gets the waiting page.
    pub fn on_sso_request(&mut self, request_url: &str) -> (actions: Vec<LoginAction>)
        requires
            old(self).wf(),
        ensures
            final(self).wf(),
            final(self).registry == old(self).registry,
            final(self).data_path == old(self).data_path,
            match old(self).flow {
                None => *final(self) == *old(self) && actions@ == Seq::<LoginAction>::empty(),
                Some(f) => {
                    let hp = f.password@.len() > 0;
                    let captured = sso_captures(old(self).sso.state_token@, request_url@);
                    let ev = AttemptEvent::SsoRedirect { captured: captured is Some };
                    &&& !(f.stage is SsoWaiting) ==> *final(self) == *old(self) && actions@
                        == Seq::<LoginAction>::empty()
                    &&& f.stage is SsoWaiting ==> (final(self).flow matches Some(g)
                        && f.same_request(g) && g.handle == f.handle && g.stage == stage_after(
                        f.stage,
                        ev,
                        hp,
                    ) && final(self).sso == old(self).sso && emit_count(actions@) == 0)
                    &&& f.stage is SsoWaiting ==> {
                        &&& captured matches Some(t) ==> actions@.len() == 2 && actions@[0]
                            == LoginAction::RespondSuccessPage && (actions@[1]
                            matches LoginAction::ExchangeToken(u) && u@ == t)
                        &&& captured is None && login_token_spec(request_url@) is Some
                            ==> *final(self) == *old(self) && actions@
                            == seq![LoginAction::RespondMismatchPage]
                        &&& login_token_spec(request_url@) is None ==> *final(self) == *old(self)
                            && actions@ == seq![LoginAction::RespondWaitingPage]
                    }
                },
            },
    {
        let mut actions: Vec<LoginAction> = Vec::new();
        let f_opt = self.flow.take();
        match f_opt {
            None => {
                self.flow = None;
            },
            Some(mut f) => {
                if matches!(f.stage, LoginStage::SsoWaiting) {
                    match self.sso.handle_request(request_url) {
                        SsoRequestOutcome::TokenCaptured(token) => {
                            f.stage = LoginStage::ExchangePending;
                            actions.push(LoginAction::RespondSuccessPage);
                            actions.push(LoginAction::ExchangeToken(token));
                        },
                        SsoRequestOutcome::StateMismatch => {
                            actions.push(LoginAction::RespondMismatchPage);
                        },
                        SsoRequestOutcome::NoToken => {
                            actions.push(LoginAction::RespondWaitingPage);
                        },
                    }
                }
                self.flow = Some(f);
            },
        }
        proof {
            lemma_emit_count_unrolled(actions@);
        }
        actions
    }

    /// Checks the waiting listener against the deadline. At or past it
    /// the guard is released and the attempt fails with the timeout
    /// message — after which a new login can begin a fresh SSO flow at
    /// once; before it nothing changes.
    pub fn on_sso_tick(&mut self, now: u64) -> (actions: Vec<LoginAction>)
        requires
            old(self).wf(),
        ensures
            final(self).wf(),
            final(self).registry == old(self).registry,
            final(self).data_path == old(self).data_path,
            match old(self).flow {
                None => *final(self) == *old(self) && actions@ == Seq::<LoginAction>::empty(),
                Some(f) => {
                    let hp = f.password@.len() > 0;
                    let timed_out = now >= old(self).sso.deadline;
                    let ev = AttemptEvent::SsoTick { timed_out };
                    &&& !(f.stage is SsoWaiting) ==> *final(self) == *old(self) && actions@
                        == Seq::<LoginAction>::empty()
                    &&& f.stage is SsoWaiting && !timed_out ==> *final(self) == *old(self)
                        && actions@ == Seq::<LoginAction>::empty()
                    &&& f.stage is SsoWaiting && timed_out ==> (final(self).flow matches Some(g)
                        && f.same_request(g) && g.handle == f.handle && g.stage == stage_after(
                        f.stage,
                        ev,
                        hp,
                    ) && !final(self).sso.in_progress && emit_count(actions@) == 1
                        && actions@.len() == 1 && (actions@[0]
                        matches LoginAction::EmitLoginFailed(m) && m@
                        == "SSO timed out after 180 seconds. Please try login again."@))
                },
            },
    {
        let mut actions: Vec<LoginAction> = Vec::new();
        let f_opt = self.flow.take();
        match f_opt {
            None => {
                self.flow = None;
            },
            Some(mut f) => {
                if matches!(f.stage, LoginStage::SsoWaiting) {
                    if self.sso.check_timeout(now) {
                        f.stage = LoginStage::Done { connected: false };
                        let msg_chars = crate::text::chars_of(
                            "SSO timed out after 180 seconds. Please try login again.",
                        );
                        actions.push(
                            LoginAction::EmitLoginFailed(crate::text::string_of(&msg_chars)),
                        );
                    }
                }
                self.flow = Some(f);
            },
        }
        proof {
            lemma_emit_count_unrolled(actions@);
        }
        actions
    }

    /// Feeds back a listener I/O failure: the guard is released and the
    /// attempt fails.
    pub fn on_sso_io_error(&mut self, error: &str) -> (actions: Vec<LoginAction>)
        requires
            old(self).wf(),
        ensures
            final(self).wf(),
            final(self).registry == old(self).registry,
            final(self).data_path == old(self).data_path,
            match old(self).flow {
                None => *final(self) == *old(self) && actions@ == Seq::<LoginAction>::empty(),
                Some(f) => {
                    let hp = f.password@.len() > 0;
                    let ev = AttemptEvent::SsoIoErr;
                    &&& !(f.stage is SsoWaiting) ==> *final(self) == *old(self) && actions@
                        == Seq::<LoginAction>::empty()
                    &&& f.stage is SsoWaiting ==> (final(self).flow matches Some(g)
                        && f.same_request(g) && g.handle == f.handle && g.stage == stage_after(
                        f.stage,
                        ev,
                        hp,
                    ) && !final(self).sso.in_progress && emit_count(actions@) == 1
                        && actions@.len() == 1 && (actions@[0]
                        matches LoginAction::EmitLoginFailed(m) && m@
                        == "SSO callback server failed: "@ + error@))
                },
            },
    {
        let mut actions: Vec<LoginAction> = Vec::new();
        let f_opt = self.flow.take();
        match f_opt {
            None => {
                self.flow = None;
            },
            Some(mut f) => {
                if matches!(f.stage, LoginStage::SsoWaiting) {
                    self.sso.release();
                    f.stage = LoginStage::Done { connected: false };
                    actions.push(
                        LoginAction::EmitLoginFailed(
                            concat_msg("SSO callback server failed: ", error),
                        ),
                    );
                }
                self.flow = Some(f);
            },
        }
        proof {
            lemma_emit_count_unrolled(actions@);
        }
        actions
    }

    /// Completes a waiting SSO flow out of band, with a token or redirect
    /// URL the user pasted. The state check is skipped — the user
    /// supplied the value directly. An unusable token, or no waiting
    /// flow, is an error for the caller to surface; the attempt is not
    /// consumed. With a waiting flow and a usable token the exchange is
    /// owed: the call must return the exchange action, never an error.
    pub fn finish_sso(&mut self, input: &str) -> (r: Result<Vec<LoginAction>, String>)
        requires
            old(self).wf(),
        ensures
            final(self).wf(),
            final(self).registry == old(self).registry,
            final(self).sso == old(self).sso,
            final(self).data_path == old(self).data_path,
            (match old(self).flow {
                Some(f) => f.stage is SsoWaiting,
                None => false,
            }) && login_token_spec(input@) is Some ==> r is Ok,
            match r {
                Err(m) => *final(self) == *old(self) && (login_token_spec(input@) is None ==> m@
                    == "SSO completion token was empty or invalid."@) && (login_token_spec(
                    input@,
                ) is Some ==> m@ == "SSO completion requested but no pending Matrix client is available."@),
                Ok(actions) => {
                    &&& login_token_spec(input@) matches Some(t) && actions@.len() == 1 && (
                    actions@[0] matches LoginAction::ExchangeToken(u) && u@ == t)
                    &&& old(self).flow matches Some(f) && f.stage is SsoWaiting
                        && (final(self).flow matches Some(g) && f.same_request(g) && g.handle
                        == f.handle && g.stage == stage_after(
                        f.stage,
                        AttemptEvent::SsoRedirect { captured: true },
                        f.password@.len() > 0,
                    ))
                },
            },
    {
        let token = match crate::sso::extract_login_token(input) {
            Some(t) => t,
            None => {
                let m = crate::text::chars_of("SSO completion token was empty or invalid.");
                return Err(crate::text::string_of(&m));
            },
        };
        let waiting = match &self.flow {
            Some(f) => matches!(f.stage, LoginStage::SsoWaiting),
            None => false,
        };
        if !waiting {
            let m = crate::text::chars_of(
                "SSO completion requested but no pending Matrix client is available.",
            );
            return Err(crate::text::string_of(&m));
        }
        let f_opt = self.flow.take();
        let mut actions: Vec<LoginAction> = Vec::new();
        match f_opt {
            Some(mut f) => {
                f.stage = LoginStage::ExchangePending;
                actions.push(LoginAction::ExchangeToken(token));
                self.flow = Some(f);
            },
            None => {
                self.flow = None;
                proof {
                    assert(false);
                }
            },
        }
        Ok(actions)
    }

    /// Feeds back the engine's answer to the token exchange. Success
    /// completes the login and releases the guard. An account mismatch
    /// releases the guard, wipes the stale store (if the guard allows)
    /// and rebuilds the client for a fresh SSO round — the used token is
    /// one-time and is never retried. Any other failure releases the
    /// guard and fails the attempt.
    pub fn on_exchange_result(&mut self, result: Result<SessionRecord, EngineFailure>) -> (actions:
        Vec<LoginAction>)
        requires
            old(self).wf(),
        ensures
            final(self).wf(),
            final(self).data_path == old(self).data_path,
            match old(self).flow {
                None => *final(self) == *old(self) && actions@ == Seq::<LoginAction>::empty(),
                Some(f) => {
                    let hp = f.password@.len() > 0;
                    let ev = match result {
                        Ok(_) => AttemptEvent::ExchangeOk,
                        Err(fail) => AttemptEvent::ExchangeErr {
                            mismatch: fail.kind == EngineErrorKind::AccountMismatch,
                            wipe_ok: wipe_allowed_spec(f.data_dir@),
                        },
                    };
                    &&& !(f.stage is ExchangePending) ==> *final(self) == *old(self) && actions@
                        == Seq::<LoginAction>::empty()
                    &&& f.stage is ExchangePending ==> (final(self).flow matches Some(g)
                        && f.same_request(g) && g.handle == f.handle && g.stage == stage_after(
                        f.stage,
                        ev,
                        hp,
                    ) && !final(self).sso.in_progress && emit_count(actions@) == (if emits_one(
                        f.stage,
                        ev,
                        hp,
                    ) {
                        1int
                    } else {
                        0int
                    }))
                    &&& f.stage is ExchangePending ==> match result {
                        Ok(record) => {
                            &&& final(self).registry@ == old(self).registry@.insert(
                                record.user_id@,
                                f.handle->0,
                            )
                            &&& actions@.len() == 3
                            &&& actions@[0] matches LoginAction::PersistSession(rec) && rec@
                                == record@
                            &&& actions@[1] == LoginAction::EmitConnected
                            &&& actions@[2] == LoginAction::StartSync(f.handle->0)
                        },
                        Err(fail) => {
                            &&& final(self).registry == old(self).registry
                            &&& fail.kind == EngineErrorKind::AccountMismatch
                                && wipe_allowed_spec(f.data_dir@) ==> actions@ == seq![
                                LoginAction::WipeDataDir,
                                LoginAction::EnsureDataDir,
                                LoginAction::BuildClient,
                            ]
                            &&& fail.kind == EngineErrorKind::AccountMismatch
                                && !wipe_allowed_spec(f.data_dir@) ==> actions@.len() == 1 && (
                            actions@[0] matches LoginAction::EmitLoginFailed(m) && m@
                                == wipe_refused_msg_spec(f.data_dir@))
                            &&& fail.kind == EngineErrorKind::Other ==> actions@.len() == 1 && (
                            actions@[0] matches LoginAction::EmitLoginFailed(m) && m@
                                == "SSO Login Failed: "@ + fail.message@)
                        },
                    }
                },
            },
    {
        let mut actions: Vec<LoginAction> = Vec::new();
        let f_opt = self.flow.take();
        match f_opt {
            None => {
                self.flow = None;
            },
            Some(mut f) => {
                if matches!(f.stage, LoginStage::ExchangePending) {
                    self.sso.release();
                    match result {
                        Ok(record) => {
                            let handle = match f.handle {
                                Some(h) => h,
                                None => {
                                    proof {
                                        assert(false);
                                    }
                                    0
                                },
                            };
                            actions = self.complete_success(record, handle);
                            f.stage = LoginStage::Done { connected: true };
                        },
                        Err(fail) => {
                            match fail.kind {
                                EngineErrorKind::AccountMismatch => {
                                    if crate::safewipe::wipe_allowed(f.data_dir.as_str()) {
                                        f.stage = LoginStage::SsoRecoverBuilding;
                                        actions.push(LoginAction::WipeDataDir);
                                        actions.push(LoginAction::EnsureDataDir);
                                        actions.push(LoginAction::BuildClient);
                                    } else {
                                        f.stage = LoginStage::Done { connected: false };
                                        actions.push(
                                            LoginAction::EmitLoginFailed(
                                                wipe_refused_msg(f.data_dir.as_str()),
                                            ),
                                        );
                                    }
                                },
                                EngineErrorKind::Other => {
                                    f.stage = LoginStage::Done { connected: false };
                                    actions.push(
                                        LoginAction::EmitLoginFailed(
                                            concat_msg("SSO Login Failed: ", fail.message.as_str()),
                                        ),
                                    );
                                },
                            }
                        },
                    }
                }
                self.flow = Some(f);
            },
        }
        proof {
            lemma_emit_count_unrolled(actions@);
        }
        actions
    }

    /// Disconnects an account: its handle leaves the registry and is
    /// dropped inside the runtime. The stored session is kept, so the
    /// next start can restore it.
    pub fn logout(&mut self, user_id: &str) -> (actions: Vec<LoginAction>)
        requires
            old(self).wf(),
        ensures
            final(self).wf(),
            final(self).sso == old(self).sso,
            final(self).data_path == old(self).data_path,
            final(self).flow == old(self).flow,
            final(self).registry@ == old(self).registry@.remove(user_id@),
            old(self).registry@.contains_key(user_id@) ==> actions@
                == seq![LoginAction::DropHandle(old(self).registry@[user_id@])],
            !old(self).registry@.contains_key(user_id@) ==> actions@
                == Seq::<LoginAction>::empty(),
    {
        let mut actions: Vec<LoginAction> = Vec::new();
        match self.registry.remove(user_id) {
            Some(h) => {
                actions.push(LoginAction::DropHandle(h));
            },
            None => {},
        }
        actions
    }

    /// Destroys an account's session: its handle leaves the registry,
    /// the server-side session is invalidated, and the stored session
    /// record — the credential-store entry and the marker file — is
    /// deleted so the next start performs a fresh login.
    pub fn destroy_session(&mut self, user_id: &str) -> (actions: Vec<LoginAction>)
        requires
            old(self).wf(),
        ensures
            final(self).wf(),
            final(self).sso == old(self).sso,
            final(self).data_path == old(self).data_path,
            final(self).flow == old(self).flow,
            final(self).registry@ == old(self).registry@.remove(user_id@),
            old(self).registry@.contains_key(user_id@) ==> actions@.len() == 3 && actions@[0]
                == LoginAction::ServerLogout(old(self).registry@[user_id@]) && (actions@[1]
                matches LoginAction::ClearCredentialEntry(u) && u@ == user_id@) && actions@[2]
                == LoginAction::DeleteSessionFile,
            !old(self).registry@.contains_key(user_id@) ==> actions@
                == Seq::<LoginAction>::empty(),
    {
        let mut actions: Vec<LoginAction> = Vec::new();
        match self.registry.remove(user_id) {
            Some(h) => {
                actions.push(LoginAction::ServerLogout(h));
                let idv = crate::text::chars_of(user_id);
                actions.push(LoginAction::ClearCredentialEntry(crate::text::string_of(&idv)));
                actions.push(LoginAction::DeleteSessionFile);
            },
            None => {},
        }
        actions
    }

    /// Deactivates the active account: some registered handle is logged
    /// out on the server, and with `erase_data` the data directory is
    /// wiped — but only when the wipe guard allows the recorded path.
    pub fn deactivate_account(&mut self, erase_data: bool) -> (actions: Vec<LoginAction>)
        requires
            old(self).wf(),
        ensures
            final(self).wf(),
            final(self).sso == old(self).sso,
            final(self).data_path == old(self).data_path,
            final(self).flow == old(self).flow,
            old(self).registry@ == Map::<Seq<char>, u64>::empty() ==> final(self).registry
                == old(self).registry && actions@ == Seq::<LoginAction>::empty(),
            old(self).registry@ != Map::<Seq<char>, u64>::empty() ==> exists|k: Seq<char>|
                {
                    &&& #[trigger] old(self).registry@.contains_key(k)
                    &&& final(self).registry@ == old(self).registry@.remove(k)
                    &&& {
                        let wipe = erase_data && (match old(self).data_path {
                            Some(p) => wipe_allowed_spec(p@),
                            None => false,
                        });
                        (wipe ==> actions@ == seq![
                            LoginAction::ServerLogout(old(self).registry@[k]),
                            LoginAction::WipeDataDir,
                        ]) && (!wipe ==> actions@ == seq![
                            LoginAction::ServerLogout(old(self).registry@[k]),
                        ])
                    }
                },
    {
        let mut actions: Vec<LoginAction> = Vec::new();
        match self.registry.pop_any() {
            Some(entry) => {
                actions.push(LoginAction::ServerLogout(entry.handle));
                if erase_data {
                    let allowed = match &self.data_path {
                        Some(p) => crate::safewipe::wipe_allowed(p.as_str()),
                        None => false,
                    };
                    if allowed {
                        actions.push(LoginAction::WipeDataDir);
                    }
                }
                proof {
                    assert(old(self).registry@.contains_key(entry.account_id@));
                }
            },
            None => {},
        }
        actions
    }

    /// Feeds back a sync-stream error for an account. An authentication
    /// failure purges the account's registry entry and the stored session
    /// record — the credential-store entry and the marker file — and
    /// tells the user to re-login, forcing a fresh login next time; any
    /// other error touches nothing and is surfaced for logging only.
    pub fn on_sync_error(&mut self, user_id: &str, error: &str) -> (actions: Vec<LoginAction>)
        requires
            old(self).wf(),
        ensures
            final(self).wf(),
            final(self).sso == old(self).sso,
            final(self).data_path == old(self).data_path,
            final(self).flow == old(self).flow,
            !crate::sync_bridge::auth_failure_spec(error@) ==> *final(self) == *old(self)
                && actions@ == Seq::<LoginAction>::empty(),
            crate::sync_bridge::auth_failure_spec(error@) ==> final(self).registry@ == old(
                self,
            ).registry@.remove(user_id@) && actions@.len() == 3 && (actions@[0]
                matches LoginAction::ClearCredentialEntry(u) && u@ == user_id@) && actions@[1]
                == LoginAction::DeleteSessionFile && (actions@[2]
                matches LoginAction::EmitLoginFailed(m) && m@
                == "Matrix session expired or token invalidated. Please re-login."@),
    {
        let mut actions: Vec<LoginAction> = Vec::new();
        if crate::sync_bridge::is_auth_failure(error) {
            let _ = self.registry.remove(user_id);
            let idv = crate::text::chars_of(user_id);
            actions.push(LoginAction::ClearCredentialEntry(crate::text::string_of(&idv)));
            actions.push(LoginAction::DeleteSessionFile);
            let msg_chars = crate::text::chars_of(
                "Matrix session expired or token invalidated. Please re-login.",
            );
            actions.push(LoginAction::EmitLoginFailed(crate::text::string_of(&msg_chars)));
        }
        actions
    }
}

} // verus!
