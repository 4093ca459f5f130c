//! Password login: PAKE login begin, PAKE login finish, and the MFA
//! challenge that follows where the account asks for one.

use vstd::prelude::*;
use crate::authenticate::{
    existing_session, grant, granted, issue_token, issued_token, session_to_escalate,
};
use crate::constants::CONTINUE_TIMEOUT;
use crate::database::code::{code_opt, Code, CodeView};
use crate::database::session::{session_opt, Session, SessionView};
use crate::database::user::{user_opt, User, UserView};
use crate::environment::{Clock, Environment};
use crate::errors::Error;
use crate::opaque::{login_proof_accepted, LOGIN_RESPONSE_LEN, LOGIN_STATE_LEN};
use crate::routes::mfa::{current_code, live_code};
use crate::store::{
    after_access, held, live, put_back, slot_restored, Flow, Pending, PendingView, Records, Stores,
    StoresView,
};
use crate::utilities::{
    a_long_token, base64_bytes, base64_len, decode_base64, encode_base64,
    generate_continue_token_long, generate_id, ID_LEN, is_long_token,
};
use crate::view::{outcome, text_opt, token_of};

verus! {

/// A request to the login flow, one variant per stage.
#[derive(Clone, Debug, PartialEq, Eq)]
pub enum Login {
    /// Stage 1. `message` is the client's PAKE credential request in
    /// base64. `token` names the session to escalate and is required where
    /// `escalate` is set.
    BeginLogin { email: String, message: String, escalate: bool, token: Option<String> },
    /// Stage 2. `message` is the client's PAKE finalization in base64.
    FinishLogin {
        message: String,
        continue_token: String,
        persist: Option<bool>,
        friendly_name: Option<String>,
    },
    /// Stage 3, for accounts with a second factor.
    Mfa { code: String, continue_token: String },
}

/// The answer to a [`Login`] request, one variant per stage.
#[derive(Clone, Debug, PartialEq, Eq)]
#[allow(inconsistent_fields)]
pub enum LoginResponse {
    BeginLogin { continue_token: String, message: String },
    FinishLogin { mfa_enabled: bool, continue_token: Option<String>, token: Option<String> },
    Mfa { token: String },
}

/// Mathematical content of a [`LoginResponse`].
#[allow(inconsistent_fields)]
pub ghost enum LoginResponseView {
    BeginLogin { continue_token: Seq<char>, message: Seq<char> },
    FinishLogin { mfa_enabled: bool, continue_token: Option<Seq<char>>, token: Option<Seq<char>> },
    Mfa { token: Seq<char> },
}

impl View for LoginResponse {
    type V = LoginResponseView;

    open spec fn view(&self) -> LoginResponseView {
        match self {
            LoginResponse::BeginLogin { continue_token, message } => LoginResponseView::BeginLogin {
                continue_token: continue_token@,
                message: message@,
            },
            LoginResponse::FinishLogin {
                mfa_enabled,
                continue_token,
                token,
            } => LoginResponseView::FinishLogin {
                mfa_enabled: *mfa_enabled,
                continue_token: text_opt(*continue_token),
                token: text_opt(*token),
            },
            LoginResponse::Mfa { token } => LoginResponseView::Mfa { token: token@ },
        }
    }
}

/// What a stage of the login flow asks of its caller: the response to
/// send and the writes to make in the persistent store.
#[derive(Clone, Debug, PartialEq, Eq)]
pub struct LoginOutcome {
    pub response: LoginResponse,
    /// The session to insert, where the login created one.
    pub session: Option<Session>,
    /// The backup code to delete, where the login spent one.
    pub spent_code: Option<Code>,
}

/// Mathematical content of a [`LoginOutcome`].
pub ghost struct LoginOutcomeView {
    pub response: LoginResponseView,
    pub session: Option<SessionView>,
    pub spent_code: Option<CodeView>,
}

impl View for LoginOutcome {
    type V = LoginOutcomeView;

    open spec fn view(&self) -> LoginOutcomeView {
        LoginOutcomeView {
            response: self.response@,
            session: session_opt(self.session),
            spent_code: code_opt(self.spent_code),
        }
    }
}

/// What the caller looked up in the persistent store for a request.
#[derive(Clone, Debug, PartialEq, Eq)]
pub struct LoginFacts {
    /// Stage 1: the session whose bearer token the request carries.
    pub session: Option<Session>,
    /// Stage 1: the account with the email of the request.
    pub user: Option<User>,
    /// Stage 1: the serialized PAKE server setup.
    pub server_setup: Vec<u8>,
    /// Stage 3: the backup code of the pending account that equals the
    /// code of the request, see [`mfa_account`].
    pub backup: Option<Code>,
}

/// A login that has begun: the account, the PAKE server state and, where an
/// existing session is being escalated, that session. A login for an
/// address without an account has begun as well: it has no account, and
/// its PAKE server state is one that no client can answer.
#[derive(Clone, Debug, PartialEq, Eq)]
pub struct PendingLogin {
    pub time: u64,
    pub user: Option<User>,
    pub email: String,
    pub data: Vec<u8>,
    pub existing_session: Option<Session>,
}

/// Mathematical content of a [`PendingLogin`].
pub ghost struct PendingLoginView {
    pub time: u64,
    pub user: Option<UserView>,
    pub email: Seq<char>,
    pub data: Seq<u8>,
    pub existing_session: Option<SessionView>,
}

impl View for PendingLogin {
    type V = PendingLoginView;

    open spec fn view(&self) -> PendingLoginView {
        PendingLoginView {
            time: self.time,
            user: user_opt(self.user),
            email: self.email@,
            data: self.data@,
            existing_session: session_opt(self.existing_session),
        }
    }
}

/// A login whose password was proved and that still owes a second factor.
#[derive(Clone, Debug, PartialEq, Eq)]
pub struct PendingMfa {
    pub time: u64,
    pub user: User,
    pub email: String,
    pub persist: Option<bool>,
    pub friendly_name: Option<String>,
    pub existing_session: Option<Session>,
}

/// Mathematical content of a [`PendingMfa`].
pub ghost struct PendingMfaView {
    pub time: u64,
    pub user: UserView,
    pub email: Seq<char>,
    pub persist: Option<bool>,
    pub friendly_name: Option<Seq<char>>,
    pub existing_session: Option<SessionView>,
}

impl View for PendingMfa {
    type V = PendingMfaView;

    open spec fn view(&self) -> PendingMfaView {
        PendingMfaView {
            time: self.time,
            user: self.user@,
            email: self.email@,
            persist: self.persist,
            friendly_name: text_opt(self.friendly_name),
            existing_session: session_opt(self.existing_session),
        }
    }
}

/// A grant that lets the session `session_id` perform destructive actions
/// for a while. It is keyed by `token`, the bearer token issued when the
/// owner of the session proved their identity again.
#[derive(Clone, Debug, PartialEq, Eq)]
pub struct ActiveEscalation {
    pub session_id: String,
    pub user_id: String,
    pub time: u64,
    pub token: String,
}

/// Mathematical content of an [`ActiveEscalation`].
pub ghost struct ActiveEscalationView {
    pub session_id: Seq<char>,
    pub user_id: Seq<char>,
    pub time: u64,
    pub token: Seq<char>,
}

impl View for ActiveEscalation {
    type V = ActiveEscalationView;

    open spec fn view(&self) -> ActiveEscalationView {
        ActiveEscalationView {
            session_id: self.session_id@,
            user_id: self.user_id@,
            time: self.time,
            token: self.token@,
        }
    }
}

/// Stage 1, given what the PAKE adapter answered (`started`: the server's
/// message in base64 and the server's login state, `None` where the
/// request was refused) and a fresh continuation token: the pending logins
/// afterwards, and the result.
///
/// Stage 1 is the same whether or not the account exists: the same
/// answer, and a record under the continuation token, which for an
/// address without an account holds no account. A continuation token that
/// is already taken is reported as `DatabaseError` and nothing is
/// overwritten.
pub open spec fn login_begun(
    pre: Records,
    now: u64,
    email: Seq<char>,
    escalate: bool,
    token: Option<Seq<char>>,
    session: Option<SessionView>,
    user: Option<UserView>,
    started: Option<(Seq<char>, Seq<u8>)>,
    continue_token: Seq<char>,
) -> (Records, Result<LoginResponseView, Error>) {
    match session_to_escalate(escalate, token, session) {
        Err(e) => (pre, Err(e)),
        Ok(existing) => match started {
            None => (pre, Err(Error::CredentialError)),
            Some(answer) => if pre.contains_key(continue_token) {
                (pre, Err(Error::DatabaseError))
            } else {
                (
                    pre.insert(
                        continue_token,
                        PendingView::Login(
                            PendingLoginView {
                                time: now,
                                user,
                                email,
                                data: answer.1,
                                existing_session: existing,
                            },
                        ),
                    ),
                    Ok(LoginResponseView::BeginLogin { continue_token, message: answer.0 }),
                )
            },
        },
    }
}

/// Content of what the PAKE adapter answered.
pub open spec fn answer_view(started: Option<(String, Vec<u8>)>) -> Option<(Seq<char>, Seq<u8>)> {
    match started {
        Some(a) => Some((a.0@, a.1@)),
        None => None,
    }
}

/// Stage 1 on the results of the outside calls: see [`login_begun`].
pub fn begin_login_with(
    stores: &mut Stores,
    now: u64,
    email: String,
    escalate: bool,
    token: &Option<String>,
    session: Option<Session>,
    user: Option<User>,
    started: Option<(String, Vec<u8>)>,
    continue_token: String,
) -> (r: Result<LoginResponse, Error>)
    ensures
        (final(stores)@.pending_logins, outcome(r)) == login_begun(
            old(stores)@.pending_logins,
            now,
            email@,
            escalate,
            text_opt(*token),
            session_opt(session),
            user_opt(user),
            answer_view(started),
            continue_token@,
        ),
        final(stores)@ == (StoresView {
            pending_logins: final(stores)@.pending_logins,
            ..old(stores)@
        }),
{
    let existing = match existing_session(escalate, token, session) {
        Ok(existing) => existing,
        Err(e) => {
            return Err(e);
        },
    };
    let (message, state) = match started {
        Some(answer) => answer,
        None => {
            return Err(Error::CredentialError);
        },
    };
    if stores.pending_logins.holds(&continue_token) {
        return Err(Error::DatabaseError);
    }
    let record = PendingLogin { time: now, user, email, data: state, existing_session: existing };
    let _ = stores.pending_logins.put(continue_token.clone(), Pending::Login(record));
    Ok(LoginResponse::BeginLogin { continue_token, message })
}

/// The password file of an optional account.
fn password_data(user: &Option<User>) -> (r: Option<Vec<u8>>)
    ensures
        match *user {
            Some(u) => r matches Some(v) && v@ == u.password_data@,
            None => r is None,
        },
{
    match user {
        Some(u) => Some(u.password_data.clone()),
        None => None,
    }
}

/// What stage 1 guarantees: [`login_begun`] on some answer of the PAKE
/// adapter and some long continuation token. Whatever the account, a
/// missing one included, an answer has the same length, and a message that
/// is no base64 has none. No other store changes.
pub open spec fn begin_login_ensures(
    pre: StoresView,
    post: StoresView,
    now: u64,
    email: Seq<char>,
    message: Seq<char>,
    escalate: bool,
    token: Option<Seq<char>>,
    session: Option<SessionView>,
    user: Option<UserView>,
    r: Result<LoginResponseView, Error>,
) -> bool {
    &&& post == (StoresView { pending_logins: post.pending_logins, ..pre })
    &&& exists|started: Option<(Seq<char>, Seq<u8>)>, continue_token: Seq<char>|
        {
            &&& is_long_token(continue_token)
            &&& started matches Some(a) ==> a.0.len() == base64_len(LOGIN_RESPONSE_LEN as int)
                && a.1.len() == LOGIN_STATE_LEN
            &&& base64_bytes(message) is None ==> started is None
            &&& (post.pending_logins, r) == #[trigger] login_begun(
                pre.pending_logins,
                now,
                email,
                escalate,
                token,
                session,
                user,
                started,
                continue_token,
            )
        }
}

/// Stage 1: begins a login for `email`. `session` is what the caller found
/// under the bearer token `token`, `user` the account it found under
/// `email`, `server_setup` the stored PAKE server setup.
///
/// The PAKE answer is random, so the contract speaks of some answer that
/// [`login_begun`] is applied to. Whatever the account, a missing one
/// included, a successful answer has the same length and the only error
/// that the PAKE step gives is `CredentialError`.
pub fn begin_login(
    stores: &mut Stores,
    server_setup: &Vec<u8>,
    now: u64,
    email: String,
    message: &String,
    escalate: bool,
    token: &Option<String>,
    session: Option<Session>,
    user: Option<User>,
) -> (r: Result<LoginResponse, Error>)
    ensures
        begin_login_ensures(
            old(stores)@,
            final(stores)@,
            now,
            email@,
            message@,
            escalate,
            text_opt(*token),
            session_opt(session),
            user_opt(user),
            outcome(r),
        ),
{
    let refused = escalate && (token.is_none() || session.is_none());
    let started = if refused {
        None
    } else {
        match decode_base64(message) {
            None => None,
            Some(request) => {
                let file = password_data(&user);
                match crate::opaque::begin_login(server_setup, &email, &file, &request) {
                    Ok(answer) => Some((encode_base64(&answer.0), answer.1)),
                    Err(_) => None,
                }
            },
        }
    };
    let continue_token = if started.is_some() {
        generate_continue_token_long()
    } else {
        String::new()
    };
    let ghost started_view = answer_view(started);
    let ghost token_view = if started.is_some() {
        continue_token@
    } else {
        a_long_token()
    };
    let r = begin_login_with(
        stores,
        now,
        email,
        escalate,
        token,
        session,
        user,
        started,
        continue_token,
    );
    assert((stores@.pending_logins, outcome(r)) == login_begun(
        old(stores)@.pending_logins,
        now,
        email@,
        escalate,
        text_opt(*token),
        session_opt(session),
        user_opt(user),
        started_view,
        token_view,
    ));
    r
}

/// Stage 2, given whether the PAKE adapter accepted the client's proof
/// (`verified`), a fresh continuation token for the MFA challenge, the
/// bearer token issued for the account (`jwt`, `None` where none could be
/// made) and a fresh session id: the stores afterwards, and the result.
///
/// A token that is unknown, expired or not of this stage is
/// `SessionExpired`. A failed proof is a `CredentialError` and leaves the
/// record in place; so does every proof for a login that has no account,
/// so that a missing account cannot be told from a wrong password. A
/// proved login of an account with a second factor moves on to the MFA
/// challenge; any other proved login ends as [`granted`] says. The record
/// is consumed exactly where the result is `Ok`.
pub open spec fn login_finished(
    pre: StoresView,
    now: u64,
    continue_token: Seq<char>,
    persist: Option<bool>,
    friendly_name: Option<Seq<char>>,
    verified: bool,
    mfa_token: Seq<char>,
    jwt: Option<Seq<char>>,
    session_id: Seq<char>,
) -> (StoresView, Result<LoginOutcomeView, Error>) {
    match live(pre.pending_logins, continue_token, now, CONTINUE_TIMEOUT) {
        Some(PendingView::Login(p)) => if !verified || p.user is None {
            (pre, Err(Error::CredentialError))
        } else if p.user->0.mfa_enabled {
            if pre.pending_mfas.contains_key(mfa_token) {
                (pre, Err(Error::DatabaseError))
            } else {
                (
                    StoresView {
                        pending_logins: pre.pending_logins.remove(continue_token),
                        pending_mfas: pre.pending_mfas.insert(
                            mfa_token,
                            PendingView::Mfa(
                                PendingMfaView {
                                    time: now,
                                    user: p.user->0,
                                    email: p.email,
                                    persist,
                                    friendly_name,
                                    existing_session: p.existing_session,
                                },
                            ),
                        ),
                        ..pre
                    },
                    Ok(
                        LoginOutcomeView {
                            response: LoginResponseView::FinishLogin {
                                mfa_enabled: true,
                                continue_token: Some(mfa_token),
                                token: None,
                            },
                            session: None,
                            spent_code: None,
                        },
                    ),
                )
            }
        } else {
            match jwt {
                None => (pre, Err(Error::InvalidToken)),
                Some(t) => {
                    let g = granted(
                        pre.active_escalations,
                        p.existing_session,
                        p.user->0.id,
                        friendly_name,
                        now,
                        t,
                        session_id,
                    );
                    match g.1 {
                        Err(e) => (pre, Err(e)),
                        Ok(given) => (
                            StoresView {
                                pending_logins: pre.pending_logins.remove(continue_token),
                                active_escalations: g.0,
                                ..pre
                            },
                            Ok(
                                LoginOutcomeView {
                                    response: LoginResponseView::FinishLogin {
                                        mfa_enabled: false,
                                        continue_token: None,
                                        token: Some(given.token),
                                    },
                                    session: given.session,
                                    spent_code: None,
                                },
                            ),
                        ),
                    }
                },
            }
        },
        _ => (
            StoresView {
                pending_logins: after_access(
                    pre.pending_logins,
                    continue_token,
                    now,
                    CONTINUE_TIMEOUT,
                ),
                ..pre
            },
            Err(Error::SessionExpired),
        ),
    }
}

/// Stage 2 on the results of the outside calls: see [`login_finished`].
pub fn finish_login_with(
    stores: &mut Stores,
    now: u64,
    continue_token: &String,
    persist: Option<bool>,
    friendly_name: Option<String>,
    verified: bool,
    mfa_token: String,
    jwt: Option<String>,
    session_id: String,
) -> (r: Result<LoginOutcome, Error>)
    ensures
        (final(stores)@, outcome(r)) == login_finished(
            old(stores)@,
            now,
            continue_token@,
            persist,
            text_opt(friendly_name),
            verified,
            mfa_token@,
            text_opt(jwt),
            session_id@,
        ),
{
    let record = match stores.pending_logins.access(continue_token, now, CONTINUE_TIMEOUT) {
        Some(Pending::Login(p)) => p,
        _ => {
            return Err(Error::SessionExpired);
        },
    };
    if !verified {
        return Err(Error::CredentialError);
    }
    let user = match record.user {
        Some(u) => u,
        None => {
            return Err(Error::CredentialError);
        },
    };
    if user.mfa_enabled {
        let pending = PendingMfa {
            time: now,
            user,
            email: record.email,
            persist,
            friendly_name,
            existing_session: record.existing_session,
        };
        if !stores.pending_mfas.put(mfa_token.clone(), Pending::Mfa(pending)) {
            return Err(Error::DatabaseError);
        }
        stores.pending_logins.remove(continue_token);
        Ok(
            LoginOutcome {
                response: LoginResponse::FinishLogin {
                    mfa_enabled: true,
                    continue_token: Some(mfa_token),
                    token: None,
                },
                session: None,
                spent_code: None,
            },
        )
    } else {
        let token = match jwt {
            Some(t) => t,
            None => {
                return Err(Error::InvalidToken);
            },
        };
        match grant(
            &mut stores.active_escalations,
            record.existing_session,
            user.id,
            friendly_name,
            now,
            token,
            session_id,
        ) {
            Err(e) => Err(e),
            Ok(given) => {
                stores.pending_logins.remove(continue_token);
                Ok(
                    LoginOutcome {
                        response: LoginResponse::FinishLogin {
                            mfa_enabled: false,
                            continue_token: None,
                            token: Some(given.token),
                        },
                        session: given.session,
                        spent_code: None,
                    },
                )
            },
        }
    }
}

/// Whether a login is to persist: only where the client asked for it.
pub open spec fn persists(persist: Option<bool>) -> bool {
    persist == Some(true)
}

/// Whether the PAKE adapter accepts `message`, the client's finalization in
/// base64, against the login that is pending under `continue_token`.
pub open spec fn login_proved(logins: Records, continue_token: Seq<char>, message: Seq<char>)
    -> bool {
    match logins[continue_token] {
        PendingView::Login(p) => match base64_bytes(message) {
            Some(m) => login_proof_accepted(p.data, m),
            None => false,
        },
        _ => false,
    }
}

/// The bearer token that the login pending under `continue_token` issues
/// at `millis`.
pub open spec fn login_token(
    logins: Records,
    continue_token: Seq<char>,
    millis: u128,
    persist: Option<bool>,
    secret: Seq<u8>,
) -> Option<Seq<char>> {
    match logins[continue_token] {
        PendingView::Login(p) => match p.user {
            Some(u) => issued_token(u.id, millis, persists(persist), secret),
            None => None,
        },
        _ => None,
    }
}

/// What stage 2 guarantees: [`login_finished`] on the verdict of the PAKE
/// adapter and the bearer token that the signer makes, with some long
/// token for the MFA challenge and some session id.
pub open spec fn finish_login_ensures(
    pre: StoresView,
    post: StoresView,
    secret: Seq<u8>,
    clock: Clock,
    message: Seq<char>,
    continue_token: Seq<char>,
    persist: Option<bool>,
    friendly_name: Option<Seq<char>>,
    r: Result<LoginOutcomeView, Error>,
) -> bool {
    exists|mfa_token: Seq<char>, session_id: Seq<char>|
        {
            &&& is_long_token(mfa_token)
            &&& session_id.len() == ID_LEN
            &&& (post, r) == #[trigger] login_finished(
                pre,
                clock.secs,
                continue_token,
                persist,
                friendly_name,
                login_proved(pre.pending_logins, continue_token, message),
                mfa_token,
                login_token(pre.pending_logins, continue_token, clock.millis, persist, secret),
                session_id,
            )
        }
}

/// The value of an optional flag that defaults to `false`.
fn flag(persist: Option<bool>) -> (b: bool)
    ensures
        b == persists(persist),
{
    match persist {
        Some(b) => b,
        None => false,
    }
}

/// Stage 2: checks the client's proof of the password and ends the login
/// or moves it on to the MFA challenge: see [`finish_login_ensures`].
pub fn finish_login(
    stores: &mut Stores,
    env: &Environment,
    clock: Clock,
    message: &String,
    continue_token: &String,
    persist: Option<bool>,
    friendly_name: Option<String>,
) -> (r: Result<LoginOutcome, Error>)
    ensures
        finish_login_ensures(
            old(stores)@,
            final(stores)@,
            env.jwt_secret@,
            clock,
            message@,
            continue_token@,
            persist,
            text_opt(friendly_name),
            outcome(r),
        ),
{
    let (verified, jwt) = match stores.pending_logins.peek(
        continue_token,
        clock.secs,
        CONTINUE_TIMEOUT,
    ) {
        Some(Pending::Login(p)) => {
            let verified = match decode_base64(message) {
                Some(m) => crate::opaque::finish_login(&p.data, &m).is_ok(),
                None => false,
            };
            let jwt = match &p.user {
                Some(u) => if verified && !u.mfa_enabled {
                    token_of(issue_token(&u.id, clock.millis, flag(persist), &env.jwt_secret))
                } else {
                    None
                },
                None => None,
            };
            (verified, jwt)
        },
        _ => (false, None),
    };
    let mfa_token = generate_continue_token_long();
    let session_id = generate_id();
    let ghost mfa_view = mfa_token@;
    let ghost id_view = session_id@;
    let ghost name_view = text_opt(friendly_name);
    let r = finish_login_with(
        stores,
        clock.secs,
        continue_token,
        persist,
        friendly_name,
        verified,
        mfa_token,
        jwt,
        session_id,
    );
    assert((stores@, outcome(r)) == login_finished(
        old(stores)@,
        clock.secs,
        continue_token@,
        persist,
        name_view,
        login_proved(old(stores)@.pending_logins, continue_token@, message@),
        mfa_view,
        login_token(
            old(stores)@.pending_logins,
            continue_token@,
            clock.millis,
            persist,
            env.jwt_secret@,
        ),
        id_view,
    ));
    r
}

/// Whether `code` passes as the second factor of the account `user_id`:
/// it is the code of the current window, or it is the backup code that the
/// caller found for this account.
pub open spec fn second_factor(
    code: Seq<char>,
    user_id: Seq<char>,
    current: Option<Seq<char>>,
    backup: Option<CodeView>,
) -> bool {
    current == Some(code) || backup == Some(CodeView { code, user_id })
}

/// Stage 3, given the code that the account's generator shows in the
/// current window (`current`, `None` where the account has no usable
/// secret), the backup code that the caller found for the account and the
/// code of the request (`backup`), the bearer token issued for the account
/// and a fresh session id: the stores afterwards, and the result.
///
/// The current window is consulted first and alone; only where it does not
/// match does a backup code count, and that code is then handed back to be
/// deleted. A code that passes neither way is `IncorrectCode` and consumes
/// nothing.
pub open spec fn mfa_verified(
    pre: StoresView,
    now: u64,
    code: Seq<char>,
    continue_token: Seq<char>,
    backup: Option<CodeView>,
    current: Option<Seq<char>>,
    jwt: Option<Seq<char>>,
    session_id: Seq<char>,
) -> (StoresView, Result<LoginOutcomeView, Error>) {
    match live(pre.pending_mfas, continue_token, now, CONTINUE_TIMEOUT) {
        Some(PendingView::Mfa(p)) => if !second_factor(code, p.user.id, current, backup) {
            (pre, Err(Error::IncorrectCode))
        } else {
            match jwt {
                None => (pre, Err(Error::InvalidToken)),
                Some(t) => {
                    let g = granted(
                        pre.active_escalations,
                        p.existing_session,
                        p.user.id,
                        p.friendly_name,
                        now,
                        t,
                        session_id,
                    );
                    match g.1 {
                        Err(e) => (pre, Err(e)),
                        Ok(given) => (
                            StoresView {
                                pending_mfas: pre.pending_mfas.remove(continue_token),
                                active_escalations: g.0,
                                ..pre
                            },
                            Ok(
                                LoginOutcomeView {
                                    response: LoginResponseView::Mfa { token: given.token },
                                    session: given.session,
                                    spent_code: if current == Some(code) {
                                        None
                                    } else {
                                        Some(CodeView { code, user_id: p.user.id })
                                    },
                                },
                            ),
                        ),
                    }
                },
            }
        },
        _ => (
            StoresView {
                pending_mfas: after_access(pre.pending_mfas, continue_token, now, CONTINUE_TIMEOUT),
                ..pre
            },
            Err(Error::SessionExpired),
        ),
    }
}

/// Whether two optional texts are the same text.
fn same_text(a: &Option<String>, b: &String) -> (e: bool)
    ensures
        e == (text_opt(*a) == Some(b@)),
{
    match a {
        Some(t) => *t == *b,
        None => false,
    }
}

/// Stage 3 on the results of the outside calls: see [`mfa_verified`].
pub fn mfa_with(
    stores: &mut Stores,
    now: u64,
    code: String,
    continue_token: &String,
    backup: Option<Code>,
    current: Option<String>,
    jwt: Option<String>,
    session_id: String,
) -> (r: Result<LoginOutcome, Error>)
    ensures
        (final(stores)@, outcome(r)) == mfa_verified(
            old(stores)@,
            now,
            code@,
            continue_token@,
            code_opt(backup),
            text_opt(current),
            text_opt(jwt),
            session_id@,
        ),
{
    let record = match stores.pending_mfas.access(continue_token, now, CONTINUE_TIMEOUT) {
        Some(Pending::Mfa(p)) => p,
        _ => {
            return Err(Error::SessionExpired);
        },
    };
    let by_totp = same_text(&current, &code);
    let by_backup = match &backup {
        Some(c) => c.code == code && c.user_id == record.user.id,
        None => false,
    };
    if !by_totp && !by_backup {
        return Err(Error::IncorrectCode);
    }
    let token = match jwt {
        Some(t) => t,
        None => {
            return Err(Error::InvalidToken);
        },
    };
    let spent_code = if by_totp {
        None
    } else {
        Some(Code { code, user_id: record.user.id.clone() })
    };
    match grant(
        &mut stores.active_escalations,
        record.existing_session,
        record.user.id,
        record.friendly_name,
        now,
        token,
        session_id,
    ) {
        Err(e) => Err(e),
        Ok(given) => {
            stores.pending_mfas.remove(continue_token);
            Ok(
                LoginOutcome {
                    response: LoginResponse::Mfa { token: given.token },
                    session: given.session,
                    spent_code,
                },
            )
        },
    }
}

/// The account whose second factor the challenge under `continue_token`
/// waits for: the account whose backup codes the caller is to search.
pub fn mfa_account(stores: &Stores, continue_token: &String) -> (id: Option<String>)
    ensures
        text_opt(id) == (if stores@.pending_mfas.contains_key(continue_token@) {
            match stores@.pending_mfas[continue_token@] {
                PendingView::Mfa(p) => Some(p.user.id),
                _ => None,
            }
        } else {
            None
        }),
{
    match stores.pending_mfas.get(continue_token) {
        Some(Pending::Mfa(p)) => Some(p.user.id),
        _ => None,
    }
}

/// The code that the generator of the account pending under
/// `continue_token` shows at second `now`.
pub open spec fn mfa_code(mfas: Records, continue_token: Seq<char>, issuer: Seq<char>, now: u64)
    -> Option<Seq<char>> {
    match mfas[continue_token] {
        PendingView::Mfa(p) => live_code(p.user.mfa_secret, issuer, p.email, now),
        _ => None,
    }
}

/// The bearer token that the challenge pending under `continue_token`
/// issues at `millis`.
pub open spec fn mfa_token(mfas: Records, continue_token: Seq<char>, millis: u128, secret: Seq<u8>)
    -> Option<Seq<char>> {
    match mfas[continue_token] {
        PendingView::Mfa(p) => issued_token(p.user.id, millis, persists(p.persist), secret),
        _ => None,
    }
}

/// What stage 3 guarantees: [`mfa_verified`] on the code that the
/// account's generator shows now and the bearer token that the signer
/// makes, with some session id.
pub open spec fn mfa_ensures(
    pre: StoresView,
    post: StoresView,
    secret: Seq<u8>,
    issuer: Seq<char>,
    clock: Clock,
    code: Seq<char>,
    continue_token: Seq<char>,
    backup: Option<CodeView>,
    r: Result<LoginOutcomeView, Error>,
) -> bool {
    exists|session_id: Seq<char>|
        {
            &&& session_id.len() == ID_LEN
            &&& (post, r) == #[trigger] mfa_verified(
                pre,
                clock.secs,
                code,
                continue_token,
                backup,
                mfa_code(pre.pending_mfas, continue_token, issuer, clock.secs),
                mfa_token(pre.pending_mfas, continue_token, clock.millis, secret),
                session_id,
            )
        }
}

/// Stage 3: checks the second factor and ends the login: see
/// [`mfa_ensures`].
pub fn mfa(
    stores: &mut Stores,
    env: &Environment,
    clock: Clock,
    code: String,
    continue_token: &String,
    backup: Option<Code>,
) -> (r: Result<LoginOutcome, Error>)
    ensures
        mfa_ensures(
            old(stores)@,
            final(stores)@,
            env.jwt_secret@,
            env.service_name@,
            clock,
            code@,
            continue_token@,
            code_opt(backup),
            outcome(r),
        ),
{
    let (current, jwt) = match stores.pending_mfas.peek(
        continue_token,
        clock.secs,
        CONTINUE_TIMEOUT,
    ) {
        Some(Pending::Mfa(p)) => {
            let current = current_code(&p.user.mfa_secret, &env.service_name, &p.email, clock.secs);
            let jwt = token_of(
                issue_token(&p.user.id, clock.millis, flag(p.persist), &env.jwt_secret),
            );
            (current, jwt)
        },
        _ => (None, None),
    };
    let session_id = generate_id();
    let ghost id_view = session_id@;
    let ghost code_view = code@;
    let ghost backup_view = code_opt(backup);
    let r = mfa_with(stores, clock.secs, code, continue_token, backup, current, jwt, session_id);
    assert((stores@, outcome(r)) == mfa_verified(
        old(stores)@,
        clock.secs,
        code_view,
        continue_token@,
        backup_view,
        mfa_code(old(stores)@.pending_mfas, continue_token@, env.service_name@, clock.secs),
        mfa_token(old(stores)@.pending_mfas, continue_token@, clock.millis, env.jwt_secret@),
        id_view,
    ));
    r
}

/// What [`handle`] guarantees: what the stage of the request guarantees.
pub open spec fn handle_ensures(
    pre: StoresView,
    post: StoresView,
    env: Environment,
    clock: Clock,
    login: Login,
    facts: LoginFacts,
    r: Result<LoginOutcomeView, Error>,
) -> bool {
    match login {
        Login::BeginLogin { email, message, escalate, token } => {
            &&& r matches Ok(o) ==> o.session is None && o.spent_code is None
            &&& begin_login_ensures(
                pre,
                post,
                clock.secs,
                email@,
                message@,
                escalate,
                text_opt(token),
                session_opt(facts.session),
                user_opt(facts.user),
                match r {
                    Ok(o) => Ok(o.response),
                    Err(e) => Err(e),
                },
            )
        },
        Login::FinishLogin {
            message,
            continue_token,
            persist,
            friendly_name,
        } => finish_login_ensures(
            pre,
            post,
            env.jwt_secret@,
            clock,
            message@,
            continue_token@,
            persist,
            text_opt(friendly_name),
            r,
        ),
        Login::Mfa { code, continue_token } => mfa_ensures(
            pre,
            post,
            env.jwt_secret@,
            env.service_name@,
            clock,
            code@,
            continue_token@,
            code_opt(facts.backup),
            r,
        ),
    }
}

/// Handles one request to the login flow at the reading `clock`, with the
/// facts that the caller looked up for it: see [`handle_ensures`].
pub fn handle(stores: &mut Stores, env: &Environment, clock: Clock, login: Login, facts: LoginFacts)
    -> (r: Result<LoginOutcome, Error>)
    ensures
        handle_ensures(old(stores)@, final(stores)@, *env, clock, login, facts, outcome(r)),
{
    match login {
        Login::BeginLogin { email, message, escalate, token } => {
            match begin_login(
                stores,
                &facts.server_setup,
                clock.secs,
                email,
                &message,
                escalate,
                &token,
                facts.session,
                facts.user,
            ) {
                Ok(response) => Ok(LoginOutcome { response, session: None, spent_code: None }),
                Err(e) => Err(e),
            }
        },
        Login::FinishLogin { message, continue_token, persist, friendly_name } => finish_login(
            stores,
            env,
            clock,
            &message,
            &continue_token,
            persist,
            friendly_name,
        ),
        Login::Mfa { code, continue_token } => mfa(
            stores,
            env,
            clock,
            code,
            &continue_token,
            facts.backup,
        ),
    }
}

/// A continuation token that finds no live record is turned down as
/// `SessionExpired` by stage 2, whatever else the request holds. This is
/// so for a token that was never issued, for one whose record has expired
/// though no sweep has run, and for one that was consumed.
pub proof fn finish_login_refuses_stale_token(
    pre: StoresView,
    now: u64,
    continue_token: Seq<char>,
    persist: Option<bool>,
    friendly_name: Option<Seq<char>>,
    verified: bool,
    mfa_token: Seq<char>,
    jwt: Option<Seq<char>>,
    session_id: Seq<char>,
)
    requires
        live(pre.pending_logins, continue_token, now, CONTINUE_TIMEOUT) is None,
    ensures
        login_finished(
            pre,
            now,
            continue_token,
            persist,
            friendly_name,
            verified,
            mfa_token,
            jwt,
            session_id,
        ).1 == Err::<LoginOutcomeView, Error>(Error::SessionExpired),
{
}

/// A continuation token is good for one success of stage 2: when the
/// stage has succeeded with it, a replay with the same token is
/// `SessionExpired`, at whatever time and with whatever else it holds.
pub proof fn finish_login_is_single_use(
    pre: StoresView,
    now: u64,
    continue_token: Seq<char>,
    persist: Option<bool>,
    friendly_name: Option<Seq<char>>,
    verified: bool,
    mfa_token: Seq<char>,
    jwt: Option<Seq<char>>,
    session_id: Seq<char>,
    later: u64,
    verified_again: bool,
    mfa_token_again: Seq<char>,
    jwt_again: Option<Seq<char>>,
    session_id_again: Seq<char>,
)
    requires
        login_finished(
            pre,
            now,
            continue_token,
            persist,
            friendly_name,
            verified,
            mfa_token,
            jwt,
            session_id,
        ).1 is Ok,
    ensures
        login_finished(
            login_finished(
                pre,
                now,
                continue_token,
                persist,
                friendly_name,
                verified,
                mfa_token,
                jwt,
                session_id,
            ).0,
            later,
            continue_token,
            persist,
            friendly_name,
            verified_again,
            mfa_token_again,
            jwt_again,
            session_id_again,
        ).1 == Err::<LoginOutcomeView, Error>(Error::SessionExpired),
{
}

/// A continuation token that finds no live record is turned down as
/// `SessionExpired` by stage 3, whatever else the request holds.
pub proof fn mfa_refuses_stale_token(
    pre: StoresView,
    now: u64,
    code: Seq<char>,
    continue_token: Seq<char>,
    backup: Option<CodeView>,
    current: Option<Seq<char>>,
    jwt: Option<Seq<char>>,
    session_id: Seq<char>,
)
    requires
        live(pre.pending_mfas, continue_token, now, CONTINUE_TIMEOUT) is None,
    ensures
        mfa_verified(pre, now, code, continue_token, backup, current, jwt, session_id).1 == Err::<
            LoginOutcomeView,
            Error,
        >(Error::SessionExpired),
{
}

/// A continuation token is good for one success of stage 3: when the
/// stage has succeeded with it, a replay with the same token is
/// `SessionExpired`, at whatever time and with whatever else it holds.
pub proof fn mfa_is_single_use(
    pre: StoresView,
    now: u64,
    code: Seq<char>,
    continue_token: Seq<char>,
    backup: Option<CodeView>,
    current: Option<Seq<char>>,
    jwt: Option<Seq<char>>,
    session_id: Seq<char>,
    later: u64,
    backup_again: Option<CodeView>,
    current_again: Option<Seq<char>>,
    jwt_again: Option<Seq<char>>,
    session_id_again: Seq<char>,
)
    requires
        mfa_verified(pre, now, code, continue_token, backup, current, jwt, session_id).1 is Ok,
    ensures
        mfa_verified(
            mfa_verified(pre, now, code, continue_token, backup, current, jwt, session_id).0,
            later,
            code,
            continue_token,
            backup_again,
            current_again,
            jwt_again,
            session_id_again,
        ).1 == Err::<LoginOutcomeView, Error>(Error::SessionExpired),
{
}

/// The backup code that a search of the stored codes finds for a request:
/// the stored code with the text of the request that belongs to the
/// account, if there is one.
pub open spec fn found_code(stored: Set<CodeView>, code: Seq<char>, user_id: Seq<char>) -> Option<
    CodeView,
> {
    if stored.contains(CodeView { code, user_id }) {
        Some(CodeView { code, user_id })
    } else {
        None
    }
}

/// The stored codes once the caller has deleted the code that an outcome
/// reports as spent.
pub open spec fn after_spending(stored: Set<CodeView>, spent: Option<CodeView>) -> Set<CodeView> {
    match spent {
        Some(code) => stored.remove(code),
        None => stored,
    }
}

/// A backup code is good for one login. When a challenge of an account has
/// passed on a backup code and the caller has deleted the code that the
/// outcome reports as spent, the same code passes no challenge of this
/// account again unless it happens to be the code of the current window: a
/// live challenge answers `IncorrectCode`. The codes of other accounts are
/// not touched.
pub proof fn backup_code_is_single_use(
    stored: Set<CodeView>,
    pre: StoresView,
    now: u64,
    code: Seq<char>,
    continue_token: Seq<char>,
    user_id: Seq<char>,
    current: Option<Seq<char>>,
    jwt: Option<Seq<char>>,
    session_id: Seq<char>,
    next: StoresView,
    later: u64,
    other_token: Seq<char>,
    current_again: Option<Seq<char>>,
    jwt_again: Option<Seq<char>>,
    session_id_again: Seq<char>,
)
    requires
        mfa_verified(
            pre,
            now,
            code,
            continue_token,
            found_code(stored, code, user_id),
            current,
            jwt,
            session_id,
        ).1 matches Ok(passed) && passed.spent_code is Some,
        current_again != Some(code),
    ensures
        ({
            let passed = mfa_verified(
                pre,
                now,
                code,
                continue_token,
                found_code(stored, code, user_id),
                current,
                jwt,
                session_id,
            ).1->Ok_0;
            let left = after_spending(stored, passed.spent_code);
            let again = mfa_verified(
                next,
                later,
                code,
                other_token,
                found_code(left, code, user_id),
                current_again,
                jwt_again,
                session_id_again,
            ).1;
            &&& passed.spent_code == Some(CodeView { code, user_id })
            &&& forall|c: CodeView| c.user_id != user_id ==> (left.contains(c) <==> stored.contains(c))
            &&& again is Err
            &&& live(next.pending_mfas, other_token, later, CONTINUE_TIMEOUT) matches Some(
                PendingView::Mfa(_),
            ) ==> again == Err::<LoginOutcomeView, Error>(Error::IncorrectCode)
        }),
{
}

/// Stage 1 does not tell whether an account exists: with the same answer
/// of the PAKE adapter and the same continuation token, the result for an
/// address without an account is the result for an address with one, and
/// both leave a record under the token.
pub proof fn begin_login_does_not_tell_accounts(
    pre: Records,
    now: u64,
    email: Seq<char>,
    escalate: bool,
    token: Option<Seq<char>>,
    session: Option<SessionView>,
    user: UserView,
    started: Option<(Seq<char>, Seq<u8>)>,
    continue_token: Seq<char>,
)
    ensures
        ({
            let unknown = login_begun(
                pre,
                now,
                email,
                escalate,
                token,
                session,
                None,
                started,
                continue_token,
            );
            let known = login_begun(
                pre,
                now,
                email,
                escalate,
                token,
                session,
                Some(user),
                started,
                continue_token,
            );
            &&& unknown.1 == known.1
            &&& unknown.0.dom() == known.0.dom()
            &&& unknown.1 is Ok ==> unknown.0.contains_key(continue_token)
        }),
{
}

/// Stage 2 does not tell a missing account from a wrong password: a login
/// that began for an address without an account is answered, within its
/// time and whatever the client sends, as a login for an account is
/// answered when the proof fails: `CredentialError`, and the record
/// stays.
pub proof fn finish_login_does_not_tell_accounts(
    pre: StoresView,
    now: u64,
    continue_token: Seq<char>,
    persist: Option<bool>,
    friendly_name: Option<Seq<char>>,
    verified: bool,
    mfa_token: Seq<char>,
    jwt: Option<Seq<char>>,
    session_id: Seq<char>,
)
    requires
        live(pre.pending_logins, continue_token, now, CONTINUE_TIMEOUT) matches Some(
            PendingView::Login(p),
        ) && (p.user is None || !verified),
    ensures
        login_finished(
            pre,
            now,
            continue_token,
            persist,
            friendly_name,
            verified,
            mfa_token,
            jwt,
            session_id,
        ) == (pre, Err::<LoginOutcomeView, Error>(Error::CredentialError)),
{
}

/// Stage 1 changes the pending logins under its continuation token and
/// nowhere else: with that slot as it was, they are what they were.
pub proof fn begin_login_can_be_taken_back(
    pre: Records,
    now: u64,
    email: Seq<char>,
    escalate: bool,
    token: Option<Seq<char>>,
    session: Option<SessionView>,
    user: Option<UserView>,
    started: Option<(Seq<char>, Seq<u8>)>,
    continue_token: Seq<char>,
)
    ensures
        slot_restored(
            login_begun(pre, now, email, escalate, token, session, user, started, continue_token).0,
            pre,
            continue_token,
        ) == pre,
{
    let post = login_begun(pre, now, email, escalate, token, session, user, started, continue_token).0;
    assert(slot_restored(post, pre, continue_token) =~= pre);
}

/// Stage 2 can be taken back where the caller's write fails: it changes
/// the stores under its continuation token, under the token of the MFA
/// challenge and under the bearer token, and nowhere else, so that with
/// these three put back as they were held the stores are what they were.
pub proof fn finish_login_can_be_taken_back(
    pre: StoresView,
    now: u64,
    continue_token: Seq<char>,
    persist: Option<bool>,
    friendly_name: Option<Seq<char>>,
    verified: bool,
    mfa_token: Seq<char>,
    jwt: Seq<char>,
    session_id: Seq<char>,
)
    ensures
        put_back(
            put_back(
                put_back(
                    login_finished(
                        pre,
                        now,
                        continue_token,
                        persist,
                        friendly_name,
                        verified,
                        mfa_token,
                        Some(jwt),
                        session_id,
                    ).0,
                    held(pre, Flow::PendingLogins, continue_token),
                ),
                held(pre, Flow::PendingMfas, mfa_token),
            ),
            held(pre, Flow::ActiveEscalations, jwt),
        ) == pre,
{
    let post = login_finished(
        pre,
        now,
        continue_token,
        persist,
        friendly_name,
        verified,
        mfa_token,
        Some(jwt),
        session_id,
    ).0;
    let back = put_back(
        put_back(
            put_back(post, held(pre, Flow::PendingLogins, continue_token)),
            held(pre, Flow::PendingMfas, mfa_token),
        ),
        held(pre, Flow::ActiveEscalations, jwt),
    );
    assert(back.pending_logins =~= pre.pending_logins);
    assert(back.pending_mfas =~= pre.pending_mfas);
    assert(back.active_escalations =~= pre.active_escalations);
}

/// Stage 3 can be taken back where the caller's write fails: it changes
/// the stores under its continuation token and under the bearer token,
/// and nowhere else.
pub proof fn mfa_can_be_taken_back(
    pre: StoresView,
    now: u64,
    code: Seq<char>,
    continue_token: Seq<char>,
    backup: Option<CodeView>,
    current: Option<Seq<char>>,
    jwt: Seq<char>,
    session_id: Seq<char>,
)
    ensures
        put_back(
            put_back(
                mfa_verified(
                    pre,
                    now,
                    code,
                    continue_token,
                    backup,
                    current,
                    Some(jwt),
                    session_id,
                ).0,
                held(pre, Flow::PendingMfas, continue_token),
            ),
            held(pre, Flow::ActiveEscalations, jwt),
        ) == pre,
{
    let post = mfa_verified(pre, now, code, continue_token, backup, current, Some(jwt), session_id).0;
    let back = put_back(
        put_back(post, held(pre, Flow::PendingMfas, continue_token)),
        held(pre, Flow::ActiveEscalations, jwt),
    );
    assert(back.pending_mfas =~= pre.pending_mfas);
    assert(back.active_escalations =~= pre.active_escalations);
}

} // verus!
