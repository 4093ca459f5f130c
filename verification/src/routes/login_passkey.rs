//! Passkey login: a discoverable WebAuthn authentication in two stages.

use vstd::prelude::*;
use crate::authenticate::{existing_session, grant, granted, issue_token, issued_token, session_to_escalate};
use crate::constants::CONTINUE_TIMEOUT;
use crate::database::passkey::{passkey_opt, Passkey, PasskeyView};
use crate::database::session::{session_opt, Session, SessionView};
use crate::database::user::{user_opt, User, UserView};
use crate::environment::{Clock, Environment};
use crate::errors::Error;
use crate::passkey::{
    authenticated_credential, finish_discoverable_authentication, named_credential,
    start_discoverable_authentication, RelyingParty, RelyingPartyView,
};
use crate::routes::login::persists;
use crate::store::{
    after_access, held, live, put_back, Flow, Pending, PendingView, Records, Stores, StoresView,
};
use crate::utilities::{
    a_long_token, generate_continue_token_long, generate_id, ID_LEN, is_long_token,
};
use crate::view::{outcome, pair_opt, text_opt, token_of};

verus! {

/// A passkey login that has begun: the ceremony state as the WebAuthn
/// adapter serialized it and, where an existing session is being escalated,
/// that session.
#[derive(Clone, Debug, PartialEq, Eq)]
pub struct PendingLogin {
    pub time: u64,
    pub data: String,
    pub existing_session: Option<Session>,
}

/// Mathematical content of a [`PendingLogin`].
pub ghost struct PendingLoginView {
    pub time: u64,
    pub data: Seq<char>,
    pub existing_session: Option<SessionView>,
}

impl View for PendingLogin {
    type V = PendingLoginView;

    open spec fn view(&self) -> PendingLoginView {
        PendingLoginView {
            time: self.time,
            data: self.data@,
            existing_session: session_opt(self.existing_session),
        }
    }
}

/// A request to the passkey login flow, one variant per stage.
#[derive(Clone, Debug, PartialEq, Eq)]
pub enum Login {
    /// Stage 1. `token` names the session to escalate and is required
    /// where `escalate` is set.
    BeginLogin { escalate: bool, token: Option<String> },
    /// Stage 2. `message` is the client's response to the challenge, as
    /// JSON.
    FinishLogin {
        message: String,
        continue_token: String,
        persist: Option<bool>,
        friendly_name: Option<String>,
    },
}

/// The answer to a [`Login`] request, one variant per stage. The `message`
/// of stage 1 is the challenge for the client, as JSON.
#[derive(Clone, Debug, PartialEq, Eq)]
pub enum LoginResponse {
    BeginLogin { continue_token: String, message: String },
    FinishLogin { token: String },
}

/// Mathematical content of a [`LoginResponse`].
pub ghost enum LoginResponseView {
    BeginLogin { continue_token: Seq<char>, message: Seq<char> },
    FinishLogin { token: Seq<char> },
}

impl View for LoginResponse {
    type V = LoginResponseView;

    open spec fn view(&self) -> LoginResponseView {
        match self {
            LoginResponse::BeginLogin { continue_token, message } => LoginResponseView::BeginLogin {
                continue_token: continue_token@,
                message: message@,
            },
            LoginResponse::FinishLogin { token } => LoginResponseView::FinishLogin {
                token: token@,
            },
        }
    }
}

/// What a stage of the passkey login asks of its caller: the response to
/// send and, where the login created one, the session to insert.
#[derive(Clone, Debug, PartialEq, Eq)]
pub struct LoginOutcome {
    pub response: LoginResponse,
    pub session: Option<Session>,
}

/// Mathematical content of a [`LoginOutcome`].
pub ghost struct LoginOutcomeView {
    pub response: LoginResponseView,
    pub session: Option<SessionView>,
}

impl View for LoginOutcome {
    type V = LoginOutcomeView;

    open spec fn view(&self) -> LoginOutcomeView {
        LoginOutcomeView { response: self.response@, session: session_opt(self.session) }
    }
}

/// What the caller looked up in the persistent store for a request.
#[derive(Clone, Debug, PartialEq, Eq)]
pub struct LoginFacts {
    /// Stage 1: the session whose bearer token the request carries.
    pub session: Option<Session>,
    /// Stage 2: the passkey with the credential id that the response
    /// names, see [`crate::passkey::credential_id`].
    pub passkey: Option<Passkey>,
    /// Stage 2: the account that this passkey belongs to.
    pub user: Option<User>,
}

/// Stage 1, given the ceremony that the WebAuthn adapter began
/// (`ceremony`: the challenge and the state, `None` where it refused) and
/// a fresh continuation token: the pending passkey logins afterwards, and
/// the result.
pub open spec fn login_begun(
    pre: Records,
    now: u64,
    escalate: bool,
    token: Option<Seq<char>>,
    session: Option<SessionView>,
    ceremony: Option<(Seq<char>, Seq<char>)>,
    continue_token: Seq<char>,
) -> (Records, Result<LoginOutcomeView, Error>) {
    match session_to_escalate(escalate, token, session) {
        Err(e) => (pre, Err(e)),
        Ok(existing) => match ceremony {
            None => (pre, Err(Error::CredentialError)),
            Some(c) => if pre.contains_key(continue_token) {
                (pre, Err(Error::DatabaseError))
            } else {
                (
                    pre.insert(
                        continue_token,
                        PendingView::PasskeyLogin(
                            PendingLoginView { time: now, data: c.1, existing_session: existing },
                        ),
                    ),
                    Ok(
                        LoginOutcomeView {
                            response: LoginResponseView::BeginLogin {
                                continue_token,
                                message: c.0,
                            },
                            session: None,
                        },
                    ),
                )
            },
        },
    }
}

/// Stage 1 on the results of the outside calls: see [`login_begun`].
pub fn begin_login_with(
    stores: &mut Stores,
    now: u64,
    escalate: bool,
    token: &Option<String>,
    session: Option<Session>,
    ceremony: Option<(String, String)>,
    continue_token: String,
) -> (r: Result<LoginOutcome, Error>)
    ensures
        (final(stores)@.pending_passkey_logins, outcome(r)) == login_begun(
            old(stores)@.pending_passkey_logins,
            now,
            escalate,
            text_opt(*token),
            session_opt(session),
            pair_opt(ceremony),
            continue_token@,
        ),
        final(stores)@ == (StoresView {
            pending_passkey_logins: final(stores)@.pending_passkey_logins,
            ..old(stores)@
        }),
{
    let existing = match existing_session(escalate, token, session) {
        Ok(existing) => existing,
        Err(e) => {
            return Err(e);
        },
    };
    let (challenge, state) = match ceremony {
        Some(c) => c,
        None => {
            return Err(Error::CredentialError);
        },
    };
    let record = PendingLogin { time: now, data: state, existing_session: existing };
    if !stores.pending_passkey_logins.put(continue_token.clone(), Pending::PasskeyLogin(record)) {
        return Err(Error::DatabaseError);
    }
    Ok(
        LoginOutcome {
            response: LoginResponse::BeginLogin { continue_token, message: challenge },
            session: None,
        },
    )
}

/// What stage 1 guarantees: [`login_begun`] on some ceremony and some long
/// continuation token. No other store changes.
pub open spec fn begin_login_ensures(
    pre: StoresView,
    post: StoresView,
    now: u64,
    escalate: bool,
    token: Option<Seq<char>>,
    session: Option<SessionView>,
    r: Result<LoginOutcomeView, Error>,
) -> bool {
    &&& post == (StoresView { pending_passkey_logins: post.pending_passkey_logins, ..pre })
    &&& exists|ceremony: Option<(Seq<char>, Seq<char>)>, continue_token: Seq<char>|
        {
            &&& is_long_token(continue_token)
            &&& (post.pending_passkey_logins, r) == #[trigger] login_begun(
                pre.pending_passkey_logins,
                now,
                escalate,
                token,
                session,
                ceremony,
                continue_token,
            )
        }
}

/// Stage 1: begins a passkey login: see [`begin_login_ensures`].
pub fn begin_login(
    stores: &mut Stores,
    party: &RelyingParty,
    now: u64,
    escalate: bool,
    token: &Option<String>,
    session: Option<Session>,
) -> (r: Result<LoginOutcome, Error>)
    ensures
        begin_login_ensures(
            old(stores)@,
            final(stores)@,
            now,
            escalate,
            text_opt(*token),
            session_opt(session),
            outcome(r),
        ),
{
    let refused = escalate && (token.is_none() || session.is_none());
    let ceremony = if refused {
        None
    } else {
        match start_discoverable_authentication(party) {
            Ok(c) => Some((c.challenge, c.state)),
            Err(_) => None,
        }
    };
    let continue_token = if ceremony.is_some() {
        generate_continue_token_long()
    } else {
        String::new()
    };
    let ghost ceremony_view = pair_opt(ceremony);
    let ghost token_view = if ceremony.is_some() {
        continue_token@
    } else {
        a_long_token()
    };
    let r = begin_login_with(stores, now, escalate, token, session, ceremony, continue_token);
    assert((stores@.pending_passkey_logins, outcome(r)) == login_begun(
        old(stores)@.pending_passkey_logins,
        now,
        escalate,
        text_opt(*token),
        session_opt(session),
        ceremony_view,
        token_view,
    ));
    r
}

/// Whether the passkey and the account that the caller found are the ones
/// that the response names: the passkey has the credential id of the
/// response, and the account is the passkey's.
pub open spec fn resolved(
    named: Option<Seq<char>>,
    passkey: Option<PasskeyView>,
    user: Option<UserView>,
) -> bool {
    &&& passkey matches Some(p)
    &&& named == Some(p.credential_id)
    &&& user matches Some(u)
    &&& u.id == p.user_id
}

/// Stage 2, given the credential id that the client's response names,
/// whether the WebAuthn adapter accepted the response for the passkey that
/// the caller found (`authenticated`), the bearer token issued for the
/// account and a fresh session id: the stores afterwards, and the result.
///
/// A token that is unknown, expired or not of this stage is
/// `SessionExpired`. A response that names no stored passkey, a passkey
/// without its account and a response that the adapter turns down are all
/// `CredentialError`, so that the answer does not tell which it was. An
/// account that is not the one of the session being escalated is a
/// `UserMismatch`. These failures leave the record in place. Otherwise the
/// login ends as [`granted`] says and the record is consumed.
pub open spec fn login_finished(
    pre: StoresView,
    now: u64,
    continue_token: Seq<char>,
    friendly_name: Option<Seq<char>>,
    named: Option<Seq<char>>,
    passkey: Option<PasskeyView>,
    user: Option<UserView>,
    authenticated: bool,
    jwt: Option<Seq<char>>,
    session_id: Seq<char>,
) -> (StoresView, Result<LoginOutcomeView, Error>) {
    match live(pre.pending_passkey_logins, continue_token, now, CONTINUE_TIMEOUT) {
        Some(PendingView::PasskeyLogin(p)) => if !resolved(named, passkey, user) || !authenticated {
            (pre, Err(Error::CredentialError))
        } else if p.existing_session matches Some(s) && s.user_id != user->0.id {
            (pre, Err(Error::UserMismatch))
        } else {
            match jwt {
                None => (pre, Err(Error::InvalidToken)),
                Some(t) => {
                    let g = granted(
                        pre.active_escalations,
                        p.existing_session,
                        user->0.id,
                        friendly_name,
                        now,
                        t,
                        session_id,
                    );
                    match g.1 {
                        Err(e) => (pre, Err(e)),
                        Ok(given) => (
                            StoresView {
                                pending_passkey_logins: pre.pending_passkey_logins.remove(
                                    continue_token,
                                ),
                                active_escalations: g.0,
                                ..pre
                            },
                            Ok(
                                LoginOutcomeView {
                                    response: LoginResponseView::FinishLogin {
                                        token: given.token,
                                    },
                                    session: given.session,
                                },
                            ),
                        ),
                    }
                },
            }
        },
        _ => (
            StoresView {
                pending_passkey_logins: after_access(
                    pre.pending_passkey_logins,
                    continue_token,
                    now,
                    CONTINUE_TIMEOUT,
                ),
                ..pre
            },
            Err(Error::SessionExpired),
        ),
    }
}

/// Checks what the caller found against what the response names: see
/// [`resolved`].
fn resolve(named: &Option<String>, passkey: &Option<Passkey>, user: &Option<User>) -> (ok: bool)
    ensures
        ok == resolved(text_opt(*named), passkey_opt(*passkey), user_opt(*user)),
{
    match (named, passkey, user) {
        (Some(n), Some(p), Some(u)) => *n == p.credential_id && u.id == p.user_id,
        _ => false,
    }
}

/// Stage 2 on the results of the outside calls: see [`login_finished`].
pub fn finish_login_with(
    stores: &mut Stores,
    now: u64,
    continue_token: &String,
    friendly_name: Option<String>,
    named: &Option<String>,
    passkey: &Option<Passkey>,
    user: Option<User>,
    authenticated: bool,
    jwt: Option<String>,
    session_id: String,
) -> (r: Result<LoginOutcome, Error>)
    ensures
        (final(stores)@, outcome(r)) == login_finished(
            old(stores)@,
            now,
            continue_token@,
            text_opt(friendly_name),
            text_opt(*named),
            passkey_opt(*passkey),
            user_opt(user),
            authenticated,
            text_opt(jwt),
            session_id@,
        ),
{
    let record = match stores.pending_passkey_logins.access(continue_token, now, CONTINUE_TIMEOUT) {
        Some(Pending::PasskeyLogin(p)) => p,
        _ => {
            return Err(Error::SessionExpired);
        },
    };
    if !resolve(named, passkey, &user) || !authenticated {
        return Err(Error::CredentialError);
    }
    let user = match user {
        Some(u) => u,
        None => {
            return Err(Error::CredentialError);
        },
    };
    let mismatch = match &record.existing_session {
        Some(s) => s.user_id != user.id,
        None => false,
    };
    if mismatch {
        return Err(Error::UserMismatch);
    }
    let token = match jwt {
        Some(t) => t,
        None => {
            return Err(Error::InvalidToken);
        },
    };
    match grant(
        &mut stores.active_escalations,
        record.existing_session,
        user.id,
        friendly_name,
        now,
        token,
        session_id,
    ) {
        Err(e) => Err(e),
        Ok(given) => {
            stores.pending_passkey_logins.remove(continue_token);
            Ok(
                LoginOutcome {
                    response: LoginResponse::FinishLogin { token: given.token },
                    session: given.session,
                },
            )
        },
    }
}

/// Whether the WebAuthn adapter accepts `message` for the passkey that the
/// caller found, against the ceremony pending under `continue_token`.
pub open spec fn login_authenticated(
    logins: Records,
    continue_token: Seq<char>,
    party: RelyingPartyView,
    message: Seq<char>,
    passkey: Option<PasskeyView>,
) -> bool {
    match (logins[continue_token], passkey) {
        (PendingView::PasskeyLogin(p), Some(k)) => authenticated_credential(
            party.id,
            party.origin,
            party.name,
            message,
            p.data,
            k.credential,
        ) is Some,
        _ => false,
    }
}

/// The bearer token that a login of the account that the caller found
/// issues at `millis`.
pub open spec fn login_token(
    user: Option<UserView>,
    millis: u128,
    persist: Option<bool>,
    secret: Seq<u8>,
) -> Option<Seq<char>> {
    match user {
        Some(u) => issued_token(u.id, millis, persists(persist), secret),
        None => None,
    }
}

/// What stage 2 guarantees: [`login_finished`] on the credential id that
/// the response names, the verdict of the WebAuthn adapter and the bearer
/// token that the signer makes, with some session id.
pub open spec fn finish_login_ensures(
    pre: StoresView,
    post: StoresView,
    party: RelyingPartyView,
    secret: Seq<u8>,
    clock: Clock,
    message: Seq<char>,
    continue_token: Seq<char>,
    persist: Option<bool>,
    friendly_name: Option<Seq<char>>,
    passkey: Option<PasskeyView>,
    user: Option<UserView>,
    r: Result<LoginOutcomeView, Error>,
) -> bool {
    exists|session_id: Seq<char>|
        {
            &&& session_id.len() == ID_LEN
            &&& (post, r) == #[trigger] login_finished(
                pre,
                clock.secs,
                continue_token,
                friendly_name,
                named_credential(message),
                passkey,
                user,
                login_authenticated(
                    pre.pending_passkey_logins,
                    continue_token,
                    party,
                    message,
                    passkey,
                ),
                login_token(user, clock.millis, persist, secret),
                session_id,
            )
        }
}

/// Stage 2: checks the client's response and ends the login: see
/// [`finish_login_ensures`].
pub fn finish_login(
    stores: &mut Stores,
    party: &RelyingParty,
    env: &Environment,
    clock: Clock,
    message: &String,
    continue_token: &String,
    persist: Option<bool>,
    friendly_name: Option<String>,
    passkey: &Option<Passkey>,
    user: Option<User>,
) -> (r: Result<LoginOutcome, Error>)
    ensures
        finish_login_ensures(
            old(stores)@,
            final(stores)@,
            party@,
            env.jwt_secret@,
            clock,
            message@,
            continue_token@,
            persist,
            text_opt(friendly_name),
            passkey_opt(*passkey),
            user_opt(user),
            outcome(r),
        ),
{
    let long_lived = match persist {
        Some(b) => b,
        None => false,
    };
    let (named, authenticated, jwt) = match stores.pending_passkey_logins.peek(
        continue_token,
        clock.secs,
        CONTINUE_TIMEOUT,
    ) {
        Some(Pending::PasskeyLogin(p)) => {
            let named = crate::passkey::credential_id(message);
            let authenticated = match passkey {
                Some(k) => finish_discoverable_authentication(
                    party,
                    message,
                    &p.data,
                    &k.credential,
                ).is_ok(),
                None => false,
            };
            let jwt = match &user {
                Some(u) => if authenticated {
                    token_of(issue_token(&u.id, clock.millis, long_lived, &env.jwt_secret))
                } else {
                    None
                },
                None => None,
            };
            (named, authenticated, jwt)
        },
        _ => (None, false, None),
    };
    let session_id = generate_id();
    let ghost id_view = session_id@;
    let ghost name_view = text_opt(friendly_name);
    let ghost user_view = user_opt(user);
    let r = finish_login_with(
        stores,
        clock.secs,
        continue_token,
        friendly_name,
        &named,
        passkey,
        user,
        authenticated,
        jwt,
        session_id,
    );
    assert((stores@, outcome(r)) == login_finished(
        old(stores)@,
        clock.secs,
        continue_token@,
        name_view,
        named_credential(message@),
        passkey_opt(*passkey),
        user_view,
        login_authenticated(
            old(stores)@.pending_passkey_logins,
            continue_token@,
            party@,
            message@,
            passkey_opt(*passkey),
        ),
        login_token(user_view, clock.millis, persist, env.jwt_secret@),
        id_view,
    ));
    r
}

/// What [`handle`] guarantees: what the stage of the request guarantees.
pub open spec fn handle_ensures(
    pre: StoresView,
    post: StoresView,
    party: RelyingPartyView,
    env: Environment,
    clock: Clock,
    login: Login,
    facts: LoginFacts,
    r: Result<LoginOutcomeView, Error>,
) -> bool {
    match login {
        Login::BeginLogin { escalate, token } => begin_login_ensures(
            pre,
            post,
            clock.secs,
            escalate,
            text_opt(token),
            session_opt(facts.session),
            r,
        ),
        Login::FinishLogin {
            message,
            continue_token,
            persist,
            friendly_name,
        } => finish_login_ensures(
            pre,
            post,
            party,
            env.jwt_secret@,
            clock,
            message@,
            continue_token@,
            persist,
            text_opt(friendly_name),
            passkey_opt(facts.passkey),
            user_opt(facts.user),
            r,
        ),
    }
}

/// Handles one request to the passkey login flow at the reading `clock`,
/// with the facts that the caller looked up for it: see
/// [`handle_ensures`].
pub fn handle(
    stores: &mut Stores,
    party: &RelyingParty,
    env: &Environment,
    clock: Clock,
    login: Login,
    facts: LoginFacts,
) -> (r: Result<LoginOutcome, Error>)
    ensures
        handle_ensures(old(stores)@, final(stores)@, party@, *env, clock, login, facts, outcome(r)),
{
    match login {
        Login::BeginLogin { escalate, token } => begin_login(
            stores,
            party,
            clock.secs,
            escalate,
            &token,
            facts.session,
        ),
        Login::FinishLogin { message, continue_token, persist, friendly_name } => finish_login(
            stores,
            party,
            env,
            clock,
            &message,
            &continue_token,
            persist,
            friendly_name,
            &facts.passkey,
            facts.user,
        ),
    }
}

/// A continuation token that finds no live record is turned down as
/// `SessionExpired` by stage 2, whatever else the request holds: a token
/// that was never issued, one whose record has expired though no sweep has
/// run, and one that was consumed.
pub proof fn finish_login_refuses_stale_token(
    pre: StoresView,
    now: u64,
    continue_token: Seq<char>,
    friendly_name: Option<Seq<char>>,
    named: Option<Seq<char>>,
    passkey: Option<PasskeyView>,
    user: Option<UserView>,
    authenticated: bool,
    jwt: Option<Seq<char>>,
    session_id: Seq<char>,
)
    requires
        live(pre.pending_passkey_logins, continue_token, now, CONTINUE_TIMEOUT) is None,
    ensures
        login_finished(
            pre,
            now,
            continue_token,
            friendly_name,
            named,
            passkey,
            user,
            authenticated,
            jwt,
            session_id,
        ).1 == Err::<LoginOutcomeView, Error>(Error::SessionExpired),
{
}

/// A continuation token is good for one login: when stage 2 has succeeded
/// with it, a replay with the same token is `SessionExpired`, at whatever
/// time and with whatever else it holds.
pub proof fn finish_login_is_single_use(
    pre: StoresView,
    now: u64,
    continue_token: Seq<char>,
    friendly_name: Option<Seq<char>>,
    named: Option<Seq<char>>,
    passkey: Option<PasskeyView>,
    user: Option<UserView>,
    authenticated: bool,
    jwt: Option<Seq<char>>,
    session_id: Seq<char>,
    later: u64,
    authenticated_again: bool,
    jwt_again: Option<Seq<char>>,
    session_id_again: Seq<char>,
)
    requires
        login_finished(
            pre,
            now,
            continue_token,
            friendly_name,
            named,
            passkey,
            user,
            authenticated,
            jwt,
            session_id,
        ).1 is Ok,
    ensures
        login_finished(
            login_finished(
                pre,
                now,
                continue_token,
                friendly_name,
                named,
                passkey,
                user,
                authenticated,
                jwt,
                session_id,
            ).0,
            later,
            continue_token,
            friendly_name,
            named,
            passkey,
            user,
            authenticated_again,
            jwt_again,
            session_id_again,
        ).1 == Err::<LoginOutcomeView, Error>(Error::SessionExpired),
{
}

/// Stage 2 can be taken back where the caller's write fails: it changes
/// the stores under its continuation token and under the bearer token,
/// and nowhere else.
pub proof fn finish_login_can_be_taken_back(
    pre: StoresView,
    now: u64,
    continue_token: Seq<char>,
    friendly_name: Option<Seq<char>>,
    named: Option<Seq<char>>,
    passkey: Option<PasskeyView>,
    user: Option<UserView>,
    authenticated: bool,
    jwt: Seq<char>,
    session_id: Seq<char>,
)
    ensures
        put_back(
            put_back(
                login_finished(
                    pre,
                    now,
                    continue_token,
                    friendly_name,
                    named,
                    passkey,
                    user,
                    authenticated,
                    Some(jwt),
                    session_id,
                ).0,
                held(pre, Flow::PendingPasskeyLogins, continue_token),
            ),
            held(pre, Flow::ActiveEscalations, jwt),
        ) == pre,
{
    let post = login_finished(
        pre,
        now,
        continue_token,
        friendly_name,
        named,
        passkey,
        user,
        authenticated,
        Some(jwt),
        session_id,
    ).0;
    let back = put_back(
        put_back(post, held(pre, Flow::PendingPasskeyLogins, continue_token)),
        held(pre, Flow::ActiveEscalations, jwt),
    );
    assert(back.pending_passkey_logins =~= pre.pending_passkey_logins);
    assert(back.active_escalations =~= pre.active_escalations);
}

} // verus!
