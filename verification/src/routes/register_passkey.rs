//! Passkey registration for an account that holds an escalation grant.

use vstd::prelude::*;
use vstd::string::StringExecFns;
use crate::constants::CONTINUE_TIMEOUT;
use crate::database::passkey::{passkey_opt, Passkey, PasskeyView};
use crate::database::session::{session_opt, Session, SessionView};
use crate::database::user::{user_opt, User, UserView};
use crate::errors::Error;
use crate::passkey::{
    finish_registration, registered_credential, start_registration, RelyingParty,
    RelyingPartyView,
};

use crate::store::{
    after_access, held, live, put_back, Flow, Pending, PendingView, Records, Stores, StoresView,
};
use crate::utilities::{
    a_long_token, base64_text, encode_base64, escalation_checked, escalation_passes,
    generate_continue_token_long, generate_id, ID_LEN, is_long_token, validate_escalation,
};
use crate::view::{outcome, pair_opt, text_opt};

verus! {

/// A passkey registration that has begun: the account and the ceremony
/// state as the WebAuthn adapter serialized it.
#[derive(Clone, Debug, PartialEq, Eq)]
pub struct PendingRegister {
    pub time: u64,
    pub user: User,
    pub email: String,
    pub data: String,
}

/// Mathematical content of a [`PendingRegister`].
pub ghost struct PendingRegisterView {
    pub time: u64,
    pub user: UserView,
    pub email: Seq<char>,
    pub data: Seq<char>,
}

impl View for PendingRegister {
    type V = PendingRegisterView;

    open spec fn view(&self) -> PendingRegisterView {
        PendingRegisterView {
            time: self.time,
            user: self.user@,
            email: self.email@,
            data: self.data@,
        }
    }
}

/// A request to the passkey registration flow, one variant per stage.
#[derive(Clone, Debug, PartialEq, Eq)]
pub enum Register {
    /// Stage 1: needs an escalation grant.
    BeginRegister { escalation_token: String },
    /// Stage 2. `message` is the client's response to the challenge, as
    /// JSON.
    FinishRegister { message: String, continue_token: String, friendly_name: Option<String> },
}

/// The answer to a [`Register`] request, one variant per stage. The
/// `message` of stage 1 is the challenge for the client, as JSON.
#[derive(Clone, Debug, PartialEq, Eq)]
pub enum RegisterResponse {
    BeginRegister { continue_token: String, message: String },
    FinishRegister {  },
}

/// Mathematical content of a [`RegisterResponse`].
pub ghost enum RegisterResponseView {
    BeginRegister { continue_token: Seq<char>, message: Seq<char> },
    FinishRegister {  },
}

impl View for RegisterResponse {
    type V = RegisterResponseView;

    open spec fn view(&self) -> RegisterResponseView {
        match self {
            RegisterResponse::BeginRegister {
                continue_token,
                message,
            } => RegisterResponseView::BeginRegister {
                continue_token: continue_token@,
                message: message@,
            },
            RegisterResponse::FinishRegister {  } => RegisterResponseView::FinishRegister {  },
        }
    }
}

/// What a stage of the passkey registration asks of its caller: the
/// response to send and, at the end, the passkey to insert.
#[derive(Clone, Debug, PartialEq, Eq)]
pub struct RegisterOutcome {
    pub response: RegisterResponse,
    pub passkey: Option<Passkey>,
}

/// Mathematical content of a [`RegisterOutcome`].
pub ghost struct RegisterOutcomeView {
    pub response: RegisterResponseView,
    pub passkey: Option<PasskeyView>,
}

impl View for RegisterOutcome {
    type V = RegisterOutcomeView;

    open spec fn view(&self) -> RegisterOutcomeView {
        RegisterOutcomeView { response: self.response@, passkey: passkey_opt(self.passkey) }
    }
}

/// What the caller looked up in the persistent store for a request.
#[derive(Clone, Debug, PartialEq, Eq)]
pub struct RegisterFacts {
    /// Stage 1: the session that the grant escalated, see
    /// [`crate::utilities::escalated_session`].
    pub backing: Option<Session>,
    /// Stage 1: the session of the bearer token that came with the request.
    pub presented: Option<Session>,
    /// Stage 1: the account that the grant is for.
    pub user: Option<User>,
}

/// Stage 1, given the ceremony that the WebAuthn adapter began for the
/// account (`ceremony`: the challenge and the state, `None` where it
/// refused) and a fresh continuation token: the stores afterwards, and the
/// result.
///
/// The grant is checked first, as [`escalation_checked`] says. An account
/// that the caller did not find is a `DatabaseError`, a refused ceremony a
/// `CredentialError`, a continuation token that is already taken a
/// `DatabaseError`.
pub open spec fn registration_begun(
    pre: StoresView,
    now: u64,
    escalation_token: Seq<char>,
    backing: Option<SessionView>,
    presented: Option<SessionView>,
    user: Option<UserView>,
    ceremony: Option<(Seq<char>, Seq<char>)>,
    continue_token: Seq<char>,
) -> (StoresView, Result<RegisterOutcomeView, Error>) {
    let checked = escalation_checked(
        pre.active_escalations,
        now,
        escalation_token,
        backing,
        presented,
    );
    let mid = StoresView { active_escalations: checked.0, ..pre };
    match checked.1 {
        Err(e) => (mid, Err(e)),
        Ok(_) => match user {
            None => (mid, Err(Error::DatabaseError)),
            Some(u) => match ceremony {
                None => (mid, Err(Error::CredentialError)),
                Some(c) => if pre.pending_passkey_registers.contains_key(continue_token) {
                    (mid, Err(Error::DatabaseError))
                } else {
                    (
                        StoresView {
                            pending_passkey_registers: pre.pending_passkey_registers.insert(
                                continue_token,
                                PendingView::PasskeyRegister(
                                    PendingRegisterView {
                                        time: now,
                                        user: u,
                                        email: u.username,
                                        data: c.1,
                                    },
                                ),
                            ),
                            ..mid
                        },
                        Ok(
                            RegisterOutcomeView {
                                response: RegisterResponseView::BeginRegister {
                                    continue_token,
                                    message: c.0,
                                },
                                passkey: None,
                            },
                        ),
                    )
                },
            },
        },
    }
}

/// Stage 1 on the results of the outside calls: see
/// [`registration_begun`].
pub fn begin_register_with(
    stores: &mut Stores,
    now: u64,
    escalation_token: &String,
    backing: &Option<Session>,
    presented: &Option<Session>,
    user: Option<User>,
    ceremony: Option<(String, String)>,
    continue_token: String,
) -> (r: Result<RegisterOutcome, Error>)
    ensures
        (final(stores)@, outcome(r)) == registration_begun(
            old(stores)@,
            now,
            escalation_token@,
            session_opt(*backing),
            session_opt(*presented),
            user_opt(user),
            pair_opt(ceremony),
            continue_token@,
        ),
{
    match validate_escalation(stores, now, escalation_token, backing, presented) {
        Err(e) => {
            return Err(e);
        },
        Ok(_) => {},
    }
    let user = match user {
        Some(u) => u,
        None => {
            return Err(Error::DatabaseError);
        },
    };
    let (challenge, state) = match ceremony {
        Some(c) => c,
        None => {
            return Err(Error::CredentialError);
        },
    };
    let record = PendingRegister { time: now, email: user.username.clone(), user, data: state };
    if !stores.pending_passkey_registers.put(
        continue_token.clone(),
        Pending::PasskeyRegister(record),
    ) {
        return Err(Error::DatabaseError);
    }
    Ok(
        RegisterOutcome {
            response: RegisterResponse::BeginRegister { continue_token, message: challenge },
            passkey: None,
        },
    )
}

/// What stage 1 guarantees: [`registration_begun`] on some ceremony and
/// some long continuation token.
pub open spec fn begin_register_ensures(
    pre: StoresView,
    post: StoresView,
    now: u64,
    escalation_token: Seq<char>,
    backing: Option<SessionView>,
    presented: Option<SessionView>,
    user: Option<UserView>,
    r: Result<RegisterOutcomeView, Error>,
) -> bool {
    exists|ceremony: Option<(Seq<char>, Seq<char>)>, continue_token: Seq<char>|
        {
            &&& is_long_token(continue_token)
            &&& (post, r) == #[trigger] registration_begun(
                pre,
                now,
                escalation_token,
                backing,
                presented,
                user,
                ceremony,
                continue_token,
            )
        }
}

/// Stage 1: begins the registration of a passkey for an account that holds
/// an escalation grant: see [`begin_register_ensures`].
pub fn begin_register(
    stores: &mut Stores,
    party: &RelyingParty,
    now: u64,
    escalation_token: &String,
    facts: RegisterFacts,
) -> (r: Result<RegisterOutcome, Error>)
    ensures
        begin_register_ensures(
            old(stores)@,
            final(stores)@,
            now,
            escalation_token@,
            session_opt(facts.backing),
            session_opt(facts.presented),
            user_opt(facts.user),
            outcome(r),
        ),
{
    let passes = escalation_passes(stores, now, escalation_token, &facts.backing, &facts.presented);
    let ceremony = match &facts.user {
        Some(u) => if passes {
            match start_registration(party, &u.id, &u.username) {
                Ok(c) => Some((c.challenge, c.state)),
                Err(_) => None,
            }
        } else {
            None
        },
        None => None,
    };
    let continue_token = if ceremony.is_some() {
        generate_continue_token_long()
    } else {
        String::new()
    };
    let ghost ceremony_view = pair_opt(ceremony);
    let ghost token_view = if ceremony.is_some() {
        continue_token@
    } else {
        a_long_token()
    };
    let r = begin_register_with(
        stores,
        now,
        escalation_token,
        &facts.backing,
        &facts.presented,
        facts.user,
        ceremony,
        continue_token,
    );
    assert((stores@, outcome(r)) == registration_begun(
        old(stores)@,
        now,
        escalation_token@,
        session_opt(facts.backing),
        session_opt(facts.presented),
        user_opt(facts.user),
        ceremony_view,
        token_view,
    ));
    r
}

/// Name of a passkey whose client gave none.
pub open spec fn passkey_name(friendly_name: Option<Seq<char>>) -> Seq<char> {
    match friendly_name {
        Some(n) => n,
        None => "Passkey"@,
    }
}

/// Stage 2, given the credential that the WebAuthn adapter made of the
/// client's response (`credential`: its record and the base64 text of its
/// identifier, `None` where the adapter refused) and a fresh passkey id:
/// the stores afterwards, and the result.
///
/// A token that is unknown, expired or not of this stage is
/// `SessionExpired`. A refused response leaves the record in place. On
/// success the passkey is handed to the caller for the pending account and
/// the record is consumed.
pub open spec fn registration_finished(
    pre: StoresView,
    now: u64,
    continue_token: Seq<char>,
    friendly_name: Option<Seq<char>>,
    credential: Option<(Seq<char>, Seq<char>)>,
    passkey_id: Seq<char>,
) -> (StoresView, Result<RegisterOutcomeView, Error>) {
    match live(pre.pending_passkey_registers, continue_token, now, CONTINUE_TIMEOUT) {
        Some(PendingView::PasskeyRegister(p)) => match credential {
            None => (pre, Err(Error::CredentialError)),
            Some(c) => (
                StoresView {
                    pending_passkey_registers: pre.pending_passkey_registers.remove(
                        continue_token,
                    ),
                    ..pre
                },
                Ok(
                    RegisterOutcomeView {
                        response: RegisterResponseView::FinishRegister {  },
                        passkey: Some(
                            PasskeyView {
                                id: passkey_id,
                                credential: c.0,
                                credential_id: c.1,
                                user_id: p.user.id,
                                friendly_name: passkey_name(friendly_name),
                            },
                        ),
                    },
                ),
            ),
        },
        _ => (
            StoresView {
                pending_passkey_registers: after_access(
                    pre.pending_passkey_registers,
                    continue_token,
                    now,
                    CONTINUE_TIMEOUT,
                ),
                ..pre
            },
            Err(Error::SessionExpired),
        ),
    }
}

/// Stage 2 on the results of the outside calls: see
/// [`registration_finished`].
pub fn finish_register_with(
    stores: &mut Stores,
    now: u64,
    continue_token: &String,
    friendly_name: Option<String>,
    credential: Option<(String, String)>,
    passkey_id: String,
) -> (r: Result<RegisterOutcome, Error>)
    ensures
        (final(stores)@, outcome(r)) == registration_finished(
            old(stores)@,
            now,
            continue_token@,
            text_opt(friendly_name),
            pair_opt(credential),
            passkey_id@,
        ),
{
    let record = match stores.pending_passkey_registers.access(
        continue_token,
        now,
        CONTINUE_TIMEOUT,
    ) {
        Some(Pending::PasskeyRegister(p)) => p,
        _ => {
            return Err(Error::SessionExpired);
        },
    };
    let (credential, credential_id) = match credential {
        Some(c) => c,
        None => {
            return Err(Error::CredentialError);
        },
    };
    stores.pending_passkey_registers.remove(continue_token);
    Ok(
        RegisterOutcome {
            response: RegisterResponse::FinishRegister {  },
            passkey: Some(
                Passkey {
                    id: passkey_id,
                    credential,
                    credential_id,
                    user_id: record.user.id,
                    friendly_name: match friendly_name {
                        Some(n) => n,
                        None => String::from_str("Passkey"),
                    },
                },
            ),
        },
    )
}

/// The credential that the WebAuthn adapter makes of `message` against the
/// ceremony pending under `continue_token`: its record, and its identifier
/// in unpadded URL-safe base64.
pub open spec fn made_credential(
    registers: Records,
    continue_token: Seq<char>,
    party: RelyingPartyView,
    message: Seq<char>,
) -> Option<(Seq<char>, Seq<char>)> {
    match registers[continue_token] {
        PendingView::PasskeyRegister(p) => match registered_credential(
            party.id,
            party.origin,
            party.name,
            message,
            p.data,
        ) {
            Some(c) => Some((c.0, base64_text(c.1))),
            None => None,
        },
        _ => None,
    }
}

/// What stage 2 guarantees: [`registration_finished`] on the credential
/// that the WebAuthn adapter makes, with some passkey id.
pub open spec fn finish_register_ensures(
    pre: StoresView,
    post: StoresView,
    party: RelyingPartyView,
    now: u64,
    message: Seq<char>,
    continue_token: Seq<char>,
    friendly_name: Option<Seq<char>>,
    r: Result<RegisterOutcomeView, Error>,
) -> bool {
    exists|passkey_id: Seq<char>|
        {
            &&& passkey_id.len() == ID_LEN
            &&& (post, r) == #[trigger] registration_finished(
                pre,
                now,
                continue_token,
                friendly_name,
                made_credential(pre.pending_passkey_registers, continue_token, party, message),
                passkey_id,
            )
        }
}

/// Stage 2: checks the client's response and hands out the new passkey:
/// see [`finish_register_ensures`].
pub fn finish_register(
    stores: &mut Stores,
    party: &RelyingParty,
    now: u64,
    message: &String,
    continue_token: &String,
    friendly_name: Option<String>,
) -> (r: Result<RegisterOutcome, Error>)
    ensures
        finish_register_ensures(
            old(stores)@,
            final(stores)@,
            party@,
            now,
            message@,
            continue_token@,
            text_opt(friendly_name),
            outcome(r),
        ),
{
    let credential = match stores.pending_passkey_registers.peek(
        continue_token,
        now,
        CONTINUE_TIMEOUT,
    ) {
        Some(Pending::PasskeyRegister(p)) => match finish_registration(party, message, &p.data) {
            Ok(c) => Some((c.record, encode_base64(&c.id))),
            Err(_) => None,
        },
        _ => None,
    };
    let passkey_id = generate_id();
    let ghost id_view = passkey_id@;
    let ghost name_view = text_opt(friendly_name);
    let r = finish_register_with(stores, now, continue_token, friendly_name, credential, passkey_id);
    assert((stores@, outcome(r)) == registration_finished(
        old(stores)@,
        now,
        continue_token@,
        name_view,
        made_credential(old(stores)@.pending_passkey_registers, continue_token@, party@, message@),
        id_view,
    ));
    r
}

/// What [`handle`] guarantees: what the stage of the request guarantees.
pub open spec fn handle_ensures(
    pre: StoresView,
    post: StoresView,
    party: RelyingPartyView,
    now: u64,
    register: Register,
    facts: RegisterFacts,
    r: Result<RegisterOutcomeView, Error>,
) -> bool {
    match register {
        Register::BeginRegister { escalation_token } => begin_register_ensures(
            pre,
            post,
            now,
            escalation_token@,
            session_opt(facts.backing),
            session_opt(facts.presented),
            user_opt(facts.user),
            r,
        ),
        Register::FinishRegister {
            message,
            continue_token,
            friendly_name,
        } => finish_register_ensures(
            pre,
            post,
            party,
            now,
            message@,
            continue_token@,
            text_opt(friendly_name),
            r,
        ),
    }
}

/// Handles one request to the passkey registration flow at second `now`,
/// with the facts that the caller looked up for it: see
/// [`handle_ensures`].
pub fn handle(
    stores: &mut Stores,
    party: &RelyingParty,
    now: u64,
    register: Register,
    facts: RegisterFacts,
) -> (r: Result<RegisterOutcome, Error>)
    ensures
        handle_ensures(old(stores)@, final(stores)@, party@, now, register, facts, outcome(r)),
{
    match register {
        Register::BeginRegister { escalation_token } => begin_register(
            stores,
            party,
            now,
            &escalation_token,
            facts,
        ),
        Register::FinishRegister { message, continue_token, friendly_name } => finish_register(
            stores,
            party,
            now,
            &message,
            &continue_token,
            friendly_name,
        ),
    }
}

/// A continuation token that finds no live record is turned down as
/// `SessionExpired` by stage 2, whatever else the request holds: a token
/// that was never issued, one whose record has expired though no sweep has
/// run, and one that was consumed.
pub proof fn finish_register_refuses_stale_token(
    pre: StoresView,
    now: u64,
    continue_token: Seq<char>,
    friendly_name: Option<Seq<char>>,
    credential: Option<(Seq<char>, Seq<char>)>,
    passkey_id: Seq<char>,
)
    requires
        live(pre.pending_passkey_registers, continue_token, now, CONTINUE_TIMEOUT) is None,
    ensures
        registration_finished(pre, now, continue_token, friendly_name, credential, passkey_id).1
            == Err::<RegisterOutcomeView, Error>(Error::SessionExpired),
{
}

/// A continuation token is good for one passkey: when stage 2 has
/// succeeded with it, a replay with the same token is `SessionExpired`, at
/// whatever time and with whatever else it holds.
pub proof fn finish_register_is_single_use(
    pre: StoresView,
    now: u64,
    continue_token: Seq<char>,
    friendly_name: Option<Seq<char>>,
    credential: Option<(Seq<char>, Seq<char>)>,
    passkey_id: Seq<char>,
    later: u64,
    credential_again: Option<(Seq<char>, Seq<char>)>,
    passkey_id_again: Seq<char>,
)
    requires
        registration_finished(pre, now, continue_token, friendly_name, credential, passkey_id).1
            is Ok,
    ensures
        registration_finished(
            registration_finished(
                pre,
                now,
                continue_token,
                friendly_name,
                credential,
                passkey_id,
            ).0,
            later,
            continue_token,
            friendly_name,
            credential_again,
            passkey_id_again,
        ).1 == Err::<RegisterOutcomeView, Error>(Error::SessionExpired),
{
}

/// Stage 2 can be taken back where the caller's write fails: it changes
/// the stores under its continuation token and nowhere else.
pub proof fn finish_register_can_be_taken_back(
    pre: StoresView,
    now: u64,
    continue_token: Seq<char>,
    friendly_name: Option<Seq<char>>,
    credential: Option<(Seq<char>, Seq<char>)>,
    passkey_id: Seq<char>,
)
    ensures
        put_back(
            registration_finished(
                pre,
                now,
                continue_token,
                friendly_name,
                credential,
                passkey_id,
            ).0,
            held(pre, Flow::PendingPasskeyRegisters, continue_token),
        ) == pre,
{
    let back = put_back(
        registration_finished(pre, now, continue_token, friendly_name, credential, passkey_id).0,
        held(pre, Flow::PendingPasskeyRegisters, continue_token),
    );
    assert(back.pending_passkey_registers =~= pre.pending_passkey_registers);
}

} // verus!
