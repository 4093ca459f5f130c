//! Password update for an account that holds an escalation grant.

use vstd::prelude::*;
use crate::constants::SHORT_TIMEOUT;
use crate::database::session::{session_opt, Session, SessionView};
use crate::database::user::{
    password_opt, user_opt, PasswordUpdate, PasswordUpdateView, User, UserView,
};
use crate::errors::Error;
use crate::opaque::{password_file, registration_response};
use crate::store::{
    after_access, held, live, put_back, Flow, Pending, PendingView, Stores, StoresView,
};
use crate::utilities::{
    a_long_token, escalation_checked, escalation_passes, generate_continue_token_long,
    is_long_token, validate_escalation,
};
use crate::view::{bytes_of, bytes_opt, outcome};

verus! {

/// What an update keeps between its stages: whose password is being
/// replaced, by account id, and the address the PAKE messages are bound to.
#[derive(Clone, Debug, PartialEq, Eq)]
pub struct PendingUpdate {
    pub time: u64,
    pub user_id: String,
    pub email: String,
}

/// Mathematical content of a [`PendingUpdate`].
pub ghost struct PendingUpdateView {
    pub time: u64,
    pub user_id: Seq<char>,
    pub email: Seq<char>,
}

impl View for PendingUpdate {
    type V = PendingUpdateView;

    open spec fn view(&self) -> PendingUpdateView {
        PendingUpdateView { time: self.time, user_id: self.user_id@, email: self.email@ }
    }
}

/// A request to the password update flow, one variant per stage.
#[derive(Clone, Debug, PartialEq, Eq)]
pub enum UpdatePassword {
    /// Stage 1: the escalation grant and the client's PAKE registration
    /// request.
    BeginUpdate { escalation_token: String, message: Vec<u8> },
    /// Stage 2: the client's PAKE registration upload.
    FinishUpdate { continue_token: String, message: Vec<u8> },
}

/// The answer to an [`UpdatePassword`] request, one variant per stage.
#[derive(Clone, Debug, PartialEq, Eq)]
pub enum UpdatePasswordResponse {
    BeginUpdate { continue_token: String, message: Vec<u8> },
    FinishUpdate {  },
}

/// Mathematical content of an [`UpdatePasswordResponse`].
pub ghost enum UpdatePasswordResponseView {
    BeginUpdate { continue_token: Seq<char>, message: Seq<u8> },
    FinishUpdate {  },
}

impl View for UpdatePasswordResponse {
    type V = UpdatePasswordResponseView;

    open spec fn view(&self) -> UpdatePasswordResponseView {
        match self {
            UpdatePasswordResponse::BeginUpdate {
                continue_token,
                message,
            } => UpdatePasswordResponseView::BeginUpdate {
                continue_token: continue_token@,
                message: message@,
            },
            UpdatePasswordResponse::FinishUpdate {  } => UpdatePasswordResponseView::FinishUpdate {  },
        }
    }
}

/// What a stage of the update asks of its caller: the response to send and
/// the password to store.
#[derive(Clone, Debug, PartialEq, Eq)]
pub struct UpdateOutcome {
    pub response: UpdatePasswordResponse,
    pub password: Option<PasswordUpdate>,
}

/// Mathematical content of an [`UpdateOutcome`].
pub ghost struct UpdateOutcomeView {
    pub response: UpdatePasswordResponseView,
    pub password: Option<PasswordUpdateView>,
}

impl View for UpdateOutcome {
    type V = UpdateOutcomeView;

    open spec fn view(&self) -> UpdateOutcomeView {
        UpdateOutcomeView { response: self.response@, password: password_opt(self.password) }
    }
}

/// What the caller looked up in the persistent store for a request.
#[derive(Clone, Debug, PartialEq, Eq)]
pub struct UpdateFacts {
    /// Stage 1: the session that the grant escalated, see
    /// [`crate::utilities::escalated_session`].
    pub backing: Option<Session>,
    /// Stage 1: the session of the bearer token that came with the request.
    pub presented: Option<Session>,
    /// Stage 1: the account of that bearer token.
    pub user: Option<User>,
    /// Stage 1: the serialized PAKE server setup.
    pub server_setup: Vec<u8>,
}

/// Stage 1, given what the PAKE adapter answered for the account's address
/// (`None` where the request was refused) and a fresh continuation token:
/// the stores afterwards, and the result.
///
/// The grant is checked first, as [`escalation_checked`] says. An account
/// that the caller did not find is a `DatabaseError`, a refused request a
/// `CredentialError`, a continuation token that is already taken a
/// `DatabaseError`. On success the update is pending for the account.
pub open spec fn update_begun(
    pre: StoresView,
    now: u64,
    escalation_token: Seq<char>,
    backing: Option<SessionView>,
    presented: Option<SessionView>,
    user: Option<UserView>,
    answer: Option<Seq<u8>>,
    continue_token: Seq<char>,
) -> (StoresView, Result<UpdateOutcomeView, Error>) {
    let checked = escalation_checked(
        pre.active_escalations,
        now,
        escalation_token,
        backing,
        presented,
    );
    let mid = StoresView { active_escalations: checked.0, ..pre };
    match checked.1 {
        Err(e) => (mid, Err(e)),
        Ok(_) => match user {
            None => (mid, Err(Error::DatabaseError)),
            Some(u) => match answer {
                None => (mid, Err(Error::CredentialError)),
                Some(message) => if pre.pending_updates.contains_key(continue_token) {
                    (mid, Err(Error::DatabaseError))
                } else {
                    (
                        StoresView {
                            pending_updates: pre.pending_updates.insert(
                                continue_token,
                                PendingView::Update(
                                    PendingUpdateView { time: now, user_id: u.id, email: u.email },
                                ),
                            ),
                            ..mid
                        },
                        Ok(
                            UpdateOutcomeView {
                                response: UpdatePasswordResponseView::BeginUpdate {
                                    continue_token,
                                    message,
                                },
                                password: None,
                            },
                        ),
                    )
                },
            },
        },
    }
}

/// Stage 1 on the results of the outside calls: see [`update_begun`].
pub fn begin_update_with(
    stores: &mut Stores,
    now: u64,
    escalation_token: &String,
    backing: &Option<Session>,
    presented: &Option<Session>,
    user: Option<User>,
    answer: Option<Vec<u8>>,
    continue_token: String,
) -> (r: Result<UpdateOutcome, Error>)
    ensures
        (final(stores)@, outcome(r)) == update_begun(
            old(stores)@,
            now,
            escalation_token@,
            session_opt(*backing),
            session_opt(*presented),
            user_opt(user),
            bytes_opt(answer),
            continue_token@,
        ),
{
    match validate_escalation(stores, now, escalation_token, backing, presented) {
        Err(e) => {
            return Err(e);
        },
        Ok(_) => {},
    }
    let user = match user {
        Some(u) => u,
        None => {
            return Err(Error::DatabaseError);
        },
    };
    let message = match answer {
        Some(m) => m,
        None => {
            return Err(Error::CredentialError);
        },
    };
    let record = PendingUpdate { time: now, user_id: user.id, email: user.email };
    if !stores.pending_updates.put(continue_token.clone(), Pending::Update(record)) {
        return Err(Error::DatabaseError);
    }
    Ok(
        UpdateOutcome {
            response: UpdatePasswordResponse::BeginUpdate { continue_token, message },
            password: None,
        },
    )
}

/// The address of an optional account.
pub open spec fn email_of(user: Option<UserView>) -> Seq<char> {
    match user {
        Some(u) => u.email,
        None => Seq::empty(),
    }
}

/// What stage 1 guarantees: [`update_begun`] on the answer of the PAKE
/// adapter for the account's address, with some long token.
pub open spec fn begin_update_ensures(
    pre: StoresView,
    post: StoresView,
    setup: Seq<u8>,
    now: u64,
    escalation_token: Seq<char>,
    message: Seq<u8>,
    backing: Option<SessionView>,
    presented: Option<SessionView>,
    user: Option<UserView>,
    r: Result<UpdateOutcomeView, Error>,
) -> bool {
    exists|continue_token: Seq<char>|
        {
            &&& is_long_token(continue_token)
            &&& (post, r) == #[trigger] update_begun(
                pre,
                now,
                escalation_token,
                backing,
                presented,
                user,
                registration_response(setup, email_of(user), message),
                continue_token,
            )
        }
}

/// Stage 1: begins the update of the password of an account that holds an
/// escalation grant: see [`begin_update_ensures`].
pub fn begin_update(
    stores: &mut Stores,
    now: u64,
    escalation_token: &String,
    message: &Vec<u8>,
    facts: UpdateFacts,
) -> (r: Result<UpdateOutcome, Error>)
    ensures
        begin_update_ensures(
            old(stores)@,
            final(stores)@,
            facts.server_setup@,
            now,
            escalation_token@,
            message@,
            session_opt(facts.backing),
            session_opt(facts.presented),
            user_opt(facts.user),
            outcome(r),
        ),
{
    let passes = escalation_passes(stores, now, escalation_token, &facts.backing, &facts.presented);
    let answer = match &facts.user {
        Some(u) => if passes {
            bytes_of(crate::opaque::begin_registration(&facts.server_setup, &u.email, message))
        } else {
            None
        },
        None => None,
    };
    let continue_token = if answer.is_some() {
        generate_continue_token_long()
    } else {
        String::new()
    };
    let ghost token_view = if answer.is_some() {
        continue_token@
    } else {
        a_long_token()
    };
    let r = begin_update_with(
        stores,
        now,
        escalation_token,
        &facts.backing,
        &facts.presented,
        facts.user,
        answer,
        continue_token,
    );
    assert((stores@, outcome(r)) == update_begun(
        old(stores)@,
        now,
        escalation_token@,
        session_opt(facts.backing),
        session_opt(facts.presented),
        user_opt(facts.user),
        registration_response(facts.server_setup@, email_of(user_opt(facts.user)), message@),
        token_view,
    ));
    r
}

/// Stage 2, given the password file that the PAKE adapter made of the
/// client's upload (`None` where it refused): the stores afterwards, and
/// the result.
///
/// A token that is unknown, expired or not of this stage is
/// `SessionExpired`. A refused upload leaves the record in place. On
/// success the new password file is handed to the caller for the account
/// that the record names by its id, and the record is consumed.
pub open spec fn update_finished(
    pre: StoresView,
    now: u64,
    continue_token: Seq<char>,
    file: Option<Seq<u8>>,
) -> (StoresView, Result<UpdateOutcomeView, Error>) {
    match live(pre.pending_updates, continue_token, now, SHORT_TIMEOUT) {
        Some(PendingView::Update(p)) => match file {
            None => (pre, Err(Error::CredentialError)),
            Some(password_data) => (
                StoresView { pending_updates: pre.pending_updates.remove(continue_token), ..pre },
                Ok(
                    UpdateOutcomeView {
                        response: UpdatePasswordResponseView::FinishUpdate {  },
                        password: Some(PasswordUpdateView { user_id: p.user_id, password_data }),
                    },
                ),
            ),
        },
        _ => (
            StoresView {
                pending_updates: after_access(
                    pre.pending_updates,
                    continue_token,
                    now,
                    SHORT_TIMEOUT,
                ),
                ..pre
            },
            Err(Error::SessionExpired),
        ),
    }
}

/// Stage 2 on the result of the outside call: see [`update_finished`].
pub fn finish_update_with(
    stores: &mut Stores,
    now: u64,
    continue_token: &String,
    file: Option<Vec<u8>>,
) -> (r: Result<UpdateOutcome, Error>)
    ensures
        (final(stores)@, outcome(r)) == update_finished(
            old(stores)@,
            now,
            continue_token@,
            bytes_opt(file),
        ),
{
    let record = match stores.pending_updates.access(continue_token, now, SHORT_TIMEOUT) {
        Some(Pending::Update(p)) => p,
        _ => {
            return Err(Error::SessionExpired);
        },
    };
    let password_data = match file {
        Some(f) => f,
        None => {
            return Err(Error::CredentialError);
        },
    };
    stores.pending_updates.remove(continue_token);
    Ok(
        UpdateOutcome {
            response: UpdatePasswordResponse::FinishUpdate {  },
            password: Some(PasswordUpdate { user_id: record.user_id, password_data }),
        },
    )
}

/// Stage 2: turns the client's upload into the new password file of the
/// account: [`update_finished`] on the password file that the PAKE adapter
/// makes of `message`.
pub fn finish_update(stores: &mut Stores, now: u64, continue_token: &String, message: &Vec<u8>) -> (r:
    Result<UpdateOutcome, Error>)
    ensures
        (final(stores)@, outcome(r)) == update_finished(
            old(stores)@,
            now,
            continue_token@,
            password_file(message@),
        ),
{
    let file = match stores.pending_updates.peek(continue_token, now, SHORT_TIMEOUT) {
        Some(Pending::Update(_)) => bytes_of(crate::opaque::finish_registration(message)),
        _ => None,
    };
    finish_update_with(stores, now, continue_token, file)
}

/// What [`handle`] guarantees: what the stage of the request guarantees.
pub open spec fn handle_ensures(
    pre: StoresView,
    post: StoresView,
    now: u64,
    register: UpdatePassword,
    facts: UpdateFacts,
    r: Result<UpdateOutcomeView, Error>,
) -> bool {
    match register {
        UpdatePassword::BeginUpdate { escalation_token, message } => begin_update_ensures(
            pre,
            post,
            facts.server_setup@,
            now,
            escalation_token@,
            message@,
            session_opt(facts.backing),
            session_opt(facts.presented),
            user_opt(facts.user),
            r,
        ),
        UpdatePassword::FinishUpdate { continue_token, message } => (post, r) == update_finished(
            pre,
            now,
            continue_token@,
            password_file(message@),
        ),
    }
}

/// Handles one request to the update flow at second `now`, with the facts
/// that the caller looked up for it: see [`handle_ensures`].
pub fn handle(stores: &mut Stores, now: u64, register: UpdatePassword, facts: UpdateFacts) -> (r:
    Result<UpdateOutcome, Error>)
    ensures
        handle_ensures(old(stores)@, final(stores)@, now, register, facts, outcome(r)),
{
    match register {
        UpdatePassword::BeginUpdate { escalation_token, message } => begin_update(
            stores,
            now,
            &escalation_token,
            &message,
            facts,
        ),
        UpdatePassword::FinishUpdate { continue_token, message } => finish_update(
            stores,
            now,
            &continue_token,
            &message,
        ),
    }
}

/// A continuation token that finds no live record is turned down as
/// `SessionExpired` by stage 2, whatever the upload: a token that was
/// never issued, one whose record has expired though no sweep has run, and
/// one that was consumed.
pub proof fn finish_update_refuses_stale_token(
    pre: StoresView,
    now: u64,
    continue_token: Seq<char>,
    file: Option<Seq<u8>>,
)
    requires
        live(pre.pending_updates, continue_token, now, SHORT_TIMEOUT) is None,
    ensures
        update_finished(pre, now, continue_token, file).1 == Err::<UpdateOutcomeView, Error>(
            Error::SessionExpired,
        ),
{
}

/// A continuation token is good for one new password: when stage 2 has
/// succeeded with it, a replay with the same token is `SessionExpired`, at
/// whatever time and with whatever upload.
pub proof fn finish_update_is_single_use(
    pre: StoresView,
    now: u64,
    continue_token: Seq<char>,
    file: Option<Seq<u8>>,
    later: u64,
    file_again: Option<Seq<u8>>,
)
    requires
        update_finished(pre, now, continue_token, file).1 is Ok,
    ensures
        update_finished(
            update_finished(pre, now, continue_token, file).0,
            later,
            continue_token,
            file_again,
        ).1 == Err::<UpdateOutcomeView, Error>(Error::SessionExpired),
{
}

/// Stage 2 can be taken back where the caller's write fails: it changes
/// the stores under its continuation token and nowhere else.
pub proof fn finish_update_can_be_taken_back(
    pre: StoresView,
    now: u64,
    continue_token: Seq<char>,
    file: Option<Seq<u8>>,
)
    ensures
        put_back(
            update_finished(pre, now, continue_token, file).0,
            held(pre, Flow::PendingUpdates, continue_token),
        ) == pre,
{
    let back = put_back(
        update_finished(pre, now, continue_token, file).0,
        held(pre, Flow::PendingUpdates, continue_token),
    );
    assert(back.pending_updates =~= pre.pending_updates);
}

} // verus!
