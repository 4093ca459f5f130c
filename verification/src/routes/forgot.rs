//! Password reset: email verification, PAKE reset begin, PAKE reset finish.

use vstd::prelude::*;
use crate::constants::SHORT_TIMEOUT;
use crate::database::user::{
    password_opt, user_opt, PasswordUpdate, PasswordUpdateView, User, UserView,
};
use crate::environment::Environment;
use crate::errors::Error;
use crate::opaque::{password_file, registration_response};
use crate::store::{
    after_access, held, live, put_back, slot_restored, Flow, Pending, PendingView, Records, Stores,
    StoresView,
};
use crate::utilities::{
    a_long_token, generate_continue_token_long, is_long_token, Mail, mail_opt, MailView,
    reset_email, reset_mail,
};
use crate::view::{bytes_of, bytes_opt, outcome};

verus! {

/// What a reset keeps between its stages: whose password is being reset.
#[derive(Clone, Debug, PartialEq, Eq)]
pub struct PendingForgot {
    pub time: u64,
    pub user_id: String,
    pub email: String,
}

/// Mathematical content of a [`PendingForgot`].
pub ghost struct PendingForgotView {
    pub time: u64,
    pub user_id: Seq<char>,
    pub email: Seq<char>,
}

impl View for PendingForgot {
    type V = PendingForgotView;

    open spec fn view(&self) -> PendingForgotView {
        PendingForgotView { time: self.time, user_id: self.user_id@, email: self.email@ }
    }
}

/// A request to the password reset flow, one variant per stage.
#[derive(Clone, Debug, PartialEq, Eq)]
pub enum Forgot {
    /// Stage 1: the address of the account.
    VerifyEmail { email: String },
    /// Stage 2: the token from the mail and the client's PAKE registration
    /// request.
    ResetPassword { continue_token: String, message: Vec<u8> },
    /// Stage 3: the client's PAKE registration upload.
    FinishReset { continue_token: String, message: Vec<u8> },
}

/// The answer to a [`Forgot`] request, one variant per stage.
#[derive(Clone, Debug, PartialEq, Eq)]
pub enum ForgotResponse {
    VerifyEmail {  },
    ResetPassword { continue_token: String, message: Vec<u8> },
    FinishReset {  },
}

/// Mathematical content of a [`ForgotResponse`].
pub ghost enum ForgotResponseView {
    VerifyEmail {  },
    ResetPassword { continue_token: Seq<char>, message: Seq<u8> },
    FinishReset {  },
}

impl View for ForgotResponse {
    type V = ForgotResponseView;

    open spec fn view(&self) -> ForgotResponseView {
        match self {
            ForgotResponse::VerifyEmail {  } => ForgotResponseView::VerifyEmail {  },
            ForgotResponse::ResetPassword {
                continue_token,
                message,
            } => ForgotResponseView::ResetPassword {
                continue_token: continue_token@,
                message: message@,
            },
            ForgotResponse::FinishReset {  } => ForgotResponseView::FinishReset {  },
        }
    }
}

/// What a stage of the reset asks of its caller: the response to send, the
/// mail to send and the password to store.
#[derive(Clone, Debug, PartialEq, Eq)]
pub struct ForgotOutcome {
    pub response: ForgotResponse,
    pub mail: Option<Mail>,
    pub password: Option<PasswordUpdate>,
}

/// Mathematical content of a [`ForgotOutcome`].
pub ghost struct ForgotOutcomeView {
    pub response: ForgotResponseView,
    pub mail: Option<MailView>,
    pub password: Option<PasswordUpdateView>,
}

impl View for ForgotOutcome {
    type V = ForgotOutcomeView;

    open spec fn view(&self) -> ForgotOutcomeView {
        ForgotOutcomeView {
            response: self.response@,
            mail: mail_opt(self.mail),
            password: password_opt(self.password),
        }
    }
}

/// What the caller looked up in the persistent store for a request.
#[derive(Clone, Debug, PartialEq, Eq)]
pub struct ForgotFacts {
    /// Stage 1: the account with the email of the request.
    pub user: Option<User>,
    /// Stage 2: the serialized PAKE server setup.
    pub server_setup: Vec<u8>,
}

/// Stage 1, given a fresh long token: the records of stage 1 afterwards,
/// and the result.
///
/// The result is the same whether or not the address belongs to an
/// account; only an account is sent the mail with the reset link and
/// leaves a record. A token that is already taken is reported as
/// `DatabaseError`, for any address, and nothing is overwritten.
pub open spec fn reset_requested(
    pre: Records,
    now: u64,
    email: Seq<char>,
    user: Option<UserView>,
    public_root: Seq<char>,
    token: Seq<char>,
) -> (Records, Result<ForgotOutcomeView, Error>) {
    if pre.contains_key(token) {
        (pre, Err(Error::DatabaseError))
    } else {
        match user {
            None => (
                pre,
                Ok(
                    ForgotOutcomeView {
                        response: ForgotResponseView::VerifyEmail {  },
                        mail: None,
                        password: None,
                    },
                ),
            ),
            Some(u) => (
                pre.insert(
                    token,
                    PendingView::Forgot(PendingForgotView { time: now, user_id: u.id, email }),
                ),
                Ok(
                    ForgotOutcomeView {
                        response: ForgotResponseView::VerifyEmail {  },
                        mail: Some(reset_mail(email, public_root, token)),
                        password: None,
                    },
                ),
            ),
        }
    }
}

/// Stage 1 on a given token: see [`reset_requested`].
pub fn verify_email_with(
    stores: &mut Stores,
    env: &Environment,
    now: u64,
    email: String,
    user: Option<User>,
    token: String,
) -> (r: Result<ForgotOutcome, Error>)
    ensures
        (final(stores)@.pending_forgots1, outcome(r)) == reset_requested(
            old(stores)@.pending_forgots1,
            now,
            email@,
            user_opt(user),
            env.public_root@,
            token@,
        ),
        final(stores)@ == (StoresView {
            pending_forgots1: final(stores)@.pending_forgots1,
            ..old(stores)@
        }),
{
    if stores.pending_forgots1.holds(&token) {
        return Err(Error::DatabaseError);
    }
    match user {
        None => Ok(
            ForgotOutcome { response: ForgotResponse::VerifyEmail {  }, mail: None, password: None },
        ),
        Some(u) => {
            let record = PendingForgot { time: now, user_id: u.id, email: email.clone() };
            let _ = stores.pending_forgots1.put(token.clone(), Pending::Forgot(record));
            let mail = reset_email(email, env.public_root.as_str(), token.as_str());
            Ok(
                ForgotOutcome {
                    response: ForgotResponse::VerifyEmail {  },
                    mail: Some(mail),
                    password: None,
                },
            )
        },
    }
}

/// What stage 1 guarantees: [`reset_requested`] with some long token.
pub open spec fn verify_email_ensures(
    pre: StoresView,
    post: StoresView,
    now: u64,
    email: Seq<char>,
    user: Option<UserView>,
    public_root: Seq<char>,
    r: Result<ForgotOutcomeView, Error>,
) -> bool {
    &&& post == (StoresView { pending_forgots1: post.pending_forgots1, ..pre })
    &&& exists|token: Seq<char>|
        {
            &&& is_long_token(token)
            &&& (post.pending_forgots1, r) == #[trigger] reset_requested(
                pre.pending_forgots1,
                now,
                email,
                user,
                public_root,
                token,
            )
        }
}

/// Stage 1: takes the address of an account whose password was forgotten:
/// see [`verify_email_ensures`].
pub fn verify_email(
    stores: &mut Stores,
    env: &Environment,
    now: u64,
    email: String,
    user: Option<User>,
) -> (r: Result<ForgotOutcome, Error>)
    ensures
        verify_email_ensures(
            old(stores)@,
            final(stores)@,
            now,
            email@,
            user_opt(user),
            env.public_root@,
            outcome(r),
        ),
{
    let token = generate_continue_token_long();
    let ghost token_view = token@;
    let ghost email_view = email@;
    let ghost user_view = user_opt(user);
    let r = verify_email_with(stores, env, now, email, user, token);
    assert((stores@.pending_forgots1, outcome(r)) == reset_requested(
        old(stores)@.pending_forgots1,
        now,
        email_view,
        user_view,
        env.public_root@,
        token_view,
    ));
    r
}

/// Stage 2, given what the PAKE adapter answered (`None` where the request
/// was refused) and a fresh continuation token: the stores afterwards, and
/// the result.
///
/// A token that is unknown, expired or not of this stage is
/// `SessionExpired`. A refused request leaves the record in place. On
/// success the record moves on to stage 3 under the new token.
pub open spec fn reset_begun(
    pre: StoresView,
    now: u64,
    continue_token: Seq<char>,
    answer: Option<Seq<u8>>,
    next_token: Seq<char>,
) -> (StoresView, Result<ForgotOutcomeView, Error>) {
    match live(pre.pending_forgots1, continue_token, now, SHORT_TIMEOUT) {
        Some(PendingView::Forgot(p)) => match answer {
            None => (pre, Err(Error::CredentialError)),
            Some(message) => if pre.pending_forgots2.contains_key(next_token) {
                (pre, Err(Error::DatabaseError))
            } else {
                (
                    StoresView {
                        pending_forgots1: pre.pending_forgots1.remove(continue_token),
                        pending_forgots2: pre.pending_forgots2.insert(
                            next_token,
                            PendingView::Forgot(
                                PendingForgotView {
                                    time: now,
                                    user_id: p.user_id,
                                    email: p.email,
                                },
                            ),
                        ),
                        ..pre
                    },
                    Ok(
                        ForgotOutcomeView {
                            response: ForgotResponseView::ResetPassword {
                                continue_token: next_token,
                                message,
                            },
                            mail: None,
                            password: None,
                        },
                    ),
                )
            },
        },
        _ => (
            StoresView {
                pending_forgots1: after_access(
                    pre.pending_forgots1,
                    continue_token,
                    now,
                    SHORT_TIMEOUT,
                ),
                ..pre
            },
            Err(Error::SessionExpired),
        ),
    }
}

/// Stage 2 on the results of the outside calls: see [`reset_begun`].
pub fn reset_password_with(
    stores: &mut Stores,
    now: u64,
    continue_token: &String,
    answer: Option<Vec<u8>>,
    next_token: String,
) -> (r: Result<ForgotOutcome, Error>)
    ensures
        (final(stores)@, outcome(r)) == reset_begun(
            old(stores)@,
            now,
            continue_token@,
            bytes_opt(answer),
            next_token@,
        ),
{
    let record = match stores.pending_forgots1.access(continue_token, now, SHORT_TIMEOUT) {
        Some(Pending::Forgot(p)) => p,
        _ => {
            return Err(Error::SessionExpired);
        },
    };
    let message = match answer {
        Some(m) => m,
        None => {
            return Err(Error::CredentialError);
        },
    };
    let next = PendingForgot { time: now, user_id: record.user_id, email: record.email };
    if !stores.pending_forgots2.put(next_token.clone(), Pending::Forgot(next)) {
        return Err(Error::DatabaseError);
    }
    stores.pending_forgots1.remove(continue_token);
    Ok(
        ForgotOutcome {
            response: ForgotResponse::ResetPassword { continue_token: next_token, message },
            mail: None,
            password: None,
        },
    )
}

/// The address of the reset that is pending under `token`.
pub open spec fn pending_email(forgots: Records, token: Seq<char>) -> Seq<char> {
    match forgots[token] {
        PendingView::Forgot(p) => p.email,
        _ => Seq::empty(),
    }
}

/// What stage 2 guarantees: [`reset_begun`] on the answer of the PAKE
/// adapter for the pending address, with some long token.
pub open spec fn reset_password_ensures(
    pre: StoresView,
    post: StoresView,
    setup: Seq<u8>,
    now: u64,
    continue_token: Seq<char>,
    message: Seq<u8>,
    r: Result<ForgotOutcomeView, Error>,
) -> bool {
    exists|next_token: Seq<char>|
        {
            &&& is_long_token(next_token)
            &&& (post, r) == #[trigger] reset_begun(
                pre,
                now,
                continue_token,
                registration_response(
                    setup,
                    pending_email(pre.pending_forgots1, continue_token),
                    message,
                ),
                next_token,
            )
        }
}

/// Stage 2: answers the client's PAKE registration request for the account
/// whose reset `continue_token` stands for: see
/// [`reset_password_ensures`].
pub fn reset_password(
    stores: &mut Stores,
    server_setup: &Vec<u8>,
    now: u64,
    continue_token: &String,
    message: &Vec<u8>,
) -> (r: Result<ForgotOutcome, Error>)
    ensures
        reset_password_ensures(
            old(stores)@,
            final(stores)@,
            server_setup@,
            now,
            continue_token@,
            message@,
            outcome(r),
        ),
{
    let answer = match stores.pending_forgots1.peek(continue_token, now, SHORT_TIMEOUT) {
        Some(Pending::Forgot(p)) => bytes_of(
            crate::opaque::begin_registration(server_setup, &p.email, message),
        ),
        _ => None,
    };
    let next_token = if answer.is_some() {
        generate_continue_token_long()
    } else {
        String::new()
    };
    let ghost next_view = if answer.is_some() {
        next_token@
    } else {
        a_long_token()
    };
    let r = reset_password_with(stores, now, continue_token, answer, next_token);
    assert((stores@, outcome(r)) == reset_begun(
        old(stores)@,
        now,
        continue_token@,
        registration_response(
            server_setup@,
            pending_email(old(stores)@.pending_forgots1, continue_token@),
            message@,
        ),
        next_view,
    ));
    r
}

/// Stage 3, given the password file that the PAKE adapter made of the
/// client's upload (`None` where it refused): the stores afterwards, and
/// the result.
///
/// A token that is unknown, expired or not of this stage is
/// `SessionExpired`. A refused upload leaves the record in place. On
/// success the new password file is handed to the caller for the account
/// that the record names, and the record is consumed.
pub open spec fn reset_finished(
    pre: StoresView,
    now: u64,
    continue_token: Seq<char>,
    file: Option<Seq<u8>>,
) -> (StoresView, Result<ForgotOutcomeView, Error>) {
    match live(pre.pending_forgots2, continue_token, now, SHORT_TIMEOUT) {
        Some(PendingView::Forgot(p)) => match file {
            None => (pre, Err(Error::CredentialError)),
            Some(password_data) => (
                StoresView {
                    pending_forgots2: pre.pending_forgots2.remove(continue_token),
                    ..pre
                },
                Ok(
                    ForgotOutcomeView {
                        response: ForgotResponseView::FinishReset {  },
                        mail: None,
                        password: Some(PasswordUpdateView { user_id: p.user_id, password_data }),
                    },
                ),
            ),
        },
        _ => (
            StoresView {
                pending_forgots2: after_access(
                    pre.pending_forgots2,
                    continue_token,
                    now,
                    SHORT_TIMEOUT,
                ),
                ..pre
            },
            Err(Error::SessionExpired),
        ),
    }
}

/// Stage 3 on the result of the outside call: see [`reset_finished`].
pub fn finish_reset_with(
    stores: &mut Stores,
    now: u64,
    continue_token: &String,
    file: Option<Vec<u8>>,
) -> (r: Result<ForgotOutcome, Error>)
    ensures
        (final(stores)@, outcome(r)) == reset_finished(
            old(stores)@,
            now,
            continue_token@,
            bytes_opt(file),
        ),
{
    let record = match stores.pending_forgots2.access(continue_token, now, SHORT_TIMEOUT) {
        Some(Pending::Forgot(p)) => p,
        _ => {
            return Err(Error::SessionExpired);
        },
    };
    let password_data = match file {
        Some(f) => f,
        None => {
            return Err(Error::CredentialError);
        },
    };
    stores.pending_forgots2.remove(continue_token);
    Ok(
        ForgotOutcome {
            response: ForgotResponse::FinishReset {  },
            mail: None,
            password: Some(PasswordUpdate { user_id: record.user_id, password_data }),
        },
    )
}

/// Stage 3: turns the client's upload into the new password file of the
/// account: [`reset_finished`] on the password file that the PAKE adapter
/// makes of `message`.
pub fn finish_reset(stores: &mut Stores, now: u64, continue_token: &String, message: &Vec<u8>) -> (r:
    Result<ForgotOutcome, Error>)
    ensures
        (final(stores)@, outcome(r)) == reset_finished(
            old(stores)@,
            now,
            continue_token@,
            password_file(message@),
        ),
{
    let file = match stores.pending_forgots2.peek(continue_token, now, SHORT_TIMEOUT) {
        Some(Pending::Forgot(_)) => bytes_of(crate::opaque::finish_registration(message)),
        _ => None,
    };
    finish_reset_with(stores, now, continue_token, file)
}

/// What [`handle`] guarantees: what the stage of the request guarantees.
pub open spec fn handle_ensures(
    pre: StoresView,
    post: StoresView,
    env: Environment,
    now: u64,
    forgot: Forgot,
    facts: ForgotFacts,
    r: Result<ForgotOutcomeView, Error>,
) -> bool {
    match forgot {
        Forgot::VerifyEmail { email } => verify_email_ensures(
            pre,
            post,
            now,
            email@,
            user_opt(facts.user),
            env.public_root@,
            r,
        ),
        Forgot::ResetPassword { continue_token, message } => reset_password_ensures(
            pre,
            post,
            facts.server_setup@,
            now,
            continue_token@,
            message@,
            r,
        ),
        Forgot::FinishReset { continue_token, message } => (post, r) == reset_finished(
            pre,
            now,
            continue_token@,
            password_file(message@),
        ),
    }
}

/// Handles one request to the reset flow at second `now`, with the facts
/// that the caller looked up for it: see [`handle_ensures`].
pub fn handle(stores: &mut Stores, env: &Environment, now: u64, forgot: Forgot, facts: ForgotFacts)
    -> (r: Result<ForgotOutcome, Error>)
    ensures
        handle_ensures(old(stores)@, final(stores)@, *env, now, forgot, facts, outcome(r)),
{
    match forgot {
        Forgot::VerifyEmail { email } => verify_email(stores, env, now, email, facts.user),
        Forgot::ResetPassword { continue_token, message } => reset_password(
            stores,
            &facts.server_setup,
            now,
            &continue_token,
            &message,
        ),
        Forgot::FinishReset { continue_token, message } => finish_reset(
            stores,
            now,
            &continue_token,
            &message,
        ),
    }
}

/// A continuation token that finds no live record is turned down as
/// `SessionExpired` by stage 2, whatever else the request holds: a token
/// that was never issued, one whose record has expired though no sweep has
/// run, and one that was consumed.
pub proof fn reset_password_refuses_stale_token(
    pre: StoresView,
    now: u64,
    continue_token: Seq<char>,
    answer: Option<Seq<u8>>,
    next_token: Seq<char>,
)
    requires
        live(pre.pending_forgots1, continue_token, now, SHORT_TIMEOUT) is None,
    ensures
        reset_begun(pre, now, continue_token, answer, next_token).1 == Err::<
            ForgotOutcomeView,
            Error,
        >(Error::SessionExpired),
{
}

/// The token of a reset link is good for one success of stage 2.
pub proof fn reset_password_is_single_use(
    pre: StoresView,
    now: u64,
    continue_token: Seq<char>,
    answer: Option<Seq<u8>>,
    next_token: Seq<char>,
    later: u64,
    answer_again: Option<Seq<u8>>,
    next_token_again: Seq<char>,
)
    requires
        reset_begun(pre, now, continue_token, answer, next_token).1 is Ok,
    ensures
        reset_begun(
            reset_begun(pre, now, continue_token, answer, next_token).0,
            later,
            continue_token,
            answer_again,
            next_token_again,
        ).1 == Err::<ForgotOutcomeView, Error>(Error::SessionExpired),
{
}

/// A continuation token that finds no live record is turned down as
/// `SessionExpired` by stage 3, whatever else the request holds.
pub proof fn finish_reset_refuses_stale_token(
    pre: StoresView,
    now: u64,
    continue_token: Seq<char>,
    file: Option<Seq<u8>>,
)
    requires
        live(pre.pending_forgots2, continue_token, now, SHORT_TIMEOUT) is None,
    ensures
        reset_finished(pre, now, continue_token, file).1 == Err::<ForgotOutcomeView, Error>(
            Error::SessionExpired,
        ),
{
}

/// A continuation token is good for one new password: when stage 3 has
/// succeeded with it, a replay with the same token is `SessionExpired`, at
/// whatever time and with whatever upload.
pub proof fn finish_reset_is_single_use(
    pre: StoresView,
    now: u64,
    continue_token: Seq<char>,
    file: Option<Seq<u8>>,
    later: u64,
    file_again: Option<Seq<u8>>,
)
    requires
        reset_finished(pre, now, continue_token, file).1 is Ok,
    ensures
        reset_finished(
            reset_finished(pre, now, continue_token, file).0,
            later,
            continue_token,
            file_again,
        ).1 == Err::<ForgotOutcomeView, Error>(Error::SessionExpired),
{
}

/// Stage 1 does not tell whether an address belongs to an account: with
/// the same token, the request for an address with an account fails as
/// the request for an address without one fails, and is answered as that
/// one is answered.
pub proof fn verify_email_does_not_tell_accounts(
    pre: Records,
    now: u64,
    email: Seq<char>,
    user: UserView,
    public_root: Seq<char>,
    token: Seq<char>,
)
    ensures
        match (
            reset_requested(pre, now, email, Some(user), public_root, token).1,
            reset_requested(pre, now, email, None, public_root, token).1,
        ) {
            (Ok(known), Ok(unknown)) => known.response == unknown.response,
            (Err(e), Err(f)) => e == f,
            _ => false,
        },
{
}

/// Stage 1 changes its records under its token and nowhere else: with that
/// slot as it was, they are what they were.
pub proof fn verify_email_can_be_taken_back(
    pre: Records,
    now: u64,
    email: Seq<char>,
    user: Option<UserView>,
    public_root: Seq<char>,
    token: Seq<char>,
)
    ensures
        slot_restored(reset_requested(pre, now, email, user, public_root, token).0, pre, token)
            == pre,
{
    let post = reset_requested(pre, now, email, user, public_root, token).0;
    assert(slot_restored(post, pre, token) =~= pre);
}

/// Stage 3 can be taken back where the caller's write fails: it changes
/// the stores under its continuation token and nowhere else.
pub proof fn finish_reset_can_be_taken_back(
    pre: StoresView,
    now: u64,
    continue_token: Seq<char>,
    file: Option<Seq<u8>>,
)
    ensures
        put_back(
            reset_finished(pre, now, continue_token, file).0,
            held(pre, Flow::PendingForgots2, continue_token),
        ) == pre,
{
    let back = put_back(
        reset_finished(pre, now, continue_token, file).0,
        held(pre, Flow::PendingForgots2, continue_token),
    );
    assert(back.pending_forgots2 =~= pre.pending_forgots2);
}

} // verus!
