//! Registration: email verification, PAKE registration begin, PAKE
//! registration finish with account creation.

use vstd::prelude::*;
use vstd::string::StringExecFns;
use vstd::utf8::encode_utf8;
use crate::authenticate::{issue_token, issued_token, session_name};
use crate::constants::SHORT_TIMEOUT;
use crate::database::profile::{profile_opt, UserProfile, UserProfileView};
use crate::database::session::{session_opt, Session, SessionView};
use crate::database::user::{user_opt, User, UserView};
use crate::environment::{Clock, Environment};
use crate::errors::Error;
use crate::opaque::{password_file, registration_response};
use crate::routes::login::persists;
use crate::store::{
    after_access, held, live, put_back, slot_restored, Flow, Pending, PendingView, Records, Stores,
    StoresView,
};
use crate::utilities::{
    a_long_token, base64_bytes, base64_text, decode_base64, encode_base64,
    generate_continue_token_long, generate_id, ID_LEN, in_use_email, in_use_mail, is_email,
    is_long_token, is_username, is_valid_email, is_valid_username, Mail, mail_opt, MailView,
    trim, trimmed, verify_email, verify_mail,
};
use crate::view::{bytes_opt, outcome, text_opt, token_of};

verus! {

/// What registration keeps between its stages: the address being verified.
#[derive(Clone, Debug, PartialEq, Eq)]
pub struct PendingRegister {
    pub time: u64,
    pub email: String,
}

/// Mathematical content of a [`PendingRegister`].
pub ghost struct PendingRegisterView {
    pub time: u64,
    pub email: Seq<char>,
}

impl View for PendingRegister {
    type V = PendingRegisterView;

    open spec fn view(&self) -> PendingRegisterView {
        PendingRegisterView { time: self.time, email: self.email@ }
    }
}

/// A request to the registration flow, one variant per stage.
#[derive(Clone, Debug, PartialEq, Eq)]
pub enum Register {
    /// Stage 1: the address to verify and the captcha that was solved.
    VerifyEmail { email: String, captcha_token: String },
    /// Stage 2: the token that proves the address, and the client's PAKE
    /// registration request in base64.
    BeginRegistration { email_token: String, message: String },
    /// Stage 3: the client's PAKE registration upload in base64, and the
    /// account to create.
    Register {
        continue_token: String,
        message: String,
        friendly_name: Option<String>,
        username: String,
        persist: Option<bool>,
        display_name: String,
    },
}

/// The answer to a [`Register`] request, one variant per stage.
#[derive(Clone, Debug, PartialEq, Eq)]
pub enum RegisterResponse {
    /// Where no mail is sent the token is handed out directly.
    VerifyEmail { email_enabled: bool, email_token: Option<String> },
    BeginRegistration { continue_token: String, message: String },
    Register { token: String },
}

/// Mathematical content of a [`RegisterResponse`].
pub ghost enum RegisterResponseView {
    VerifyEmail { email_enabled: bool, email_token: Option<Seq<char>> },
    BeginRegistration { continue_token: Seq<char>, message: Seq<char> },
    Register { token: Seq<char> },
}

impl View for RegisterResponse {
    type V = RegisterResponseView;

    open spec fn view(&self) -> RegisterResponseView {
        match self {
            RegisterResponse::VerifyEmail {
                email_enabled,
                email_token,
            } => RegisterResponseView::VerifyEmail {
                email_enabled: *email_enabled,
                email_token: text_opt(*email_token),
            },
            RegisterResponse::BeginRegistration {
                continue_token,
                message,
            } => RegisterResponseView::BeginRegistration {
                continue_token: continue_token@,
                message: message@,
            },
            RegisterResponse::Register { token } => RegisterResponseView::Register {
                token: token@,
            },
        }
    }
}

/// What a stage of registration asks of its caller: the response to send,
/// the mail to send and the documents to insert.
#[derive(Clone, Debug, PartialEq, Eq)]
pub struct RegisterOutcome {
    pub response: RegisterResponse,
    pub mail: Option<Mail>,
    pub user: Option<User>,
    pub profile: Option<UserProfile>,
    pub session: Option<Session>,
}

/// Mathematical content of a [`RegisterOutcome`].
pub ghost struct RegisterOutcomeView {
    pub response: RegisterResponseView,
    pub mail: Option<MailView>,
    pub user: Option<UserView>,
    pub profile: Option<UserProfileView>,
    pub session: Option<SessionView>,
}

impl View for RegisterOutcome {
    type V = RegisterOutcomeView;

    open spec fn view(&self) -> RegisterOutcomeView {
        RegisterOutcomeView {
            response: self.response@,
            mail: mail_opt(self.mail),
            user: user_opt(self.user),
            profile: profile_opt(self.profile),
            session: session_opt(self.session),
        }
    }
}

/// What the caller found out for a request before handing it over.
#[derive(Debug, PartialEq, Eq)]
pub struct RegisterFacts {
    /// Stage 1: the verdict on the captcha, see
    /// [`crate::utilities::validate_captcha`].
    pub captcha: Result<(), Error>,
    /// Stage 1: whether an account has the email of the request.
    pub email_taken: bool,
    /// Stage 2: the serialized PAKE server setup.
    pub server_setup: Vec<u8>,
    /// Stage 3: whether an account has the username of the request,
    /// without the white space at its ends.
    pub username_taken: bool,
}

/// An outcome that is a response and nothing else.
pub open spec fn only(response: RegisterResponseView) -> RegisterOutcomeView {
    RegisterOutcomeView { response, mail: None, user: None, profile: None, session: None }
}

/// Stage 1, given whether the address is well formed (`valid`) and a
/// fresh long token: the records of stage 1 afterwards, and the result.
///
/// The result is the same whether or not the address is taken, so that it
/// does not tell. A free address leaves a record under the long token;
/// the token goes to the address by mail where mail is sent, and into the
/// response where it is not. A taken address leaves no record, so that
/// the token leads nowhere; where mail is sent its owner is notified. A
/// token that is already taken is reported as `DatabaseError`, for any
/// address, and nothing is overwritten.
pub open spec fn address_verified(
    pre: Records,
    now: u64,
    email: Seq<char>,
    captcha: Result<(), Error>,
    valid: bool,
    email_taken: bool,
    smtp_enabled: bool,
    long_token: Seq<char>,
) -> (Records, Result<RegisterOutcomeView, Error>) {
    let response = RegisterResponseView::VerifyEmail {
        email_enabled: smtp_enabled,
        email_token: if smtp_enabled {
            None
        } else {
            Some(long_token)
        },
    };
    match captcha {
        Err(e) => (pre, Err(e)),
        Ok(_) => if !valid {
            (pre, Err(Error::InvalidEmail))
        } else if pre.contains_key(long_token) {
            (pre, Err(Error::DatabaseError))
        } else if email_taken {
            (
                pre,
                Ok(
                    RegisterOutcomeView {
                        mail: if smtp_enabled {
                            Some(in_use_mail(email))
                        } else {
                            None
                        },
                        ..only(response)
                    },
                ),
            )
        } else {
            (
                pre.insert(
                    long_token,
                    PendingView::Register(PendingRegisterView { time: now, email }),
                ),
                Ok(
                    RegisterOutcomeView {
                        mail: if smtp_enabled {
                            Some(verify_mail(email, long_token))
                        } else {
                            None
                        },
                        ..only(response)
                    },
                ),
            )
        },
    }
}

/// An outcome that is a response and nothing else.
fn respond(response: RegisterResponse) -> (o: RegisterOutcome)
    ensures
        o@ == only(response@),
{
    RegisterOutcome { response, mail: None, user: None, profile: None, session: None }
}

/// Stage 1 on the results of the outside calls: see [`address_verified`].
pub fn verify_address_with(
    stores: &mut Stores,
    now: u64,
    email: String,
    captcha: Result<(), Error>,
    valid: bool,
    email_taken: bool,
    smtp_enabled: bool,
    long_token: String,
) -> (r: Result<RegisterOutcome, Error>)
    ensures
        (final(stores)@.pending_registers1, outcome(r)) == address_verified(
            old(stores)@.pending_registers1,
            now,
            email@,
            captcha,
            valid,
            email_taken,
            smtp_enabled,
            long_token@,
        ),
        final(stores)@ == (StoresView {
            pending_registers1: final(stores)@.pending_registers1,
            ..old(stores)@
        }),
{
    match captcha {
        Err(e) => {
            return Err(e);
        },
        Ok(_) => {},
    }
    if !valid {
        return Err(Error::InvalidEmail);
    }
    if stores.pending_registers1.holds(&long_token) {
        return Err(Error::DatabaseError);
    }
    let mut o = respond(
        RegisterResponse::VerifyEmail {
            email_enabled: smtp_enabled,
            email_token: if smtp_enabled {
                None
            } else {
                Some(long_token.clone())
            },
        },
    );
    if email_taken {
        if smtp_enabled {
            o.mail = Some(in_use_email(email));
        }
    } else {
        let record = PendingRegister { time: now, email: email.clone() };
        let _ = stores.pending_registers1.put(long_token.clone(), Pending::Register(record));
        if smtp_enabled {
            o.mail = Some(verify_email(email, long_token.as_str()));
        }
    }
    Ok(o)
}

/// What stage 1 guarantees: [`address_verified`] on the verdict of the
/// email grammar, with some long token.
pub open spec fn verify_address_ensures(
    pre: StoresView,
    post: StoresView,
    now: u64,
    email: Seq<char>,
    captcha: Result<(), Error>,
    email_taken: bool,
    smtp_enabled: bool,
    r: Result<RegisterOutcomeView, Error>,
) -> bool {
    &&& post == (StoresView { pending_registers1: post.pending_registers1, ..pre })
    &&& exists|long_token: Seq<char>|
        {
            &&& is_long_token(long_token)
            &&& (post.pending_registers1, r) == #[trigger] address_verified(
                pre.pending_registers1,
                now,
                email,
                captcha,
                is_email(trimmed(email)),
                email_taken,
                smtp_enabled,
                long_token,
            )
        }
}

/// Stage 1: takes an address to verify: see [`verify_address_ensures`].
pub fn verify_address(
    stores: &mut Stores,
    env: &Environment,
    now: u64,
    email: String,
    captcha: Result<(), Error>,
    email_taken: bool,
) -> (r: Result<RegisterOutcome, Error>)
    ensures
        verify_address_ensures(
            old(stores)@,
            final(stores)@,
            now,
            email@,
            captcha,
            email_taken,
            env.smtp_enabled,
            outcome(r),
        ),
{
    let valid = match captcha {
        Ok(_) => is_valid_email(email.as_str()),
        Err(_) => false,
    };
    let long_token = generate_continue_token_long();
    let ghost long_view = long_token@;
    let ghost email_view = email@;
    let r = verify_address_with(
        stores,
        now,
        email,
        captcha,
        valid,
        email_taken,
        env.smtp_enabled,
        long_token,
    );
    assert((stores@.pending_registers1, outcome(r)) == address_verified(
        old(stores)@.pending_registers1,
        now,
        email_view,
        captcha,
        is_email(trimmed(email_view)),
        email_taken,
        env.smtp_enabled,
        long_view,
    ));
    r
}

/// Stage 2, given what the PAKE adapter answered (`answer`: the server's
/// message in base64, `None` where the request was refused) and a fresh
/// continuation token: the stores afterwards, and the result.
///
/// A token that is unknown, expired or not of this stage is
/// `SessionExpired`. A refused request leaves the record in place. On
/// success the record moves on to stage 3 under the new token.
pub open spec fn registration_begun(
    pre: StoresView,
    now: u64,
    email_token: Seq<char>,
    answer: Option<Seq<char>>,
    continue_token: Seq<char>,
) -> (StoresView, Result<RegisterOutcomeView, Error>) {
    match live(pre.pending_registers1, email_token, now, SHORT_TIMEOUT) {
        Some(PendingView::Register(p)) => match answer {
            None => (pre, Err(Error::CredentialError)),
            Some(message) => if pre.pending_registers2.contains_key(continue_token) {
                (pre, Err(Error::DatabaseError))
            } else {
                (
                    StoresView {
                        pending_registers1: pre.pending_registers1.remove(email_token),
                        pending_registers2: pre.pending_registers2.insert(
                            continue_token,
                            PendingView::Register(
                                PendingRegisterView { time: now, email: p.email },
                            ),
                        ),
                        ..pre
                    },
                    Ok(only(RegisterResponseView::BeginRegistration { continue_token, message })),
                )
            },
        },
        _ => (
            StoresView {
                pending_registers1: after_access(
                    pre.pending_registers1,
                    email_token,
                    now,
                    SHORT_TIMEOUT,
                ),
                ..pre
            },
            Err(Error::SessionExpired),
        ),
    }
}

/// Stage 2 on the results of the outside calls: see
/// [`registration_begun`].
pub fn begin_registration_with(
    stores: &mut Stores,
    now: u64,
    email_token: &String,
    answer: Option<String>,
    continue_token: String,
) -> (r: Result<RegisterOutcome, Error>)
    ensures
        (final(stores)@, outcome(r)) == registration_begun(
            old(stores)@,
            now,
            email_token@,
            text_opt(answer),
            continue_token@,
        ),
{
    let record = match stores.pending_registers1.access(email_token, now, SHORT_TIMEOUT) {
        Some(Pending::Register(p)) => p,
        _ => {
            return Err(Error::SessionExpired);
        },
    };
    let message = match answer {
        Some(m) => m,
        None => {
            return Err(Error::CredentialError);
        },
    };
    let next = PendingRegister { time: now, email: record.email };
    if !stores.pending_registers2.put(continue_token.clone(), Pending::Register(next)) {
        return Err(Error::DatabaseError);
    }
    stores.pending_registers1.remove(email_token);
    Ok(respond(RegisterResponse::BeginRegistration { continue_token, message }))
}

/// The PAKE adapter's answer, in base64, to `message`, a registration
/// request in base64, for the address `email`.
pub open spec fn registration_answer(setup: Seq<u8>, email: Seq<char>, message: Seq<char>)
    -> Option<Seq<char>> {
    match base64_bytes(message) {
        Some(request) => match registration_response(setup, email, request) {
            Some(m) => Some(base64_text(m)),
            None => None,
        },
        None => None,
    }
}

/// Asks the PAKE adapter to answer a registration request in base64.
pub fn answer_registration(setup: &Vec<u8>, email: &String, message: &String) -> (r: Option<
    String,
>)
    ensures
        text_opt(r) == registration_answer(setup@, email@, message@),
{
    match decode_base64(message) {
        None => None,
        Some(request) => match crate::opaque::begin_registration(setup, email, &request) {
            Ok(m) => Some(encode_base64(&m)),
            Err(_) => None,
        },
    }
}

/// The address that is pending under `token`.
pub open spec fn pending_email(registers: Records, token: Seq<char>) -> Seq<char> {
    match registers[token] {
        PendingView::Register(p) => p.email,
        _ => Seq::empty(),
    }
}

/// What stage 2 guarantees: [`registration_begun`] on the answer of the
/// PAKE adapter for the pending address, with some long token.
pub open spec fn begin_registration_ensures(
    pre: StoresView,
    post: StoresView,
    setup: Seq<u8>,
    now: u64,
    email_token: Seq<char>,
    message: Seq<char>,
    r: Result<RegisterOutcomeView, Error>,
) -> bool {
    exists|continue_token: Seq<char>|
        {
            &&& is_long_token(continue_token)
            &&& (post, r) == #[trigger] registration_begun(
                pre,
                now,
                email_token,
                registration_answer(
                    setup,
                    pending_email(pre.pending_registers1, email_token),
                    message,
                ),
                continue_token,
            )
        }
}

/// Stage 2: answers the client's PAKE registration request for the address
/// that `email_token` proves: see [`begin_registration_ensures`].
pub fn begin_registration(
    stores: &mut Stores,
    server_setup: &Vec<u8>,
    now: u64,
    email_token: &String,
    message: &String,
) -> (r: Result<RegisterOutcome, Error>)
    ensures
        begin_registration_ensures(
            old(stores)@,
            final(stores)@,
            server_setup@,
            now,
            email_token@,
            message@,
            outcome(r),
        ),
{
    let answer = match stores.pending_registers1.peek(email_token, now, SHORT_TIMEOUT) {
        Some(Pending::Register(p)) => answer_registration(server_setup, &p.email, message),
        _ => None,
    };
    let continue_token = if answer.is_some() {
        generate_continue_token_long()
    } else {
        String::new()
    };
    let ghost token_view = if answer.is_some() {
        continue_token@
    } else {
        a_long_token()
    };
    let r = begin_registration_with(stores, now, email_token, answer, continue_token);
    assert((stores@, outcome(r)) == registration_begun(
        old(stores)@,
        now,
        email_token@,
        registration_answer(
            server_setup@,
            pending_email(old(stores)@.pending_registers1, email_token@),
            message@,
        ),
        token_view,
    ));
    r
}

/// Longest display name, in bytes.
pub const DISPLAY_NAME_MAX: usize = 64;

/// Stage 3, given the password file that the PAKE adapter made of the
/// client's upload (`file`, `None` where it refused), whether the username
/// is taken, a fresh account id, the bearer token issued for it and a
/// fresh session id: the stores afterwards, and the result.
///
/// The username and the display name count without the white space at
/// their ends. The checks come in this order: the token
/// (`SessionExpired`), the display name (`DisplayNameTooLong` beyond 64
/// bytes), the username's shape (`InvalidUsername`), its being free
/// (`UsernameAlreadyTaken`), the upload (`CredentialError`). On success
/// the account, its profile and its first session are handed to the
/// caller and the record is consumed.
pub open spec fn registered(
    pre: StoresView,
    now: u64,
    continue_token: Seq<char>,
    friendly_name: Option<Seq<char>>,
    username: Seq<char>,
    display_name: Seq<char>,
    username_taken: bool,
    file: Option<Seq<u8>>,
    user_id: Seq<char>,
    jwt: Option<Seq<char>>,
    session_id: Seq<char>,
) -> (StoresView, Result<RegisterOutcomeView, Error>) {
    match live(pre.pending_registers2, continue_token, now, SHORT_TIMEOUT) {
        Some(PendingView::Register(p)) => if encode_utf8(trimmed(display_name)).len()
            > DISPLAY_NAME_MAX {
            (pre, Err(Error::DisplayNameTooLong))
        } else if !is_username(trimmed(username)) {
            (pre, Err(Error::InvalidUsername))
        } else if username_taken {
            (pre, Err(Error::UsernameAlreadyTaken))
        } else {
            match (file, jwt) {
                (None, _) => (pre, Err(Error::CredentialError)),
                (Some(_), None) => (pre, Err(Error::InvalidToken)),
                (Some(password_data), Some(token)) => (
                    StoresView {
                        pending_registers2: pre.pending_registers2.remove(continue_token),
                        ..pre
                    },
                    Ok(
                        RegisterOutcomeView {
                            response: RegisterResponseView::Register { token },
                            mail: None,
                            user: Some(
                                UserView {
                                    id: user_id,
                                    mfa_enabled: false,
                                    mfa_secret: None,
                                    username: trimmed(username),
                                    email: trimmed(p.email),
                                    password_data,
                                    platform_administrator: false,
                                },
                            ),
                            profile: Some(
                                UserProfileView {
                                    id: user_id,
                                    display_name: trimmed(display_name),
                                    description: Seq::empty(),
                                    website: Seq::empty(),
                                    avatar: None,
                                },
                            ),
                            session: Some(
                                SessionView {
                                    id: session_id,
                                    token,
                                    user_id,
                                    friendly_name: session_name(friendly_name),
                                },
                            ),
                        },
                    ),
                ),
            }
        },
        _ => (
            StoresView {
                pending_registers2: after_access(
                    pre.pending_registers2,
                    continue_token,
                    now,
                    SHORT_TIMEOUT,
                ),
                ..pre
            },
            Err(Error::SessionExpired),
        ),
    }
}

/// Stage 3 on the results of the outside calls: see [`registered`].
pub fn register_with(
    stores: &mut Stores,
    now: u64,
    continue_token: &String,
    friendly_name: Option<String>,
    username: &String,
    display_name: &String,
    username_taken: bool,
    file: Option<Vec<u8>>,
    user_id: String,
    jwt: Option<String>,
    session_id: String,
) -> (r: Result<RegisterOutcome, Error>)
    ensures
        (final(stores)@, outcome(r)) == registered(
            old(stores)@,
            now,
            continue_token@,
            text_opt(friendly_name),
            username@,
            display_name@,
            username_taken,
            bytes_opt(file),
            user_id@,
            text_opt(jwt),
            session_id@,
        ),
{
    let record = match stores.pending_registers2.access(continue_token, now, SHORT_TIMEOUT) {
        Some(Pending::Register(p)) => p,
        _ => {
            return Err(Error::SessionExpired);
        },
    };
    let display = trim(display_name.as_str());
    if display.as_bytes().len() > DISPLAY_NAME_MAX {
        return Err(Error::DisplayNameTooLong);
    }
    let name = trim(username.as_str());
    if !is_valid_username(name) {
        return Err(Error::InvalidUsername);
    }
    if username_taken {
        return Err(Error::UsernameAlreadyTaken);
    }
    let password_data = match file {
        Some(f) => f,
        None => {
            return Err(Error::CredentialError);
        },
    };
    let token = match jwt {
        Some(t) => t,
        None => {
            return Err(Error::InvalidToken);
        },
    };
    let user = User {
        id: user_id.clone(),
        mfa_enabled: false,
        mfa_secret: None,
        username: String::from_str(name),
        email: String::from_str(trim(record.email.as_str())),
        password_data,
        platform_administrator: false,
    };
    let profile = UserProfile {
        id: user_id.clone(),
        display_name: String::from_str(display),
        description: String::new(),
        website: String::new(),
        avatar: None,
    };
    let session = Session {
        id: session_id,
        token: token.clone(),
        user_id,
        friendly_name: match friendly_name {
            Some(n) => n,
            None => String::from_str("Unknown"),
        },
    };
    stores.pending_registers2.remove(continue_token);
    Ok(
        RegisterOutcome {
            response: RegisterResponse::Register { token },
            mail: None,
            user: Some(user),
            profile: Some(profile),
            session: Some(session),
        },
    )
}

/// The password file that the PAKE adapter makes of `message`, a
/// registration upload in base64.
pub open spec fn uploaded_file(message: Seq<char>) -> Option<Seq<u8>> {
    match base64_bytes(message) {
        Some(upload) => password_file(upload),
        None => None,
    }
}

/// Asks the PAKE adapter for the password file of an upload in base64.
pub fn upload_file(message: &String) -> (r: Option<Vec<u8>>)
    ensures
        bytes_opt(r) == uploaded_file(message@),
{
    match decode_base64(message) {
        None => None,
        Some(upload) => match crate::opaque::finish_registration(&upload) {
            Ok(f) => Some(f),
            Err(_) => None,
        },
    }
}

/// What stage 3 guarantees: [`registered`] on the password file that the
/// PAKE adapter makes and the bearer token that the signer makes, with
/// some account id and some session id.
pub open spec fn register_ensures(
    pre: StoresView,
    post: StoresView,
    secret: Seq<u8>,
    clock: Clock,
    continue_token: Seq<char>,
    message: Seq<char>,
    friendly_name: Option<Seq<char>>,
    username: Seq<char>,
    persist: Option<bool>,
    display_name: Seq<char>,
    username_taken: bool,
    r: Result<RegisterOutcomeView, Error>,
) -> bool {
    exists|user_id: Seq<char>, session_id: Seq<char>|
        {
            &&& user_id.len() == ID_LEN
            &&& session_id.len() == ID_LEN
            &&& (post, r) == #[trigger] registered(
                pre,
                clock.secs,
                continue_token,
                friendly_name,
                username,
                display_name,
                username_taken,
                uploaded_file(message),
                user_id,
                issued_token(user_id, clock.millis, persists(persist), secret),
                session_id,
            )
        }
}

/// Stage 3: creates the account: see [`register_ensures`].
pub fn register(
    stores: &mut Stores,
    env: &Environment,
    clock: Clock,
    continue_token: &String,
    message: &String,
    friendly_name: Option<String>,
    username: &String,
    persist: Option<bool>,
    display_name: &String,
    username_taken: bool,
) -> (r: Result<RegisterOutcome, Error>)
    ensures
        register_ensures(
            old(stores)@,
            final(stores)@,
            env.jwt_secret@,
            clock,
            continue_token@,
            message@,
            text_opt(friendly_name),
            username@,
            persist,
            display_name@,
            username_taken,
            outcome(r),
        ),
{
    let user_id = generate_id();
    let long_lived = match persist {
        Some(b) => b,
        None => false,
    };
    let (file, jwt) = match stores.pending_registers2.peek(
        continue_token,
        clock.secs,
        SHORT_TIMEOUT,
    ) {
        Some(Pending::Register(_)) => (
            upload_file(message),
            token_of(issue_token(&user_id, clock.millis, long_lived, &env.jwt_secret)),
        ),
        _ => (None, None),
    };
    let session_id = generate_id();
    let ghost user_view = user_id@;
    let ghost session_view = session_id@;
    let ghost name_view = text_opt(friendly_name);
    let r = register_with(
        stores,
        clock.secs,
        continue_token,
        friendly_name,
        username,
        display_name,
        username_taken,
        file,
        user_id,
        jwt,
        session_id,
    );
    assert((stores@, outcome(r)) == registered(
        old(stores)@,
        clock.secs,
        continue_token@,
        name_view,
        username@,
        display_name@,
        username_taken,
        uploaded_file(message@),
        user_view,
        issued_token(user_view, clock.millis, persists(persist), env.jwt_secret@),
        session_view,
    ));
    r
}

/// What [`handle`] guarantees: what the stage of the request guarantees.
pub open spec fn handle_ensures(
    pre: StoresView,
    post: StoresView,
    env: Environment,
    clock: Clock,
    register: Register,
    facts: RegisterFacts,
    r: Result<RegisterOutcomeView, Error>,
) -> bool {
    match register {
        Register::VerifyEmail { email, captcha_token } => verify_address_ensures(
            pre,
            post,
            clock.secs,
            email@,
            facts.captcha,
            facts.email_taken,
            env.smtp_enabled,
            r,
        ),
        Register::BeginRegistration { email_token, message } => begin_registration_ensures(
            pre,
            post,
            facts.server_setup@,
            clock.secs,
            email_token@,
            message@,
            r,
        ),
        Register::Register {
            continue_token,
            message,
            friendly_name,
            username,
            persist,
            display_name,
        } => register_ensures(
            pre,
            post,
            env.jwt_secret@,
            clock,
            continue_token@,
            message@,
            text_opt(friendly_name),
            username@,
            persist,
            display_name@,
            facts.username_taken,
            r,
        ),
    }
}

/// Handles one request to the registration flow at the reading `clock`,
/// with the facts that the caller found out for it: see
/// [`handle_ensures`].
pub fn handle(
    stores: &mut Stores,
    env: &Environment,
    clock: Clock,
    register: Register,
    facts: RegisterFacts,
) -> (r: Result<RegisterOutcome, Error>)
    ensures
        handle_ensures(old(stores)@, final(stores)@, *env, clock, register, facts, outcome(r)),
{
    match register {
        Register::VerifyEmail { email, captcha_token } => verify_address(
            stores,
            env,
            clock.secs,
            email,
            facts.captcha,
            facts.email_taken,
        ),
        Register::BeginRegistration { email_token, message } => begin_registration(
            stores,
            &facts.server_setup,
            clock.secs,
            &email_token,
            &message,
        ),
        Register::Register {
            continue_token,
            message,
            friendly_name,
            username,
            persist,
            display_name,
        } => self::register(
            stores,
            env,
            clock,
            &continue_token,
            &message,
            friendly_name,
            &username,
            persist,
            &display_name,
            facts.username_taken,
        ),
    }
}

/// A token that finds no live record is turned down as `SessionExpired`
/// by stage 2, whatever else the request holds: a token that was never
/// issued, one whose record has expired though no sweep has run, and one
/// that was consumed.
pub proof fn begin_registration_refuses_stale_token(
    pre: StoresView,
    now: u64,
    email_token: Seq<char>,
    answer: Option<Seq<char>>,
    continue_token: Seq<char>,
)
    requires
        live(pre.pending_registers1, email_token, now, SHORT_TIMEOUT) is None,
    ensures
        registration_begun(pre, now, email_token, answer, continue_token).1 == Err::<
            RegisterOutcomeView,
            Error,
        >(Error::SessionExpired),
{
}

/// The token that proves an address is good for one success of stage 2.
pub proof fn begin_registration_is_single_use(
    pre: StoresView,
    now: u64,
    email_token: Seq<char>,
    answer: Option<Seq<char>>,
    continue_token: Seq<char>,
    later: u64,
    answer_again: Option<Seq<char>>,
    continue_token_again: Seq<char>,
)
    requires
        registration_begun(pre, now, email_token, answer, continue_token).1 is Ok,
    ensures
        registration_begun(
            registration_begun(pre, now, email_token, answer, continue_token).0,
            later,
            email_token,
            answer_again,
            continue_token_again,
        ).1 == Err::<RegisterOutcomeView, Error>(Error::SessionExpired),
{
}

/// A continuation token that finds no live record is turned down as
/// `SessionExpired` by stage 3, whatever else the request holds.
pub proof fn register_refuses_stale_token(
    pre: StoresView,
    now: u64,
    continue_token: Seq<char>,
    friendly_name: Option<Seq<char>>,
    username: Seq<char>,
    display_name: Seq<char>,
    username_taken: bool,
    file: Option<Seq<u8>>,
    user_id: Seq<char>,
    jwt: Option<Seq<char>>,
    session_id: Seq<char>,
)
    requires
        live(pre.pending_registers2, continue_token, now, SHORT_TIMEOUT) is None,
    ensures
        registered(
            pre,
            now,
            continue_token,
            friendly_name,
            username,
            display_name,
            username_taken,
            file,
            user_id,
            jwt,
            session_id,
        ).1 == Err::<RegisterOutcomeView, Error>(Error::SessionExpired),
{
}

/// A continuation token is good for one account: when stage 3 has
/// succeeded with it, a replay with the same token is `SessionExpired`, at
/// whatever time and with whatever else it holds.
pub proof fn register_is_single_use(
    pre: StoresView,
    now: u64,
    continue_token: Seq<char>,
    friendly_name: Option<Seq<char>>,
    username: Seq<char>,
    display_name: Seq<char>,
    username_taken: bool,
    file: Option<Seq<u8>>,
    user_id: Seq<char>,
    jwt: Option<Seq<char>>,
    session_id: Seq<char>,
    later: u64,
    taken_again: bool,
    file_again: Option<Seq<u8>>,
    user_id_again: Seq<char>,
    jwt_again: Option<Seq<char>>,
    session_id_again: Seq<char>,
)
    requires
        registered(
            pre,
            now,
            continue_token,
            friendly_name,
            username,
            display_name,
            username_taken,
            file,
            user_id,
            jwt,
            session_id,
        ).1 is Ok,
    ensures
        registered(
            registered(
                pre,
                now,
                continue_token,
                friendly_name,
                username,
                display_name,
                username_taken,
                file,
                user_id,
                jwt,
                session_id,
            ).0,
            later,
            continue_token,
            friendly_name,
            username,
            display_name,
            taken_again,
            file_again,
            user_id_again,
            jwt_again,
            session_id_again,
        ).1 == Err::<RegisterOutcomeView, Error>(Error::SessionExpired),
{
}

/// Stage 1 does not tell whether an address belongs to an account,
/// whether or not mail is sent: with the same token, the request for a
/// taken address fails as the request for a free one fails, and is
/// answered as that one is answered. A taken address is never an error of
/// its own.
pub proof fn verify_address_does_not_tell_accounts(
    pre: Records,
    now: u64,
    email: Seq<char>,
    captcha: Result<(), Error>,
    valid: bool,
    smtp_enabled: bool,
    long_token: Seq<char>,
)
    ensures
        match (
            address_verified(pre, now, email, captcha, valid, true, smtp_enabled, long_token).1,
            address_verified(pre, now, email, captcha, valid, false, smtp_enabled, long_token).1,
        ) {
            (Ok(taken), Ok(free)) => taken.response == free.response,
            (Err(e), Err(f)) => e == f,
            _ => false,
        },
        captcha is Ok && valid && !pre.contains_key(long_token) ==> address_verified(
            pre,
            now,
            email,
            captcha,
            valid,
            true,
            smtp_enabled,
            long_token,
        ).1 is Ok,
{
}

/// The record of stage 1 stands under the long token and nowhere else:
/// stage 1 leaves the records as they were or adds one record under its
/// token.
pub proof fn verify_address_keys_by_the_long_token(
    pre: Records,
    now: u64,
    email: Seq<char>,
    captcha: Result<(), Error>,
    valid: bool,
    email_taken: bool,
    smtp_enabled: bool,
    long_token: Seq<char>,
)
    ensures
        ({
            let post = address_verified(
                pre,
                now,
                email,
                captcha,
                valid,
                email_taken,
                smtp_enabled,
                long_token,
            ).0;
            post == pre || post == pre.insert(
                long_token,
                PendingView::Register(PendingRegisterView { time: now, email }),
            )
        }),
{
}

/// Stage 1 changes its records under the long token and nowhere else: with
/// that slot as it was, they are what they were.
pub proof fn verify_address_can_be_taken_back(
    pre: Records,
    now: u64,
    email: Seq<char>,
    captcha: Result<(), Error>,
    valid: bool,
    email_taken: bool,
    smtp_enabled: bool,
    long_token: Seq<char>,
)
    ensures
        slot_restored(
            address_verified(
                pre,
                now,
                email,
                captcha,
                valid,
                email_taken,
                smtp_enabled,
                long_token,
            ).0,
            pre,
            long_token,
        ) == pre,
{
    let post = address_verified(
        pre,
        now,
        email,
        captcha,
        valid,
        email_taken,
        smtp_enabled,
        long_token,
    ).0;
    assert(slot_restored(post, pre, long_token) =~= pre);
}

/// Stage 3 can be taken back where the caller's write fails: it changes
/// the stores under its continuation token and nowhere else.
pub proof fn register_can_be_taken_back(
    pre: StoresView,
    now: u64,
    continue_token: Seq<char>,
    friendly_name: Option<Seq<char>>,
    username: Seq<char>,
    display_name: Seq<char>,
    username_taken: bool,
    file: Option<Seq<u8>>,
    user_id: Seq<char>,
    jwt: Option<Seq<char>>,
    session_id: Seq<char>,
)
    ensures
        put_back(
            registered(
                pre,
                now,
                continue_token,
                friendly_name,
                username,
                display_name,
                username_taken,
                file,
                user_id,
                jwt,
                session_id,
            ).0,
            held(pre, Flow::PendingRegisters2, continue_token),
        ) == pre,
{
    let post = registered(
        pre,
        now,
        continue_token,
        friendly_name,
        username,
        display_name,
        username_taken,
        file,
        user_id,
        jwt,
        session_id,
    ).0;
    let back = put_back(post, held(pre, Flow::PendingRegisters2, continue_token));
    assert(back.pending_registers2 =~= pre.pending_registers2);
}

} // verus!
