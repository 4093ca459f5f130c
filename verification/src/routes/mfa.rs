//! TOTP enrollment: toggling the second factor and verifying the first code.

use vstd::prelude::*;
use crate::constants::CONTINUE_TIMEOUT;
use crate::database::session::{session_opt, Session, SessionView};
use crate::database::user::{user_opt, User, UserView};
use crate::environment::Environment;
use crate::errors::Error;
use crate::store::{
    after_access, held, live, put_back, Flow, Pending, PendingView, Records, Stores, StoresView,
};
use crate::utilities::{
    code_text, code_text_is_injective, escalation_checked, escalation_passes, generate_codes,
    generate_id, is_code, random_number,
    validate_escalation, CODE_COUNT, ID_LEN,
};
use crate::view::{outcome, text_opt, texts};

verus! {

/// An enrollment that waits for its first code: the raw TOTP key, its
/// base32 form as the account will store it, and the account.
#[derive(Clone, Debug, PartialEq, Eq)]
pub struct PendingMfaSetup {
    pub totp: Vec<u8>,
    pub secret: String,
    pub time: u64,
    pub user: User,
}

/// Mathematical content of a [`PendingMfaSetup`].
pub ghost struct PendingMfaSetupView {
    pub totp: Seq<u8>,
    pub secret: Seq<char>,
    pub time: u64,
    pub user: UserView,
}

impl View for PendingMfaSetup {
    type V = PendingMfaSetupView;

    open spec fn view(&self) -> PendingMfaSetupView {
        PendingMfaSetupView {
            totp: self.totp@,
            secret: self.secret@,
            time: self.time,
            user: self.user@,
        }
    }
}

/// A request to the MFA flow.
#[derive(Clone, Debug, PartialEq, Eq)]
pub enum Mfa {
    /// Switches the second factor: off at once where it is on, towards an
    /// enrollment where it is off. Needs an escalation grant.
    Toggle { escalation_token: String },
    /// Completes an enrollment with the first code of the new generator.
    EnableVerify { code: String, continue_token: String },
}

/// The answer to an [`Mfa`] request.
#[derive(Clone, Debug, PartialEq, Eq)]
pub enum MfaResponse {
    /// An enrollment has begun: the provisioning QR code, the secret in
    /// base32 and the backup codes, for display.
    Enable { continue_token: String, qr: String, secret: String, codes: Vec<String> },
    Disable {  },
    EnableVerify {  },
}

/// Mathematical content of an [`MfaResponse`].
pub ghost enum MfaResponseView {
    Enable { continue_token: Seq<char>, qr: Seq<char>, secret: Seq<char>, codes: Seq<Seq<char>> },
    Disable {  },
    EnableVerify {  },
}

impl View for MfaResponse {
    type V = MfaResponseView;

    open spec fn view(&self) -> MfaResponseView {
        match self {
            MfaResponse::Enable { continue_token, qr, secret, codes } => MfaResponseView::Enable {
                continue_token: continue_token@,
                qr: qr@,
                secret: secret@,
                codes: texts(*codes),
            },
            MfaResponse::Disable {  } => MfaResponseView::Disable {  },
            MfaResponse::EnableVerify {  } => MfaResponseView::EnableVerify {  },
        }
    }
}

/// A request to set the second factor of an account.
#[derive(Clone, Debug, PartialEq, Eq)]
pub struct MfaUpdate {
    pub user_id: String,
    pub mfa_enabled: bool,
    pub mfa_secret: Option<String>,
}

/// Mathematical content of an [`MfaUpdate`].
pub ghost struct MfaUpdateView {
    pub user_id: Seq<char>,
    pub mfa_enabled: bool,
    pub mfa_secret: Option<Seq<char>>,
}

impl View for MfaUpdate {
    type V = MfaUpdateView;

    open spec fn view(&self) -> MfaUpdateView {
        MfaUpdateView {
            user_id: self.user_id@,
            mfa_enabled: self.mfa_enabled,
            mfa_secret: text_opt(self.mfa_secret),
        }
    }
}

/// What a stage of the MFA flow asks of its caller: the response to send
/// and the writes to make in the persistent store.
#[derive(Clone, Debug, PartialEq, Eq)]
pub struct MfaOutcome {
    pub response: MfaResponse,
    /// The new state of the account's second factor, where it changes.
    pub update: Option<MfaUpdate>,
    /// The account whose backup codes are all to be deleted, if any.
    pub clear_codes: Option<String>,
    /// The account that the backup codes of the response are to be stored
    /// for, if any.
    pub store_codes: Option<String>,
}

/// Mathematical content of an [`MfaOutcome`].
pub ghost struct MfaOutcomeView {
    pub response: MfaResponseView,
    pub update: Option<MfaUpdateView>,
    pub clear_codes: Option<Seq<char>>,
    pub store_codes: Option<Seq<char>>,
}

impl View for MfaOutcome {
    type V = MfaOutcomeView;

    open spec fn view(&self) -> MfaOutcomeView {
        MfaOutcomeView {
            response: self.response@,
            update: match self.update {
                Some(u) => Some(u@),
                None => None,
            },
            clear_codes: text_opt(self.clear_codes),
            store_codes: text_opt(self.store_codes),
        }
    }
}

/// What the caller looked up in the persistent store for a request.
#[derive(Clone, Debug, PartialEq, Eq)]
pub struct MfaFacts {
    /// The session that the grant escalated, see
    /// [`crate::utilities::escalated_session`].
    pub backing: Option<Session>,
    /// The session of the bearer token that came with the request.
    pub presented: Option<Session>,
    /// The account of that bearer token.
    pub user: Option<User>,
}

/// Number of random bytes in a new TOTP key.
pub const KEY_LEN: usize = 160;

/// A toggle, given a fresh key, its base32 text, the QR code that the TOTP
/// adapter drew for it (`None` where it could not), a fresh continuation
/// token and fresh backup codes: the stores afterwards, and the result.
///
/// The grant is checked first, as [`escalation_checked`] says. An account
/// that the caller did not find is a `DatabaseError`. Where the second
/// factor is on it is switched off at once: the account loses its secret
/// and all its backup codes. Where it is off an enrollment begins: the
/// account is not touched yet, the enrollment is pending under the new
/// token, and the backup codes are handed out for display and storage. A
/// QR code that cannot be drawn, like a token that is already taken, is a
/// `DatabaseError`.
pub open spec fn toggled(
    pre: StoresView,
    now: u64,
    escalation_token: Seq<char>,
    backing: Option<SessionView>,
    presented: Option<SessionView>,
    user: Option<UserView>,
    key: Seq<u8>,
    secret: Seq<char>,
    qr: Option<Seq<char>>,
    continue_token: Seq<char>,
    codes: Seq<Seq<char>>,
) -> (StoresView, Result<MfaOutcomeView, Error>) {
    let checked = escalation_checked(
        pre.active_escalations,
        now,
        escalation_token,
        backing,
        presented,
    );
    let mid = StoresView { active_escalations: checked.0, ..pre };
    match checked.1 {
        Err(e) => (mid, Err(e)),
        Ok(_) => match user {
            None => (mid, Err(Error::DatabaseError)),
            Some(u) => if u.mfa_enabled {
                (
                    mid,
                    Ok(
                        MfaOutcomeView {
                            response: MfaResponseView::Disable {  },
                            update: Some(
                                MfaUpdateView {
                                    user_id: u.id,
                                    mfa_enabled: false,
                                    mfa_secret: None,
                                },
                            ),
                            clear_codes: Some(u.id),
                            store_codes: None,
                        },
                    ),
                )
            } else {
                match qr {
                    None => (mid, Err(Error::DatabaseError)),
                    Some(image) => if pre.pending_mfa_setups.contains_key(continue_token) {
                        (mid, Err(Error::DatabaseError))
                    } else {
                        (
                            StoresView {
                                pending_mfa_setups: pre.pending_mfa_setups.insert(
                                    continue_token,
                                    PendingView::MfaSetup(
                                        PendingMfaSetupView { totp: key, secret, time: now, user: u },
                                    ),
                                ),
                                ..mid
                            },
                            Ok(
                                MfaOutcomeView {
                                    response: MfaResponseView::Enable {
                                        continue_token,
                                        qr: image,
                                        secret,
                                        codes,
                                    },
                                    update: None,
                                    clear_codes: None,
                                    store_codes: Some(u.id),
                                },
                            ),
                        )
                    },
                }
            },
        },
    }
}

/// A toggle on the results of the outside calls: see [`toggled`].
pub fn toggle_with(
    stores: &mut Stores,
    now: u64,
    escalation_token: &String,
    backing: &Option<Session>,
    presented: &Option<Session>,
    user: Option<User>,
    key: Vec<u8>,
    secret: String,
    qr: Option<String>,
    continue_token: String,
    codes: Vec<String>,
) -> (r: Result<MfaOutcome, Error>)
    ensures
        (final(stores)@, outcome(r)) == toggled(
            old(stores)@,
            now,
            escalation_token@,
            session_opt(*backing),
            session_opt(*presented),
            user_opt(user),
            key@,
            secret@,
            text_opt(qr),
            continue_token@,
            texts(codes),
        ),
{
    match validate_escalation(stores, now, escalation_token, backing, presented) {
        Err(e) => {
            return Err(e);
        },
        Ok(_) => {},
    }
    let user = match user {
        Some(u) => u,
        None => {
            return Err(Error::DatabaseError);
        },
    };
    if user.mfa_enabled {
        return Ok(
            MfaOutcome {
                response: MfaResponse::Disable {  },
                update: Some(
                    MfaUpdate { user_id: user.id.clone(), mfa_enabled: false, mfa_secret: None },
                ),
                clear_codes: Some(user.id),
                store_codes: None,
            },
        );
    }
    let image = match qr {
        Some(i) => i,
        None => {
            return Err(Error::DatabaseError);
        },
    };
    let user_id = user.id.clone();
    let record = PendingMfaSetup { totp: key, secret: secret.clone(), time: now, user };
    if !stores.pending_mfa_setups.put(continue_token.clone(), Pending::MfaSetup(record)) {
        return Err(Error::DatabaseError);
    }
    Ok(
        MfaOutcome {
            response: MfaResponse::Enable { continue_token, qr: image, secret, codes },
            update: None,
            clear_codes: None,
            store_codes: Some(user_id),
        },
    )
}

/// The name of an optional account.
pub open spec fn username_of(user: Option<UserView>) -> Seq<char> {
    match user {
        Some(u) => u.username,
        None => Seq::empty(),
    }
}

/// Shape of a set of backup codes: ten codes, no two alike.
pub open spec fn is_code_set(codes: Seq<Seq<char>>) -> bool {
    &&& codes.len() == CODE_COUNT
    &&& forall|i: int| 0 <= i < codes.len() ==> is_code(#[trigger] codes[i])
    &&& forall|i: int, j: int| 0 <= i < j < codes.len() ==> codes[i] != codes[j]
}

/// What a toggle guarantees: [`toggled`] on some key of [`KEY_LEN`] bytes,
/// the base32 text of that key and the QR code that the TOTP adapter draws
/// for it under the service's name and the account's name, with some
/// continuation token of [`ID_LEN`] characters and some set of backup
/// codes.
pub open spec fn toggle_ensures(
    pre: StoresView,
    post: StoresView,
    issuer: Seq<char>,
    now: u64,
    escalation_token: Seq<char>,
    backing: Option<SessionView>,
    presented: Option<SessionView>,
    user: Option<UserView>,
    r: Result<MfaOutcomeView, Error>,
) -> bool {
    exists|key: Seq<u8>, continue_token: Seq<char>, codes: Seq<Seq<char>>|
        {
            &&& key.len() == KEY_LEN
            &&& continue_token.len() == ID_LEN
            &&& is_code_set(codes)
            &&& (post, r) == #[trigger] toggled(
                pre,
                now,
                escalation_token,
                backing,
                presented,
                user,
                key,
                base32_text(key),
                totp_qr(key, issuer, username_of(user)),
                continue_token,
                codes,
            )
        }
}

/// Switches the second factor of an account that holds an escalation
/// grant: see [`toggle_ensures`].
pub fn toggle(
    stores: &mut Stores,
    env: &Environment,
    now: u64,
    escalation_token: &String,
    facts: MfaFacts,
) -> (r: Result<MfaOutcome, Error>)
    ensures
        toggle_ensures(
            old(stores)@,
            final(stores)@,
            env.service_name@,
            now,
            escalation_token@,
            session_opt(facts.backing),
            session_opt(facts.presented),
            user_opt(facts.user),
            outcome(r),
        ),
{
    let passes = escalation_passes(stores, now, escalation_token, &facts.backing, &facts.presented);
    let enrolls = match &facts.user {
        Some(u) => passes && !u.mfa_enabled,
        None => false,
    };
    if !enrolls {
        // no enrollment begins: nothing is drawn and nothing is computed
        let ghost key = Seq::new(KEY_LEN as nat, |i: int| 0u8);
        let ghost token = Seq::new(ID_LEN as nat, |i: int| 'a');
        let ghost codes = a_code_set();
        let r = toggle_with(
            stores,
            now,
            escalation_token,
            &facts.backing,
            &facts.presented,
            facts.user,
            Vec::new(),
            String::new(),
            None,
            String::new(),
            Vec::new(),
        );
        assert((stores@, outcome(r)) == toggled(
            old(stores)@,
            now,
            escalation_token@,
            session_opt(facts.backing),
            session_opt(facts.presented),
            user_opt(facts.user),
            key,
            base32_text(key),
            totp_qr(key, env.service_name@, username_of(user_opt(facts.user))),
            token,
            codes,
        ));
        return r;
    }
    let key = random_number(KEY_LEN);
    let secret = base32_encode(&key);
    let qr = match &facts.user {
        Some(u) => totp_qr_base64(&key, &env.service_name, &u.username),
        None => None,
    };
    let continue_token = generate_id();
    let codes = generate_codes();
    let ghost key_view = key@;
    let ghost token_view = continue_token@;
    let ghost codes_view = texts(codes);
    let r = toggle_with(
        stores,
        now,
        escalation_token,
        &facts.backing,
        &facts.presented,
        facts.user,
        key,
        secret,
        qr,
        continue_token,
        codes,
    );
    assert((stores@, outcome(r)) == toggled(
        old(stores)@,
        now,
        escalation_token@,
        session_opt(facts.backing),
        session_opt(facts.presented),
        user_opt(facts.user),
        key_view,
        base32_text(key_view),
        totp_qr(key_view, env.service_name@, username_of(user_opt(facts.user))),
        token_view,
        codes_view,
    ));
    r
}

/// There are sets of backup codes: the codes of the numbers 0 to 9 are
/// one.
proof fn a_code_set() -> (codes: Seq<Seq<char>>)
    ensures
        is_code_set(codes),
{
    let codes = Seq::new(CODE_COUNT as nat, |i: int| code_text(i));
    assert forall|i: int| 0 <= i < codes.len() implies is_code(#[trigger] codes[i]) by {
        assert(codes[i] == code_text(i));
    }
    assert forall|i: int, j: int| 0 <= i < j < codes.len() implies codes[i] != codes[j] by {
        if codes[i] == codes[j] {
            code_text_is_injective(i, j);
        }
    }
    codes
}

/// The end of an enrollment, given the code that the new generator shows
/// in the current window (`None` where no generator can be made): the
/// stores afterwards, and the result.
///
/// A token that is unknown, expired or not of this flow is
/// `SessionExpired`. Only the current 30-second window counts. A code that
/// does not match is `IncorrectCode` and leaves the enrollment pending, so
/// that the client may try again. A code that matches switches the second
/// factor on with the pending secret and consumes the enrollment.
pub open spec fn enrolled(
    pre: StoresView,
    now: u64,
    code: Seq<char>,
    continue_token: Seq<char>,
    current: Option<Seq<char>>,
) -> (StoresView, Result<MfaOutcomeView, Error>) {
    match live(pre.pending_mfa_setups, continue_token, now, CONTINUE_TIMEOUT) {
        Some(PendingView::MfaSetup(p)) => if current != Some(code) {
            (pre, Err(Error::IncorrectCode))
        } else {
            (
                StoresView {
                    pending_mfa_setups: pre.pending_mfa_setups.remove(continue_token),
                    ..pre
                },
                Ok(
                    MfaOutcomeView {
                        response: MfaResponseView::EnableVerify {  },
                        update: Some(
                            MfaUpdateView {
                                user_id: p.user.id,
                                mfa_enabled: true,
                                mfa_secret: Some(p.secret),
                            },
                        ),
                        clear_codes: None,
                        store_codes: None,
                    },
                ),
            )
        },
        _ => (
            StoresView {
                pending_mfa_setups: after_access(
                    pre.pending_mfa_setups,
                    continue_token,
                    now,
                    CONTINUE_TIMEOUT,
                ),
                ..pre
            },
            Err(Error::SessionExpired),
        ),
    }
}

/// The end of an enrollment on the result of the outside call: see
/// [`enrolled`].
pub fn enable_verify_with(
    stores: &mut Stores,
    now: u64,
    code: &String,
    continue_token: &String,
    current: Option<String>,
) -> (r: Result<MfaOutcome, Error>)
    ensures
        (final(stores)@, outcome(r)) == enrolled(
            old(stores)@,
            now,
            code@,
            continue_token@,
            text_opt(current),
        ),
{
    let record = match stores.pending_mfa_setups.access(continue_token, now, CONTINUE_TIMEOUT) {
        Some(Pending::MfaSetup(p)) => p,
        _ => {
            return Err(Error::SessionExpired);
        },
    };
    let matches = match &current {
        Some(c) => *c == *code,
        None => false,
    };
    if !matches {
        return Err(Error::IncorrectCode);
    }
    stores.pending_mfa_setups.remove(continue_token);
    Ok(
        MfaOutcome {
            response: MfaResponse::EnableVerify {  },
            update: Some(
                MfaUpdate {
                    user_id: record.user.id,
                    mfa_enabled: true,
                    mfa_secret: Some(record.secret),
                },
            ),
            clear_codes: None,
            store_codes: None,
        },
    )
}

/// The code that the generator of the enrollment pending under
/// `continue_token` shows at second `now`.
pub open spec fn enrollment_code(
    setups: Records,
    continue_token: Seq<char>,
    issuer: Seq<char>,
    now: u64,
) -> Option<Seq<char>> {
    match setups[continue_token] {
        PendingView::MfaSetup(p) => totp_code(p.totp, issuer, p.user.username, now),
        _ => None,
    }
}

/// Completes an enrollment: [`enrolled`] on the code that the pending
/// generator shows at second `now`.
pub fn enable_verify(
    stores: &mut Stores,
    env: &Environment,
    now: u64,
    code: &String,
    continue_token: &String,
) -> (r: Result<MfaOutcome, Error>)
    ensures
        (final(stores)@, outcome(r)) == enrolled(
            old(stores)@,
            now,
            code@,
            continue_token@,
            enrollment_code(
                old(stores)@.pending_mfa_setups,
                continue_token@,
                env.service_name@,
                now,
            ),
        ),
{
    let current = match stores.pending_mfa_setups.peek(continue_token, now, CONTINUE_TIMEOUT) {
        Some(Pending::MfaSetup(p)) => totp_generate(
            &p.totp,
            &env.service_name,
            &p.user.username,
            now,
        ),
        _ => None,
    };
    enable_verify_with(stores, now, code, continue_token, current)
}

/// What [`handle`] guarantees: what the request asks for.
pub open spec fn handle_ensures(
    pre: StoresView,
    post: StoresView,
    env: Environment,
    now: u64,
    mfa: Mfa,
    facts: MfaFacts,
    r: Result<MfaOutcomeView, Error>,
) -> bool {
    match mfa {
        Mfa::Toggle { escalation_token } => toggle_ensures(
            pre,
            post,
            env.service_name@,
            now,
            escalation_token@,
            session_opt(facts.backing),
            session_opt(facts.presented),
            user_opt(facts.user),
            r,
        ),
        Mfa::EnableVerify { code, continue_token } => (post, r) == enrolled(
            pre,
            now,
            code@,
            continue_token@,
            enrollment_code(pre.pending_mfa_setups, continue_token@, env.service_name@, now),
        ),
    }
}

/// Handles one request to the MFA flow at second `now`, with the facts
/// that the caller looked up for it: see [`handle_ensures`].
pub fn handle(stores: &mut Stores, env: &Environment, now: u64, mfa: Mfa, facts: MfaFacts) -> (r:
    Result<MfaOutcome, Error>)
    ensures
        handle_ensures(old(stores)@, final(stores)@, *env, now, mfa, facts, outcome(r)),
{
    match mfa {
        Mfa::Toggle { escalation_token } => toggle(stores, env, now, &escalation_token, facts),
        Mfa::EnableVerify { code, continue_token } => enable_verify(
            stores,
            env,
            now,
            &code,
            &continue_token,
        ),
    }
}

/// The code that a TOTP generator shows at second `time`: what
/// `TOTP::generate` returns on the generator that `TOTP::new` makes with
/// SHA-256, 8 digits, a skew of one step and steps of 30 seconds for the
/// raw key, the issuer and the account name. `None` where `TOTP::new`
/// refuses them.
pub uninterp spec fn totp_code(
    key: Seq<u8>,
    issuer: Seq<char>,
    account: Seq<char>,
    time: u64,
) -> Option<Seq<char>>;

/// The provisioning QR code of such a generator, a PNG in base64: what
/// `TOTP::get_qr_base64` returns. `None` where no generator or no image
/// can be made.
pub uninterp spec fn totp_qr(key: Seq<u8>, issuer: Seq<char>, account: Seq<char>) -> Option<
    Seq<char>,
>;

/// The base32 text of a raw key: `Secret::to_encoded` on `Secret::Raw`.
pub uninterp spec fn base32_text(key: Seq<u8>) -> Seq<char>;

/// The raw key that base32 text stands for: `Secret::to_bytes` on
/// `Secret::Encoded`, `None` where the text is no base32.
pub uninterp spec fn base32_bytes(text: Seq<char>) -> Option<Seq<u8>>;

/// The code that an account with the stored secret `secret` shows at
/// second `now`, or `None` where the account stores no usable secret.
pub open spec fn live_code(
    secret: Option<Seq<char>>,
    issuer: Seq<char>,
    account: Seq<char>,
    now: u64,
) -> Option<Seq<char>> {
    match secret {
        Some(text) => match base32_bytes(text) {
            Some(key) => totp_code(key, issuer, account, now),
            None => None,
        },
        None => None,
    }
}

/// Computes the code of the 30-second window that holds second `now` for
/// an account's stored secret. No neighbouring window is consulted.
pub fn current_code(secret: &Option<String>, issuer: &String, account: &String, now: u64) -> (r:
    Option<String>)
    ensures
        text_opt(r) == live_code(text_opt(*secret), issuer@, account@, now),
{
    match secret {
        None => None,
        Some(text) => match base32_decode(text) {
            None => None,
            Some(key) => totp_generate(&key, issuer, account, now),
        },
    }
}

/// A continuation token that finds no live record is turned down as
/// `SessionExpired` at the end of an enrollment, whatever the code: a
/// token that was never issued, one whose record has expired though no
/// sweep has run, and one that was consumed.
pub proof fn enable_verify_refuses_stale_token(
    pre: StoresView,
    now: u64,
    code: Seq<char>,
    continue_token: Seq<char>,
    current: Option<Seq<char>>,
)
    requires
        live(pre.pending_mfa_setups, continue_token, now, CONTINUE_TIMEOUT) is None,
    ensures
        enrolled(pre, now, code, continue_token, current).1 == Err::<MfaOutcomeView, Error>(
            Error::SessionExpired,
        ),
{
}

/// An enrollment succeeds exactly once: when a code has completed it, a
/// second request with the same token is `SessionExpired`, whatever its
/// code and whatever the generator shows by then.
pub proof fn enable_verify_is_single_use(
    pre: StoresView,
    now: u64,
    code: Seq<char>,
    continue_token: Seq<char>,
    current: Option<Seq<char>>,
    later: u64,
    code_again: Seq<char>,
    current_again: Option<Seq<char>>,
)
    requires
        enrolled(pre, now, code, continue_token, current).1 is Ok,
    ensures
        enrolled(
            enrolled(pre, now, code, continue_token, current).0,
            later,
            code_again,
            continue_token,
            current_again,
        ).1 == Err::<MfaOutcomeView, Error>(Error::SessionExpired),
{
}

/// An enrollment in time is completed by the code that its generator
/// shows in the current window, and by no other code; a wrong code leaves
/// it pending for another try.
pub proof fn enrollment_takes_the_current_code(
    pre: StoresView,
    now: u64,
    code: Seq<char>,
    continue_token: Seq<char>,
    current: Seq<char>,
)
    requires
        live(pre.pending_mfa_setups, continue_token, now, CONTINUE_TIMEOUT) matches Some(
            PendingView::MfaSetup(_),
        ),
    ensures
        enrolled(pre, now, code, continue_token, Some(current)).1 is Ok <==> code == current,
        code != current ==> enrolled(pre, now, code, continue_token, Some(current)) == (
            pre,
            Err::<MfaOutcomeView, Error>(Error::IncorrectCode),
        ),
{
}

/// `TOTP::new` with `Algorithm::SHA256`, 8 digits, skew 1 and step 30,
/// then `TOTP::generate` at `time`. The clock is not read.
#[verifier::external_body]
fn totp_generate(key: &Vec<u8>, issuer: &String, account: &String, time: u64) -> (r:
    Option<String>)
    ensures
        text_opt(r) == totp_code(key@, issuer@, account@, time),
{
    let totp = totp_rs::TOTP::new(
        totp_rs::Algorithm::SHA256, 8, 1, 30, key.clone(), Some(issuer.clone()), account.clone());
    Some(totp.ok()?.generate(time))
}

/// `TOTP::new` as in [`totp_generate`], then `TOTP::get_qr_base64`.
#[verifier::external_body]
fn totp_qr_base64(key: &Vec<u8>, issuer: &String, account: &String) -> (r: Option<
    String,
>)
    ensures
        text_opt(r) == totp_qr(key@, issuer@, account@),
{
    let totp = totp_rs::TOTP::new(
        totp_rs::Algorithm::SHA256, 8, 1, 30, key.clone(), Some(issuer.clone()), account.clone());
    totp.ok()?.get_qr_base64().ok()
}

/// `Secret::Raw`, `Secret::to_encoded` and its `to_string`.
#[verifier::external_body]
fn base32_encode(key: &Vec<u8>) -> (text: String)
    ensures
        text@ == base32_text(key@),
{
    totp_rs::Secret::Raw(key.clone()).to_encoded().to_string()
}

/// `Secret::Encoded` and `Secret::to_bytes`.
#[verifier::external_body]
fn base32_decode(text: &String) -> (key: Option<Vec<u8>>)
    ensures
        match base32_bytes(text@) {
            Some(k) => key matches Some(v) && v@ == k,
            None => key is None,
        },
{
    totp_rs::Secret::Encoded(text.clone()).to_bytes().ok()
}

/// A toggle can be taken back where the caller's write fails: it changes
/// the stores under the escalation token and under the continuation token
/// that it hands out, and nowhere else.
pub proof fn toggle_can_be_taken_back(
    pre: StoresView,
    now: u64,
    escalation_token: Seq<char>,
    backing: Option<SessionView>,
    presented: Option<SessionView>,
    user: Option<UserView>,
    key: Seq<u8>,
    secret: Seq<char>,
    qr: Option<Seq<char>>,
    continue_token: Seq<char>,
    codes: Seq<Seq<char>>,
)
    ensures
        put_back(
            put_back(
                toggled(
                    pre,
                    now,
                    escalation_token,
                    backing,
                    presented,
                    user,
                    key,
                    secret,
                    qr,
                    continue_token,
                    codes,
                ).0,
                held(pre, Flow::ActiveEscalations, escalation_token),
            ),
            held(pre, Flow::PendingMfaSetups, continue_token),
        ) == pre,
{
    let post = toggled(
        pre,
        now,
        escalation_token,
        backing,
        presented,
        user,
        key,
        secret,
        qr,
        continue_token,
        codes,
    ).0;
    let back = put_back(
        put_back(post, held(pre, Flow::ActiveEscalations, escalation_token)),
        held(pre, Flow::PendingMfaSetups, continue_token),
    );
    assert(back.active_escalations =~= pre.active_escalations);
    assert(back.pending_mfa_setups =~= pre.pending_mfa_setups);
}

/// The end of an enrollment can be taken back where the caller's write
/// fails: it changes the stores under its continuation token and nowhere
/// else.
pub proof fn enable_verify_can_be_taken_back(
    pre: StoresView,
    now: u64,
    code: Seq<char>,
    continue_token: Seq<char>,
    current: Option<Seq<char>>,
)
    ensures
        put_back(
            enrolled(pre, now, code, continue_token, current).0,
            held(pre, Flow::PendingMfaSetups, continue_token),
        ) == pre,
{
    let back = put_back(
        enrolled(pre, now, code, continue_token, current).0,
        held(pre, Flow::PendingMfaSetups, continue_token),
    );
    assert(back.pending_mfa_setups =~= pre.pending_mfa_setups);
}

} // verus!
