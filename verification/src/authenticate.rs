//! Bearer tokens: the signed claim set that stands for a login, and the
//! decision between a new session and an escalation grant that every
//! successful login ends in.

use vstd::prelude::*;
use vstd::string::StringExecFns;
use jsonwebtoken::{decode, Algorithm, DecodingKey, Validation};
use serde_json::Value;
use crate::constants::{LONG_SESSION, SHORT_SESSION};
use crate::database::session::{session_opt, Session, SessionView};
use crate::errors::Error;
use crate::routes::login::{ActiveEscalation, ActiveEscalationView};
use crate::store::{Pending, PendingStore, PendingView, Records};
use crate::view::{outcome, text_opt};

verus! {

/// The claims of a bearer token: whose it is, and from when until when it
/// holds, in milliseconds since the epoch.
#[derive(Clone, Debug, PartialEq, Eq)]
pub struct UserJwt {
    pub id: String,
    pub issued_at: u128,
    pub expires_at: u128,
}

/// The bearer token that `jsonwebtoken::encode` makes with its default
/// header for a JSON object of named text claims and named number claims
/// under an HMAC secret. `None` where it makes none.
pub uninterp spec fn signed_token(
    texts: Seq<(Seq<char>, Seq<char>)>,
    numbers: Seq<(Seq<char>, u128)>,
    secret: Seq<u8>,
) -> Option<Seq<char>>;

/// Content of a list of named text claims.
pub open spec fn text_claims(v: Seq<(String, String)>) -> Seq<(Seq<char>, Seq<char>)> {
    v.map_values(|c: (String, String)| (c.0@, c.1@))
}

/// Content of a list of named number claims.
pub open spec fn number_claims(v: Seq<(String, u128)>) -> Seq<(Seq<char>, u128)> {
    v.map_values(|c: (String, u128)| (c.0@, c.1))
}

/// The bearer token for an account: the signature over the claims `id`,
/// `issued_at` and `expires_at`.
pub open spec fn bearer_token(id: Seq<char>, issued_at: u128, expires_at: u128, secret: Seq<u8>)
    -> Option<Seq<char>> {
    signed_token(
        seq![("id"@, id)],
        seq![("issued_at"@, issued_at), ("expires_at"@, expires_at)],
        secret,
    )
}

/// The millisecond at which a token issued at `millis` stops to hold:
/// 30 days later where the login is to persist, 7 days later where not.
pub open spec fn expiry(millis: u128, persist: bool) -> int {
    if persist {
        millis + LONG_SESSION
    } else {
        millis + SHORT_SESSION
    }
}

/// Computes the millisecond at which a token issued at `millis` expires;
/// `None` where that millisecond is out of range.
pub fn expires_at(millis: u128, persist: bool) -> (at: Option<u128>)
    ensures
        match at {
            Some(t) => t == expiry(millis, persist),
            None => expiry(millis, persist) > u128::MAX,
        },
{
    if persist {
        millis.checked_add(LONG_SESSION)
    } else {
        millis.checked_add(SHORT_SESSION)
    }
}

/// The bearer token that a login at `millis` issues to the account `id`:
/// the signed claims, or `None` where none can be made.
pub open spec fn issued_token(id: Seq<char>, millis: u128, persist: bool, secret: Seq<u8>)
    -> Option<Seq<char>> {
    if expiry(millis, persist) > u128::MAX {
        None
    } else {
        bearer_token(id, millis, expiry(millis, persist) as u128, secret)
    }
}

/// Issues the bearer token of a login at `millis` for the account `id`,
/// valid for 30 days where `persist` is set and for 7 days where not.
pub fn issue_token(id: &String, millis: u128, persist: bool, secret: &Vec<u8>) -> (r: Result<
    String,
    Error,
>)
    ensures
        match issued_token(id@, millis, persist, secret@) {
            Some(t) => r matches Ok(s) && s@ == t,
            None => r == Err::<String, Error>(Error::InvalidToken),
        },
{
    match expires_at(millis, persist) {
        None => Err(Error::InvalidToken),
        Some(at) => {
            let jwt = UserJwt { id: id.clone(), issued_at: millis, expires_at: at };
            encode_token(&jwt, secret)
        },
    }
}

/// What a successful login hands out: the bearer token and, where the
/// login stands for itself, the session that the caller is to persist.
/// Where it escalated an existing session, no session is created.
#[derive(Clone, Debug, PartialEq, Eq)]
pub struct Granted {
    pub token: String,
    pub session: Option<Session>,
}

/// Mathematical content of a [`Granted`].
pub ghost struct GrantedView {
    pub token: Seq<char>,
    pub session: Option<SessionView>,
}

impl View for Granted {
    type V = GrantedView;

    open spec fn view(&self) -> GrantedView {
        GrantedView { token: self.token@, session: session_opt(self.session) }
    }
}

/// Name of a session whose client gave none.
pub open spec fn session_name(friendly_name: Option<Seq<char>>) -> Seq<char> {
    match friendly_name {
        Some(n) => n,
        None => "Unknown"@,
    }
}

/// The session that a login which names an existing session escalates.
/// A request to escalate must carry the bearer token of that session
/// (`MissingToken` where it does not), and the token must be that of a
/// stored session (`SessionExpired` where `session`, what the caller found
/// under the token, is `None`).
pub open spec fn session_to_escalate(
    escalate: bool,
    token: Option<Seq<char>>,
    session: Option<SessionView>,
) -> Result<Option<SessionView>, Error> {
    if !escalate {
        Ok(None)
    } else if token is None {
        Err(Error::MissingToken)
    } else {
        match session {
            Some(s) => Ok(Some(s)),
            None => Err(Error::SessionExpired),
        }
    }
}

/// Decides which session, if any, a login escalates: see
/// [`session_to_escalate`].
pub fn existing_session(escalate: bool, token: &Option<String>, session: Option<Session>) -> (r:
    Result<Option<Session>, Error>)
    ensures
        match session_to_escalate(escalate, text_opt(*token), session_opt(session)) {
            Ok(s) => r matches Ok(found) && session_opt(found) == s,
            Err(e) => r == Err::<Option<Session>, Error>(e),
        },
{
    if !escalate {
        Ok(None)
    } else if token.is_none() {
        Err(Error::MissingToken)
    } else {
        match session {
            Some(s) => Ok(Some(s)),
            None => Err(Error::SessionExpired),
        }
    }
}

/// How a login that has proved the account `user_id` ends, given the
/// bearer token `token` issued for it and a fresh session id: the grants
/// that it leaves and what it hands out.
///
/// With an existing session the token becomes an escalation grant bound to
/// that session. The session must be one of the account that was proved
/// (`UserMismatch` where it is not), so that every grant is for the
/// account of its session; a token that is already a grant is not
/// overwritten but reported as `DatabaseError`. Without an existing
/// session a new session is handed to the caller and the grants are
/// untouched.
pub open spec fn granted(
    pre: Records,
    existing_session: Option<SessionView>,
    user_id: Seq<char>,
    friendly_name: Option<Seq<char>>,
    now: u64,
    token: Seq<char>,
    session_id: Seq<char>,
) -> (Records, Result<GrantedView, Error>) {
    match existing_session {
        Some(s) => if s.user_id != user_id {
            (pre, Err(Error::UserMismatch))
        } else if pre.contains_key(token) {
            (pre, Err(Error::DatabaseError))
        } else {
            (
                pre.insert(
                    token,
                    PendingView::Escalation(
                        ActiveEscalationView { session_id: s.id, user_id, time: now, token },
                    ),
                ),
                Ok(GrantedView { token, session: None }),
            )
        },
        None => (
            pre,
            Ok(
                GrantedView {
                    token,
                    session: Some(
                        SessionView {
                            id: session_id,
                            token,
                            user_id,
                            friendly_name: session_name(friendly_name),
                        },
                    ),
                },
            ),
        ),
    }
}

/// Every grant is for the account of the session it escalates: a login
/// leaves the grants as they were or adds one grant, under its bearer
/// token, whose session is the existing session and whose account is both
/// the account that was proved and the account of that session.
pub proof fn grant_is_for_the_account_of_its_session(
    pre: Records,
    existing_session: Option<SessionView>,
    user_id: Seq<char>,
    friendly_name: Option<Seq<char>>,
    now: u64,
    token: Seq<char>,
    session_id: Seq<char>,
)
    ensures
        ({
            let post = granted(
                pre,
                existing_session,
                user_id,
                friendly_name,
                now,
                token,
                session_id,
            ).0;
            post == pre || (existing_session matches Some(s) && s.user_id == user_id && post
                == pre.insert(
                token,
                PendingView::Escalation(
                    ActiveEscalationView { session_id: s.id, user_id: s.user_id, time: now, token },
                ),
            ))
        }),
{
}

/// Ends a login that has proved the account `user_id`: see [`granted`].
pub fn grant(
    escalations: &mut PendingStore,
    existing_session: Option<Session>,
    user_id: String,
    friendly_name: Option<String>,
    now: u64,
    token: String,
    session_id: String,
) -> (r: Result<Granted, Error>)
    ensures
        (final(escalations)@, outcome(r)) == granted(
            old(escalations)@,
            session_opt(existing_session),
            user_id@,
            text_opt(friendly_name),
            now,
            token@,
            session_id@,
        ),
{
    match existing_session {
        Some(s) => {
            if s.user_id != user_id {
                return Err(Error::UserMismatch);
            }
            let grant = ActiveEscalation {
                session_id: s.id,
                user_id,
                time: now,
                token: token.clone(),
            };
            if escalations.put(token.clone(), Pending::Escalation(grant)) {
                Ok(Granted { token, session: None })
            } else {
                Err(Error::DatabaseError)
            }
        },
        None => {
            let name = match friendly_name {
                Some(n) => n,
                None => String::from_str("Unknown"),
            };
            let session = Session {
                id: session_id,
                token: token.clone(),
                user_id,
                friendly_name: name,
            };
            Ok(Granted { token, session: Some(session) })
        },
    }
}

/// Signs the claims of `jwt` with `secret`. A token that cannot be made is
/// an `InvalidToken`.
pub fn encode_token(jwt: &UserJwt, secret: &Vec<u8>) -> (r: Result<String, Error>)
    ensures
        match bearer_token(jwt.id@, jwt.issued_at, jwt.expires_at, secret@) {
            Some(t) => r matches Ok(s) && s@ == t,
            None => r == Err::<String, Error>(Error::InvalidToken),
        },
{
    let mut texts: Vec<(String, String)> = Vec::new();
    texts.push((String::from_str("id"), jwt.id.clone()));
    let mut numbers: Vec<(String, u128)> = Vec::new();
    numbers.push((String::from_str("issued_at"), jwt.issued_at));
    numbers.push((String::from_str("expires_at"), jwt.expires_at));
    assert(text_claims(texts@) =~= seq![("id"@, jwt.id@)]);
    assert(number_claims(numbers@) =~= seq![
        ("issued_at"@, jwt.issued_at),
        ("expires_at"@, jwt.expires_at),
    ]);
    match jwt_encode(&texts, &numbers, secret) {
        Some(token) => Ok(token),
        None => Err(Error::InvalidToken),
    }
}

/// A claim of a bearer token, by its kind. A number is held where it is
/// a whole number from 0 to `u128::MAX`, which is all that a bearer token
/// of this service carries. What is neither a text nor a number nor a
/// truth value, that is nothing, a list or an object, is `Other`.
#[derive(Clone, Debug, PartialEq, Eq)]
pub enum Claim {
    Text(String),
    Number(Option<u128>),
    Flag(bool),
    Other,
}

/// Mathematical content of a [`Claim`].
pub ghost enum ClaimView {
    Text(Seq<char>),
    Number(Option<u128>),
    Flag(bool),
    Other,
}

impl View for Claim {
    type V = ClaimView;

    open spec fn view(&self) -> ClaimView {
        match self {
            Claim::Text(t) => ClaimView::Text(t@),
            Claim::Number(n) => ClaimView::Number(*n),
            Claim::Flag(b) => ClaimView::Flag(*b),
            Claim::Other => ClaimView::Other,
        }
    }
}

/// Content of a list of named claims.
pub open spec fn named_claims(v: Seq<(String, Claim)>) -> Seq<(Seq<char>, ClaimView)> {
    v.map_values(|c: (String, Claim)| (c.0@, c.1@))
}

/// The claims of a bearer token whose signature holds: what
/// `jsonwebtoken::decode` returns for the HMAC secret with HS256, no
/// required claim and no check of an expiry, as the claims of the token
/// by name and kind. `None` where the token is refused.
pub uninterp spec fn verified_claims(token: Seq<char>, secret: Seq<u8>) -> Option<
    Seq<(Seq<char>, ClaimView)>,
>;

/// The first claim with the name `name`.
pub open spec fn claim(claims: Seq<(Seq<char>, ClaimView)>, name: Seq<char>) -> Option<ClaimView>
    decreases claims.len(),
{
    if claims.len() == 0 {
        None
    } else if claims[0].0 == name {
        Some(claims[0].1)
    } else {
        claim(claims.drop_first(), name)
    }
}

/// Mathematical content of a [`UserJwt`].
pub ghost struct UserJwtView {
    pub id: Seq<char>,
    pub issued_at: u128,
    pub expires_at: u128,
}

impl View for UserJwt {
    type V = UserJwtView;

    open spec fn view(&self) -> UserJwtView {
        UserJwtView { id: self.id@, issued_at: self.issued_at, expires_at: self.expires_at }
    }
}

/// What a bearer token stands for at millisecond `millis`: its claims,
/// where its signature holds, it carries the three claims of a bearer
/// token, a text `id` and the numbers `issued_at` and `expires_at`, and
/// its expiry has not passed. Claims beyond these three do not count. The
/// signature and the expiry are checked independently: a token fails
/// where either does.
pub open spec fn token_claims(token: Seq<char>, secret: Seq<u8>, millis: u128) -> Result<
    UserJwtView,
    Error,
> {
    match verified_claims(token, secret) {
        None => Err(Error::InvalidToken),
        Some(claims) => match (
            claim(claims, "id"@),
            claim(claims, "issued_at"@),
            claim(claims, "expires_at"@),
        ) {
            (
                Some(ClaimView::Text(id)),
                Some(ClaimView::Number(Some(issued_at))),
                Some(ClaimView::Number(Some(expires_at))),
            ) => if expires_at < millis {
                Err(Error::InvalidToken)
            } else {
                Ok(UserJwtView { id, issued_at, expires_at })
            },
            _ => Err(Error::InvalidToken),
        },
    }
}

/// Looks a claim up by its name.
fn find_claim(claims: &Vec<(String, Claim)>, name: &str) -> (r: Option<usize>)
    ensures
        match r {
            Some(i) => i < claims.len() && claim(named_claims(claims@), name@) == Some(
                claims[i as int].1@,
            ),
            None => claim(named_claims(claims@), name@) is None,
        },
{
    let wanted = String::from_str(name);
    let mut i: usize = 0;
    assert(named_claims(claims@).subrange(0, claims.len() as int) == named_claims(claims@));
    while i < claims.len()
        invariant
            i <= claims.len(),
            wanted@ == name@,
            claim(named_claims(claims@), name@) == claim(
                named_claims(claims@).subrange(i as int, claims.len() as int),
                name@,
            ),
        decreases claims.len() - i,
    {
        let ghost rest = named_claims(claims@).subrange(i as int, claims.len() as int);
        assert(rest.drop_first() == named_claims(claims@).subrange(i + 1, claims.len() as int));
        assert(rest[0] == (claims[i as int].0@, claims[i as int].1@));
        if claims[i].0 == wanted {
            return Some(i);
        }
        i = i + 1;
    }
    None
}

/// The text of the claim with the name `name`, where it is a text.
fn text_of_claim(claims: &Vec<(String, Claim)>, name: &str) -> (r: Option<String>)
    ensures
        text_opt(r) == (match claim(named_claims(claims@), name@) {
            Some(ClaimView::Text(t)) => Some(t),
            _ => None,
        }),
{
    match find_claim(claims, name) {
        Some(i) => match &claims[i].1 {
            Claim::Text(t) => Some(t.clone()),
            _ => None,
        },
        None => None,
    }
}

/// The number of the claim with the name `name`, where it is a number
/// that is held.
fn number_of_claim(claims: &Vec<(String, Claim)>, name: &str) -> (r: Option<u128>)
    ensures
        r == (match claim(named_claims(claims@), name@) {
            Some(ClaimView::Number(n)) => n,
            _ => None,
        }),
{
    match find_claim(claims, name) {
        Some(i) => match &claims[i].1 {
            Claim::Number(n) => *n,
            _ => None,
        },
        None => None,
    }
}

/// Checks a bearer token at millisecond `millis`: see [`token_claims`].
pub fn validate_token(token: &String, secret: &Vec<u8>, millis: u128) -> (r: Result<UserJwt, Error>)
    ensures
        outcome(r) == token_claims(token@, secret@, millis),
{
    let claims = match jwt_decode(token, secret) {
        Some(claims) => claims,
        None => {
            return Err(Error::InvalidToken);
        },
    };
    let id = text_of_claim(&claims, "id");
    let issued_at = number_of_claim(&claims, "issued_at");
    let expires_at = number_of_claim(&claims, "expires_at");
    match (id, issued_at, expires_at) {
        (Some(id), Some(issued_at), Some(expires_at)) => {
            if expires_at < millis {
                Err(Error::InvalidToken)
            } else {
                Ok(UserJwt { id, issued_at, expires_at })
            }
        },
        _ => Err(Error::InvalidToken),
    }
}

/// A request that was authenticated: the bearer token it came with, and
/// the claims of that token.
#[derive(Clone, Debug, PartialEq, Eq)]
pub struct Authenticate {
    pub jwt: String,
    pub jwt_content: UserJwt,
}

/// Authenticates a request by the bearer token it came with; a request
/// without one is a `MissingToken`.
pub fn authenticate(token: Option<String>, secret: &Vec<u8>, millis: u128) -> (r: Result<
    Authenticate,
    Error,
>)
    ensures
        match token {
            None => r matches Err(e) && e == Error::MissingToken,
            Some(t) => match token_claims(t@, secret@, millis) {
                Ok(c) => r matches Ok(a) && a.jwt@ == t@ && a.jwt_content@ == c,
                Err(e) => r matches Err(f) && f == e,
            },
        },
{
    match token {
        None => Err(Error::MissingToken),
        Some(t) => match validate_token(&t, secret, millis) {
            Ok(jwt_content) => Ok(Authenticate { jwt: t, jwt_content }),
            Err(e) => Err(e),
        },
    }
}

/// `jsonwebtoken::decode` into a JSON object, with `DecodingKey::from_secret`
/// and a `Validation` for HS256 that requires no claim and does not look
/// at the clock. Every claim comes back by name and kind: a text and a
/// truth value as they are, a number as `Number::as_u128` gives it, any
/// other kind as such. The outcome depends on the token and the secret
/// alone.
#[verifier::external_body]
fn jwt_decode(token: &String, secret: &Vec<u8>) -> (r: Option<Vec<(String, Claim)>>)
    ensures
        match verified_claims(token@, secret@) {
            Some(c) => r matches Some(v) && named_claims(v@) == c,
            None => r is None,
        },
{
    let mut validation = Validation::new(Algorithm::HS256);
    validation.required_spec_claims.clear();
    validation.validate_exp = false;
    let key = DecodingKey::from_secret(secret.as_slice());
    let data = decode::<serde_json::Map<String, Value>>(token, &key, &validation).ok()?;
    let mut claims = Vec::new();
    for (name, value) in data.claims {
        claims.push((name, match value {
            Value::String(text) => Claim::Text(text),
            Value::Number(number) => Claim::Number(number.as_u128()),
            Value::Bool(flag) => Claim::Flag(flag),
            Value::Null | Value::Array(_) | Value::Object(_) => Claim::Other,
        }));
    }
    Some(claims)
}

/// `jsonwebtoken::encode` with `Header::default()` and
/// `EncodingKey::from_secret`, on a JSON object that holds each named claim.
/// The token depends on the claims and the secret alone.
#[verifier::external_body]
fn jwt_encode(texts: &Vec<(String, String)>, numbers: &Vec<(String, u128)>, secret: &Vec<u8>) -> (r:
    Option<String>)
    ensures
        match signed_token(text_claims(texts@), number_claims(numbers@), secret@) {
            Some(t) => r matches Some(s) && s@ == t,
            None => r is None,
        },
{
    let mut claims = serde_json::Map::new();
    for (name, text) in texts.iter() {
        claims.insert(name.clone(), Value::String(text.clone()));
    }
    for (name, number) in numbers.iter() {
        let number = serde_json::Number::from_u128(*number)?;
        claims.insert(name.clone(), Value::Number(number));
    }
    let key = jsonwebtoken::EncodingKey::from_secret(secret.as_slice());
    jsonwebtoken::encode(&jsonwebtoken::Header::default(), &claims, &key).ok()
}

} // verus!
