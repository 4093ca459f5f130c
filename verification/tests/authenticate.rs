use account::authenticate::{
    authenticate, encode_token, existing_session, expires_at, grant, issue_token, validate_token,
    Granted, UserJwt,
};
use account::constants::{LONG_SESSION, SHORT_SESSION};
use account::database::session::Session;
use account::errors::Error;
use account::routes::login::ActiveEscalation;
use account::store::{Pending, PendingStore};

fn secret() -> Vec<u8> {
    b"a secret that signs".to_vec()
}

fn session(id: &str, user_id: &str) -> Session {
    Session {
        id: id.to_string(),
        token: format!("token-of-{}", id),
        user_id: user_id.to_string(),
        friendly_name: "Laptop".to_string(),
    }
}

#[test]
fn expiry_is_7_or_30_days() {
    assert_eq!(expires_at(1_000, false), Some(1_000 + 604_800_000));
    assert_eq!(expires_at(1_000, true), Some(1_000 + 2_592_000_000));
    assert_eq!(expires_at(0, false), Some(SHORT_SESSION));
    assert_eq!(expires_at(0, true), Some(LONG_SESSION));
    assert_eq!(expires_at(u128::MAX, false), None);
    assert_eq!(expires_at(u128::MAX - LONG_SESSION, true), Some(u128::MAX));
    assert_eq!(expires_at(u128::MAX - LONG_SESSION + 1, true), None);
}

#[test]
fn token_round_trip() {
    let token = issue_token(&"user-1".to_string(), 5_000, false, &secret()).unwrap();
    assert_eq!(token.split('.').count(), 3);
    let claims = validate_token(&token, &secret(), 6_000).unwrap();
    assert_eq!(
        claims,
        UserJwt { id: "user-1".to_string(), issued_at: 5_000, expires_at: 5_000 + SHORT_SESSION }
    );
    let long = issue_token(&"user-1".to_string(), 5_000, true, &secret()).unwrap();
    assert_eq!(validate_token(&long, &secret(), 6_000).unwrap().expires_at, 5_000 + LONG_SESSION);
}

#[test]
fn token_depends_on_claims_and_secret_alone() {
    let jwt = UserJwt { id: "u".to_string(), issued_at: 1, expires_at: 2 };
    let a = encode_token(&jwt, &secret()).unwrap();
    let b = encode_token(&jwt, &secret()).unwrap();
    let other = encode_token(&UserJwt { id: "v".to_string(), issued_at: 1, expires_at: 2 }, &secret())
        .unwrap();
    let other_key = encode_token(&jwt, &b"another secret".to_vec()).unwrap();
    assert_eq!(a, b);
    assert_ne!(a, other);
    assert_ne!(a, other_key);
}

#[test]
fn expired_token_is_invalid() {
    let token = issue_token(&"user-1".to_string(), 5_000, false, &secret()).unwrap();
    let end = 5_000 + SHORT_SESSION;
    assert!(validate_token(&token, &secret(), end).is_ok());
    assert_eq!(validate_token(&token, &secret(), end + 1), Err(Error::InvalidToken));
}

#[test]
fn token_with_wrong_signature_is_invalid() {
    let token = issue_token(&"user-1".to_string(), 5_000, false, &secret()).unwrap();
    assert_eq!(validate_token(&token, &b"other".to_vec(), 6_000), Err(Error::InvalidToken));
    let mut forged = token.clone();
    let last = forged.pop().unwrap();
    forged.push(if last == 'A' { 'B' } else { 'A' });
    assert_eq!(validate_token(&forged, &secret(), 6_000), Err(Error::InvalidToken));
    assert_eq!(validate_token(&"garbage".to_string(), &secret(), 6_000), Err(Error::InvalidToken));
    assert_eq!(validate_token(&String::new(), &secret(), 6_000), Err(Error::InvalidToken));
}

#[test]
fn token_too_large_to_write_is_invalid() {
    let jwt = UserJwt { id: "u".to_string(), issued_at: u128::MAX - 1, expires_at: u128::MAX };
    assert_eq!(encode_token(&jwt, &secret()), Err(Error::InvalidToken));
    assert_eq!(issue_token(&"u".to_string(), u128::MAX, false, &secret()), Err(Error::InvalidToken));
}

#[test]
fn request_without_token_is_missing_token() {
    assert_eq!(authenticate(None, &secret(), 0), Err(Error::MissingToken));
    let token = issue_token(&"user-1".to_string(), 5_000, false, &secret()).unwrap();
    let who = authenticate(Some(token.clone()), &secret(), 6_000).unwrap();
    assert_eq!(who.jwt, token);
    assert_eq!(who.jwt_content.id, "user-1");
    assert_eq!(authenticate(Some("x".to_string()), &secret(), 0), Err(Error::InvalidToken));
}

#[test]
fn escalation_needs_token_and_session() {
    assert_eq!(existing_session(false, &None, None), Ok(None));
    assert_eq!(existing_session(false, &Some("t".to_string()), Some(session("s", "u"))), Ok(None));
    assert_eq!(existing_session(true, &None, Some(session("s", "u"))), Err(Error::MissingToken));
    assert_eq!(existing_session(true, &Some("t".to_string()), None), Err(Error::SessionExpired));
    assert_eq!(
        existing_session(true, &Some("t".to_string()), Some(session("s", "u"))),
        Ok(Some(session("s", "u")))
    );
}

#[test]
fn fresh_login_hands_out_a_session() {
    let mut grants = PendingStore::new();
    let given = grant(
        &mut grants,
        None,
        "user-1".to_string(),
        Some("Phone".to_string()),
        100,
        "jwt".to_string(),
        "sid".to_string(),
    );
    assert_eq!(
        given,
        Ok(Granted {
            token: "jwt".to_string(),
            session: Some(Session {
                id: "sid".to_string(),
                token: "jwt".to_string(),
                user_id: "user-1".to_string(),
                friendly_name: "Phone".to_string(),
            }),
        })
    );
    assert!(grants.iterate().is_empty());
}

#[test]
fn session_without_a_name_is_unknown() {
    let mut grants = PendingStore::new();
    let given =
        grant(&mut grants, None, "u".to_string(), None, 1, "jwt".to_string(), "sid".to_string())
            .unwrap();
    assert_eq!(given.session.unwrap().friendly_name, "Unknown");
}

#[test]
fn escalating_login_records_a_grant_and_no_session() {
    let mut grants = PendingStore::new();
    let given = grant(
        &mut grants,
        Some(session("s1", "user-1")),
        "user-1".to_string(),
        None,
        100,
        "jwt".to_string(),
        "sid".to_string(),
    );
    assert_eq!(given, Ok(Granted { token: "jwt".to_string(), session: None }));
    assert_eq!(
        grants.get(&"jwt".to_string()),
        Some(Pending::Escalation(ActiveEscalation {
            session_id: "s1".to_string(),
            user_id: "user-1".to_string(),
            time: 100,
            token: "jwt".to_string(),
        }))
    );
}

#[test]
fn grant_is_never_overwritten() {
    let mut grants = PendingStore::new();
    grant(
        &mut grants,
        Some(session("s1", "u")),
        "u".to_string(),
        None,
        100,
        "jwt".to_string(),
        "a".to_string(),
    )
    .unwrap();
    let again = grant(
        &mut grants,
        Some(session("s2", "u")),
        "u".to_string(),
        None,
        200,
        "jwt".to_string(),
        "b".to_string(),
    );
    assert_eq!(again, Err(Error::DatabaseError));
    match grants.get(&"jwt".to_string()) {
        Some(Pending::Escalation(g)) => assert_eq!(g.session_id, "s1"),
        _ => panic!("the first grant is gone"),
    }
}

#[test]
fn session_of_another_account_cannot_be_escalated() {
    let mut grants = PendingStore::new();
    let outcome = grant(
        &mut grants,
        Some(session("s1", "somebody-else")),
        "user-1".to_string(),
        None,
        100,
        "jwt".to_string(),
        "sid".to_string(),
    );
    assert_eq!(outcome, Err(Error::UserMismatch));
    assert!(grants.iterate().is_empty());
}

fn signed(claims: Vec<(&str, serde_json::Value)>) -> String {
    let mut object = serde_json::Map::new();
    for (name, value) in claims {
        object.insert(name.to_string(), value);
    }
    jsonwebtoken::encode(
        &jsonwebtoken::Header::default(),
        &object,
        &jsonwebtoken::EncodingKey::from_secret(&secret()),
    )
    .unwrap()
}

#[test]
fn claims_beyond_the_three_do_not_count() {
    let token = signed(vec![
        ("id", serde_json::Value::from("u")),
        ("issued_at", serde_json::Value::from(1u64)),
        ("expires_at", serde_json::Value::from(9u64)),
        ("admin", serde_json::Value::from(true)),
        ("ratio", serde_json::Value::from(-3i64)),
        ("tags", serde_json::Value::Array(vec![])),
        ("nothing", serde_json::Value::Null),
    ]);
    assert_eq!(
        validate_token(&token, &secret(), 5),
        Ok(UserJwt { id: "u".to_string(), issued_at: 1, expires_at: 9 })
    );
}

#[test]
fn claims_of_the_wrong_kind_are_invalid() {
    let id = ("id", serde_json::Value::from("u"));
    let at = |name: &'static str| (name, serde_json::Value::from(7u64));
    let cases = vec![
        vec![at("issued_at"), at("expires_at")],
        vec![id.clone(), at("expires_at")],
        vec![id.clone(), at("issued_at")],
        vec![("id", serde_json::Value::from(5u64)), at("issued_at"), at("expires_at")],
        vec![id.clone(), ("issued_at", serde_json::Value::from("1")), at("expires_at")],
        vec![id.clone(), at("issued_at"), ("expires_at", serde_json::Value::from(-1i64))],
        vec![id.clone(), at("issued_at"), ("expires_at", serde_json::Value::from(true))],
    ];
    for claims in cases {
        assert_eq!(validate_token(&signed(claims), &secret(), 0), Err(Error::InvalidToken));
    }
}
