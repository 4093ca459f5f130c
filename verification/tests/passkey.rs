use account::constants::CONTINUE_TIMEOUT;
use account::database::passkey::Passkey;
use account::database::session::Session;
use account::database::user::User;
use account::environment::{Clock, Environment};
use account::errors::Error;
use account::passkey::{
    create_webauthn, credential_id, finish_authentication, finish_discoverable_authentication,
    finish_registration, start_authentication, start_discoverable_authentication,
    start_registration, RelyingParty,
};
use account::routes::get_passkey::{self, PasskeyEntry};
use account::routes::login::ActiveEscalation;
use account::routes::login_passkey::{
    self, finish_login_with, Login, LoginFacts, LoginOutcome, LoginResponse, PendingLogin,
};
use account::routes::register_passkey::{
    self, finish_register_with, PendingRegister, Register, RegisterFacts, RegisterOutcome,
    RegisterResponse,
};
use account::store::{Pending, Stores};
use ulid::Ulid;

const USER_ID: &str = "01HZX3V2J5K8M9N0P1Q2R3S4T5";

fn party() -> RelyingParty {
    RelyingParty {
        id: "id.example".to_string(),
        origin: "https://id.example".to_string(),
        name: "Account".to_string(),
    }
}

fn env() -> Environment {
    Environment {
        jwt_secret: b"signing secret".to_vec(),
        service_name: "Account".to_string(),
        smtp_enabled: true,
        public_root: "https://id.example".to_string(),
        rp_id: "id.example".to_string(),
    }
}

fn clock(secs: u64) -> Clock {
    Clock { secs, millis: secs as u128 * 1000 }
}

fn user() -> User {
    User {
        id: USER_ID.to_string(),
        mfa_enabled: false,
        mfa_secret: None,
        username: "alice".to_string(),
        email: "alice@example.com".to_string(),
        password_data: vec![],
        platform_administrator: false,
    }
}

fn session(id: &str, user_id: &str) -> Session {
    Session {
        id: id.to_string(),
        token: format!("token-of-{}", id),
        user_id: user_id.to_string(),
        friendly_name: "Laptop".to_string(),
    }
}

fn passkey(credential_id: &str, user_id: &str) -> Passkey {
    Passkey {
        id: "PK1".to_string(),
        credential: "{}".to_string(),
        credential_id: credential_id.to_string(),
        user_id: user_id.to_string(),
        friendly_name: "Key".to_string(),
    }
}

// A client response that names the credential `id` and proves nothing.
fn response(id: &str) -> String {
    let mut inner = serde_json::Map::new();
    for field in ["authenticatorData", "clientDataJSON", "signature"] {
        inner.insert(field.to_string(), serde_json::Value::String("AAAA".to_string()));
    }
    let mut outer = serde_json::Map::new();
    outer.insert("id".to_string(), serde_json::Value::String(id.to_string()));
    outer.insert("rawId".to_string(), serde_json::Value::String("AAAA".to_string()));
    outer.insert("type".to_string(), serde_json::Value::String("public-key".to_string()));
    outer.insert("response".to_string(), serde_json::Value::Object(inner));
    serde_json::Value::Object(outer).to_string()
}

#[test]
fn relying_party_needs_an_origin_of_its_domain() {
    let ok = create_webauthn(
        &"https://id.example".to_string(),
        &"id.example".to_string(),
        &"Account".to_string(),
    );
    assert_eq!(ok, Some(party()));
    let sub = create_webauthn(
        &"https://login.id.example".to_string(),
        &"id.example".to_string(),
        &"Account".to_string(),
    );
    assert!(sub.is_some());
    let foreign = create_webauthn(
        &"https://evil.example".to_string(),
        &"id.example".to_string(),
        &"Account".to_string(),
    );
    assert_eq!(foreign, None);
    let no_url =
        create_webauthn(&"not a url".to_string(), &"id.example".to_string(), &"A".to_string());
    assert_eq!(no_url, None);
}

#[test]
fn registration_ceremony_begins_with_a_challenge() {
    let a = start_registration(&party(), &USER_ID.to_string(), &"alice".to_string()).unwrap();
    let b = start_registration(&party(), &USER_ID.to_string(), &"alice".to_string()).unwrap();
    let challenge: serde_json::Value = serde_json::from_str(&a.challenge).unwrap();
    assert_eq!(challenge["publicKey"]["rp"]["id"], "id.example");
    assert_eq!(challenge["publicKey"]["user"]["name"], "alice");
    assert!(serde_json::from_str::<serde_json::Value>(&a.state).is_ok());
    assert_ne!(a.challenge, b.challenge);
}

#[test]
fn registration_ceremony_needs_a_valid_account_id_and_party() {
    assert_eq!(
        start_registration(&party(), &"not a ulid".to_string(), &"alice".to_string()),
        Err(Error::CredentialError)
    );
    let mut bad = party();
    bad.origin = "https://evil.example".to_string();
    assert_eq!(
        start_registration(&bad, &USER_ID.to_string(), &"alice".to_string()),
        Err(Error::CredentialError)
    );
    assert_eq!(start_discoverable_authentication(&bad).map(|_| ()), Err(Error::CredentialError));
    assert_eq!(
        start_registration(&party(), &USER_ID.to_string(), &String::new()),
        Err(Error::CredentialError)
    );
    assert!(start_discoverable_authentication(&party()).is_ok());
    assert!(start_authentication(&party(), &vec![]).is_ok());
}

#[test]
fn garbage_responses_are_credential_errors() {
    let ceremony = start_registration(&party(), &USER_ID.to_string(), &"alice".to_string()).unwrap();
    assert_eq!(
        finish_registration(&party(), &"{}".to_string(), &ceremony.state),
        Err(Error::CredentialError)
    );
    assert_eq!(
        finish_registration(&party(), &"".to_string(), &"".to_string()),
        Err(Error::CredentialError)
    );
    let auth = start_discoverable_authentication(&party()).unwrap();
    assert_eq!(
        finish_discoverable_authentication(&party(), &response("AAAA"), &auth.state, &"{}".to_string()),
        Err(Error::CredentialError)
    );
}

#[test]
fn response_names_its_credential() {
    assert_eq!(credential_id(&response("Y3JlZA")), Some("Y3JlZA".to_string()));
    assert_eq!(credential_id(&"{}".to_string()), None);
    assert_eq!(credential_id(&"nonsense".to_string()), None);
}

#[test]
fn passkey_login_begins_with_a_challenge_and_a_record() {
    let mut stores = Stores::new();
    let request = Login::BeginLogin { escalate: false, token: None };
    let facts = LoginFacts { session: None, passkey: None, user: None };
    let outcome =
        login_passkey::handle(&mut stores, &party(), &env(), clock(1000), request, facts).unwrap();
    let (token, message) = match outcome.response {
        LoginResponse::BeginLogin { continue_token, message } => (continue_token, message),
        other => panic!("unexpected response: {:?}", other),
    };
    assert_eq!(token.len(), 128);
    let challenge: serde_json::Value = serde_json::from_str(&message).unwrap();
    assert_eq!(challenge["publicKey"]["rpId"], "id.example");
    assert_eq!(challenge["publicKey"]["allowCredentials"].as_array().unwrap().len(), 0);
    match stores.pending_passkey_logins.get(&token) {
        Some(Pending::PasskeyLogin(p)) => {
            assert_eq!(p.time, 1000);
            assert_eq!(p.existing_session, None);
            assert!(!p.data.is_empty());
        },
        other => panic!("no record: {:?}", other),
    }

    // a response that proves nothing is turned down and may be retried
    let request = Login::FinishLogin {
        message: response("Y3JlZA"),
        continue_token: token.clone(),
        persist: None,
        friendly_name: None,
    };
    let facts = LoginFacts {
        session: None,
        passkey: Some(passkey("Y3JlZA", USER_ID)),
        user: Some(user()),
    };
    assert_eq!(
        login_passkey::handle(&mut stores, &party(), &env(), clock(1001), request, facts),
        Err(Error::CredentialError)
    );
    assert_eq!(stores.pending_passkey_logins.iterate(), vec![token]);
}

#[test]
fn passkey_login_escalation_needs_a_session() {
    let mut stores = Stores::new();
    let facts = LoginFacts { session: None, passkey: None, user: None };
    let request = Login::BeginLogin { escalate: true, token: None };
    assert_eq!(
        login_passkey::handle(&mut stores, &party(), &env(), clock(1), request, facts.clone()),
        Err(Error::MissingToken)
    );
    let request = Login::BeginLogin { escalate: true, token: Some("t".to_string()) };
    assert_eq!(
        login_passkey::handle(&mut stores, &party(), &env(), clock(1), request, facts),
        Err(Error::SessionExpired)
    );
    assert!(stores.pending_passkey_logins.iterate().is_empty());
}

fn pending_login(existing: Option<Session>) -> Stores {
    let mut stores = Stores::new();
    stores.pending_passkey_logins.put(
        "ct".to_string(),
        Pending::PasskeyLogin(PendingLogin {
            time: 1000,
            data: "state".to_string(),
            existing_session: existing,
        }),
    );
    stores
}

fn finish(
    stores: &mut Stores,
    now: u64,
    named: Option<&str>,
    key: Option<Passkey>,
    account: Option<User>,
    authenticated: bool,
) -> Result<LoginOutcome, Error> {
    finish_login_with(
        stores,
        now,
        &"ct".to_string(),
        Some("Phone".to_string()),
        &named.map(|n| n.to_string()),
        &key,
        account,
        authenticated,
        Some("jwt".to_string()),
        "sid".to_string(),
    )
}

#[test]
fn passkey_login_on_given_values() {
    let mut stores = pending_login(None);
    let key = Some(passkey("cred", USER_ID));
    assert_eq!(finish(&mut stores, 1001, None, key.clone(), Some(user()), true), Err(Error::CredentialError));
    assert_eq!(finish(&mut stores, 1001, Some("cred"), None, Some(user()), true), Err(Error::CredentialError));
    assert_eq!(
        finish(&mut stores, 1001, Some("other"), key.clone(), Some(user()), true),
        Err(Error::CredentialError)
    );
    assert_eq!(finish(&mut stores, 1001, Some("cred"), key.clone(), None, true), Err(Error::CredentialError));
    let mut stranger = user();
    stranger.id = "U2".to_string();
    assert_eq!(
        finish(&mut stores, 1001, Some("cred"), key.clone(), Some(stranger), true),
        Err(Error::CredentialError)
    );
    assert_eq!(
        finish(&mut stores, 1001, Some("cred"), key.clone(), Some(user()), false),
        Err(Error::CredentialError)
    );
    assert_eq!(stores.pending_passkey_logins.iterate(), vec!["ct".to_string()]);
    let done = finish(&mut stores, 1001, Some("cred"), key.clone(), Some(user()), true).unwrap();
    assert_eq!(
        done,
        LoginOutcome {
            response: LoginResponse::FinishLogin { token: "jwt".to_string() },
            session: Some(Session {
                id: "sid".to_string(),
                token: "jwt".to_string(),
                user_id: USER_ID.to_string(),
                friendly_name: "Phone".to_string(),
            }),
        }
    );
    assert_eq!(
        finish(&mut stores, 1002, Some("cred"), key, Some(user()), true),
        Err(Error::SessionExpired)
    );
}

#[test]
fn passkey_of_another_account_cannot_escalate_a_session() {
    let mut stores = pending_login(Some(session("S1", "U-other")));
    let key = Some(passkey("cred", USER_ID));
    assert_eq!(
        finish(&mut stores, 1001, Some("cred"), key, Some(user()), true),
        Err(Error::UserMismatch)
    );
    assert!(stores.active_escalations.iterate().is_empty());
    assert_eq!(stores.pending_passkey_logins.iterate(), vec!["ct".to_string()]);
}

#[test]
fn passkey_login_can_escalate_its_own_session() {
    let mut stores = pending_login(Some(session("S1", USER_ID)));
    let key = Some(passkey("cred", USER_ID));
    let done = finish(&mut stores, 1001, Some("cred"), key, Some(user()), true).unwrap();
    assert_eq!(done.session, None);
    assert_eq!(
        stores.active_escalations.get(&"jwt".to_string()),
        Some(Pending::Escalation(ActiveEscalation {
            session_id: "S1".to_string(),
            user_id: USER_ID.to_string(),
            time: 1001,
            token: "jwt".to_string(),
        }))
    );
}

#[test]
fn passkey_login_expires_after_an_hour() {
    let mut stores = pending_login(None);
    let key = Some(passkey("cred", USER_ID));
    assert_eq!(
        finish(&mut stores, 1000 + CONTINUE_TIMEOUT + 1, Some("cred"), key, Some(user()), true),
        Err(Error::SessionExpired)
    );
    assert!(stores.pending_passkey_logins.iterate().is_empty());
}

fn escalated() -> Stores {
    let mut stores = Stores::new();
    stores.active_escalations.put(
        "grant".to_string(),
        Pending::Escalation(ActiveEscalation {
            session_id: "S1".to_string(),
            user_id: USER_ID.to_string(),
            time: 1000,
            token: "grant".to_string(),
        }),
    );
    stores
}

#[test]
fn passkey_registration_needs_a_grant() {
    let s1 = session("S1", USER_ID);
    let request = Register::BeginRegister { escalation_token: "grant".to_string() };
    let facts = RegisterFacts {
        backing: Some(s1.clone()),
        presented: Some(s1.clone()),
        user: Some(user()),
    };
    let mut none = Stores::new();
    assert_eq!(
        register_passkey::handle(&mut none, &party(), 1010, request.clone(), facts.clone()),
        Err(Error::SessionExpired)
    );
    let mut stores = escalated();
    let mut missing = facts.clone();
    missing.user = None;
    assert_eq!(
        register_passkey::handle(&mut stores, &party(), 1010, request.clone(), missing),
        Err(Error::DatabaseError)
    );
    let outcome = register_passkey::handle(&mut stores, &party(), 1010, request, facts).unwrap();
    let (token, message) = match outcome.response {
        RegisterResponse::BeginRegister { continue_token, message } => (continue_token, message),
        other => panic!("unexpected response: {:?}", other),
    };
    assert_eq!(outcome.passkey, None);
    let challenge: serde_json::Value = serde_json::from_str(&message).unwrap();
    assert_eq!(challenge["publicKey"]["user"]["displayName"], "alice");
    match stores.pending_passkey_registers.get(&token) {
        Some(Pending::PasskeyRegister(p)) => {
            assert_eq!(p.time, 1010);
            assert_eq!(p.user, user());
            assert_eq!(p.email, "alice");
        },
        other => panic!("no record: {:?}", other),
    }
    // a response that proves nothing is turned down and may be retried
    let request = Register::FinishRegister {
        message: "{}".to_string(),
        continue_token: token.clone(),
        friendly_name: None,
    };
    let facts = RegisterFacts { backing: None, presented: None, user: None };
    assert_eq!(
        register_passkey::handle(&mut stores, &party(), 1011, request, facts),
        Err(Error::CredentialError)
    );
    assert_eq!(stores.pending_passkey_registers.iterate(), vec![token]);
}

#[test]
fn passkey_registration_on_given_values() {
    let mut stores = Stores::new();
    stores.pending_passkey_registers.put(
        "ct".to_string(),
        Pending::PasskeyRegister(PendingRegister {
            time: 1000,
            user: user(),
            email: "alice".to_string(),
            data: "state".to_string(),
        }),
    );
    let go = |stores: &mut Stores, now: u64, name: Option<&str>, made: Option<(&str, &str)>| {
        finish_register_with(
            stores,
            now,
            &"ct".to_string(),
            name.map(|n| n.to_string()),
            made.map(|(a, b)| (a.to_string(), b.to_string())),
            "PK9".to_string(),
        )
    };
    assert_eq!(go(&mut stores, 1001, None, None), Err(Error::CredentialError));
    let done = go(&mut stores, 1001, None, Some(("record", "Y3JlZA"))).unwrap();
    assert_eq!(
        done,
        RegisterOutcome {
            response: RegisterResponse::FinishRegister {},
            passkey: Some(Passkey {
                id: "PK9".to_string(),
                credential: "record".to_string(),
                credential_id: "Y3JlZA".to_string(),
                user_id: USER_ID.to_string(),
                friendly_name: "Passkey".to_string(),
            }),
        }
    );
    assert_eq!(go(&mut stores, 1002, Some("Key"), Some(("r", "i"))), Err(Error::SessionExpired));
}

fn listed(id: String, name: &str) -> Passkey {
    Passkey {
        id,
        credential: "{}".to_string(),
        credential_id: "c".to_string(),
        user_id: USER_ID.to_string(),
        friendly_name: name.to_string(),
    }
}

#[test]
fn passkeys_are_listed_newest_first() {
    let at = |millis: u64, random: u128| Ulid::from_parts(millis, random).to_string();
    let passkeys = vec![
        listed(at(2000, 1), "second"),
        listed(at(1000, 2), "first"),
        listed("not an id".to_string(), "broken"),
        listed(at(3000, 3), "third"),
        listed(at(2000, 4), "also second"),
    ];
    let names: Vec<String> =
        get_passkey::handle(&passkeys).into_iter().map(|e| e.friendly_name).collect();
    assert_eq!(names, vec!["third", "second", "also second", "first", "broken"]);
    assert_eq!(get_passkey::handle(&vec![]), Vec::<PasskeyEntry>::new());
    let one = vec![listed(at(5, 5), "only")];
    assert_eq!(
        get_passkey::handle(&one),
        vec![PasskeyEntry { id: at(5, 5), friendly_name: "only".to_string() }]
    );
}

#[test]
fn authentication_with_known_credentials_needs_credential_records() {
    assert_eq!(
        start_authentication(&party(), &vec!["{}".to_string()]).map(|_| ()),
        Err(Error::CredentialError)
    );
    assert_eq!(
        start_authentication(&party(), &vec!["no json".to_string()]).map(|_| ()),
        Err(Error::CredentialError)
    );
    let mut bad = party();
    bad.id = "other.example".to_string();
    assert_eq!(start_authentication(&bad, &vec![]).map(|_| ()), Err(Error::CredentialError));
    let auth = start_discoverable_authentication(&party()).unwrap();
    // the state of another kind of ceremony, and garbage, are turned down
    assert_eq!(
        finish_authentication(&party(), &response("AAAA"), &auth.state),
        Err(Error::CredentialError)
    );
    assert_eq!(
        finish_authentication(&party(), &"{}".to_string(), &"{}".to_string()),
        Err(Error::CredentialError)
    );
}
