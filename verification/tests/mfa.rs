use std::collections::HashSet;

use account::constants::CONTINUE_TIMEOUT;
use account::database::session::Session;
use account::database::user::User;
use account::environment::Environment;
use account::errors::Error;
use account::routes::login::ActiveEscalation;
use account::routes::mfa::{
    current_code, enable_verify_with, handle, toggle_with, Mfa, MfaFacts, MfaOutcome,
    MfaResponse, MfaUpdate, PendingMfaSetup,
};
use account::store::{Pending, Stores};
use totp_rs::{Algorithm, Secret, TOTP};

fn env() -> Environment {
    Environment {
        jwt_secret: b"signing secret".to_vec(),
        service_name: "Account".to_string(),
        smtp_enabled: true,
        public_root: "https://id.example".to_string(),
        rp_id: "id.example".to_string(),
    }
}

fn user(mfa: bool) -> User {
    User {
        id: "U1".to_string(),
        mfa_enabled: mfa,
        mfa_secret: if mfa { Some("KRSXG5CTMVRXEZLUKN2XAZLSKNSWG4TFOQ".to_string()) } else { None },
        username: "alice".to_string(),
        email: "alice@example.com".to_string(),
        password_data: vec![],
        platform_administrator: false,
    }
}

fn session() -> Session {
    Session {
        id: "S1".to_string(),
        token: "bearer".to_string(),
        user_id: "U1".to_string(),
        friendly_name: "Laptop".to_string(),
    }
}

fn escalated(stores: &mut Stores, time: u64) {
    stores.active_escalations.put(
        "grant".to_string(),
        Pending::Escalation(ActiveEscalation {
            session_id: "S1".to_string(),
            user_id: "U1".to_string(),
            time,
            token: "grant".to_string(),
        }),
    );
}

fn facts(user: Option<User>) -> MfaFacts {
    MfaFacts { backing: Some(session()), presented: Some(session()), user }
}

fn no_facts() -> MfaFacts {
    MfaFacts { backing: None, presented: None, user: None }
}

#[test]
fn enrollment_scenario() {
    let mut stores = Stores::new();
    escalated(&mut stores, 1000);
    let toggle = Mfa::Toggle { escalation_token: "grant".to_string() };
    let begun = handle(&mut stores, &env(), 1010, toggle, facts(Some(user(false)))).unwrap();
    assert_eq!(begun.update, None);
    assert_eq!(begun.clear_codes, None);
    assert_eq!(begun.store_codes, Some("U1".to_string()));
    let (continue_token, qr, secret, codes) = match begun.response {
        MfaResponse::Enable { continue_token, qr, secret, codes } => {
            (continue_token, qr, secret, codes)
        },
        other => panic!("unexpected response: {:?}", other),
    };
    assert_eq!(continue_token.len(), 26);
    assert!(!qr.is_empty());
    assert_eq!(codes.len(), 10);
    assert_eq!(codes.iter().collect::<HashSet<_>>().len(), 10);
    assert!(codes.iter().all(|c| c.len() == 8 && c.chars().all(|d| d.is_ascii_digit())));
    let key = Secret::Encoded(secret.clone()).to_bytes().unwrap();
    assert_eq!(key.len(), 160);

    // the authenticator computes the code of the current window from the secret
    let now = 1234;
    let totp = TOTP::new(Algorithm::SHA256, 8, 1, 30, key, None, "".to_string()).unwrap();
    let code = totp.generate(now);
    let stale = totp.generate(now - 30);
    let enable =
        |code: &str| Mfa::EnableVerify { code: code.to_string(), continue_token: continue_token.clone() };
    if stale != code {
        assert_eq!(
            handle(&mut stores, &env(), now, enable(&stale), no_facts()),
            Err(Error::IncorrectCode)
        );
    }
    let done = handle(&mut stores, &env(), now, enable(&code), no_facts()).unwrap();
    assert_eq!(
        done,
        MfaOutcome {
            response: MfaResponse::EnableVerify {},
            update: Some(MfaUpdate {
                user_id: "U1".to_string(),
                mfa_enabled: true,
                mfa_secret: Some(secret.clone()),
            }),
            clear_codes: None,
            store_codes: None,
        }
    );
    assert_eq!(
        handle(&mut stores, &env(), now, enable(&code), no_facts()),
        Err(Error::SessionExpired)
    );
    // the login challenge computes the same code from the stored secret
    assert_eq!(
        current_code(&Some(secret), &"Account".to_string(), &"alice@example.com".to_string(), now),
        Some(code)
    );
}

#[test]
fn toggle_switches_an_enabled_factor_off() {
    let mut stores = Stores::new();
    escalated(&mut stores, 1000);
    let toggle = Mfa::Toggle { escalation_token: "grant".to_string() };
    let outcome = handle(&mut stores, &env(), 1010, toggle, facts(Some(user(true)))).unwrap();
    assert_eq!(
        outcome,
        MfaOutcome {
            response: MfaResponse::Disable {},
            update: Some(MfaUpdate {
                user_id: "U1".to_string(),
                mfa_enabled: false,
                mfa_secret: None
            }),
            clear_codes: Some("U1".to_string()),
            store_codes: None,
        }
    );
    assert!(stores.pending_mfa_setups.iterate().is_empty());
    assert_eq!(stores.active_escalations.iterate(), vec!["grant".to_string()]);
}

#[test]
fn toggle_needs_a_grant() {
    let mut stores = Stores::new();
    let toggle = Mfa::Toggle { escalation_token: "grant".to_string() };
    assert_eq!(
        handle(&mut stores, &env(), 1010, toggle.clone(), facts(Some(user(false)))),
        Err(Error::SessionExpired)
    );
    escalated(&mut stores, 1000);
    assert_eq!(
        handle(&mut stores, &env(), 1010, toggle.clone(), facts(None)),
        Err(Error::DatabaseError)
    );
    assert_eq!(
        handle(&mut stores, &env(), 1000 + CONTINUE_TIMEOUT + 1, toggle, facts(Some(user(false)))),
        Err(Error::SessionExpired)
    );
    assert!(stores.active_escalations.iterate().is_empty());
}

#[test]
fn toggle_with_on_given_values() {
    let mut stores = Stores::new();
    escalated(&mut stores, 1000);
    let go = |stores: &mut Stores, qr: Option<&str>, token: &str| {
        toggle_with(
            stores,
            1010,
            &"grant".to_string(),
            &Some(session()),
            &Some(session()),
            Some(user(false)),
            vec![1, 2, 3],
            "AEBAG".to_string(),
            qr.map(|q| q.to_string()),
            token.to_string(),
            vec!["00000001".to_string()],
        )
    };
    assert_eq!(go(&mut stores, None, "ct"), Err(Error::DatabaseError));
    let outcome = go(&mut stores, Some("image"), "ct").unwrap();
    assert_eq!(
        outcome.response,
        MfaResponse::Enable {
            continue_token: "ct".to_string(),
            qr: "image".to_string(),
            secret: "AEBAG".to_string(),
            codes: vec!["00000001".to_string()],
        }
    );
    assert_eq!(
        stores.pending_mfa_setups.get(&"ct".to_string()),
        Some(Pending::MfaSetup(PendingMfaSetup {
            totp: vec![1, 2, 3],
            secret: "AEBAG".to_string(),
            time: 1010,
            user: user(false),
        }))
    );
    assert_eq!(go(&mut stores, Some("image"), "ct"), Err(Error::DatabaseError));
}

#[test]
fn enrollment_expires_after_an_hour() {
    let mut stores = Stores::new();
    let record = Pending::MfaSetup(PendingMfaSetup {
        totp: vec![0; 20],
        secret: "S".to_string(),
        time: 100,
        user: user(false),
    });
    stores.pending_mfa_setups.put("ct".to_string(), record);
    let late = 100 + CONTINUE_TIMEOUT + 1;
    let outcome = enable_verify_with(
        &mut stores,
        late,
        &"12345678".to_string(),
        &"ct".to_string(),
        Some("12345678".to_string()),
    );
    assert_eq!(outcome, Err(Error::SessionExpired));
    assert!(stores.pending_mfa_setups.iterate().is_empty());
}

#[test]
fn wrong_code_leaves_the_enrollment_pending() {
    let mut stores = Stores::new();
    let record = Pending::MfaSetup(PendingMfaSetup {
        totp: vec![0; 20],
        secret: "S".to_string(),
        time: 100,
        user: user(false),
    });
    stores.pending_mfa_setups.put("ct".to_string(), record);
    let go = |stores: &mut Stores, code: &str, current: Option<&str>| {
        enable_verify_with(
            stores,
            110,
            &code.to_string(),
            &"ct".to_string(),
            current.map(|c| c.to_string()),
        )
    };
    assert_eq!(go(&mut stores, "11111111", Some("22222222")), Err(Error::IncorrectCode));
    assert_eq!(go(&mut stores, "11111111", None), Err(Error::IncorrectCode));
    assert_eq!(stores.pending_mfa_setups.iterate(), vec!["ct".to_string()]);
    assert!(go(&mut stores, "22222222", Some("22222222")).is_ok());
    assert_eq!(go(&mut stores, "22222222", Some("22222222")), Err(Error::SessionExpired));
}

#[test]
fn code_of_a_known_secret() {
    // the SHA-256 test vector of the TOTP specification, 8 digits
    let key = b"12345678901234567890123456789012".to_vec();
    let secret = Secret::Raw(key).to_encoded().to_string();
    let code = |now: u64| {
        current_code(&Some(secret.clone()), &"Account".to_string(), &"alice".to_string(), now)
    };
    assert_eq!(code(59), Some("46119246".to_string()));
    assert_eq!(code(1111111109), Some("68084774".to_string()));
    assert_eq!(code(30), code(59));
    assert_ne!(code(60), code(59));
}

#[test]
fn account_without_usable_secret_shows_no_code() {
    let issuer = "Account".to_string();
    let name = "alice".to_string();
    assert_eq!(current_code(&None, &issuer, &name, 59), None);
    assert_eq!(current_code(&Some("not base32!".to_string()), &issuer, &name, 59), None);
    assert_eq!(current_code(&Some("MFRGG".to_string()), &issuer, &name, 59), None);
    let good = Some("KRSXG5CTMVRXEZLUKN2XAZLSKNSWG4TFOQ".to_string());
    assert_eq!(current_code(&good, &"a:b".to_string(), &name, 59), None);
    assert!(current_code(&good, &issuer, &name, 59).is_some());
}
