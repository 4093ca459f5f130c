use account::authenticate::issue_token;
use account::constants::SHORT_SESSION;
use account::database::session::Session;
use account::database::settings::{get_settings, Settings};
use account::environment::{Clock, Environment};
use account::errors::Error;
use account::routes::login::ActiveEscalation;
use account::routes::validate::{handle, Validate, ValidateFacts, ValidateResponse};
use account::store::{Pending, Stores};

fn env() -> Environment {
    Environment {
        jwt_secret: b"signing secret".to_vec(),
        service_name: "Account".to_string(),
        smtp_enabled: true,
        public_root: "https://id.example".to_string(),
        rp_id: "id.example".to_string(),
    }
}

fn clock(secs: u64) -> Clock {
    Clock { secs, millis: secs as u128 * 1000 }
}

fn session(token: &str) -> Session {
    Session {
        id: "S1".to_string(),
        token: token.to_string(),
        user_id: "U1".to_string(),
        friendly_name: "Laptop".to_string(),
    }
}

fn escalated(time: u64) -> Stores {
    let mut stores = Stores::new();
    stores.active_escalations.put(
        "grant".to_string(),
        Pending::Escalation(ActiveEscalation {
            session_id: "S1".to_string(),
            user_id: "U1".to_string(),
            time,
            token: "grant".to_string(),
        }),
    );
    stores
}

#[test]
fn valid_token_without_grant_is_not_escalated() {
    let token = issue_token(&"U1".to_string(), 1_000_000, false, &env().jwt_secret).unwrap();
    let mut stores = escalated(1000);
    let request = Validate { token: token.clone(), escalation_token: None };
    let facts = ValidateFacts { backing: Some(session(&token)), presented: Some(session(&token)) };
    assert_eq!(
        handle(&mut stores, &env(), clock(1010), &request, &facts),
        Ok(ValidateResponse { escalated: false })
    );
}

#[test]
fn valid_token_with_its_grant_is_escalated() {
    let token = issue_token(&"U1".to_string(), 1_000_000, false, &env().jwt_secret).unwrap();
    let mut stores = escalated(1000);
    let request = Validate { token: token.clone(), escalation_token: Some("grant".to_string()) };
    let facts = ValidateFacts { backing: Some(session(&token)), presented: Some(session(&token)) };
    assert_eq!(
        handle(&mut stores, &env(), clock(1010), &request, &facts),
        Ok(ValidateResponse { escalated: true })
    );
    // a grant that fails is no error
    let facts = ValidateFacts { backing: Some(session(&token)), presented: None };
    assert_eq!(
        handle(&mut stores, &env(), clock(1010), &request, &facts),
        Ok(ValidateResponse { escalated: false })
    );
    let request = Validate { token, escalation_token: Some("unknown".to_string()) };
    assert_eq!(
        handle(&mut stores, &env(), clock(1010), &request, &facts),
        Ok(ValidateResponse { escalated: false })
    );
}

#[test]
fn invalid_token_is_an_error_whatever_the_grant() {
    let mut stores = escalated(1000);
    let facts = ValidateFacts { backing: Some(session("x")), presented: Some(session("x")) };
    let request = Validate { token: "x".to_string(), escalation_token: Some("grant".to_string()) };
    assert_eq!(handle(&mut stores, &env(), clock(1010), &request, &facts), Err(Error::InvalidToken));
    let token = issue_token(&"U1".to_string(), 1_000_000, false, &env().jwt_secret).unwrap();
    let request = Validate { token, escalation_token: Some("grant".to_string()) };
    let late = Clock { secs: 1010, millis: 1_000_000 + SHORT_SESSION + 1 };
    assert_eq!(handle(&mut stores, &env(), late, &request, &facts), Err(Error::InvalidToken));
    assert_eq!(stores.active_escalations.iterate(), vec!["grant".to_string()]);
}

#[test]
fn stored_settings_are_kept_and_missing_ones_made() {
    let stored = Settings { opaque_server_setup: vec![1, 2, 3] };
    assert_eq!(get_settings(Some(stored.clone())), (stored, false));
    let (fresh, created) = get_settings(None);
    assert!(created);
    assert_eq!(fresh.opaque_server_setup.len(), 128);
    let (other, _) = get_settings(None);
    assert_ne!(fresh, other);
}
