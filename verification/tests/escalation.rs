use account::authenticate::grant;
use account::constants::CONTINUE_TIMEOUT;
use account::database::session::Session;
use account::errors::Error;
use account::routes::account_settings::{self, AccountFacts, AccountSettings, AccountUpdate};
use account::routes::delete::{self, Delete, DeleteFacts};
use account::routes::delete_passkey::{self, DeletePasskey, PasskeyRemoval};
use account::routes::login::ActiveEscalation;
use account::routes::register::PendingRegister;
use account::store::{Pending, Stores};
use account::utilities::{escalated_session, escalation_passes, validate_escalation};

fn session(id: &str, user_id: &str) -> Session {
    Session {
        id: id.to_string(),
        token: format!("token-of-{}", id),
        user_id: user_id.to_string(),
        friendly_name: "Laptop".to_string(),
    }
}

fn with_grant(time: u64) -> Stores {
    let mut stores = Stores::new();
    stores.active_escalations.put(
        "grant".to_string(),
        Pending::Escalation(ActiveEscalation {
            session_id: "S1".to_string(),
            user_id: "U1".to_string(),
            time,
            token: "grant".to_string(),
        }),
    );
    stores
}

fn check(stores: &mut Stores, now: u64, backing: Option<Session>, presented: Option<Session>)
    -> Result<String, Error> {
    validate_escalation(stores, now, &"grant".to_string(), &backing, &presented)
}

#[test]
fn grant_passes_for_its_own_session_and_stays() {
    let mut stores = with_grant(1000);
    let s1 = session("S1", "U1");
    assert_eq!(check(&mut stores, 1010, Some(s1.clone()), Some(s1.clone())), Ok("U1".to_string()));
    assert_eq!(check(&mut stores, 1020, Some(s1.clone()), Some(s1)), Ok("U1".to_string()));
    assert_eq!(stores.active_escalations.iterate(), vec!["grant".to_string()]);
}

#[test]
fn grant_is_rejected_for_another_session_of_the_same_user() {
    let mut stores = with_grant(1000);
    let s1 = session("S1", "U1");
    let s2 = session("S2", "U1");
    assert_eq!(check(&mut stores, 1010, Some(s1.clone()), Some(s2)), Err(Error::SessionExpired));
    assert_eq!(check(&mut stores, 1010, Some(s1.clone()), Some(s1)), Ok("U1".to_string()));
}

#[test]
fn grant_issued_by_a_login_is_bound_to_the_escalated_session() {
    let mut stores = Stores::new();
    let s1 = session("S1", "U1");
    let s2 = session("S2", "U1");
    grant(
        &mut stores.active_escalations,
        Some(s1.clone()),
        "U1".to_string(),
        None,
        1000,
        "grant".to_string(),
        "unused".to_string(),
    )
    .unwrap();
    assert_eq!(escalated_session(&stores, 1001, &"grant".to_string()), Some("S1".to_string()));
    assert_eq!(
        escalated_session(&stores, 1000 + CONTINUE_TIMEOUT, &"grant".to_string()),
        Some("S1".to_string())
    );
    assert_eq!(escalated_session(&stores, 1001 + CONTINUE_TIMEOUT, &"grant".to_string()), None);
    assert!(escalation_passes(&stores, 1001, &"grant".to_string(), &Some(s1.clone()), &Some(s1.clone())));
    assert!(!escalation_passes(&stores, 1001, &"grant".to_string(), &Some(s1.clone()), &Some(s2.clone())));
    assert!(!escalation_passes(&stores, 1001, &"grant".to_string(), &None, &None));
    assert_eq!(stores.active_escalations.iterate(), vec!["grant".to_string()]);
    assert_eq!(check(&mut stores, 1001, Some(s1.clone()), Some(s2)), Err(Error::SessionExpired));
    assert_eq!(check(&mut stores, 1001, Some(s1.clone()), Some(s1)), Ok("U1".to_string()));
}

#[test]
fn grant_of_another_account_is_a_user_mismatch() {
    let mut stores = with_grant(1000);
    let s1 = session("S1", "U2");
    assert_eq!(check(&mut stores, 1010, Some(s1.clone()), Some(s1)), Err(Error::UserMismatch));
}

#[test]
fn grant_needs_both_sessions() {
    let mut stores = with_grant(1000);
    let s1 = session("S1", "U1");
    assert_eq!(check(&mut stores, 1010, None, Some(s1.clone())), Err(Error::SessionExpired));
    assert_eq!(check(&mut stores, 1010, Some(s1.clone()), None), Err(Error::SessionExpired));
    assert_eq!(check(&mut stores, 1010, None, None), Err(Error::SessionExpired));
    let other = session("S9", "U1");
    assert_eq!(check(&mut stores, 1010, Some(other), Some(s1)), Err(Error::SessionExpired));
    assert_eq!(stores.active_escalations.iterate(), vec!["grant".to_string()]);
}

#[test]
fn grant_expires_after_an_hour_and_is_deleted() {
    let mut stores = with_grant(1000);
    let s1 = session("S1", "U1");
    let edge = 1000 + CONTINUE_TIMEOUT;
    assert_eq!(check(&mut stores, edge, Some(s1.clone()), Some(s1.clone())), Ok("U1".to_string()));
    assert_eq!(
        check(&mut stores, edge + 1, Some(s1.clone()), Some(s1.clone())),
        Err(Error::SessionExpired)
    );
    assert!(stores.active_escalations.iterate().is_empty());
    assert_eq!(check(&mut stores, 1001, Some(s1.clone()), Some(s1)), Err(Error::SessionExpired));
}

#[test]
fn unknown_grant_is_session_expired() {
    let mut stores = Stores::new();
    let s1 = session("S1", "U1");
    assert_eq!(check(&mut stores, 1, Some(s1.clone()), Some(s1.clone())), Err(Error::SessionExpired));
    assert_eq!(escalated_session(&stores, 1, &"grant".to_string()), None);
    // a record of another kind under the token is no grant
    stores.active_escalations.put(
        "grant".to_string(),
        Pending::Register(PendingRegister { time: 1, email: "a@b.c".to_string() }),
    );
    assert_eq!(check(&mut stores, 1, Some(s1.clone()), Some(s1)), Err(Error::SessionExpired));
    assert_eq!(escalated_session(&stores, 1, &"grant".to_string()), None);
}

#[test]
fn delete_names_the_account_of_the_grant() {
    let mut stores = with_grant(1000);
    let s1 = session("S1", "U1");
    let request = Delete { escalation_token: "grant".to_string() };
    let facts = DeleteFacts { backing: Some(s1.clone()), presented: Some(s1) };
    assert_eq!(delete::handle(&mut stores, 1010, &request, &facts), Ok("U1".to_string()));
    let facts = DeleteFacts { backing: None, presented: None };
    assert_eq!(delete::handle(&mut stores, 1010, &request, &facts), Err(Error::SessionExpired));
}

#[test]
fn delete_passkey_names_passkey_and_account() {
    let mut stores = with_grant(1000);
    let s1 = session("S1", "U1");
    let request = DeletePasskey { escalation_token: "grant".to_string() };
    let facts = DeleteFacts { backing: Some(s1.clone()), presented: Some(s1.clone()) };
    assert_eq!(
        delete_passkey::handle(&mut stores, 1010, "PK7".to_string(), &request, &facts),
        Ok(PasskeyRemoval { id: "PK7".to_string(), user_id: "U1".to_string() })
    );
    let facts = DeleteFacts { backing: Some(s1), presented: Some(session("S2", "U1")) };
    assert_eq!(
        delete_passkey::handle(&mut stores, 1010, "PK7".to_string(), &request, &facts),
        Err(Error::SessionExpired)
    );
}

fn settings(username: Option<&str>, email: Option<&str>) -> AccountSettings {
    AccountSettings {
        username: username.map(|s| s.to_string()),
        email: email.map(|s| s.to_string()),
        escalation_token: "grant".to_string(),
    }
}

fn account_facts(username_taken: bool, email_taken: bool) -> AccountFacts {
    let s1 = session("S1", "U1");
    AccountFacts { backing: Some(s1.clone()), presented: Some(s1), username_taken, email_taken }
}

#[test]
fn account_settings_update_trims_the_username() {
    let mut stores = with_grant(1000);
    let outcome = account_settings::handle(
        &mut stores,
        1010,
        settings(Some("  new_name "), Some(" new@example.com ")),
        &account_facts(false, false),
    );
    assert_eq!(
        outcome,
        Ok(AccountUpdate {
            user_id: "U1".to_string(),
            username: Some("new_name".to_string()),
            email: Some(" new@example.com ".to_string()),
        })
    );
    let outcome =
        account_settings::handle(&mut stores, 1010, settings(None, None), &account_facts(true, true));
    assert_eq!(
        outcome,
        Ok(AccountUpdate { user_id: "U1".to_string(), username: None, email: None })
    );
}

#[test]
fn account_settings_checks_in_order() {
    let mut stores = with_grant(1000);
    let go = |stores: &mut Stores, username: Option<&str>, email: Option<&str>, u: bool, e: bool| {
        account_settings::handle(stores, 1010, settings(username, email), &account_facts(u, e))
    };
    assert_eq!(go(&mut stores, Some("x"), Some("bad"), true, true), Err(Error::InvalidUsername));
    assert_eq!(
        go(&mut stores, Some("name"), Some("bad"), true, true),
        Err(Error::UsernameAlreadyTaken)
    );
    assert_eq!(go(&mut stores, Some("name"), Some("bad"), false, true), Err(Error::InvalidEmail));
    assert_eq!(go(&mut stores, None, Some("a@b.cd"), true, true), Err(Error::UserExists));
    let mut none = Stores::new();
    assert_eq!(go(&mut none, Some("x"), None, false, false), Err(Error::SessionExpired));
}
