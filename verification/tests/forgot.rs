use account::constants::SHORT_TIMEOUT;
use account::database::user::{PasswordUpdate, User};
use account::environment::Environment;
use account::errors::Error;
use account::opaque::create_server_setup;
use account::routes::forgot::{
    finish_reset_with, handle, reset_password_with, verify_email_with, Forgot, ForgotFacts,
    ForgotOutcome, ForgotResponse, PendingForgot,
};
use account::routes::update_password::{
    self, begin_update_with, finish_update_with, PendingUpdate, UpdateFacts, UpdateOutcome,
    UpdatePassword, UpdatePasswordResponse,
};
use account::database::session::Session;
use account::routes::login::ActiveEscalation;
use account::store::{Pending, Stores};
use opaque_ke::{ClientRegistration, ClientRegistrationFinishParameters, RegistrationResponse};
use rand::rngs::OsRng;

fn env() -> Environment {
    Environment {
        jwt_secret: b"signing secret".to_vec(),
        service_name: "Account".to_string(),
        smtp_enabled: true,
        public_root: "https://id.example".to_string(),
        rp_id: "id.example".to_string(),
    }
}

fn user() -> User {
    User {
        id: "U1".to_string(),
        mfa_enabled: false,
        mfa_secret: None,
        username: "alice".to_string(),
        email: "alice@example.com".to_string(),
        password_data: vec![],
        platform_administrator: false,
    }
}

fn forgot(time: u64) -> Pending {
    Pending::Forgot(PendingForgot {
        time,
        user_id: "U1".to_string(),
        email: "alice@example.com".to_string(),
    })
}

fn facts(setup: &Vec<u8>, user: Option<User>) -> ForgotFacts {
    ForgotFacts { user, server_setup: setup.clone() }
}

#[test]
fn reset_from_address_to_new_password() {
    let setup = create_server_setup();
    let mut stores = Stores::new();
    let request = Forgot::VerifyEmail { email: "alice@example.com".to_string() };
    let first = handle(&mut stores, &env(), 1000, request, facts(&setup, Some(user()))).unwrap();
    assert_eq!(first.response, ForgotResponse::VerifyEmail {});
    let mail = first.mail.unwrap();
    assert_eq!(mail.to, "alice@example.com");
    assert_eq!(mail.subject, "Reset password");
    let link = mail.body.rsplit("\n\n").next().unwrap().to_string();
    let token = link.strip_prefix("https://id.example/forgot?token=").unwrap().to_string();
    assert_eq!(token.len(), 128);
    assert_eq!(stores.pending_forgots1.get(&token), Some(forgot(1000)));

    let mut rng = OsRng;
    let start = ClientRegistration::<account::opaque::Default>::start(&mut rng, b"new").unwrap();
    let request = Forgot::ResetPassword {
        continue_token: token.clone(),
        message: start.message.serialize().to_vec(),
    };
    let second = handle(&mut stores, &env(), 1100, request.clone(), facts(&setup, None)).unwrap();
    let (next, message) = match second.response {
        ForgotResponse::ResetPassword { continue_token, message } => (continue_token, message),
        other => panic!("unexpected response: {:?}", other),
    };
    assert!(stores.pending_forgots1.iterate().is_empty());
    assert_eq!(stores.pending_forgots2.get(&next), Some(forgot(1100)));
    assert_eq!(
        handle(&mut stores, &env(), 1100, request, facts(&setup, None)),
        Err(Error::SessionExpired)
    );

    let upload = start
        .state
        .finish(
            &mut rng,
            b"new",
            RegistrationResponse::deserialize(&message).unwrap(),
            ClientRegistrationFinishParameters::default(),
        )
        .unwrap()
        .message
        .serialize()
        .to_vec();
    let request = Forgot::FinishReset { continue_token: next.clone(), message: upload.clone() };
    let third = handle(&mut stores, &env(), 1200, request.clone(), facts(&setup, None)).unwrap();
    assert_eq!(
        third,
        ForgotOutcome {
            response: ForgotResponse::FinishReset {},
            mail: None,
            password: Some(PasswordUpdate { user_id: "U1".to_string(), password_data: upload }),
        }
    );
    assert!(stores.pending_forgots2.iterate().is_empty());
    assert_eq!(
        handle(&mut stores, &env(), 1201, request, facts(&setup, None)),
        Err(Error::SessionExpired)
    );
}

#[test]
fn unknown_address_gets_the_same_answer_and_no_mail() {
    let mut stores = Stores::new();
    let request = Forgot::VerifyEmail { email: "nobody@example.com".to_string() };
    let outcome = handle(&mut stores, &env(), 1000, request, facts(&vec![], None));
    assert_eq!(
        outcome,
        Ok(ForgotOutcome { response: ForgotResponse::VerifyEmail {}, mail: None, password: None })
    );
    assert!(stores.pending_forgots1.iterate().is_empty());
}

#[test]
fn reset_token_is_never_overwritten() {
    let mut stores = Stores::new();
    let go = |stores: &mut Stores, now: u64| {
        verify_email_with(
            stores,
            &env(),
            now,
            "alice@example.com".to_string(),
            Some(user()),
            "TOKEN".to_string(),
        )
    };
    let first = go(&mut stores, 1).unwrap();
    assert_eq!(
        first.mail.unwrap().body,
        "Hi there! We received a request to reset your password. If this was you, please click the following link to continue.\n\nhttps://id.example/forgot?token=TOKEN"
    );
    assert_eq!(go(&mut stores, 2), Err(Error::DatabaseError));
    assert_eq!(stores.pending_forgots1.get(&"TOKEN".to_string()), Some(forgot(1)));
}

#[test]
fn reset_stages_expire_after_ten_minutes() {
    let mut stores = Stores::new();
    stores.pending_forgots1.put("a".to_string(), forgot(1000));
    stores.pending_forgots2.put("b".to_string(), forgot(1000));
    let late = 1000 + SHORT_TIMEOUT + 1;
    assert_eq!(
        reset_password_with(&mut stores, late, &"a".to_string(), Some(vec![1]), "n".to_string()),
        Err(Error::SessionExpired)
    );
    assert_eq!(
        finish_reset_with(&mut stores, late, &"b".to_string(), Some(vec![1])),
        Err(Error::SessionExpired)
    );
    assert!(stores.pending_forgots1.iterate().is_empty());
    assert!(stores.pending_forgots2.iterate().is_empty());
}

#[test]
fn refused_messages_keep_the_reset_pending() {
    let setup = create_server_setup();
    let mut stores = Stores::new();
    stores.pending_forgots1.put("a".to_string(), forgot(1000));
    stores.pending_forgots2.put("b".to_string(), forgot(1000));
    let request = Forgot::ResetPassword { continue_token: "a".to_string(), message: vec![1, 2] };
    assert_eq!(
        handle(&mut stores, &env(), 1001, request, facts(&setup, None)),
        Err(Error::CredentialError)
    );
    let request = Forgot::FinishReset { continue_token: "b".to_string(), message: vec![1, 2] };
    assert_eq!(
        handle(&mut stores, &env(), 1001, request, facts(&setup, None)),
        Err(Error::CredentialError)
    );
    assert_eq!(stores.pending_forgots1.iterate(), vec!["a".to_string()]);
    assert_eq!(stores.pending_forgots2.iterate(), vec!["b".to_string()]);
    // edge of the timeout
    assert!(finish_reset_with(&mut stores, 1000 + SHORT_TIMEOUT, &"b".to_string(), Some(vec![7]))
        .is_ok());
}

fn session() -> Session {
    Session {
        id: "S1".to_string(),
        token: "bearer".to_string(),
        user_id: "U1".to_string(),
        friendly_name: "Laptop".to_string(),
    }
}

fn escalated() -> Stores {
    let mut stores = Stores::new();
    stores.active_escalations.put(
        "grant".to_string(),
        Pending::Escalation(ActiveEscalation {
            session_id: "S1".to_string(),
            user_id: "U1".to_string(),
            time: 1000,
            token: "grant".to_string(),
        }),
    );
    stores
}

fn update_facts(setup: &Vec<u8>, user: Option<User>) -> UpdateFacts {
    UpdateFacts {
        backing: Some(session()),
        presented: Some(session()),
        user,
        server_setup: setup.clone(),
    }
}

#[test]
fn password_update_with_a_grant() {
    let setup = create_server_setup();
    let mut stores = escalated();
    let mut rng = OsRng;
    let start = ClientRegistration::<account::opaque::Default>::start(&mut rng, b"new").unwrap();
    let request = UpdatePassword::BeginUpdate {
        escalation_token: "grant".to_string(),
        message: start.message.serialize().to_vec(),
    };
    let first =
        update_password::handle(&mut stores, 1010, request, update_facts(&setup, Some(user())))
            .unwrap();
    let (token, message) = match first.response {
        UpdatePasswordResponse::BeginUpdate { continue_token, message } => (continue_token, message),
        other => panic!("unexpected response: {:?}", other),
    };
    assert_eq!(
        stores.pending_updates.get(&token),
        Some(Pending::Update(PendingUpdate {
            time: 1010,
            user_id: "U1".to_string(),
            email: "alice@example.com".to_string(),
        }))
    );
    let upload = start
        .state
        .finish(
            &mut rng,
            b"new",
            RegistrationResponse::deserialize(&message).unwrap(),
            ClientRegistrationFinishParameters::default(),
        )
        .unwrap()
        .message
        .serialize()
        .to_vec();
    let request = UpdatePassword::FinishUpdate { continue_token: token, message: upload.clone() };
    let none = UpdateFacts { backing: None, presented: None, user: None, server_setup: vec![] };
    let second = update_password::handle(&mut stores, 1020, request.clone(), none.clone()).unwrap();
    assert_eq!(
        second,
        UpdateOutcome {
            response: UpdatePasswordResponse::FinishUpdate {},
            password: Some(PasswordUpdate { user_id: "U1".to_string(), password_data: upload }),
        }
    );
    assert_eq!(
        update_password::handle(&mut stores, 1021, request, none),
        Err(Error::SessionExpired)
    );
}

#[test]
fn password_update_checks_in_order() {
    let mut stores = escalated();
    let go = |stores: &mut Stores,
              presented: Option<Session>,
              user: Option<User>,
              answer: Option<Vec<u8>>| {
        begin_update_with(
            stores,
            1010,
            &"grant".to_string(),
            &Some(session()),
            &presented,
            user,
            answer,
            "ct".to_string(),
        )
    };
    assert_eq!(go(&mut stores, None, None, None), Err(Error::SessionExpired));
    assert_eq!(go(&mut stores, Some(session()), None, None), Err(Error::DatabaseError));
    assert_eq!(go(&mut stores, Some(session()), Some(user()), None), Err(Error::CredentialError));
    assert!(stores.pending_updates.iterate().is_empty());
    assert!(go(&mut stores, Some(session()), Some(user()), Some(vec![5])).is_ok());
    assert_eq!(
        go(&mut stores, Some(session()), Some(user()), Some(vec![5])),
        Err(Error::DatabaseError)
    );
}

#[test]
fn password_update_expires_after_ten_minutes() {
    let mut stores = Stores::new();
    let record = Pending::Update(PendingUpdate {
        time: 1000,
        user_id: "U1".to_string(),
        email: "alice@example.com".to_string(),
    });
    stores.pending_updates.put("ct".to_string(), record);
    assert_eq!(
        finish_update_with(&mut stores, 1001, &"ct".to_string(), None),
        Err(Error::CredentialError)
    );
    assert_eq!(
        finish_update_with(&mut stores, 1601, &"ct".to_string(), Some(vec![1])),
        Err(Error::SessionExpired)
    );
    assert_eq!(
        finish_update_with(&mut stores, 1001, &"missing".to_string(), Some(vec![1])),
        Err(Error::SessionExpired)
    );
    assert!(stores.pending_updates.iterate().is_empty());
}

#[test]
fn taken_reset_token_fails_for_any_address() {
    let mut stores = Stores::new();
    stores.pending_forgots1.put("TOKEN".to_string(), forgot(1));
    let go = |stores: &mut Stores, account: Option<User>| {
        verify_email_with(
            stores,
            &env(),
            2,
            "nobody@example.com".to_string(),
            account,
            "TOKEN".to_string(),
        )
    };
    assert_eq!(go(&mut stores, None), Err(Error::DatabaseError));
    assert_eq!(go(&mut stores, Some(user())), Err(Error::DatabaseError));
    assert!(stores.pending_forgots1.holds(&"TOKEN".to_string()));
    assert!(!stores.pending_forgots1.holds(&"other".to_string()));
}
