use account::errors::Error;
use account::database::settings::Settings;
use account::opaque::{
    begin_login, begin_registration, create_server_setup, finish_login, finish_registration,
    get_server_setup, LOGIN_RESPONSE_LEN, LOGIN_STATE_LEN, SERVER_SETUP_LEN,
};
use opaque_ke::{
    ClientLogin, ClientLoginFinishParameters, ClientRegistration,
    ClientRegistrationFinishParameters, CredentialResponse, RegistrationResponse,
};
use rand::rngs::OsRng;

fn enroll(setup: &Vec<u8>, email: &str, password: &[u8]) -> Vec<u8> {
    let mut rng = OsRng;
    let start = ClientRegistration::<account::opaque::Default>::start(&mut rng, password).unwrap();
    let response =
        begin_registration(setup, &email.to_string(), &start.message.serialize().to_vec())
            .unwrap();
    let finish = start
        .state
        .finish(
            &mut rng,
            password,
            RegistrationResponse::deserialize(&response).unwrap(),
            ClientRegistrationFinishParameters::default(),
        )
        .unwrap();
    finish_registration(&finish.message.serialize().to_vec()).unwrap()
}

// Runs a login as a client that knows `password`. `None` where the client
// itself cannot go on, which is what happens with a wrong password.
fn attempt(setup: &Vec<u8>, email: &str, file: &Option<Vec<u8>>, password: &[u8])
    -> Option<Result<(), Error>> {
    let mut rng = OsRng;
    let start = ClientLogin::<account::opaque::Default>::start(&mut rng, password).unwrap();
    let (message, state) =
        begin_login(setup, &email.to_string(), file, &start.message.serialize().to_vec()).unwrap();
    let finish = start.state.finish(
        password,
        CredentialResponse::deserialize(&message).unwrap(),
        ClientLoginFinishParameters::default(),
    );
    match finish {
        Ok(done) => Some(finish_login(&state, &done.message.serialize().to_vec())),
        Err(_) => None,
    }
}

#[test]
fn server_setup_has_128_bytes() {
    let a = create_server_setup();
    let b = create_server_setup();
    assert_eq!(a.len(), SERVER_SETUP_LEN);
    assert_eq!(a.len(), 128);
    assert_ne!(a, b);
}

#[test]
fn password_round_trip_succeeds() {
    let setup = create_server_setup();
    let file = enroll(&setup, "user@example.com", b"correct horse");
    assert_eq!(
        attempt(&setup, "user@example.com", &Some(file), b"correct horse"),
        Some(Ok(()))
    );
}

#[test]
fn different_password_does_not_log_in() {
    let setup = create_server_setup();
    let file = enroll(&setup, "user@example.com", b"correct horse");
    // the client cannot even build its proof
    assert_eq!(attempt(&setup, "user@example.com", &Some(file.clone()), b"battery staple"), None);
    // and whatever it sends instead is turned down
    let mut rng = OsRng;
    let start = ClientLogin::<account::opaque::Default>::start(&mut rng, b"battery staple").unwrap();
    let (_, state) = begin_login(
        &setup,
        &"user@example.com".to_string(),
        &Some(file),
        &start.message.serialize().to_vec(),
    )
    .unwrap();
    assert_eq!(finish_login(&state, &vec![0u8; 64]), Err(Error::CredentialError));
    assert_eq!(finish_login(&state, &vec![]), Err(Error::CredentialError));
}

#[test]
fn proof_of_another_login_is_turned_down() {
    let setup = create_server_setup();
    let file = Some(enroll(&setup, "user@example.com", b"pw"));
    let email = "user@example.com".to_string();
    let mut rng = OsRng;
    let first = ClientLogin::<account::opaque::Default>::start(&mut rng, b"pw").unwrap();
    let second = ClientLogin::<account::opaque::Default>::start(&mut rng, b"pw").unwrap();
    let (_, state1) =
        begin_login(&setup, &email, &file, &first.message.serialize().to_vec()).unwrap();
    let (message2, state2) =
        begin_login(&setup, &email, &file, &second.message.serialize().to_vec()).unwrap();
    let proof2 = second
        .state
        .finish(
            b"pw",
            CredentialResponse::deserialize(&message2).unwrap(),
            ClientLoginFinishParameters::default(),
        )
        .unwrap()
        .message
        .serialize()
        .to_vec();
    assert_eq!(finish_login(&state1, &proof2), Err(Error::CredentialError));
    assert_eq!(finish_login(&state2, &proof2), Ok(()));
}

#[test]
fn login_for_unknown_account_has_the_same_shape() {
    let setup = create_server_setup();
    let file = enroll(&setup, "known@example.com", b"pw");
    let mut rng = OsRng;
    let request = ClientLogin::<account::opaque::Default>::start(&mut rng, b"pw").unwrap().message.serialize().to_vec();
    let known =
        begin_login(&setup, &"known@example.com".to_string(), &Some(file), &request).unwrap();
    let unknown = begin_login(&setup, &"nobody@example.com".to_string(), &None, &request).unwrap();
    assert_eq!(known.0.len(), LOGIN_RESPONSE_LEN);
    assert_eq!(unknown.0.len(), LOGIN_RESPONSE_LEN);
    assert_eq!(known.0.len(), 320);
    assert_eq!(known.1.len(), LOGIN_STATE_LEN);
    assert_eq!(unknown.1.len(), LOGIN_STATE_LEN);
    assert_eq!(unknown.1.len(), 192);
}

#[test]
fn login_for_unknown_account_fails_like_a_wrong_password() {
    let setup = create_server_setup();
    assert_eq!(attempt(&setup, "nobody@example.com", &None, b"pw"), None);
}

#[test]
fn malformed_messages_are_credential_errors() {
    let setup = create_server_setup();
    let email = "user@example.com".to_string();
    assert_eq!(begin_registration(&setup, &email, &vec![1, 2, 3]), Err(Error::CredentialError));
    assert_eq!(begin_registration(&setup, &email, &vec![]), Err(Error::CredentialError));
    assert_eq!(finish_registration(&vec![9; 10]), Err(Error::CredentialError));
    assert_eq!(begin_login(&setup, &email, &None, &vec![7; 5]), Err(Error::CredentialError));
    assert_eq!(finish_login(&vec![1; 3], &vec![2; 3]), Err(Error::CredentialError));
    let mut rng = OsRng;
    let request = ClientLogin::<account::opaque::Default>::start(&mut rng, b"pw").unwrap().message.serialize().to_vec();
    assert_eq!(
        begin_login(&setup, &email, &Some(vec![1, 2, 3]), &request),
        Err(Error::CredentialError)
    );
}

#[test]
fn malformed_server_setup_is_a_credential_error() {
    let mut rng = OsRng;
    let request =
        ClientRegistration::<account::opaque::Default>::start(&mut rng, b"pw").unwrap().message.serialize().to_vec();
    assert_eq!(
        begin_registration(&vec![0; 5], &"a@b.c".to_string(), &request),
        Err(Error::CredentialError)
    );
}

#[test]
fn registration_answer_depends_on_its_arguments_alone() {
    let setup = create_server_setup();
    let mut rng = OsRng;
    let request =
        ClientRegistration::<account::opaque::Default>::start(&mut rng, b"pw").unwrap().message.serialize().to_vec();
    let a = begin_registration(&setup, &"a@b.c".to_string(), &request).unwrap();
    let b = begin_registration(&setup, &"a@b.c".to_string(), &request).unwrap();
    let c = begin_registration(&setup, &"other@b.c".to_string(), &request).unwrap();
    assert_eq!(a, b);
    assert_ne!(a, c);
    assert_ne!(a, request);
    assert_eq!(a.len(), 64);
}

#[test]
fn password_file_is_made_of_the_upload() {
    let setup = create_server_setup();
    let file = enroll(&setup, "user@example.com", b"pw");
    assert_eq!(file.len(), 192);
    assert_eq!(finish_registration(&file), Ok(file.clone()));
}

#[test]
fn stored_server_setup_must_deserialize() {
    let setup = create_server_setup();
    let settings = Settings { opaque_server_setup: setup.clone() };
    assert_eq!(get_server_setup(&settings), Some(setup));
    assert_eq!(get_server_setup(&Settings { opaque_server_setup: vec![1, 2, 3] }), None);
    assert_eq!(get_server_setup(&Settings { opaque_server_setup: vec![] }), None);
}
