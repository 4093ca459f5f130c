//! Adapter around the augmented PAKE protocol.
//!
//! Messages, the server setup, the password file and the server's login
//! state cross this module as the bytes that `opaque_ke` serializes them
//! to. The protocol itself is `opaque_ke`'s: the private functions at the
//! end of this file call it, and their contracts are taken on trust.

use vstd::prelude::*;
use opaque_ke::{
    CredentialFinalization, CredentialRequest, RegistrationRequest, RegistrationUpload,
    ServerLogin, ServerLoginStartParameters, ServerRegistration, ServerSetup,
};
use rand::rngs::OsRng;
use crate::database::settings::Settings;
use crate::errors::Error;


verus! {

/// `opaque_ke::Ristretto255`, the group of the suite; nothing is said of its values.
#[verifier::external_type_specification]
#[verifier::external_body]
pub struct ExRistretto255(opaque_ke::Ristretto255);

/// `opaque_ke::key_exchange::tripledh::TripleDh`, the key exchange of the suite.
#[verifier::external_type_specification]
#[verifier::external_body]
pub struct ExTripleDh(opaque_ke::key_exchange::tripledh::TripleDh);

/// `opaque_ke::ksf::Identity`, the key stretching function of the suite.
#[verifier::external_type_specification]
#[verifier::external_body]
pub struct ExIdentity(opaque_ke::ksf::Identity);

/// The cipher suite every PAKE operation of this service runs with.
pub struct Default;

impl opaque_ke::CipherSuite for Default {
    type OprfCs = opaque_ke::Ristretto255;
    type KeGroup = opaque_ke::Ristretto255;
    type KeyExchange = opaque_ke::key_exchange::tripledh::TripleDh;
    type Ksf = opaque_ke::ksf::Identity;
}

/// Length in bytes of the server's first login message under [`Default`].
pub const LOGIN_RESPONSE_LEN: usize = 320;

/// Length in bytes of the server's login state under [`Default`].
pub const LOGIN_STATE_LEN: usize = 192;

/// Length in bytes of a serialized server setup under [`Default`].
pub const SERVER_SETUP_LEN: usize = 128;

/// The server's answer to a registration request: what
/// `ServerRegistration::start` returns, serialized, for a serialized server
/// setup, the identity the registration is bound to and a serialized
/// request. `None` where the setup or the request does not deserialize or
/// the protocol fails.
pub uninterp spec fn registration_response(
    setup: Seq<u8>,
    identity: Seq<char>,
    request: Seq<u8>,
) -> Option<Seq<u8>>;

/// The password file that a registration upload becomes: what
/// `ServerRegistration::finish` returns, serialized. `None` where the bytes
/// are no upload message.
pub uninterp spec fn password_file(upload: Seq<u8>) -> Option<Seq<u8>>;

/// Whether `ServerSetup::deserialize` accepts the bytes as a server setup.
pub uninterp spec fn server_setup_accepted(setup: Seq<u8>) -> bool;

/// Whether `ServerLogin::finish` accepts the client's final message against
/// the server's login state, both serialized.
pub uninterp spec fn login_proof_accepted(state: Seq<u8>, finalization: Seq<u8>) -> bool;

/// A fresh server setup, serialized: the durable keypair and seed that
/// every later operation is run against.
pub fn create_server_setup() -> (setup: Vec<u8>)
    ensures
        setup.len() == SERVER_SETUP_LEN,
        server_setup_accepted(setup@),
{
    setup_new()
}

/// The server setup that the stored settings hold, or `None` where what
/// they hold is no server setup.
pub fn get_server_setup(settings: &Settings) -> (setup: Option<Vec<u8>>)
    ensures
        match setup {
            Some(s) => server_setup_accepted(settings.opaque_server_setup@) && s@
                == settings.opaque_server_setup@,
            None => !server_setup_accepted(settings.opaque_server_setup@),
        },
{
    if setup_accepted(&settings.opaque_server_setup) {
        Some(settings.opaque_server_setup.clone())
    } else {
        None
    }
}

/// Answers a registration request for the account identified by `email`.
/// Any failure, a malformed request included, is a `CredentialError`.
pub fn begin_registration(server_setup: &Vec<u8>, email: &String, client_message: &Vec<u8>) -> (r:
    Result<Vec<u8>, Error>)
    ensures
        match registration_response(server_setup@, email@, client_message@) {
            Some(m) => r matches Ok(v) && v@ == m,
            None => r == Err::<Vec<u8>, Error>(Error::CredentialError),
        },
{
    match registration_start(server_setup, email, client_message) {
        Some(message) => Ok(message),
        None => Err(Error::CredentialError),
    }
}

/// Turns the client's registration upload into the password file that the
/// account stores. Needs no server state.
pub fn finish_registration(client_message: &Vec<u8>) -> (r: Result<Vec<u8>, Error>)
    ensures
        match password_file(client_message@) {
            Some(f) => r matches Ok(v) && v@ == f,
            None => r == Err::<Vec<u8>, Error>(Error::CredentialError),
        },
{
    match registration_finish(client_message) {
        Some(file) => Ok(file),
        None => Err(Error::CredentialError),
    }
}

/// Begins a login for the account identified by `email`. A missing
/// password file is accepted: the protocol then runs against a simulated
/// record, and the answer has the same shape as for a known account.
///
/// On success the result is the server's message and the server's login
/// state, both serialized. Whatever the account, the message has
/// [`LOGIN_RESPONSE_LEN`] bytes and the only error is `CredentialError`.
pub fn begin_login(
    server_setup: &Vec<u8>,
    email: &String,
    password_data: &Option<Vec<u8>>,
    client_message: &Vec<u8>,
) -> (r: Result<(Vec<u8>, Vec<u8>), Error>)
    ensures
        r matches Ok(started) ==> started.0.len() == LOGIN_RESPONSE_LEN && started.1.len()
            == LOGIN_STATE_LEN,
        r matches Err(e) ==> e == Error::CredentialError,
{
    match login_start(server_setup, email, password_data, client_message) {
        Some(started) => Ok(started),
        None => Err(Error::CredentialError),
    }
}

/// Checks the client's final login message against the server's login
/// state. Success is the sole proof that the client knows the password.
pub fn finish_login(state: &Vec<u8>, client_message: &Vec<u8>) -> (r: Result<(), Error>)
    ensures
        r == (if login_proof_accepted(state@, client_message@) {
            Ok::<(), Error>(())
        } else {
            Err::<(), Error>(Error::CredentialError)
        }),
{
    if login_finish(state, client_message) {
        Ok(())
    } else {
        Err(Error::CredentialError)
    }
}

/// `ServerSetup::new` on the operating system's generator, then
/// `ServerSetup::serialize`: the seed and the two private keys, 128 bytes
/// under this suite, which `ServerSetup::deserialize` restores the setup
/// from.
#[verifier::external_body]
fn setup_new() -> (setup: Vec<u8>)
    ensures
        setup.len() == SERVER_SETUP_LEN,
        server_setup_accepted(setup@),
{
    ServerSetup::<Default>::new(&mut OsRng).serialize().to_vec()
}

/// `ServerSetup::deserialize`: whether it succeeds.
#[verifier::external_body]
fn setup_accepted(setup: &Vec<u8>) -> (ok: bool)
    ensures
        ok == server_setup_accepted(setup@),
{
    ServerSetup::<Default>::deserialize(setup.as_slice()).is_ok()
}

/// `ServerSetup::deserialize`, `RegistrationRequest::deserialize`,
/// `ServerRegistration::start` and `RegistrationResponse::serialize`. No
/// randomness enters: the outcome is the one that
/// [`registration_response`] names.
#[verifier::external_body]
fn registration_start(setup: &Vec<u8>, identity: &String, request: &Vec<u8>) -> (r: Option<
    Vec<u8>,
>)
    ensures
        match registration_response(setup@, identity@, request@) {
            Some(m) => r matches Some(v) && v@ == m,
            None => r is None,
        },
{
    let setup = ServerSetup::<Default>::deserialize(setup.as_slice()).ok()?;
    let request = RegistrationRequest::<Default>::deserialize(request.as_slice()).ok()?;
    let started =
        ServerRegistration::<Default>::start(&setup, request, identity.as_bytes()).ok()?;
    Some(started.message.serialize().to_vec())
}

/// `RegistrationUpload::deserialize`, `ServerRegistration::finish` and
/// `ServerRegistration::serialize`: the outcome is the one that
/// [`password_file`] names.
#[verifier::external_body]
fn registration_finish(upload: &Vec<u8>) -> (r: Option<Vec<u8>>)
    ensures
        match password_file(upload@) {
            Some(f) => r matches Some(v) && v@ == f,
            None => r is None,
        },
{
    let upload = RegistrationUpload::<Default>::deserialize(upload.as_slice()).ok()?;
    Some(ServerRegistration::<Default>::finish(upload).serialize().to_vec())
}

/// `ServerLogin::start` on the operating system's generator, between the
/// deserialization of its arguments and the serialization of its message
/// and state. The outcome depends on the generator; what is claimed is the
/// length of the two serializations, which the suite fixes.
#[verifier::external_body]
fn login_start(
    setup: &Vec<u8>,
    identity: &String,
    password_file: &Option<Vec<u8>>,
    request: &Vec<u8>,
) -> (r: Option<(Vec<u8>, Vec<u8>)>)
    ensures
        r matches Some(started) ==> started.0.len() == LOGIN_RESPONSE_LEN && started.1.len()
            == LOGIN_STATE_LEN,
{
    let setup = ServerSetup::<Default>::deserialize(setup.as_slice()).ok()?;
    let file = match password_file {
        Some(bytes) => Some(ServerRegistration::<Default>::deserialize(bytes).ok()?),
        None => None,
    };
    let request = CredentialRequest::<Default>::deserialize(request.as_slice()).ok()?;
    let parameters = ServerLoginStartParameters::default();
    let started = ServerLogin::start(
        &mut OsRng, &setup, file, request, identity.as_bytes(), parameters).ok()?;
    Some((started.message.serialize().to_vec(), started.state.serialize().to_vec()))
}

/// `ServerLogin::deserialize`, `CredentialFinalization::deserialize` and
/// `ServerLogin::finish`: whether all three succeed, which is what
/// [`login_proof_accepted`] names.
#[verifier::external_body]
fn login_finish(state: &Vec<u8>, finalization: &Vec<u8>) -> (ok: bool)
    ensures
        ok == login_proof_accepted(state@, finalization@),
{
    match (
        ServerLogin::<Default>::deserialize(state.as_slice()),
        CredentialFinalization::<Default>::deserialize(finalization.as_slice()),
    ) {
        (Ok(state), Ok(message)) => state.finish(message).is_ok(),
        _ => false,
    }
}

} // verus!
