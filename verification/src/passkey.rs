//! Adapter around the WebAuthn ceremonies.
//!
//! Challenges, client responses, ceremony states and credential records
//! cross this module as the JSON text that `webauthn_rs` serializes them
//! to. The ceremonies themselves are `webauthn_rs`'s: the private functions
//! at the end of this file call it, and their contracts are taken on trust.

use vstd::prelude::*;
use webauthn_rs::prelude::{
    DiscoverableAuthentication, DiscoverableKey, Passkey, PasskeyAuthentication,
    PasskeyRegistration, PublicKeyCredential, RegisterPublicKeyCredential, Url, Uuid,
};
use webauthn_rs::WebauthnBuilder;
use crate::errors::Error;
use crate::routes::get_passkey::{id_time, ulid_millis};
use crate::view::text_opt;

verus! {

/// The relying party that the ceremonies are run for.
#[derive(Clone, Debug, PartialEq, Eq)]
pub struct RelyingParty {
    /// Identifier that credentials bind themselves to.
    pub id: String,
    /// Origin that client responses must come from.
    pub origin: String,
    /// Name shown to the user.
    pub name: String,
}

/// Mathematical content of a [`RelyingParty`].
pub ghost struct RelyingPartyView {
    pub id: Seq<char>,
    pub origin: Seq<char>,
    pub name: Seq<char>,
}

impl View for RelyingParty {
    type V = RelyingPartyView;

    open spec fn view(&self) -> RelyingPartyView {
        RelyingPartyView { id: self.id@, origin: self.origin@, name: self.name@ }
    }
}

/// A challenge for the client together with the ceremony state to keep.
#[derive(Clone, Debug, PartialEq, Eq)]
pub struct Ceremony {
    pub challenge: String,
    pub state: String,
}

/// A credential that a registration ceremony produced: the record to
/// store, and the identifier that later responses will name.
#[derive(Clone, Debug, PartialEq, Eq)]
pub struct Credential {
    pub record: String,
    pub id: Vec<u8>,
}

/// Whether `WebauthnBuilder` accepts the relying party: its origin is a
/// URL whose domain is the identifier or a subdomain of it.
pub uninterp spec fn relying_party_accepted(id: Seq<char>, origin: Seq<char>, name: Seq<char>)
    -> bool;

/// The credential that `Webauthn::finish_passkey_registration` makes for
/// a relying party of a client response and a ceremony state: its record
/// in JSON and its identifier. `None` where any of them is refused.
pub uninterp spec fn registered_credential(
    id: Seq<char>,
    origin: Seq<char>,
    name: Seq<char>,
    response: Seq<char>,
    state: Seq<char>,
) -> Option<(Seq<char>, Seq<u8>)>;

/// The identifier of the credential that
/// `Webauthn::finish_discoverable_authentication` verifies, for a relying
/// party, in a client response against a ceremony state with one
/// credential record as the only one allowed. `None` where it verifies
/// none.
pub uninterp spec fn authenticated_credential(
    id: Seq<char>,
    origin: Seq<char>,
    name: Seq<char>,
    response: Seq<char>,
    state: Seq<char>,
    credential: Seq<char>,
) -> Option<Seq<u8>>;

/// The identifier of the credential that
/// `Webauthn::finish_passkey_authentication` verifies, for a relying
/// party, in a client response against the state of a ceremony that named
/// its credentials up front. `None` where it verifies none.
pub uninterp spec fn authenticated_passkey(
    id: Seq<char>,
    origin: Seq<char>,
    name: Seq<char>,
    response: Seq<char>,
    state: Seq<char>,
) -> Option<Seq<u8>>;

/// The credential identifier that a client response names: the `id` of a
/// `PublicKeyCredential`, `None` where the text is none.
pub uninterp spec fn named_credential(response: Seq<char>) -> Option<Seq<char>>;

/// Checks the deployment's WebAuthn configuration: the relying party, or
/// `None` where `webauthn_rs` refuses it.
pub fn create_webauthn(public_root: &String, rp_id: &String, service_name: &String) -> (r: Option<
    RelyingParty,
>)
    ensures
        match r {
            Some(p) => relying_party_accepted(rp_id@, public_root@, service_name@) && p@ == (
            RelyingPartyView { id: rp_id@, origin: public_root@, name: service_name@ }),
            None => !relying_party_accepted(rp_id@, public_root@, service_name@),
        },
{
    if party_accepted(rp_id, public_root, service_name) {
        Some(
            RelyingParty {
                id: rp_id.clone(),
                origin: public_root.clone(),
                name: service_name.clone(),
            },
        )
    } else {
        None
    }
}

/// Begins the registration of a passkey for the account `user_id`, shown
/// to the user as `user_name`.
///
/// A relying party that `webauthn_rs` refuses, an account id that is no
/// ULID and an empty name end in `CredentialError` before any ceremony is
/// begun. Beyond that the ceremony is `webauthn_rs`'s to begin or to
/// refuse, and any refusal is a `CredentialError` too. The challenge is
/// random: nothing is said of it.
pub fn start_registration(party: &RelyingParty, user_id: &String, user_name: &String) -> (r: Result<
    Ceremony,
    Error,
>)
    ensures
        r matches Err(e) ==> e == Error::CredentialError,
        r is Ok ==> relying_party_accepted(party.id@, party.origin@, party.name@),
        r is Ok ==> id_time(user_id@) is Some,
        r is Ok ==> user_name@.len() > 0,
{
    if !party_accepted(&party.id, &party.origin, &party.name) {
        return Err(Error::CredentialError);
    }
    if ulid_millis(user_id).is_none() || user_name.as_str().is_empty() {
        return Err(Error::CredentialError);
    }
    match registration_start(party, user_id, user_name) {
        Some(c) => Ok(Ceremony { challenge: c.0, state: c.1 }),
        None => Err(Error::CredentialError),
    }
}

/// Completes the registration of a passkey: checks the client's response
/// against the ceremony state. A failed attestation, like any other
/// refusal, is a `CredentialError`.
pub fn finish_registration(party: &RelyingParty, response: &String, state: &String) -> (r: Result<
    Credential,
    Error,
>)
    ensures
        match registered_credential(party.id@, party.origin@, party.name@, response@, state@) {
            Some(c) => r matches Ok(made) && made.record@ == c.0 && made.id@ == c.1,
            None => r matches Err(e) && e == Error::CredentialError,
        },
{
    match registration_finish(party, response, state) {
        Some(c) => Ok(Credential { record: c.0, id: c.1 }),
        None => Err(Error::CredentialError),
    }
}

/// Begins an authentication that names no credential: the authenticator
/// is to supply its own.
///
/// A relying party that `webauthn_rs` refuses ends in `CredentialError`
/// before any ceremony is begun. Beyond that the ceremony is
/// `webauthn_rs`'s to begin or to refuse, and any refusal is a
/// `CredentialError` too. The challenge is random: nothing is said of it.
pub fn start_discoverable_authentication(party: &RelyingParty) -> (r: Result<Ceremony, Error>)
    ensures
        r matches Err(e) ==> e == Error::CredentialError,
        r is Ok ==> relying_party_accepted(party.id@, party.origin@, party.name@),
{
    if !party_accepted(&party.id, &party.origin, &party.name) {
        return Err(Error::CredentialError);
    }
    match authentication_start(party) {
        Some(c) => Ok(Ceremony { challenge: c.0, state: c.1 }),
        None => Err(Error::CredentialError),
    }
}

/// Completes an authentication: checks the client's response against the
/// ceremony state, with the one stored credential that the response was
/// resolved to as the only one allowed. On success the result is the
/// identifier of the credential that was verified; a failed signature,
/// like any other refusal, is a `CredentialError`.
pub fn finish_discoverable_authentication(
    party: &RelyingParty,
    response: &String,
    state: &String,
    credential: &String,
) -> (r: Result<Vec<u8>, Error>)
    ensures
        match authenticated_credential(
            party.id@,
            party.origin@,
            party.name@,
            response@,
            state@,
            credential@,
        ) {
            Some(id) => r matches Ok(verified) && verified@ == id,
            None => r matches Err(e) && e == Error::CredentialError,
        },
{
    match authentication_finish(party, response, state, credential) {
        Some(id) => Ok(id),
        None => Err(Error::CredentialError),
    }
}

/// Begins an authentication for credentials that are known up front: the
/// challenge names `credentials`, each a stored credential record.
///
/// A relying party that `webauthn_rs` refuses ends in `CredentialError`
/// before any ceremony is begun. Beyond that the ceremony is
/// `webauthn_rs`'s to begin or to refuse, and any refusal, a record that
/// is none included, is a `CredentialError` too. The challenge is random:
/// nothing is said of it.
pub fn start_authentication(party: &RelyingParty, credentials: &Vec<String>) -> (r: Result<
    Ceremony,
    Error,
>)
    ensures
        r matches Err(e) ==> e == Error::CredentialError,
        r is Ok ==> relying_party_accepted(party.id@, party.origin@, party.name@),
{
    if !party_accepted(&party.id, &party.origin, &party.name) {
        return Err(Error::CredentialError);
    }
    match passkey_authentication_start(party, credentials) {
        Some(c) => Ok(Ceremony { challenge: c.0, state: c.1 }),
        None => Err(Error::CredentialError),
    }
}

/// Completes an authentication that named its credentials up front. On
/// success the result is the identifier of the credential that was
/// verified; any refusal is a `CredentialError`.
pub fn finish_authentication(party: &RelyingParty, response: &String, state: &String) -> (r: Result<
    Vec<u8>,
    Error,
>)
    ensures
        match authenticated_passkey(party.id@, party.origin@, party.name@, response@, state@) {
            Some(id) => r matches Ok(verified) && verified@ == id,
            None => r matches Err(e) && e == Error::CredentialError,
        },
{
    match passkey_authentication_finish(party, response, state) {
        Some(id) => Ok(id),
        None => Err(Error::CredentialError),
    }
}

/// The credential identifier that a client response names, by which the
/// caller is to look the credential up.
pub fn credential_id(response: &String) -> (id: Option<String>)
    ensures
        text_opt(id) == named_credential(response@),
{
    response_id(response)
}

/// `Url::parse`, `WebauthnBuilder::new`, `WebauthnBuilder::rp_name` and
/// `WebauthnBuilder::build`: whether all of them succeed.
#[verifier::external_body]
fn party_accepted(id: &String, origin: &String, name: &String) -> (ok: bool)
    ensures
        ok == relying_party_accepted(id@, origin@, name@),
{
    match Url::parse(origin) {
        Ok(url) => match WebauthnBuilder::new(id, &url) {
            Ok(builder) => builder.rp_name(name).build().is_ok(),
            Err(_) => false,
        },
        Err(_) => false,
    }
}

/// `Webauthn::start_passkey_registration` on the `Webauthn` built as in
/// [`party_accepted`], for the `Uuid` with the bytes of the `Ulid` that
/// `user_id` parses to, with no credential excluded; the challenge and the
/// state come back as `serde_json::to_string` writes them. The challenge
/// is random.
#[verifier::external_body]
fn registration_start(party: &RelyingParty, user_id: &String, user_name: &String) -> (r: Option<
    (String, String),
>)
{
    let url = Url::parse(&party.origin).ok()?;
    let webauthn = WebauthnBuilder::new(&party.id, &url).ok()?.rp_name(&party.name).build().ok()?;
    let uuid = Uuid::from_bytes(ulid::Ulid::from_string(user_id).ok()?.to_bytes());
    let (challenge, state) =
        webauthn.start_passkey_registration(uuid, user_name, user_name, None).ok()?;
    Some((serde_json::to_string(&challenge).ok()?, serde_json::to_string(&state).ok()?))
}

/// `Webauthn::finish_passkey_registration` on the `Webauthn` built as in
/// [`party_accepted`], between `serde_json::from_str` on the response and
/// the state and `serde_json::to_string` on the credential; its
/// `Passkey::cred_id` comes back as bytes.
#[verifier::external_body]
fn registration_finish(party: &RelyingParty, response: &String, state: &String) -> (r: Option<
    (String, Vec<u8>),
>)
    ensures
        match registered_credential(party.id@, party.origin@, party.name@, response@, state@) {
            Some(c) => r matches Some(made) && made.0@ == c.0 && made.1@ == c.1,
            None => r is None,
        },
{
    let url = Url::parse(&party.origin).ok()?;
    let webauthn = WebauthnBuilder::new(&party.id, &url).ok()?.rp_name(&party.name).build().ok()?;
    let response: RegisterPublicKeyCredential = serde_json::from_str(response).ok()?;
    let state: PasskeyRegistration = serde_json::from_str(state).ok()?;
    let passkey = webauthn.finish_passkey_registration(&response, &state).ok()?;
    Some((serde_json::to_string(&passkey).ok()?, passkey.cred_id().as_ref().to_vec()))
}

/// `Webauthn::start_discoverable_authentication` on the `Webauthn` built
/// as in [`party_accepted`]; the challenge and the state come back as
/// `serde_json::to_string` writes them. The challenge is random.
#[verifier::external_body]
fn authentication_start(party: &RelyingParty) -> (r: Option<(String, String)>)
{
    let url = Url::parse(&party.origin).ok()?;
    let webauthn = WebauthnBuilder::new(&party.id, &url).ok()?.rp_name(&party.name).build().ok()?;
    let (challenge, state) = webauthn.start_discoverable_authentication().ok()?;
    Some((serde_json::to_string(&challenge).ok()?, serde_json::to_string(&state).ok()?))
}

/// `Webauthn::finish_discoverable_authentication` on the `Webauthn` built
/// as in [`party_accepted`], after `serde_json::from_str` on the response,
/// the state and the credential, with `DiscoverableKey::from` that
/// credential as the only key; the `AuthenticationResult::cred_id` of a
/// success comes back as bytes.
#[verifier::external_body]
fn authentication_finish(
    party: &RelyingParty,
    response: &String,
    state: &String,
    credential: &String,
) -> (r: Option<Vec<u8>>)
    ensures
        match authenticated_credential(
            party.id@,
            party.origin@,
            party.name@,
            response@,
            state@,
            credential@,
        ) {
            Some(id) => r matches Some(verified) && verified@ == id,
            None => r is None,
        },
{
    let url = Url::parse(&party.origin).ok()?;
    let webauthn = WebauthnBuilder::new(&party.id, &url).ok()?.rp_name(&party.name).build().ok()?;
    let response: PublicKeyCredential = serde_json::from_str(response).ok()?;
    let state: DiscoverableAuthentication = serde_json::from_str(state).ok()?;
    let passkey: Passkey = serde_json::from_str(credential).ok()?;
    let keys = [DiscoverableKey::from(passkey)];
    let result = webauthn.finish_discoverable_authentication(&response, state, &keys).ok()?;
    Some(result.cred_id().as_ref().to_vec())
}

/// `Webauthn::start_passkey_authentication` on the `Webauthn` built as in
/// [`party_accepted`], after `serde_json::from_str` on each credential; the
/// challenge and the state come back as `serde_json::to_string` writes
/// them. The challenge is random.
#[verifier::external_body]
fn passkey_authentication_start(party: &RelyingParty, credentials: &Vec<String>) -> (r: Option<
    (String, String),
>)
{
    let url = Url::parse(&party.origin).ok()?;
    let webauthn = WebauthnBuilder::new(&party.id, &url).ok()?.rp_name(&party.name).build().ok()?;
    let mut passkeys: Vec<Passkey> = Vec::new();
    for credential in credentials.iter() {
        passkeys.push(serde_json::from_str(credential).ok()?);
    }
    let (challenge, state) = webauthn.start_passkey_authentication(&passkeys).ok()?;
    Some((serde_json::to_string(&challenge).ok()?, serde_json::to_string(&state).ok()?))
}

/// `Webauthn::finish_passkey_authentication` on the `Webauthn` built as in
/// [`party_accepted`], after `serde_json::from_str` on the response and
/// the state; the `AuthenticationResult::cred_id` of a success comes back
/// as bytes.
#[verifier::external_body]
fn passkey_authentication_finish(party: &RelyingParty, response: &String, state: &String) -> (r:
    Option<Vec<u8>>)
    ensures
        match authenticated_passkey(party.id@, party.origin@, party.name@, response@, state@) {
            Some(id) => r matches Some(verified) && verified@ == id,
            None => r is None,
        },
{
    let url = Url::parse(&party.origin).ok()?;
    let webauthn = WebauthnBuilder::new(&party.id, &url).ok()?.rp_name(&party.name).build().ok()?;
    let response: PublicKeyCredential = serde_json::from_str(response).ok()?;
    let state: PasskeyAuthentication = serde_json::from_str(state).ok()?;
    let result = webauthn.finish_passkey_authentication(&response, &state).ok()?;
    Some(result.cred_id().as_ref().to_vec())
}

/// `serde_json::from_str` into a `PublicKeyCredential`, and its field `id`.
#[verifier::external_body]
fn response_id(response: &String) -> (id: Option<String>)
    ensures
        text_opt(id) == named_credential(response@),
{
    let credential: PublicKeyCredential = serde_json::from_str(response).ok()?;
    Some(credential.id)
}

} // verus!
