//! Stored WebAuthn credentials.

use vstd::prelude::*;

verus! {

/// A registered passkey. `credential` is the credential record as the
/// WebAuthn adapter serialized it; `credential_id` is the identifier that a
/// client response names, in unpadded URL-safe base64.
#[derive(Clone, Debug, PartialEq, Eq)]
pub struct Passkey {
    pub id: String,
    pub credential: String,
    pub credential_id: String,
    pub user_id: String,
    pub friendly_name: String,
}

/// Mathematical content of a [`Passkey`].
pub ghost struct PasskeyView {
    pub id: Seq<char>,
    pub credential: Seq<char>,
    pub credential_id: Seq<char>,
    pub user_id: Seq<char>,
    pub friendly_name: Seq<char>,
}

impl View for Passkey {
    type V = PasskeyView;

    open spec fn view(&self) -> PasskeyView {
        PasskeyView {
            id: self.id@,
            credential: self.credential@,
            credential_id: self.credential_id@,
            user_id: self.user_id@,
            friendly_name: self.friendly_name@,
        }
    }
}

/// Content of an optional passkey.
pub open spec fn passkey_opt(o: Option<Passkey>) -> Option<PasskeyView> {
    match o {
        Some(p) => Some(p@),
        None => None,
    }
}

} // verus!
