//! Process-wide configuration, as the caller loaded it.

use vstd::prelude::*;

verus! {

/// What the flows need to know of the deployment.
#[derive(Clone, Debug, PartialEq, Eq)]
pub struct Environment {
    /// Secret that bearer tokens are signed with.
    pub jwt_secret: Vec<u8>,
    /// Name under which the service shows up in authenticator apps and in
    /// WebAuthn prompts.
    pub service_name: String,
    /// Whether verification tokens travel by email.
    pub smtp_enabled: bool,
    /// Public origin of the service.
    pub public_root: String,
    /// WebAuthn relying party identifier.
    pub rp_id: String,
}

/// A reading of the clock: seconds and milliseconds since the epoch.
#[derive(Clone, Copy, Debug, PartialEq, Eq)]
pub struct Clock {
    pub secs: u64,
    pub millis: u128,
}

} // verus!
