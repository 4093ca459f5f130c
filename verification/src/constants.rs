//! Names and lifetimes shared by every flow.

use vstd::prelude::*;

verus! {

/// Name under which the service identifies itself.
pub const SERVICE: &'static str = "account";

/// Lifetime of a bearer token that was not asked to persist: 7 days, in milliseconds.
pub const SHORT_SESSION: u128 = 604800000;

/// Lifetime of a persisted bearer token: 30 days, in milliseconds.
pub const LONG_SESSION: u128 = 2592000000;

/// Lifetime that an escalated bearer token is meant for: 5 minutes, in
/// milliseconds. The check of an escalation grant does not go by it: a
/// grant is good for [`CONTINUE_TIMEOUT`] seconds.
pub const ELEVATED_SESSION: u128 = 300000;

/// Age in seconds beyond which a login, an MFA or passkey ceremony and an
/// escalation grant are expired.
pub const CONTINUE_TIMEOUT: u64 = 3600;

/// Age in seconds beyond which a registration, reset or password-update
/// ceremony is expired.
pub const SHORT_TIMEOUT: u64 = 600;

} // verus!
