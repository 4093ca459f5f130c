//! Credential-exchange core of an identity provider.
//!
//! Every ceremony of the service (registration, password login, passkey
//! login and registration, TOTP enrollment, password reset and update) is
//! a short sequence of stages. Between two stages the service keeps a
//! pending record under a continuation token that cannot be guessed, lives
//! for a limited time and is good for one success.
//!
//! The library holds the stores of these records ([`store`]), the reaper
//! that sweeps them ([`cleanup`]), the transitions of every flow
//! ([`routes`]), the issue and the check of bearer tokens and escalation
//! grants ([`authenticate`], [`utilities`]), and the adapters around the
//! cryptographic protocols ([`opaque`], [`passkey`], [`routes::mfa`]).
//!
//! It does no I/O. A transition is handed what its caller read from the
//! persistent store and the reading of the clock, changes the stores, and
//! hands back the response together with the writes that the caller is to
//! make. A caller whose write fails has the transition taken back: it
//! keeps what the stores held under the tokens of the request
//! ([`store::Stores::held`]) and has that put back
//! ([`store::Stores::put_back`]), so that a transition either completes
//! or leaves the stores as they were. What every transition does is stated as a function on the content
//! of the stores, and the laws of the flows are proved of these functions.
//!
//! The protocols themselves are those of the crates that implement them.
//! Each call into such a crate stands in a private function whose contract
//! is taken on trust; these functions close the files that hold them.

pub mod authenticate;
pub mod cleanup;
pub mod constants;
pub mod database;
pub mod environment;
pub mod errors;
pub mod opaque;
pub mod passkey;
pub mod routes;
pub mod store;
pub mod utilities;
pub mod view;
