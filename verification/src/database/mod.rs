//! Value snapshots of the documents that the persistent store keeps.
//! The store itself is a collaborator of the caller; the flows only read
//! what was fetched and ask for writes.

pub mod code;
pub mod passkey;
pub mod profile;
pub mod session;
pub mod settings;
pub mod user;
