//! Durable server configuration.

use vstd::prelude::*;
use crate::opaque::{create_server_setup, server_setup_accepted, SERVER_SETUP_LEN};

verus! {

/// The single settings document: the serialized PAKE server setup.
#[derive(Clone, Debug, PartialEq, Eq)]
pub struct Settings {
    pub opaque_server_setup: Vec<u8>,
}

/// The settings to work with, given what the caller found in the store:
/// the stored settings where there are any, else settings with a fresh
/// PAKE server setup. The flag tells whether they are new and the caller
/// is to store them, which happens on the first start only.
pub fn get_settings(found: Option<Settings>) -> (r: (Settings, bool))
    ensures
        match found {
            Some(s) => r.0.opaque_server_setup@ == s.opaque_server_setup@ && !r.1,
            None => r.0.opaque_server_setup.len() == SERVER_SETUP_LEN && server_setup_accepted(
                r.0.opaque_server_setup@,
            ) && r.1,
        },
{
    match found {
        Some(settings) => (settings, false),
        None => (Settings { opaque_server_setup: create_server_setup() }, true),
    }
}

} // verus!
