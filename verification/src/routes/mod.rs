//! One module per flow: the request and response shapes, the pending
//! record that a flow keeps between its stages, and the stage transitions.

pub mod account_settings;
pub mod delete;
pub mod delete_passkey;
pub mod forgot;
pub mod get_passkey;
pub mod login;
pub mod login_passkey;
pub mod mfa;
pub mod register;
pub mod register_passkey;
pub mod update_password;
pub mod validate;
