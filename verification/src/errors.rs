//! The error kinds that a flow can end in, and their HTTP status.

use vstd::prelude::*;

verus! {

/// Why a request was turned down. Protocol failures are deliberately
/// coarse: every PAKE or WebAuthn failure is `CredentialError`.
#[derive(Clone, Copy, Debug, PartialEq, Eq, Structural)]
pub enum Error {
    MissingToken,
    InvalidToken,
    DatabaseError,
    InvalidUsername,
    UsernameAlreadyTaken,
    UserNotFound,
    UserExists,
    UserMismatch,
    InvalidEmail,
    DisplayNameTooLong,
    DescriptionTooLong,
    WebsiteTooLong,
    CredentialError,
    IncorrectCode,
    SessionExpired,
    IpMissing,
    InvalidCaptcha,
    InternalCaptchaError,
    InternalEmailError,
    EmailMisconfigured,
    RateLimited { limit: u64, remaining: u64, reset: u64 },
}

/// The HTTP status that answers each error kind.
pub open spec fn status_of(e: Error) -> u16 {
    match e {
        Error::MissingToken => 401,
        Error::InvalidToken => 401,
        Error::DatabaseError => 500,
        Error::InvalidUsername => 400,
        Error::UsernameAlreadyTaken => 409,
        Error::UserNotFound => 404,
        Error::UserExists => 409,
        Error::UserMismatch => 401,
        Error::InvalidEmail => 400,
        Error::DisplayNameTooLong => 400,
        Error::DescriptionTooLong => 400,
        Error::WebsiteTooLong => 400,
        Error::CredentialError => 401,
        Error::IncorrectCode => 401,
        Error::SessionExpired => 401,
        Error::IpMissing => 500,
        Error::InvalidCaptcha => 400,
        Error::InternalCaptchaError => 500,
        Error::RateLimited { .. } => 429,
        Error::InternalEmailError => 500,
        Error::EmailMisconfigured => 405,
    }
}

impl Error {
    /// HTTP status code of the response that reports this error.
    pub fn status_code(&self) -> (code: u16)
        ensures
            code == status_of(*self),
    {
        match self {
            Error::MissingToken | Error::InvalidToken | Error::UserMismatch => 401,
            Error::CredentialError | Error::IncorrectCode | Error::SessionExpired => 401,
            Error::DatabaseError | Error::IpMissing => 500,
            Error::InternalCaptchaError | Error::InternalEmailError => 500,
            Error::InvalidUsername | Error::InvalidEmail | Error::InvalidCaptcha => 400,
            Error::DisplayNameTooLong | Error::DescriptionTooLong | Error::WebsiteTooLong => 400,
            Error::UsernameAlreadyTaken | Error::UserExists => 409,
            Error::UserNotFound => 404,
            Error::RateLimited { .. } => 429,
            Error::EmailMisconfigured => 405,
        }
    }
}

} // verus!
