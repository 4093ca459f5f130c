use account::errors::Error;

#[test]
fn status_codes_of_every_error() {
    assert_eq!(Error::MissingToken.status_code(), 401);
    assert_eq!(Error::InvalidToken.status_code(), 401);
    assert_eq!(Error::DatabaseError.status_code(), 500);
    assert_eq!(Error::InvalidUsername.status_code(), 400);
    assert_eq!(Error::UsernameAlreadyTaken.status_code(), 409);
    assert_eq!(Error::UserNotFound.status_code(), 404);
    assert_eq!(Error::UserExists.status_code(), 409);
    assert_eq!(Error::UserMismatch.status_code(), 401);
    assert_eq!(Error::InvalidEmail.status_code(), 400);
    assert_eq!(Error::DisplayNameTooLong.status_code(), 400);
    assert_eq!(Error::DescriptionTooLong.status_code(), 400);
    assert_eq!(Error::WebsiteTooLong.status_code(), 400);
    assert_eq!(Error::CredentialError.status_code(), 401);
    assert_eq!(Error::IncorrectCode.status_code(), 401);
    assert_eq!(Error::SessionExpired.status_code(), 401);
    assert_eq!(Error::IpMissing.status_code(), 500);
    assert_eq!(Error::InvalidCaptcha.status_code(), 400);
    assert_eq!(Error::InternalCaptchaError.status_code(), 500);
    assert_eq!(Error::InternalEmailError.status_code(), 500);
    assert_eq!(Error::EmailMisconfigured.status_code(), 405);
    assert_eq!(Error::RateLimited { limit: 5, remaining: 0, reset: 30 }.status_code(), 429);
}
