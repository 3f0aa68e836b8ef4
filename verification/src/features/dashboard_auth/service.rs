use vstd::prelude::*;

use crate::auth::jwt::JwtError;
use crate::repositories::StoreError;

verus! {

/// Errors of the dashboard authentication service.
#[derive(Debug)]
pub enum DashboardAuthServiceError {
    /// An owner has already been registered.
    OwnerAlreadyExists,
    /// The password is shorter than 8 characters.
    WeakPassword,
    /// Unknown e-mail, wrong password, or an unusable refresh token.
    InvalidCredentials,
    /// The e-mail address has not been verified.
    EmailNotVerified,
    /// The account is deactivated.
    AccountInactive,
    /// The verification token is unknown or expired.
    InvalidVerificationToken,
    /// The e-mail address is already verified.
    EmailAlreadyVerified,
    /// No account has this e-mail address or id.
    AccountNotFound,
    /// A write broke a constraint of the schema.
    Database(StoreError),
    /// bcrypt refused to hash or to verify.
    PasswordHashing(bcrypt::BcryptError),
    /// The access token could not be encoded.
    Jwt(JwtError),
}

/// Result of a successful login.
#[derive(Debug)]
pub struct LoginResult {
    /// Signed JWT access token.
    pub access_token: String,
    /// Raw refresh token bytes (not yet encoded for transport).
    pub refresh_token: Vec<u8>,
    /// Access token TTL in seconds.
    pub expires_in: u64,
}

} // verus!
