//! Login endpoint types for dashboard authentication.

use vstd::prelude::*;

use super::service::LoginResult;
use crate::auth::token::{hex_encode, hex_encode_spec};

verus! {

/// Request body for the login endpoint.
pub struct LoginRequest {
    /// Employee email address.
    pub email: String,
    /// Plaintext password.
    pub password: String,
}

/// Response body containing access and refresh tokens.
pub struct TokenResponse {
    /// Signed JWT access token.
    pub access_token: String,
    /// Hex-encoded refresh token.
    pub refresh_token: String,
    /// Token type (always `"Bearer"`).
    pub token_type: String,
    /// Access token TTL in seconds.
    pub expires_in: u64,
}

impl TokenResponse {
    /// The response for issued tokens: the refresh token in hex, type `Bearer`.
    pub fn from_login_result(result: LoginResult) -> (res: TokenResponse)
        ensures
            res.access_token@ == result.access_token@,
            res.refresh_token@ == hex_encode_spec(result.refresh_token@),
            res.token_type@ == "Bearer"@,
            res.expires_in == result.expires_in,
    {
        let refresh_token = hex_encode(result.refresh_token.as_slice());
        TokenResponse {
            access_token: result.access_token,
            refresh_token,
            token_type: "Bearer".to_owned(),
            expires_in: result.expires_in,
        }
    }
}

} // verus!
