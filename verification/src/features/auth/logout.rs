//! Logout endpoint types for customer authentication.

use vstd::prelude::*;

verus! {

/// Request body for the logout endpoint.
pub struct LogoutRequest {
    /// The refresh token to revoke.
    pub refresh_token: String,
}

/// Response body for a successful logout.
pub struct LogoutResponse {
    pub message: String,
}

impl LogoutResponse {
    /// The confirmation sent after a logout.
    pub fn confirmation() -> (res: LogoutResponse)
        ensures
            res.message@ == "Logged out successfully"@,
    {
        LogoutResponse { message: "Logged out successfully".to_owned() }
    }
}

} // verus!
