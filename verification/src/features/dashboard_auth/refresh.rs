//! Token refresh endpoint types for dashboard authentication.

use vstd::prelude::*;

verus! {

/// Request body for the token refresh endpoint.
pub struct RefreshRequest {
    /// Hex-encoded refresh token.
    pub token: String,
}

} // verus!
