//! Token refresh endpoint types for customer authentication.

use vstd::prelude::*;

verus! {

/// Request body for the refresh endpoint.
pub struct RefreshRequest {
    pub refresh_token: String,
}

} // verus!
