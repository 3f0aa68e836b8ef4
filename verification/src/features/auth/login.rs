//! Login endpoint types for customer authentication.

use vstd::prelude::*;

verus! {

/// Request body for the login endpoint.
pub struct LoginRequest {
    /// The account's e-mail address.
    pub username: String,
    pub password: String,
}

} // verus!
