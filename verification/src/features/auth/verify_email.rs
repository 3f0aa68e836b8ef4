//! Endpoint types for verifying an e-mail address.

use vstd::prelude::*;

verus! {

/// Query parameters of the verify-email endpoint.
pub struct VerifyEmailQuery {
    /// The token from the verification link.
    pub token: String,
}

} // verus!
