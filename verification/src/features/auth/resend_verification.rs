//! Endpoint types for requesting a new verification e-mail.

use vstd::prelude::*;

verus! {

/// Request body for the resend-verification endpoint.
pub struct ResendVerificationRequest {
    pub email: String,
}

} // verus!
