//! Resend-verification request type.

use vstd::prelude::*;

verus! {

/// Request body for resending the verification e-mail.
pub struct ResendVerificationRequest {
    pub email: String,
}

} // verus!
