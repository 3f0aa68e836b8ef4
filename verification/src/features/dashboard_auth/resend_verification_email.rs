//! Resend-verification-email endpoint types.

use vstd::prelude::*;

verus! {

/// Request body for resending the verification e-mail.
pub struct ResendVerificationEmailRequest {
    pub email: String,
}

/// Response body after a verification e-mail was queued.
pub struct ResendVerificationEmailResponse {
    pub message: String,
}

impl ResendVerificationEmailResponse {
    /// The message sent after a verification e-mail was queued.
    pub fn sent() -> (res: ResendVerificationEmailResponse)
        ensures
            res.message@ == "Verification email sent"@,
    {
        ResendVerificationEmailResponse { message: "Verification email sent".to_owned() }
    }
}

} // verus!
