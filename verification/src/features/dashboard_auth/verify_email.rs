//! E-mail verification endpoint types.

use vstd::prelude::*;

verus! {

/// Query of the verification link.
pub struct VerifyEmailQuery {
    /// Hex verification token from the email link.
    pub token: String,
}

/// Response body for a successful verification.
pub struct VerifyEmailResponse {
    pub message: String,
}

impl VerifyEmailResponse {
    /// The message sent after the address was verified.
    pub fn verified() -> (res: VerifyEmailResponse)
        ensures
            res.message@ == "Email verified successfully."@,
    {
        VerifyEmailResponse { message: "Email verified successfully.".to_owned() }
    }
}

} // verus!
