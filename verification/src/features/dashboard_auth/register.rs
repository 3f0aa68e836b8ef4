//! Registration endpoint types for dashboard authentication.

use vstd::prelude::*;

verus! {

/// Request body for the registration endpoint.
pub struct RegisterRequest {
    pub email: String,
    pub password: String,
}

/// Response body for a successful registration.
pub struct RegisterResponse {
    pub message: String,
}

impl RegisterResponse {
    /// The message sent after the owner registered.
    pub fn check_email() -> (res: RegisterResponse)
        ensures
            res.message@ == "Please check your email to verify your account."@,
    {
        RegisterResponse { message: "Please check your email to verify your account.".to_owned() }
    }
}

} // verus!
