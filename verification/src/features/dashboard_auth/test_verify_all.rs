//! Test-only endpoint types that verify every employee.

use vstd::prelude::*;

verus! {

/// Response body after all employees were verified.
pub struct VerifyAllResponse {
    pub message: String,
}

impl VerifyAllResponse {
    /// The message sent after all employees were verified.
    pub fn done() -> (res: VerifyAllResponse)
        ensures
            res.message@ == "All employees verified"@,
    {
        VerifyAllResponse { message: "All employees verified".to_owned() }
    }
}

} // verus!
