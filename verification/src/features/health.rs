//! Health check.

use vstd::prelude::*;

verus! {

/// The text that confirms the server is running.
pub fn check_health() -> (res: &'static str)
    ensures
        res@ == "server is up and running"@,
{
    "server is up and running"
}

} // verus!
