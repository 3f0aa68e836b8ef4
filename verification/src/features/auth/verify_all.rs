//! Test-only endpoint that marks every customer account as verified.

use vstd::prelude::*;

use super::store::{verified_at, UserTables};

verus! {

/// Response body after all users were verified.
pub struct VerifyAllResponse {
    pub message: String,
}

/// Marks every unverified user as verified at `now`.
pub fn verify_all_users(db: &mut UserTables, now: i64) -> (res: VerifyAllResponse)
    requires
        old(db).wf(),
    ensures
        final(db).wf(),
        final(db).users() == Seq::new(old(db).users().len(), |k: int| verified_at(old(db).users()[k], now)),
        final(db).refresh_tokens() == old(db).refresh_tokens(),
        final(db).verification_tokens() == old(db).verification_tokens(),
        res.message@ == "All users verified"@,
{
    db.verify_unverified_users(now);
    VerifyAllResponse { message: "All users verified".to_owned() }
}

} // verus!
