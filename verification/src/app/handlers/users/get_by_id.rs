//! Looking a customer account up by id.

use vstd::prelude::*;

use crate::app::error::AppError;
use crate::features::auth::store::{user_id_taken, UserRow, UserTables};

verus! {

/// A user as the lookup route shows it.
pub struct UserResponse {
    pub id: i32,
    pub email: String,
    /// Creation time, in microseconds since the Unix epoch.
    pub created_at: i64,
}

/// The response shows the user row.
pub open spec fn shows(r: UserResponse, u: UserRow) -> bool {
    &&& r.id == u.id
    &&& r.email@ == u.email@
    &&& r.created_at == u.created_at
}

impl UserResponse {
    /// The response for a user row.
    pub fn from_row(u: &UserRow) -> (res: UserResponse)
        ensures
            shows(res, *u),
    {
        UserResponse { id: u.id, email: u.email.clone(), created_at: u.created_at }
    }
}

/// The user with the given id; `NotFound` when no user has it.
pub fn get_by_id(db: &UserTables, id: i32) -> (res: Result<UserResponse, AppError>)
    requires
        db.wf(),
    ensures
        !user_id_taken(db.users(), id) ==> (res matches Err(AppError::NotFound)),
        forall|j: int|
            0 <= j < db.users().len() && (#[trigger] db.users()[j]).id == id ==> (res matches Ok(r)
                && shows(r, db.users()[j])),
        forall|j: int|
            0 <= j < db.users().len() && (#[trigger] db.users()[j]).id == id ==> (res matches Ok(r)
                && r.id == id && r.email@ == db.users()[j].email@ && r.created_at
                == db.users()[j].created_at),
        res matches Ok(r) ==> r.id == id && user_id_taken(db.users(), id),
{
    match db.find_user_by_id(id) {
        Some(j) => {
            assert forall|k: int| 0 <= k < db.users().len() && (#[trigger] db.users()[k]).id == id implies k
                == j by {}
            Ok(UserResponse::from_row(db.user(j)))
        },
        None => Err(AppError::NotFound),
    }
}

} // verus!
