//! Current employee profile.

use vstd::prelude::*;

use crate::app::error::AppError;
use super::service_impl::verify_all_spec;
use crate::repositories::{has_employee, Database, Employee};

verus! {

/// Response body containing the authenticated employee's profile.
pub struct MeResponse {
    /// Employee ID (128-bit value of the UUID).
    pub id: u128,
    /// Email address.
    pub email: String,
    /// Role (e.g. "owner").
    pub role: String,
    /// Whether the account is active.
    pub is_active: bool,
    /// When the email was verified, if ever (microseconds since the epoch).
    pub email_verified_at: Option<i64>,
    /// Account creation time.
    pub created_at: i64,
    /// Last update time.
    pub updated_at: i64,
}

/// The profile shows the employee's row, password hash left out.
pub open spec fn shows(res: MeResponse, e: Employee) -> bool {
    &&& res.id == e.id
    &&& res.email@ == e.email@
    &&& res.role@ == e.role@
    &&& res.is_active == e.is_active
    &&& res.email_verified_at == e.email_verified_at
    &&& res.created_at == e.created_at
    &&& res.updated_at == e.updated_at
}

/// The contract of `me`: the profile of the employee with the id, every field
/// taken from the row; `NotFound` when no employee has it.
pub open spec fn profile_spec(pool: Database, employee_id: u128, res: Result<MeResponse, AppError>) -> bool {
    &&& !has_employee(pool.employees(), employee_id) ==> (res matches Err(AppError::NotFound))
    &&& forall|i: int|
        0 <= i < pool.employees().len() && (#[trigger] pool.employees()[i]).id == employee_id
            ==> (res matches Ok(r) && shows(r, pool.employees()[i]))
    &&& forall|i: int|
        0 <= i < pool.employees().len() && (#[trigger] pool.employees()[i]).id == employee_id
            ==> (res matches Ok(r) && r.id == employee_id && r.email_verified_at
            == pool.employees()[i].email_verified_at && r.is_active == pool.employees()[i].is_active)
}

/// Once the addresses have been marked verified at `now`, the profile of any
/// employee that existed shows the address as verified at `now`.
pub proof fn lemma_profile_shows_verification(
    old: Database,
    new: Database,
    now: i64,
    employee_id: u128,
    res: Result<MeResponse, AppError>,
)
    requires
        verify_all_spec(old, new, now),
        profile_spec(new, employee_id, res),
        has_employee(old.employees(), employee_id),
    ensures
        res matches Ok(r) && r.id == employee_id && r.email_verified_at == Some(now),
{
    let i = choose|i: int| 0 <= i < old.employees().len() && #[trigger] old.employees()[i].id == employee_id;
    assert(new.employees()[i].id == employee_id);
    assert(new.employees()[i].email_verified_at == Some(now));
}

/// The profile of the employee whose id the access token names; `NotFound` when
/// no employee has it.
pub fn me(pool: &Database, employee_id: u128) -> (res: Result<MeResponse, AppError>)
    requires
        pool.wf(),
    ensures
        !has_employee(pool.employees(), employee_id) ==> (res matches Err(AppError::NotFound)),
        forall|i: int|
            0 <= i < pool.employees().len() && (#[trigger] pool.employees()[i]).id == employee_id
                ==> (res matches Ok(r) && shows(r, pool.employees()[i])),
        profile_spec(*pool, employee_id, res),
{
    match pool.find_employee_by_id(employee_id) {
        None => Err(AppError::NotFound),
        Some(i) => {
            let e = pool.employee(i);
            assert(forall|k: int|
                0 <= k < pool.employees().len() && (#[trigger] pool.employees()[k]).id == employee_id
                    ==> k == i);
            Ok(
                MeResponse {
                    id: e.id,
                    email: e.email.clone(),
                    role: e.role.clone(),
                    is_active: e.is_active,
                    email_verified_at: e.email_verified_at,
                    created_at: e.created_at,
                    updated_at: e.updated_at,
                },
            )
        },
    }
}

} // verus!
