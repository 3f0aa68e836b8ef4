use vstd::prelude::*;

use crate::repositories::StoreError;

verus! {

/// Errors of the dashboard invitation service.
#[derive(Debug)]
pub enum DashboardInvitationServiceError {
    /// The role `owner` cannot be given by invitation.
    OwnerRoleForbidden,
    /// The e-mail address is already registered as an employee.
    EmailAlreadyEmployee,
    /// A write broke a constraint of the schema.
    Database(StoreError),
}

} // verus!
