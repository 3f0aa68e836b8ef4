//! Invitation endpoint types and the steps of the handler that decide.

use vstd::prelude::*;

use super::service_impl::DashboardInvitationServiceImpl;
use crate::app::error::AppError;
use crate::email::{build_invitation_email, fill_invitation, invitation_url, INVITE_EMPLOYEE_HTML, INVITE_EMPLOYEE_TEXT};
use crate::repositories::{has_employee, Database};
use crate::text::str_equal;

verus! {

/// Request body for creating an invitation.
pub struct InviteRequest {
    pub email: String,
    pub role: String,
}

/// Response body after an invitation was sent.
pub struct InviteResponse {
    pub message: String,
    pub email: String,
    pub role: String,
}

/// Only owners may invite: any other role of the caller is `Forbidden`.
pub fn authorize_inviter(caller_role: &str) -> (res: Result<(), AppError>)
    ensures
        res is Ok <==> caller_role@ == "owner"@,
        res matches Err(e) ==> e is Forbidden,
{
    if str_equal(caller_role, "owner") {
        Ok(())
    } else {
        Err(AppError::Forbidden)
    }
}

impl InviteResponse {
    /// The response after inviting `email` with `role`.
    pub fn sent(email: String, role: String) -> (res: InviteResponse)
        ensures
            res.message@ == "Invitation sent to "@ + email@,
            res.email@ == email@,
            res.role@ == role@,
    {
        let mut message = "Invitation sent to ".to_owned();
        message.append(email.as_str());
        InviteResponse { message, email, role }
    }
}

/// The invitation e-mail (subject, text, HTML) for an invitation just created:
/// the inviter is the employee whose id the access token names, and a missing
/// inviter is `Unauthorized`.
pub fn invitation_email(
    service: &DashboardInvitationServiceImpl,
    pool: &Database,
    inviter_id: u128,
    role: &str,
    token_hex: &str,
) -> (res: Result<(String, String, String), AppError>)
    requires
        pool.wf(),
    ensures
        !has_employee(pool.employees(), inviter_id) ==> (res matches Err(AppError::Unauthorized)),
        forall|i: int|
            0 <= i < pool.employees().len() && (#[trigger] pool.employees()[i]).id == inviter_id
                ==> (res matches Ok(mail) && {
                let url = invitation_url(service.base_url@, token_hex@);
                &&& mail.0@ == "You've been invited to join "@ + service.app_name@
                &&& mail.1@ == fill_invitation(
                    INVITE_EMPLOYEE_TEXT@,
                    service.app_name@,
                    pool.employees()[i].email@,
                    role@,
                    url,
                )
                &&& mail.2@ == fill_invitation(
                    INVITE_EMPLOYEE_HTML@,
                    service.app_name@,
                    pool.employees()[i].email@,
                    role@,
                    url,
                )
            }),
{
    match pool.find_employee_by_id(inviter_id) {
        None => Err(AppError::Unauthorized),
        Some(i) => {
            assert(forall|k: int|
                0 <= k < pool.employees().len() && (#[trigger] pool.employees()[k]).id == inviter_id
                    ==> k == i);
            let inviter = pool.employee(i);
            Ok(
                build_invitation_email(
                    service.app_name.as_str(),
                    service.base_url.as_str(),
                    inviter.email.as_str(),
                    role,
                    token_hex,
                ),
            )
        },
    }
}

} // verus!
