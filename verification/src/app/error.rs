use vstd::prelude::*;

use crate::features::auth::service::AuthServiceError;
use crate::features::dashboard_auth::service::DashboardAuthServiceError;
use crate::features::dashboard_invitations::service::DashboardInvitationServiceError;

verus! {

/// Errors that handlers turn into HTTP responses.
#[derive(Debug)]
pub enum AppError {
    BadRequest(String),
    Unauthorized,
    Forbidden,
    NotFound,
    Conflict(String),
    InternalServerError,
}

/// JSON body of an error response.
pub struct ErrorResponse {
    /// The status code's canonical reason phrase.
    pub error: String,
    /// Details, empty for errors that carry none.
    pub message: String,
}

/// The HTTP status code of an error.
pub open spec fn status_of(e: AppError) -> u16 {
    match e {
        AppError::BadRequest(_) => 400,
        AppError::Unauthorized => 401,
        AppError::Forbidden => 403,
        AppError::NotFound => 404,
        AppError::Conflict(_) => 409,
        AppError::InternalServerError => 500,
    }
}

/// Each error answers with the HTTP status of its meaning, and no two kinds of
/// error share a status: 400 Bad Request, 401 Unauthorized, 403 Forbidden,
/// 404 Not Found, 409 Conflict, 500 Internal Server Error; only the last is a
/// server error, and the response names the status by its reason phrase.
pub proof fn lemma_status_meaning(e: AppError, other: AppError)
    ensures
        (status_of(e) == 400) == (e is BadRequest),
        (status_of(e) == 401) == (e is Unauthorized),
        (status_of(e) == 403) == (e is Forbidden),
        (status_of(e) == 404) == (e is NotFound),
        (status_of(e) == 409) == (e is Conflict),
        (status_of(e) == 500) == (e is InternalServerError),
        (500 <= status_of(e) < 600) == (e is InternalServerError),
        !(e is InternalServerError) ==> 400 <= status_of(e) < 500,
        e is NotFound ==> reason_of(status_of(e)) == "Not Found"@,
        e is BadRequest ==> reason_of(status_of(e)) == "Bad Request"@,
        e is Unauthorized ==> reason_of(status_of(e)) == "Unauthorized"@,
        e is Forbidden ==> reason_of(status_of(e)) == "Forbidden"@,
        e is Conflict ==> reason_of(status_of(e)) == "Conflict"@,
        e is InternalServerError ==> reason_of(status_of(e)) == "Internal Server Error"@,
        status_of(e) == status_of(other) ==> (e is BadRequest) == (other is BadRequest) && (e is Unauthorized)
            == (other is Unauthorized) && (e is Forbidden) == (other is Forbidden) && (e is NotFound)
            == (other is NotFound) && (e is Conflict) == (other is Conflict) && (e is InternalServerError)
            == (other is InternalServerError),
{
}

/// The canonical reason phrase of the status codes that errors use.
pub open spec fn reason_of(status: u16) -> Seq<char> {
    if status == 400 {
        "Bad Request"@
    } else if status == 401 {
        "Unauthorized"@
    } else if status == 403 {
        "Forbidden"@
    } else if status == 404 {
        "Not Found"@
    } else if status == 409 {
        "Conflict"@
    } else {
        "Internal Server Error"@
    }
}

/// The message that an error's response carries.
pub open spec fn message_of(e: AppError) -> Seq<char> {
    match e {
        AppError::BadRequest(m) => m@,
        AppError::Conflict(m) => m@,
        _ => Seq::empty(),
    }
}

impl AppError {
    /// The HTTP status code of the response.
    pub fn status(&self) -> (res: u16)
        ensures
            res == status_of(*self),
            (res == 400) == (*self is BadRequest),
            (res == 401) == (*self is Unauthorized),
            (res == 403) == (*self is Forbidden),
            (res == 404) == (*self is NotFound),
            (res == 409) == (*self is Conflict),
            (res == 500) == (*self is InternalServerError),
    {
        match self {
            AppError::BadRequest(_) => 400,
            AppError::Unauthorized => 401,
            AppError::Forbidden => 403,
            AppError::NotFound => 404,
            AppError::Conflict(_) => 409,
            AppError::InternalServerError => 500,
        }
    }

    /// The status code and JSON body of the response for this error.
    pub fn to_response(&self) -> (res: (u16, ErrorResponse))
        ensures
            res.0 == status_of(*self),
            res.1.error@ == reason_of(res.0),
            res.1.message@ == message_of(*self),
    {
        let status = self.status();
        let error = if status == 400 {
            "Bad Request".to_owned()
        } else if status == 401 {
            "Unauthorized".to_owned()
        } else if status == 403 {
            "Forbidden".to_owned()
        } else if status == 404 {
            "Not Found".to_owned()
        } else if status == 409 {
            "Conflict".to_owned()
        } else {
            "Internal Server Error".to_owned()
        };
        let message = match self {
            AppError::BadRequest(m) => m.clone(),
            AppError::Conflict(m) => m.clone(),
            _ => String::new(),
        };
        (status, ErrorResponse { error, message })
    }

    /// The error that a dashboard authentication failure is reported as.
    pub fn from_dashboard_auth(err: DashboardAuthServiceError) -> (res: AppError)
        ensures
            match err {
                DashboardAuthServiceError::OwnerAlreadyExists => res matches AppError::Conflict(m)
                    && m@ == "An owner has already been registered"@,
                DashboardAuthServiceError::WeakPassword => res matches AppError::BadRequest(m)
                    && m@ == "Password must be at least 8 characters"@,
                DashboardAuthServiceError::InvalidCredentials => res is Unauthorized,
                DashboardAuthServiceError::EmailNotVerified => res is Forbidden,
                DashboardAuthServiceError::AccountInactive => res is Forbidden,
                DashboardAuthServiceError::InvalidVerificationToken => res matches AppError::BadRequest(
                    m,
                ) && m@ == "Invalid or expired verification token"@,
                DashboardAuthServiceError::EmailAlreadyVerified => res matches AppError::Conflict(m)
                    && m@ == "Email already verified"@,
                DashboardAuthServiceError::AccountNotFound => res is NotFound,
                _ => res is InternalServerError,
            },
    {
        match err {
            DashboardAuthServiceError::OwnerAlreadyExists => AppError::Conflict(
                "An owner has already been registered".to_owned(),
            ),
            DashboardAuthServiceError::WeakPassword => AppError::BadRequest(
                "Password must be at least 8 characters".to_owned(),
            ),
            DashboardAuthServiceError::InvalidCredentials => AppError::Unauthorized,
            DashboardAuthServiceError::EmailNotVerified => AppError::Forbidden,
            DashboardAuthServiceError::AccountInactive => AppError::Forbidden,
            DashboardAuthServiceError::InvalidVerificationToken => AppError::BadRequest(
                "Invalid or expired verification token".to_owned(),
            ),
            DashboardAuthServiceError::EmailAlreadyVerified => AppError::Conflict(
                "Email already verified".to_owned(),
            ),
            DashboardAuthServiceError::AccountNotFound => AppError::NotFound,
            DashboardAuthServiceError::Database(_) => AppError::InternalServerError,
            DashboardAuthServiceError::PasswordHashing(_) => AppError::InternalServerError,
            DashboardAuthServiceError::Jwt(_) => AppError::InternalServerError,
        }
    }

    /// The error that a customer authentication failure is reported as.
    pub fn from_auth(err: AuthServiceError) -> (res: AppError)
        ensures
            match err {
                AuthServiceError::NotFound(_) => res is NotFound,
                AuthServiceError::Unauthorized(_) => res is Unauthorized,
                AuthServiceError::Conflict(m) => res matches AppError::Conflict(r) && r@ == m@,
                AuthServiceError::NotVerified(_) => res is Forbidden,
                AuthServiceError::Internal(_) => res is InternalServerError,
                AuthServiceError::Database(_) => res is InternalServerError,
            },
    {
        match err {
            AuthServiceError::NotFound(_) => AppError::NotFound,
            AuthServiceError::Unauthorized(_) => AppError::Unauthorized,
            AuthServiceError::Conflict(m) => AppError::Conflict(m),
            AuthServiceError::NotVerified(_) => AppError::Forbidden,
            AuthServiceError::Internal(_) => AppError::InternalServerError,
            AuthServiceError::Database(_) => AppError::InternalServerError,
        }
    }

    /// The error that an invitation failure is reported as.
    pub fn from_invitation(err: DashboardInvitationServiceError) -> (res: AppError)
        ensures
            match err {
                DashboardInvitationServiceError::OwnerRoleForbidden => res matches AppError::BadRequest(
                    m,
                ) && m@ == "Cannot invite with owner role"@,
                DashboardInvitationServiceError::EmailAlreadyEmployee => res matches AppError::Conflict(
                    m,
                ) && m@ == "Email is already registered as an employee"@,
                DashboardInvitationServiceError::Database(_) => res is InternalServerError,
            },
    {
        match err {
            DashboardInvitationServiceError::OwnerRoleForbidden => AppError::BadRequest(
                "Cannot invite with owner role".to_owned(),
            ),
            DashboardInvitationServiceError::EmailAlreadyEmployee => AppError::Conflict(
                "Email is already registered as an employee".to_owned(),
            ),
            DashboardInvitationServiceError::Database(_) => AppError::InternalServerError,
        }
    }
}

} // verus!
