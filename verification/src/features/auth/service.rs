use vstd::prelude::*;

use super::store::UserRow;
use crate::repositories::StoreError;

verus! {

/// Errors of the customer authentication service, each with the message that
/// the client sees.
#[derive(Debug)]
pub enum AuthServiceError {
    NotFound(String),
    Unauthorized(String),
    Conflict(String),
    NotVerified(String),
    Internal(String),
    /// A write broke a constraint of the schema.
    Database(StoreError),
}

impl AuthServiceError {
    /// The error's text, as it is logged: the message it carries (a conflict
    /// prefixed with `conflict: `), or `database error` for a refused write.
    pub fn message(&self) -> (res: String)
        ensures
            match self {
                AuthServiceError::NotFound(m) => res@ == m@,
                AuthServiceError::Unauthorized(m) => res@ == m@,
                AuthServiceError::Conflict(m) => res@ == "conflict: "@ + m@,
                AuthServiceError::NotVerified(m) => res@ == m@,
                AuthServiceError::Internal(m) => res@ == m@,
                AuthServiceError::Database(_) => res@ == "database error"@,
            },
    {
        match self {
            AuthServiceError::NotFound(m) => m.clone(),
            AuthServiceError::Unauthorized(m) => m.clone(),
            AuthServiceError::Conflict(m) => {
                let mut s = "conflict: ".to_owned();
                s.append(m.as_str());
                s
            },
            AuthServiceError::NotVerified(m) => m.clone(),
            AuthServiceError::Internal(m) => m.clone(),
            AuthServiceError::Database(_) => "database error".to_owned(),
        }
    }
}

/// A user as shown to clients.
pub struct UserResponse {
    pub id: i32,
    pub email: String,
    pub role: String,
    pub is_active: bool,
    pub created_at: i64,
}

/// Result of a successful login.
pub struct AuthResponse {
    pub user: UserResponse,
    pub access_token: String,
    pub refresh_token: String,
}

/// Result of a successful token refresh.
pub struct RefreshResponse {
    pub access_token: String,
    pub refresh_token: String,
}

/// Result of a registration.
pub struct RegisterResponse {
    pub message: String,
}

/// Result of an e-mail verification.
pub struct VerifyEmailResponse {
    pub message: String,
}

/// Result of a request for a new verification e-mail.
pub struct ResendVerificationResponse {
    pub message: String,
}

/// The profile of the signed-in user.
pub struct MeResponse {
    pub id: i32,
    pub email: String,
    pub role: String,
    pub is_active: bool,
    pub email_verified_at: Option<i64>,
    pub created_at: i64,
}

/// A verification e-mail to send: the recipient, the raw token and the link
/// that carries it.
pub struct VerificationEmail {
    pub to: String,
    pub token: String,
    pub link: String,
}

/// The response shows the user row.
pub open spec fn shows_user(r: UserResponse, u: UserRow) -> bool {
    &&& r.id == u.id
    &&& r.email@ == u.email@
    &&& r.role@ == u.role@
    &&& r.is_active == u.is_active
    &&& r.created_at == u.created_at
}

/// The profile shows the user row.
pub open spec fn shows_profile(r: MeResponse, u: UserRow) -> bool {
    &&& r.id == u.id
    &&& r.email@ == u.email@
    &&& r.role@ == u.role@
    &&& r.is_active == u.is_active
    &&& r.email_verified_at == u.email_verified_at
    &&& r.created_at == u.created_at
}

impl UserResponse {
    /// The response for a user row.
    pub fn from_row(u: &UserRow) -> (res: UserResponse)
        ensures
            shows_user(res, *u),
    {
        UserResponse {
            id: u.id,
            email: u.email.clone(),
            role: u.role.clone(),
            is_active: u.is_active,
            created_at: u.created_at,
        }
    }
}

impl MeResponse {
    /// The profile for a user row.
    pub fn from_row(u: &UserRow) -> (res: MeResponse)
        ensures
            shows_profile(res, *u),
    {
        MeResponse {
            id: u.id,
            email: u.email.clone(),
            role: u.role.clone(),
            is_active: u.is_active,
            email_verified_at: u.email_verified_at,
            created_at: u.created_at,
        }
    }
}

} // verus!
