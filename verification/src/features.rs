//! The application's features: dashboard authentication and invitations,
//! customer authentication, and the health check.

pub mod auth;
pub mod dashboard_auth;
pub mod dashboard_invitations;
pub mod health;
