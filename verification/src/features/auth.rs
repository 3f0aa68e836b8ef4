//! Customer authentication: accounts in the `user` table, e-mail verification,
//! JWT access tokens and refresh tokens.

pub mod login;
pub mod logout;
pub mod refresh;
pub mod register;
pub mod resend_verification;
pub mod service;
pub mod service_impl;
pub mod store;
pub mod verify_all;
pub mod verify_email;
pub mod properties;
