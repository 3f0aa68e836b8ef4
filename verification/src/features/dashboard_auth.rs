//! Dashboard authentication (register, login, logout, token refresh, e-mail
//! verification).

pub mod login;
pub mod logout;
pub mod me;
pub mod properties;
pub mod refresh;
pub mod register;
pub mod resend_verification;
pub mod resend_verification_email;
pub mod service;
pub mod service_impl;
pub mod test_verify_all;
pub mod verify_email;
