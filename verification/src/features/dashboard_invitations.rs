//! Dashboard invitations: owners invite new employees by e-mail.

pub mod invite;
pub mod service;
pub mod service_impl;
