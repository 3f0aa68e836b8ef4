//! Verified core of the POS + CMS backend: token handling, password and JWT
//! helpers, the dashboard and customer authentication services over an
//! in-memory model of their tables, invitations, e-mail composition, error
//! mapping, configuration decisions and the database schema.

pub mod app;
pub mod auth;
pub mod clock;
pub mod config;
pub mod email;
pub mod features;
pub mod migration;
pub mod repositories;
pub mod text;
