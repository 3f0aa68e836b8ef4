//! User lookup routes.

pub mod get_by_id;
