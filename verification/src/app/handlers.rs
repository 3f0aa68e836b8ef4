//! Route handlers that are not part of a feature.

pub mod users;
