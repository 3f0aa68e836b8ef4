//! Authentication building blocks: passwords, opaque tokens and JWTs.

pub mod extractor;
pub mod jwt;
pub mod password;
pub mod token;
