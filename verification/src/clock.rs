//! Readings of the wall clock and fresh identifiers.

use vstd::prelude::*;

verus! {

/// `chrono::Utc::now().timestamp_micros()`: microseconds since the Unix epoch.
/// Trusted: nothing is claimed of the reading.
#[verifier::external_body]
pub(crate) fn now_micros() -> (res: i64) {
    chrono::Utc::now().timestamp_micros()
}

/// `uuid::Uuid::now_v7()` as its 128-bit value.
/// Trusted: nothing is claimed of the identifier (it mixes the time and random bits).
#[verifier::external_body]
pub(crate) fn new_id() -> (res: u128) {
    uuid::Uuid::now_v7().as_u128()
}

/// `uuid::Uuid::new_v4().to_string()`: a random identifier in hyphenated text.
/// Trusted: nothing is claimed of the text.
#[verifier::external_body]
pub(crate) fn new_random_text() -> (res: String) {
    uuid::Uuid::new_v4().to_string()
}

} // verus!
