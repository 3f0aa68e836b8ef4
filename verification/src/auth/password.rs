use vstd::prelude::*;

use crate::text::decimal_digit;

verus! {

/// The error type of the `bcrypt` crate, carried through unchanged.
#[verifier::external_type_specification]
#[verifier::external_body]
pub struct ExBcryptError(bcrypt::BcryptError);

/// Name for what `bcrypt::verify` reports for a password and a stored hash:
/// `Some(matches)` when the hash is well formed, `None` when it is rejected.
pub uninterp spec fn bcrypt_verify_outcome(password: Seq<char>, hash: Seq<char>) -> Option<bool>;

/// `bcrypt::DEFAULT_COST`.
/// Trusted: bcrypt 0.19 defines it as 12.
#[verifier::external_body]
pub(crate) fn default_cost() -> (res: u32)
    ensures
        res == 12,
{
    bcrypt::DEFAULT_COST
}

/// The start of a bcrypt hash made at `cost` (below 100): version `2b` and the
/// cost in two decimal digits, each between `$` signs.
pub open spec fn bcrypt_prefix(cost: int) -> Seq<char> {
    "$2b$"@ + seq![decimal_digit(cost / 10), decimal_digit(cost % 10), '$']
}

/// Whether a hash text is one that bcrypt wrote at `cost`: 60 characters that
/// start with the version and the cost.
pub open spec fn made_at_cost(hash: Seq<char>, cost: int) -> bool {
    &&& hash.len() == 60
    &&& hash.subrange(0, 7) == bcrypt_prefix(cost)
}

/// Hash a plaintext password using bcrypt.
///
/// Trusted (`bcrypt::hash`): a cost outside `4..=31` is refused; a hash that is
/// returned verifies against the same password (the salt and cost are written
/// into the hash and read back by `bcrypt::verify`) and is written as
/// `$2b$`, the cost in two digits, `$`, then 53 characters of salt and digest
/// (`HashParts::format`). The salt is random, and drawing it may fail, so
/// nothing else is claimed of the text or of when hashing succeeds.
#[verifier::external_body]
pub fn hash(password: &str, cost: u32) -> (res: Result<String, bcrypt::BcryptError>)
    ensures
        cost < 4 || cost > 31 ==> res is Err,
        res matches Ok(h) ==> bcrypt_verify_outcome(password@, h@) == Some(true),
        res matches Ok(h) ==> made_at_cost(h@, cost as int),
{
    bcrypt::hash(password, cost)
}

/// Verify a plaintext password against a bcrypt hash.
///
/// Trusted (`bcrypt::verify`): the outcome is a function of the password and the
/// hash alone, named `bcrypt_verify_outcome`; an error stands for a malformed hash.
#[verifier::external_body]
pub fn verify(password: &str, hash: &str) -> (res: Result<bool, bcrypt::BcryptError>)
    ensures
        res matches Ok(b) ==> bcrypt_verify_outcome(password@, hash@) == Some(b),
        res is Err ==> bcrypt_verify_outcome(password@, hash@) is None,
{
    bcrypt::verify(password, hash)
}

} // verus!
