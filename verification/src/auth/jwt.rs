//! JWT encoding utilities.

use vstd::arithmetic::power::pow;
use vstd::prelude::*;

use crate::auth::token::hex_digit;
use crate::clock;

verus! {

/// The error type of the `jsonwebtoken` crate, carried through unchanged.
#[verifier::external_type_specification]
#[verifier::external_body]
pub struct ExJsonWebTokenError(jsonwebtoken::errors::Error);

/// Errors that can occur during JWT operations.
#[derive(Debug)]
pub enum JwtError {
    /// The underlying JWT library returned an error.
    Jwt(jsonwebtoken::errors::Error),
    /// The current timestamp could not be represented as `usize`.
    TimestampOverflow,
    /// The TTL value, or the expiry it gives, could not be represented as `usize`.
    TtlOverflow,
    /// The token's subject is not a UUID.
    InvalidSubject,
}

/// Claims embedded in a JWT access token.
pub struct Claims {
    /// The employee ID (`sub`ject), as the 128-bit value of its UUID.
    pub sub: u128,
    /// The employee's role.
    pub role: String,
    /// Expiration time as Unix timestamp.
    pub exp: usize,
}

/// Hexadecimal digit `k` (0 = most significant) of a 128-bit value.
pub open spec fn nibble(id: u128, k: int) -> int {
    (id as int / pow(16, (31 - k) as nat)) % 16
}

/// Index of the hex digit shown at text position `i` of a hyphenated UUID.
pub open spec fn uuid_digit_index(i: int) -> int {
    if i < 8 {
        i
    } else if i < 13 {
        i - 1
    } else if i < 18 {
        i - 2
    } else if i < 23 {
        i - 3
    } else {
        i - 4
    }
}

/// The hyphenated lowercase text of a UUID (8-4-4-4-12 digits).
pub open spec fn uuid_text_spec(id: u128) -> Seq<char> {
    Seq::new(
        36,
        |i: int|
            if i == 8 || i == 13 || i == 18 || i == 23 {
                '-'
            } else {
                hex_digit(nibble(id, uuid_digit_index(i)))
            },
    )
}

/// Name for the HS256 token that `jsonwebtoken::encode` produces from the default
/// header and the claims object `{sub, role, exp}` under a secret.
pub uninterp spec fn jwt_hs256(sub: Seq<char>, role: Seq<char>, exp: usize, secret: Seq<u8>) -> Seq<char>;

/// The compact serialisation of a signed token: header, payload and signature,
/// each non-empty, joined by dots.
pub open spec fn is_compact_jws(t: Seq<char>) -> bool {
    exists|i: int, j: int| 0 < i && i + 1 < j && j + 1 < t.len() && t[i] == '.' && t[j] == '.'
}

/// The token `encode_at` produces when it succeeds.
pub open spec fn access_token_spec(employee_id: u128, role: Seq<char>, secret: Seq<u8>, exp: usize) -> Seq<char> {
    jwt_hs256(uuid_text_spec(employee_id), role, exp, secret)
}

/// The expiry `encode_at` writes, when it fits in `usize`.
pub open spec fn jwt_expiry(now_micros: i64, ttl_seconds: u64) -> int {
    now_micros / 1_000_000 + ttl_seconds
}

/// What `encode_at` returns: `Err` variants are the overflow cases, otherwise the
/// signed token.
pub open spec fn encode_outcome_ok(now_micros: i64, ttl_seconds: u64) -> bool {
    timestamp_fits(now_micros) && jwt_expiry(now_micros, ttl_seconds) <= usize::MAX
}

/// Whether a clock reading, in whole seconds, is a `usize` timestamp.
pub open spec fn timestamp_fits(now_micros: i64) -> bool {
    now_micros >= 0 && now_micros / 1_000_000 <= usize::MAX
}

/// `uuid::Uuid::from_u128(id).to_string()`.
/// Trusted: `Uuid`'s `Display` writes the hyphenated lowercase form, which
/// `uuid_text_spec` states digit by digit.
#[verifier::external_body]
fn uuid_text(id: u128) -> (res: String)
    ensures
        res@ == uuid_text_spec(id),
{
    uuid::Uuid::from_u128(id).to_string()
}

/// `jsonwebtoken::encode` with the default header (HS256) and an HMAC key.
/// Trusted: the token is a function of the claims and the secret (named
/// `jwt_hs256`), in compact form: the base64url header and claims and the HMAC
/// signature, joined by dots. The source shows no failure for an HMAC key under
/// HS256 and a claims object of strings and numbers, so success is claimed. The
/// claims are written in the order `sub`, `role`, `exp`.
#[verifier::external_body]
fn sign_hs256(sub: &str, role: &str, exp: usize, secret: &[u8]) -> (res: Result<String, jsonwebtoken::errors::Error>)
    ensures
        res is Ok,
        res matches Ok(token) ==> token@ == jwt_hs256(sub@, role@, exp, secret@),
        res matches Ok(token) ==> is_compact_jws(token@),
{
    let mut claims = serde_json::Map::new();
    claims.insert("sub".to_string(), serde_json::Value::from(sub));
    claims.insert("role".to_string(), serde_json::Value::from(role));
    claims.insert("exp".to_string(), serde_json::Value::from(exp));
    let key = jsonwebtoken::EncodingKey::from_secret(secret);
    jsonwebtoken::encode(&jsonwebtoken::Header::default(), &claims, &key)
}

/// Encodes a JWT for a subject given as text, as of the given clock reading
/// (microseconds since the Unix epoch). The expiry is the reading in whole
/// seconds plus the TTL.
pub fn encode_subject_at(
    sub: &str,
    role: &str,
    secret: &[u8],
    ttl_seconds: u64,
    now_micros: i64,
) -> (res: Result<String, JwtError>)
    ensures
        !timestamp_fits(now_micros) ==> res matches Err(JwtError::TimestampOverflow),
        timestamp_fits(now_micros) && !encode_outcome_ok(now_micros, ttl_seconds) ==> res matches Err(
            JwtError::TtlOverflow,
        ),
        encode_outcome_ok(now_micros, ttl_seconds) ==> (res matches Ok(token) && token@
            == jwt_hs256(sub@, role@, jwt_expiry(now_micros, ttl_seconds) as usize, secret@)),
        res matches Ok(token) ==> is_compact_jws(token@) && token@.len() > 0,
{
    if now_micros < 0 {
        return Err(JwtError::TimestampOverflow);
    }
    let now_secs: u64 = (now_micros / 1_000_000) as u64;
    if now_secs > usize::MAX as u64 {
        return Err(JwtError::TimestampOverflow);
    }
    if ttl_seconds > usize::MAX as u64 {
        return Err(JwtError::TtlOverflow);
    }
    let now: usize = now_secs as usize;
    let ttl: usize = ttl_seconds as usize;
    if ttl > usize::MAX - now {
        return Err(JwtError::TtlOverflow);
    }
    let exp: usize = now + ttl;
    match sign_hs256(sub, role, exp, secret) {
        Ok(token) => Ok(token),
        Err(e) => Err(JwtError::Jwt(e)),
    }
}

/// Encodes a JWT access token as of the given clock reading (microseconds since
/// the Unix epoch). The expiry is the reading in whole seconds plus the TTL.
pub fn encode_at(
    employee_id: u128,
    role: &str,
    secret: &[u8],
    ttl_seconds: u64,
    now_micros: i64,
) -> (res: Result<String, JwtError>)
    ensures
        !timestamp_fits(now_micros) ==> res matches Err(JwtError::TimestampOverflow),
        timestamp_fits(now_micros) && !encode_outcome_ok(now_micros, ttl_seconds) ==> res matches Err(
            JwtError::TtlOverflow,
        ),
        encode_outcome_ok(now_micros, ttl_seconds) ==> (res matches Ok(token) && token@
            == access_token_spec(
            employee_id,
            role@,
            secret@,
            jwt_expiry(now_micros, ttl_seconds) as usize,
        )),
        res matches Ok(token) ==> is_compact_jws(token@) && token@.len() > 0,
{
    let sub = uuid_text(employee_id);
    encode_subject_at(sub.as_str(), role, secret, ttl_seconds, now_micros)
}

/// Encodes a new JWT access token for the given employee.
///
/// # Errors
///
/// Returns [`JwtError`] if the clock reads before the Unix epoch or if the
/// expiry overflows `usize`.
pub fn encode(employee_id: u128, role: &str, secret: &[u8], ttl_seconds: u64) -> (res: Result<String, JwtError>)
    ensures
        res matches Ok(token) ==> exists|now: i64|
            encode_outcome_ok(now, ttl_seconds) && token@ == access_token_spec(
                employee_id,
                role@,
                secret@,
                jwt_expiry(now, ttl_seconds) as usize,
            ),
        res matches Err(e) ==> e is TimestampOverflow || e is TtlOverflow,
        res matches Ok(token) ==> is_compact_jws(token@) && token@.len() > 0,
{
    let now = clock::now_micros();
    encode_at(employee_id, role, secret, ttl_seconds, now)
}

/// `jsonwebtoken::decode` with the default validation (HS256, an `exp` claim
/// that has not passed) and an HMAC key, reading the `sub`, `role` and `exp`
/// claims.
/// Trusted: a token that `sign_hs256` made from the claims `(s, r, e)` under the
/// same secret carries them in its payload, so a successful decoding gives them
/// back. A text without a non-empty header, payload and signature between two
/// dots is refused (`verify_signature` splits the token at its last two dots,
/// and an empty part fails base64 or JSON decoding or the signature check).
/// Otherwise whether it succeeds depends on the clock (the expiry check), so
/// nothing more is claimed of when it does.
#[verifier::external_body]
fn verify_hs256(token: &str, secret: &[u8]) -> (res: Result<(String, String, usize), jsonwebtoken::errors::Error>)
    ensures
        forall|s: Seq<char>, r: Seq<char>, e: usize|
            #![trigger jwt_hs256(s, r, e, secret@)]
            token@ == jwt_hs256(s, r, e, secret@) ==> (res matches Ok((s2, r2, e2)) ==> s2@ == s && r2@
                == r && e2 == e),
        res is Ok ==> is_compact_jws(token@),
{
    let key = jsonwebtoken::DecodingKey::from_secret(secret);
    let validation = jsonwebtoken::Validation::default();
    let data = jsonwebtoken::decode::<serde_json::Map<String, serde_json::Value>>(token, &key, &validation)?;
    let mut claims = data.claims;
    let sub: String = serde_json::from_value(claims.remove("sub").unwrap_or_default())?;
    let role: String = serde_json::from_value(claims.remove("role").unwrap_or_default())?;
    let exp: usize = serde_json::from_value(claims.remove("exp").unwrap_or_default())?;
    Ok((sub, role, exp))
}

/// `uuid::Uuid::parse_str(text)` as the 128-bit value of the UUID.
/// Trusted: uuid 1.29 parses the hyphenated lowercase form back to the value it
/// was written from (it also accepts other forms, of which nothing is claimed).
#[verifier::external_body]
fn parse_uuid(text: &str) -> (res: Option<u128>)
    ensures
        forall|id: u128| #![trigger uuid_text_spec(id)] text@ == uuid_text_spec(id) ==> res == Some(id),
{
    uuid::Uuid::parse_str(text).ok().map(|u| u.as_u128())
}

/// The claims of a verified token from its subject text, role and expiry: the
/// subject must be the text of a UUID, else the token is refused with
/// `InvalidSubject`.
pub fn claims_from(sub: &str, role: String, exp: usize) -> (res: Result<Claims, JwtError>)
    ensures
        forall|id: u128| #![trigger uuid_text_spec(id)] sub@ == uuid_text_spec(id) ==> res == Ok::<
            Claims,
            JwtError,
        >(Claims { sub: id, role, exp }),
        res matches Ok(c) ==> c.role == role && c.exp == exp,
        res matches Err(e) ==> e is InvalidSubject,
{
    match parse_uuid(sub) {
        Some(id) => Ok(Claims { sub: id, role, exp }),
        None => Err(JwtError::InvalidSubject),
    }
}

/// The claims carried by an access token that `encode_at` made under `secret`:
/// whatever employee, role and expiry the token was made from.
pub open spec fn token_carries(token: Seq<char>, secret: Seq<u8>, c: Claims) -> bool {
    forall|id: u128, role: Seq<char>, exp: usize|
        #![trigger access_token_spec(id, role, secret, exp)]
        token == access_token_spec(id, role, secret, exp) ==> c.sub == id && c.role@ == role && c.exp
            == exp
}

/// Decodes and validates a JWT access token, returning its claims.
///
/// # Errors
///
/// Returns [`JwtError`] if the token is invalid, expired, or cannot be decoded,
/// or if its subject is not a UUID.
pub fn decode(token: &str, secret: &[u8]) -> (res: Result<Claims, JwtError>)
    ensures
        forall|id: u128, role: Seq<char>, exp: usize|
            #![trigger access_token_spec(id, role, secret@, exp)]
            token@ == access_token_spec(id, role, secret@, exp) ==> (res matches Ok(c) ==> c.sub == id
                && c.role@ == role && c.exp == exp),
        res matches Ok(c) ==> token_carries(token@, secret@, c),
        forall|id: u128, role: Seq<char>, exp: usize|
            #![trigger access_token_spec(id, role, secret@, exp)]
            token@ == access_token_spec(id, role, secret@, exp) ==> !(res matches Err(
                JwtError::InvalidSubject,
            )),
        !is_compact_jws(token@) ==> res matches Err(JwtError::Jwt(_)),
{
    let (sub, role, exp) = match verify_hs256(token, secret) {
        Ok(t) => t,
        Err(e) => {
            return Err(JwtError::Jwt(e));
        },
    };
    let res = claims_from(sub.as_str(), role, exp);
    assert forall|i: u128, r: Seq<char>, e: usize|
        token@ == access_token_spec(i, r, secret@, e) implies (res matches Ok(c) ==> c.sub == i && c.role@
            == r && c.exp == e) && !(res matches Err(JwtError::InvalidSubject)) by {
        assert(token@ == jwt_hs256(uuid_text_spec(i), r, e, secret@));
        assert(sub@ == uuid_text_spec(i));
    }
    res
}

} // verus!
