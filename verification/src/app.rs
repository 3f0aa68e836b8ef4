//! Application-level types shared by the route handlers, and the decisions
//! taken when the application is assembled from its configuration.

pub mod error;
pub mod handlers;

use vstd::prelude::*;
use vstd::utf8::encode_utf8;

use crate::app::error::AppError;
use crate::config::Config;
use crate::features::dashboard_auth::service_impl::{
    DashboardAuthServiceImpl, TokenConfig, MAX_TTL_SECONDS,
};
use crate::repositories::Database;
use crate::text::{
    concat, is_whitespace, lemma_split_meaning, lemma_trimmed_nonempty_meaning, split_spec,
    split_trimmed_nonempty, trimmed_nonempty,
};

verus! {

/// Whether a byte may appear in an HTTP header value: visible ASCII, space, tab,
/// or any byte of 0x80 and above.
pub open spec fn header_byte_ok(b: u8) -> bool {
    (b >= 32 && b != 127) || b == 9
}

/// Whether a text is a valid HTTP header value: every byte of its UTF-8 encoding
/// is allowed.
pub open spec fn header_value_ok(s: Seq<char>) -> bool {
    forall|i: int| 0 <= i < encode_utf8(s).len() ==> header_byte_ok(#[trigger] encode_utf8(s)[i])
}

/// `http::HeaderValue::from_str`, keeping only whether it succeeded and the
/// error's text.
/// Trusted: http 1.5 refuses a text exactly when one of its bytes is below 32
/// (other than tab) or is 127, and its error displays as
/// "failed to parse header value".
#[verifier::external_body]
fn parse_header_value(s: &str) -> (res: Result<(), String>)
    ensures
        res is Ok <==> header_value_ok(s@),
        res matches Err(m) ==> m@ == "failed to parse header value"@,
{
    match axum::http::HeaderValue::from_str(s) {
        Ok(_) => Ok(()),
        Err(e) => Err(e.to_string()),
    }
}

/// The origins listed in the `ALLOWED_ORIGINS` setting: the comma-separated
/// entries, trimmed, without empty ones.
pub open spec fn cors_origins_spec(allowed_origins: Seq<char>) -> Seq<Seq<char>> {
    trimmed_nonempty(split_spec(allowed_origins, ','))
}

/// Each origin taken from the setting is a non-empty entry without a comma and
/// without white space at either end.
pub proof fn lemma_cors_origins_meaning(allowed_origins: Seq<char>)
    ensures
        forall|k: int|
            0 <= k < cors_origins_spec(allowed_origins).len() ==> {
                let o = #[trigger] cors_origins_spec(allowed_origins)[k];
                &&& o.len() > 0
                &&& !is_whitespace(o[0])
                &&& !is_whitespace(o.last())
                &&& forall|i: int| 0 <= i < o.len() ==> o[i] != ','
            },
{
    lemma_split_meaning(allowed_origins, ',');
    lemma_trimmed_nonempty_meaning(split_spec(allowed_origins, ','), ',');
}

/// The message of the error for an origin that is not a valid header value.
pub open spec fn invalid_origin_message() -> Seq<char> {
    "invalid origin in ALLOWED_ORIGINS: failed to parse header value"@
}

/// The origins that CORS admits, from the `ALLOWED_ORIGINS` setting.
///
/// Fails with `BadRequest` if an origin is not a valid header value.
pub fn cors_origins(allowed_origins: &str) -> (res: Result<Vec<String>, AppError>)
    ensures
        res is Ok <==> forall|k: int|
            0 <= k < cors_origins_spec(allowed_origins@).len() ==> header_value_ok(
                #[trigger] cors_origins_spec(allowed_origins@)[k],
            ),
        res matches Ok(v) ==> {
            &&& v@.len() == cors_origins_spec(allowed_origins@).len()
            &&& forall|k: int|
                0 <= k < v@.len() ==> (#[trigger] v@[k])@ == cors_origins_spec(allowed_origins@)[k]
        },
        res matches Err(e) ==> e matches AppError::BadRequest(m) && m@ == invalid_origin_message(),
{
    let origins = split_trimmed_nonempty(allowed_origins, ',');
    let ghost spec = cors_origins_spec(allowed_origins@);
    let mut i: usize = 0;
    while i < origins.len()
        invariant
            i <= origins@.len(),
            origins@.len() == spec.len(),
            spec == cors_origins_spec(allowed_origins@),
            forall|k: int| 0 <= k < origins@.len() ==> (#[trigger] origins@[k])@ == spec[k],
            forall|k: int| 0 <= k < i ==> header_value_ok(#[trigger] spec[k]),
        decreases origins@.len() - i,
    {
        match parse_header_value(origins[i].as_str()) {
            Ok(()) => {},
            Err(e) => {
                let message = concat("invalid origin in ALLOWED_ORIGINS: ", e.as_str());
                proof {
                    assert(origins@[i as int]@ == spec[i as int]);
                    reveal_strlit("invalid origin in ALLOWED_ORIGINS: ");
                    reveal_strlit("failed to parse header value");
                    reveal_strlit("invalid origin in ALLOWED_ORIGINS: failed to parse header value");
                    assert(message@ =~= invalid_origin_message());
                }
                return Err(AppError::BadRequest(message));
            },
        }
        i = i + 1;
    }
    Ok(origins)
}

/// The rate limit to install: the configured rate and burst when limiting is
/// enabled, none otherwise.
pub fn rate_limit_settings(enabled: bool, per_second: u64, burst: u32) -> (res: Option<(u64, u32)>)
    ensures
        enabled ==> res == Some((per_second, burst)),
        !enabled ==> res is None,
{
    if enabled {
        Some((per_second, burst))
    } else {
        None
    }
}

/// The dashboard authentication service over the given tables, set up from the
/// configuration.
pub fn dashboard_service(config: &Config, pool: Database) -> (res: DashboardAuthServiceImpl)
    ensures
        res.pool == pool,
        res.bcrypt_cost == config.bcrypt_cost,
        res.email_verification_token_ttl == config.email_verification_token_ttl,
        res.token_config.jwt_secret@ == config.jwt_secret@,
        res.token_config.access_token_ttl == config.access_token_ttl,
        res.token_config.refresh_token_ttl == config.refresh_token_ttl,
        res.app_name@ == config.app_name@,
        res.base_url@ == config.base_url@,
        pool.wf() && config.email_verification_token_ttl <= MAX_TTL_SECONDS
            && config.access_token_ttl <= MAX_TTL_SECONDS && config.refresh_token_ttl
            <= MAX_TTL_SECONDS ==> res.wf(),
{
    DashboardAuthServiceImpl {
        pool,
        bcrypt_cost: config.bcrypt_cost,
        email_verification_token_ttl: config.email_verification_token_ttl,
        token_config: TokenConfig {
            jwt_secret: config.jwt_secret.clone(),
            access_token_ttl: config.access_token_ttl,
            refresh_token_ttl: config.refresh_token_ttl,
        },
        app_name: config.app_name.clone(),
        base_url: config.base_url.clone(),
    }
}

} // verus!
