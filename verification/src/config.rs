//! Application configuration, as plain values. Reading it from the environment
//! and the command line is the binary's job.

use vstd::prelude::*;

verus! {

/// The deployment environment.
#[derive(Clone, Copy, Debug, PartialEq, Eq, Structural)]
pub enum AppEnv {
    Development,
    Testing,
    Production,
}

impl AppEnv {
    /// Whether the test-only routes (such as verifying every account at once)
    /// are mounted: only in the testing environment.
    pub fn test_routes_enabled(&self) -> (res: bool)
        ensures
            res == (*self == AppEnv::Testing),
    {
        match self {
            AppEnv::Testing => true,
            _ => false,
        }
    }
}

/// Application configuration.
#[derive(Clone)]
pub struct Config {
    pub app_env: AppEnv,
    pub database_url: String,
    pub address: String,
    pub jwt_secret: String,
    pub access_token_ttl: u64,
    pub refresh_token_ttl: u64,
    pub base_url: String,
    pub allowed_origins: String,
    pub email_verification_token_ttl: u64,
    pub invitation_token_ttl: u64,
    pub bcrypt_cost: u32,
    pub rate_limit_enabled: bool,
    pub rate_limit_per_second: u64,
    pub rate_limit_burst: u32,
    pub login_rate_limit_per_second: u64,
    pub login_rate_limit_burst: u32,
    pub app_name: String,
    pub smtp_host: String,
    pub smtp_port: u16,
    pub smtp_username: String,
    pub smtp_password: String,
    pub smtp_from: String,
    pub smtp_from_name: String,
    pub smtp_starttls: bool,
}

} // verus!
