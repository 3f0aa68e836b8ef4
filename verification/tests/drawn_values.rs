use pos_backend::auth::jwt::{claims_from, decode, JwtError};
use pos_backend::auth::token;
use pos_backend::config::{AppEnv, Config};
use pos_backend::features::auth::service::AuthServiceError;
use pos_backend::features::auth::service_impl::{hash_token, AuthServiceImpl};
use pos_backend::features::auth::verify_all::verify_all_users;
use pos_backend::features::dashboard_auth::service::DashboardAuthServiceError;
use pos_backend::features::dashboard_auth::service_impl::{DashboardAuthServiceImpl, TokenConfig};
use pos_backend::features::dashboard_invitations::service::DashboardInvitationServiceError;
use pos_backend::features::dashboard_invitations::service_impl::DashboardInvitationServiceImpl;
use pos_backend::repositories::{Database, StoreError};

fn now() -> i64 {
    chrono::Utc::now().timestamp_micros()
}

fn dashboard() -> DashboardAuthServiceImpl {
    DashboardAuthServiceImpl {
        pool: Database::new(),
        bcrypt_cost: 4,
        email_verification_token_ttl: 86400,
        token_config: TokenConfig {
            jwt_secret: "test-secret-key".to_string(),
            access_token_ttl: 900,
            refresh_token_ttl: 604_800,
        },
        app_name: "Test App".to_string(),
        base_url: "http://localhost:3000".to_string(),
    }
}

fn verified_dashboard() -> DashboardAuthServiceImpl {
    let mut service = dashboard();
    service.register("owner@example.com", "password1234").unwrap();
    service.verify_all().unwrap();
    service
}

fn customer_config() -> Config {
    Config {
        app_env: AppEnv::Testing,
        database_url: "sqlite::memory:".to_string(),
        address: "0.0.0.0:5000".to_string(),
        jwt_secret: "test-secret-key".to_string(),
        access_token_ttl: 900,
        refresh_token_ttl: 604_800,
        base_url: "http://localhost:3000".to_string(),
        allowed_origins: "http://localhost:3000".to_string(),
        email_verification_token_ttl: 86400,
        invitation_token_ttl: 259_200,
        bcrypt_cost: 4,
        rate_limit_enabled: false,
        rate_limit_per_second: 10,
        rate_limit_burst: 10,
        login_rate_limit_per_second: 60,
        login_rate_limit_burst: 3,
        app_name: "Test App".to_string(),
        smtp_host: "localhost".to_string(),
        smtp_port: 587,
        smtp_username: String::new(),
        smtp_password: String::new(),
        smtp_from: "noreply@example.com".to_string(),
        smtp_from_name: "Test App".to_string(),
        smtp_starttls: false,
    }
}

fn is_unique_violation_dashboard<T>(r: &Result<T, DashboardAuthServiceError>) -> bool {
    matches!(r, Err(DashboardAuthServiceError::Database(StoreError::UniqueViolation)))
}

fn is_unique_violation_customer<T>(r: &Result<T, AuthServiceError>) -> bool {
    matches!(r, Err(AuthServiceError::Database(StoreError::UniqueViolation)))
}

#[test]
fn create_owner_writes_the_given_rows() {
    let mut service = dashboard();
    let token_hash = token::hash(&[1u8; 32]);
    service
        .create_owner("owner@example.com", "stored-hash".to_string(), 7, 9, token_hash.clone(), 1000)
        .unwrap();
    assert_eq!(service.pool.count_employees(), 1);
    let owner = service.pool.employee(0);
    assert_eq!(owner.id, 7);
    assert_eq!(owner.email, "owner@example.com");
    assert_eq!(owner.password_hash, "stored-hash");
    assert_eq!(owner.role, "owner");
    assert!(owner.is_active);
    assert!(owner.email_verified_at.is_none());
    let row = service.pool.verification_token(0);
    assert_eq!(row.id, 9);
    assert_eq!(row.employee_id, 7);
    assert_eq!(row.token_hash, token_hash);
    assert_eq!(row.expires_at, 1000 + 86400 * 1_000_000);
}

#[test]
fn create_owner_refused_once_an_employee_exists() {
    let mut service = dashboard();
    service
        .create_owner("owner@example.com", "h".to_string(), 7, 9, token::hash(&[1u8; 32]), 1000)
        .unwrap();
    let second = service.create_owner("other@example.com", "h".to_string(), 8, 10, token::hash(&[2u8; 32]), 1000);
    assert!(matches!(second, Err(DashboardAuthServiceError::OwnerAlreadyExists)));
    assert_eq!(service.pool.count_employees(), 1);
}

#[test]
fn dashboard_register_hashes_at_configured_cost() {
    let mut service = dashboard();
    service.register("owner@example.com", "12345678").unwrap();
    let stored = service.pool.employee(0).password_hash.clone();
    assert!(stored.starts_with("$2b$04$"));
    assert_eq!(stored.len(), 60);
    assert!(matches!(
        dashboard().register("owner@example.com", "1234567"),
        Err(DashboardAuthServiceError::WeakPassword)
    ));
}

#[test]
fn dashboard_login_with_fresh_values_succeeds() {
    let mut service = verified_dashboard();
    let r = service.login_with("owner@example.com", "password1234", now(), [5u8; 32], 42).unwrap();
    assert_eq!(r.refresh_token, vec![5u8; 32]);
    assert_eq!(r.expires_in, 900);
    assert!(!r.access_token.is_empty());
}

#[test]
fn dashboard_login_with_taken_id_or_hash_fails() {
    let mut service = verified_dashboard();
    service.login_with("owner@example.com", "password1234", now(), [5u8; 32], 42).unwrap();
    let same_id = service.login_with("owner@example.com", "password1234", now(), [6u8; 32], 42);
    assert!(is_unique_violation_dashboard(&same_id));
    let same_bytes = service.login_with("owner@example.com", "password1234", now(), [5u8; 32], 43);
    assert!(is_unique_violation_dashboard(&same_bytes));
    let fresh = service.login_with("owner@example.com", "password1234", now(), [6u8; 32], 43);
    assert!(fresh.is_ok());
}

#[test]
fn dashboard_refresh_with_rotates_beside_other_rows() {
    let mut service = verified_dashboard();
    service.login_with("owner@example.com", "password1234", now(), [1u8; 32], 1).unwrap();
    service.login_with("owner@example.com", "password1234", now(), [2u8; 32], 2).unwrap();
    let presented = hex::encode([2u8; 32]);
    let r = service.refresh_with(&presented, now(), [3u8; 32], 3).unwrap();
    assert_eq!(r.refresh_token, vec![3u8; 32]);
    assert_eq!(r.expires_in, 900);
    assert!(matches!(
        service.refresh_with(&presented, now(), [4u8; 32], 4),
        Err(DashboardAuthServiceError::InvalidCredentials)
    ));
}

#[test]
fn dashboard_refresh_with_colliding_bytes_keeps_presented_token() {
    let mut service = verified_dashboard();
    service.login_with("owner@example.com", "password1234", now(), [1u8; 32], 1).unwrap();
    let presented = hex::encode([1u8; 32]);
    let clash = service.refresh_with(&presented, now(), [1u8; 32], 2);
    assert!(is_unique_violation_dashboard(&clash));
    let retry = service.refresh_with(&presented, now(), [9u8; 32], 2).unwrap();
    assert_eq!(retry.refresh_token, vec![9u8; 32]);
}

#[test]
fn dashboard_resend_with_returns_the_given_bytes() {
    let mut service = dashboard();
    service.register("owner@example.com", "password1234").unwrap();
    let first = service.resend_with("owner@example.com", now(), [7u8; 32], 55).unwrap();
    assert_eq!(first, hex::encode([7u8; 32]));
    let again = service.resend_with("owner@example.com", now(), [7u8; 32], 55).unwrap();
    assert_eq!(again, first);
    assert!(service.verify_email(&again).is_ok());
}

#[test]
fn invite_with_refuses_a_taken_id_or_hash() {
    let inviter = DashboardInvitationServiceImpl {
        invitation_token_ttl: 259_200,
        app_name: "Test App".to_string(),
        base_url: "http://localhost:3000".to_string(),
    };
    let mut pool = Database::new();
    let first = inviter.invite_with(&mut pool, "a@example.com", "manager", 1, now(), [8u8; 32], 77).unwrap();
    assert_eq!(first, hex::encode([8u8; 32]));
    let same_bytes = inviter.invite_with(&mut pool, "b@example.com", "manager", 1, now(), [8u8; 32], 78);
    assert!(matches!(same_bytes, Err(DashboardInvitationServiceError::Database(StoreError::UniqueViolation))));
    let same_id = inviter.invite_with(&mut pool, "b@example.com", "manager", 1, now(), [9u8; 32], 77);
    assert!(matches!(same_id, Err(DashboardInvitationServiceError::Database(StoreError::UniqueViolation))));
    let replaced = inviter.invite_with(&mut pool, "a@example.com", "cashier", 1, now(), [8u8; 32], 77).unwrap();
    assert_eq!(replaced, first);
    assert_eq!(pool.invitation(0).role, "cashier");
    assert!(matches!(
        inviter.invite_with(&mut pool, "c@example.com", "owner", 1, now(), [10u8; 32], 79),
        Err(DashboardInvitationServiceError::OwnerRoleForbidden)
    ));
}

#[test]
fn register_hashed_stores_given_hash_and_token() {
    let mut auth = AuthServiceImpl::new(customer_config());
    let (_, mail) = auth
        .register_hashed("a@example.com", "stored-hash".to_string(), "customer", "tok1".to_string(), now())
        .unwrap();
    assert_eq!(mail.token, "tok1");
    assert_eq!(mail.link, "http://localhost:3000/api/v1/auth/verify-email?token=tok1");
    assert_eq!(auth.db.user(0).password_hash, "stored-hash");
    assert_eq!(auth.db.verification_token(0).token_hash, hash_token("tok1"));
}

#[test]
fn register_hashed_refuses_a_stored_token_hash() {
    let mut auth = AuthServiceImpl::new(customer_config());
    auth.register_hashed("a@example.com", "h".to_string(), "customer", "tok1".to_string(), now()).unwrap();
    let clash = auth.register_hashed("b@example.com", "h".to_string(), "customer", "tok1".to_string(), now());
    assert!(is_unique_violation_customer(&clash));
    assert_eq!(auth.db.user_count(), 1);
    assert!(auth
        .register_hashed("b@example.com", "h".to_string(), "customer", "tok2".to_string(), now())
        .is_ok());
}

#[test]
fn customer_register_hashes_at_default_cost() {
    let mut auth = AuthServiceImpl::new(customer_config());
    auth.register("a@example.com", "password123", "customer").unwrap();
    let stored = auth.db.user(0).password_hash.clone();
    assert!(stored.starts_with("$2b$12$"));
    assert_eq!(stored.len(), 60);
}

#[test]
fn customer_login_and_refresh_with_given_texts() {
    let mut auth = AuthServiceImpl::new(customer_config());
    auth.register("a@example.com", "password123", "customer").unwrap();
    verify_all_users(&mut auth.db, now());
    let login = auth.login_with("a@example.com", "password123", now(), "rt1".to_string()).unwrap();
    assert_eq!(login.refresh_token, "rt1");
    let clash = auth.login_with("a@example.com", "password123", now(), "rt1".to_string());
    assert!(is_unique_violation_customer(&clash));
    let rotated = auth.refresh_with("rt1", now(), "rt2".to_string()).unwrap();
    assert_eq!(rotated.refresh_token, "rt2");
    let back = auth.refresh_with("rt2", now(), "rt1".to_string());
    assert!(is_unique_violation_customer(&back));
    let again = auth.refresh_with("rt2", now(), "rt3".to_string());
    assert!(matches!(again, Err(AuthServiceError::Unauthorized(m)) if m == "Refresh token revoked"));
}

#[test]
fn customer_resend_with_given_text() {
    let mut auth = AuthServiceImpl::new(customer_config());
    auth.register_hashed("a@example.com", "h".to_string(), "customer", "v0".to_string(), now()).unwrap();
    auth.register_hashed("b@example.com", "h".to_string(), "customer", "v2".to_string(), now()).unwrap();
    let (_, mail) = auth.resend_with("a@example.com", now(), "v1".to_string()).unwrap();
    assert_eq!(mail.unwrap().token, "v1");
    let (_, mail) = auth.resend_with("a@example.com", now(), "v1".to_string()).unwrap();
    assert_eq!(mail.unwrap().token, "v1");
    let clash = auth.resend_with("a@example.com", now(), "v2".to_string());
    assert!(is_unique_violation_customer(&clash));
}

#[test]
fn claims_from_requires_a_uuid_subject() {
    let c = claims_from("00000000-0000-0000-0000-00000000002a", "owner".to_string(), 5).unwrap();
    assert_eq!(c.sub, 42);
    assert_eq!(c.role, "owner");
    assert_eq!(c.exp, 5);
    assert!(matches!(claims_from("42", "owner".to_string(), 5), Err(JwtError::InvalidSubject)));
}

#[test]
fn decode_refuses_text_that_is_not_a_compact_token() {
    assert!(matches!(decode("abc", b"secret"), Err(JwtError::Jwt(_))));
    assert!(matches!(decode("", b"secret"), Err(JwtError::Jwt(_))));
}
