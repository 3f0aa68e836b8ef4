use pos_backend::auth::token;
use pos_backend::features::dashboard_auth::service::DashboardAuthServiceError;
use pos_backend::features::dashboard_auth::service_impl::{DashboardAuthServiceImpl, TokenConfig};
use pos_backend::repositories::Database;

fn setup_service() -> DashboardAuthServiceImpl {
    DashboardAuthServiceImpl {
        pool: Database::new(),
        bcrypt_cost: 4,
        email_verification_token_ttl: 86400,
        token_config: TokenConfig {
            jwt_secret: "test-secret-key".to_string(),
            access_token_ttl: 900,
            refresh_token_ttl: 604_800,
        },
        app_name: "Test App".to_string(),
        base_url: "http://localhost:3000".to_string(),
    }
}

fn registered_and_verified() -> DashboardAuthServiceImpl {
    let mut service = setup_service();
    service
        .register("owner@example.com", "password1234")
        .expect("registration should succeed");
    service.verify_all().expect("verify_all should succeed");
    service
}

#[test]
fn register_should_fail_when_password_too_short() {
    let mut service = setup_service();
    let result = service.register("owner@example.com", "short");
    assert!(result.is_err());
    assert!(matches!(result.unwrap_err(), DashboardAuthServiceError::WeakPassword));
}

#[test]
fn register_should_succeed_with_valid_input() {
    let mut service = setup_service();
    let result = service.register("owner@example.com", "password1234");
    assert!(result.is_ok());
}

#[test]
fn register_should_fail_when_owner_already_exists() {
    let mut service = setup_service();
    service
        .register("owner@example.com", "password1234")
        .expect("first registration should succeed");

    let result = service.register("other@example.com", "password1234");
    assert!(result.is_err());
    assert!(matches!(result.unwrap_err(), DashboardAuthServiceError::OwnerAlreadyExists));
}

#[test]
fn login_should_fail_with_invalid_email() {
    let mut service = setup_service();
    let result = service.login("nonexistent@example.com", "password1234");
    assert!(result.is_err());
    assert!(matches!(result.unwrap_err(), DashboardAuthServiceError::InvalidCredentials));
}

#[test]
fn login_should_fail_with_wrong_password() {
    let mut service = registered_and_verified();
    let result = service.login("owner@example.com", "wrongpassword");
    assert!(result.is_err());
    assert!(matches!(result.unwrap_err(), DashboardAuthServiceError::InvalidCredentials));
}

#[test]
fn login_should_fail_when_email_not_verified() {
    let mut service = setup_service();
    service
        .register("owner@example.com", "password1234")
        .expect("registration should succeed");

    let result = service.login("owner@example.com", "password1234");
    assert!(result.is_err());
    assert!(matches!(result.unwrap_err(), DashboardAuthServiceError::EmailNotVerified));
}

#[test]
fn login_should_fail_when_account_inactive() {
    let mut service = registered_and_verified();
    assert_eq!(service.pool.set_active_by_email("owner@example.com", false), 1);

    let result = service.login("owner@example.com", "password1234");
    assert!(result.is_err());
    assert!(matches!(result.unwrap_err(), DashboardAuthServiceError::AccountInactive));
}

#[test]
fn login_should_succeed_and_return_tokens() {
    let mut service = registered_and_verified();
    let result = service.login("owner@example.com", "password1234");
    assert!(result.is_ok());

    let login_result = result.unwrap();
    assert!(!login_result.access_token.is_empty());
    assert!(!login_result.refresh_token.is_empty());
    assert_eq!(login_result.expires_in, 900);
}

#[test]
fn logout_should_succeed_with_valid_token() {
    let mut service = registered_and_verified();
    let login_result = service
        .login("owner@example.com", "password1234")
        .expect("login should succeed");

    let hex_token = hex::encode(&login_result.refresh_token);
    let result = service.logout(&hex_token);
    assert!(result.is_ok());
}

#[test]
fn logout_should_succeed_with_invalid_token() {
    let mut service = setup_service();
    let result = service.logout("not-a-valid-hex");
    assert!(matches!(result.unwrap_err(), DashboardAuthServiceError::InvalidCredentials));
}

#[test]
fn logout_should_succeed_with_already_revoked_token() {
    let mut service = registered_and_verified();
    let login_result = service
        .login("owner@example.com", "password1234")
        .expect("login should succeed");

    let hex_token = hex::encode(&login_result.refresh_token);
    service.logout(&hex_token).expect("first logout should succeed");

    let result = service.logout(&hex_token);
    assert!(result.is_ok());
}

#[test]
fn refresh_should_succeed_with_valid_token() {
    let mut service = registered_and_verified();
    let login_result = service
        .login("owner@example.com", "password1234")
        .expect("login should succeed");

    let hex_token = hex::encode(&login_result.refresh_token);
    let result = service.refresh(&hex_token);
    assert!(result.is_ok());

    let refresh_result = result.unwrap();
    assert!(!refresh_result.access_token.is_empty());
    assert!(!refresh_result.refresh_token.is_empty());
    assert_eq!(refresh_result.expires_in, 900);
}

#[test]
fn refresh_should_fail_with_invalid_token() {
    let mut service = setup_service();
    let result = service.refresh("deadbeef");
    assert!(matches!(result.unwrap_err(), DashboardAuthServiceError::InvalidCredentials));
}

#[test]
fn refresh_should_fail_with_revoked_token() {
    let mut service = registered_and_verified();
    let login_result = service
        .login("owner@example.com", "password1234")
        .expect("login should succeed");

    let hex_token = hex::encode(&login_result.refresh_token);
    service.logout(&hex_token).expect("logout should succeed");

    let result = service.refresh(&hex_token);
    assert!(matches!(result.unwrap_err(), DashboardAuthServiceError::InvalidCredentials));
}

#[test]
fn refresh_should_fail_with_expired_token() {
    let mut service = registered_and_verified();
    let login_result = service
        .login("owner@example.com", "password1234")
        .expect("login should succeed");

    let raw = &login_result.refresh_token;
    let token_hash = token::hash(raw);

    let past = chrono::Utc::now().timestamp_micros() - 3_600_000_000;
    assert_eq!(service.pool.set_refresh_token_expiry(&token_hash, past), 1);

    let hex_token = hex::encode(raw);
    let result = service.refresh(&hex_token);
    assert!(matches!(result.unwrap_err(), DashboardAuthServiceError::InvalidCredentials));
}

#[test]
fn refresh_should_fail_when_account_inactive() {
    let mut service = registered_and_verified();
    let login_result = service
        .login("owner@example.com", "password1234")
        .expect("login should succeed");

    assert_eq!(service.pool.set_active_by_email("owner@example.com", false), 1);

    let hex_token = hex::encode(&login_result.refresh_token);
    let result = service.refresh(&hex_token);
    assert!(matches!(result.unwrap_err(), DashboardAuthServiceError::AccountInactive));
}

#[test]
fn refresh_should_revoke_old_token() {
    let mut service = registered_and_verified();
    let login_result = service
        .login("owner@example.com", "password1234")
        .expect("login should succeed");

    let hex_token = hex::encode(&login_result.refresh_token);
    service.refresh(&hex_token).expect("first refresh should succeed");

    let result = service.refresh(&hex_token);
    assert!(matches!(result.unwrap_err(), DashboardAuthServiceError::InvalidCredentials));
}

#[test]
fn verify_all_should_mark_employee_as_verified() {
    let mut service = setup_service();
    service
        .register("owner@example.com", "password1234")
        .expect("registration should succeed");

    let i = service
        .pool
        .find_employee_by_email("owner@example.com")
        .expect("employee should exist");
    assert!(
        service.pool.employee(i).email_verified_at.is_none(),
        "email_verified_at should be None before verify_all"
    );

    let result = service.verify_all();
    assert!(result.is_ok());

    let i = service
        .pool
        .find_employee_by_email("owner@example.com")
        .expect("employee should exist");
    assert!(
        service.pool.employee(i).email_verified_at.is_some(),
        "email_verified_at should be Some after verify_all"
    );
}

#[test]
fn resent_verification_token_verifies() {
    let mut service = setup_service();
    service
        .register("owner@example.com", "password1234")
        .expect("registration should succeed");
    let token_hex = service
        .resend_verification_email("owner@example.com")
        .expect("resend should succeed");
    assert_eq!(token_hex.len(), 64);
    assert!(service.verify_email(&token_hex).is_ok());
    assert!(matches!(
        service.verify_email(&token_hex),
        Err(DashboardAuthServiceError::InvalidVerificationToken)
    ));
    assert!(service.login("owner@example.com", "password1234").is_ok());
    assert!(matches!(
        service.resend_verification_email("owner@example.com"),
        Err(DashboardAuthServiceError::EmailAlreadyVerified)
    ));
    assert!(matches!(
        service.resend_verification_email("nobody@example.com"),
        Err(DashboardAuthServiceError::AccountNotFound)
    ));
}

#[test]
fn register_counts_password_characters() {
    let mut service = setup_service();
    assert!(matches!(
        service.register("owner@example.com", "ééééé"),
        Err(DashboardAuthServiceError::WeakPassword)
    ));
    assert!(service.register("owner@example.com", "éééééééé").is_ok());
}

#[test]
fn login_access_token_decodes_to_employee() {
    let mut service = registered_and_verified();
    let result = service.login("owner@example.com", "password1234").unwrap();
    let claims = pos_backend::auth::jwt::decode(&result.access_token, b"test-secret-key").unwrap();
    let i = service.pool.find_employee_by_email("owner@example.com").unwrap();
    assert_eq!(claims.sub, service.pool.employee(i).id);
    assert_eq!(claims.role, "owner");
    assert!(pos_backend::auth::jwt::decode(&result.access_token, b"other-secret").is_err());
}
