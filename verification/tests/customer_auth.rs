use pos_backend::app::error::AppError;
use pos_backend::config::{AppEnv, Config};
use pos_backend::features::auth::login::LoginRequest;
use pos_backend::features::auth::logout::{LogoutRequest, LogoutResponse};
use pos_backend::features::auth::refresh::RefreshRequest;
use pos_backend::features::auth::register::{register_customer, RegisterRequest};
use pos_backend::features::auth::resend_verification::ResendVerificationRequest;
use pos_backend::features::auth::service::AuthServiceError;
use pos_backend::features::auth::service_impl::{hash_token, AuthServiceImpl};
use pos_backend::features::auth::verify_all::verify_all_users;
use pos_backend::features::auth::verify_email::VerifyEmailQuery;

fn test_config() -> Config {
    Config {
        app_env: AppEnv::Testing,
        database_url: "sqlite::memory:".to_string(),
        address: "0.0.0.0:5000".to_string(),
        jwt_secret: "test-secret-key".to_string(),
        access_token_ttl: 900,
        refresh_token_ttl: 604_800,
        base_url: "http://localhost:3000".to_string(),
        allowed_origins: "http://localhost:3000".to_string(),
        email_verification_token_ttl: 86400,
        invitation_token_ttl: 259_200,
        bcrypt_cost: 4,
        rate_limit_enabled: false,
        rate_limit_per_second: 10,
        rate_limit_burst: 10,
        login_rate_limit_per_second: 60,
        login_rate_limit_burst: 3,
        app_name: "Test App".to_string(),
        smtp_host: "localhost".to_string(),
        smtp_port: 587,
        smtp_username: String::new(),
        smtp_password: String::new(),
        smtp_from: "noreply@example.com".to_string(),
        smtp_from_name: "Test App".to_string(),
        smtp_starttls: false,
    }
}

fn setup_auth_service() -> AuthServiceImpl {
    AuthServiceImpl::new(test_config())
}

fn now() -> i64 {
    chrono::Utc::now().timestamp_micros()
}

fn get_refresh_token(auth: &mut AuthServiceImpl) -> String {
    auth.register("test@example.com", "password123", "customer").unwrap();
    verify_all_users(&mut auth.db, now());
    let login_res = auth.login("test@example.com", "password123").unwrap();
    login_res.refresh_token
}

#[test]
fn test_login_success() {
    let mut auth = setup_auth_service();
    auth.register("test@example.com", "password123", "customer").unwrap();
    verify_all_users(&mut auth.db, now());

    let body = LoginRequest {
        username: "test@example.com".to_string(),
        password: "password123".to_string(),
    };
    let result = auth.login(&body.username, &body.password);

    let response = result.expect("login should succeed");
    assert_eq!(response.user.email, "test@example.com");
    assert!(!response.access_token.is_empty());
    assert!(!response.refresh_token.is_empty());
}

#[test]
fn test_login_wrong_password() {
    let mut auth = setup_auth_service();
    auth.register("test@example.com", "password123", "customer").unwrap();
    verify_all_users(&mut auth.db, now());

    let body = LoginRequest {
        username: "test@example.com".to_string(),
        password: "wrongpassword".to_string(),
    };
    let result = auth.login(&body.username, &body.password);

    assert!(result.is_err());
}

#[test]
fn test_login_user_not_found() {
    let mut auth = setup_auth_service();
    let body = LoginRequest {
        username: "nonexistent".to_string(),
        password: "password123".to_string(),
    };
    let result = auth.login(&body.username, &body.password);

    assert!(result.is_err());
}

#[test]
fn test_logout_success() {
    let mut auth = setup_auth_service();
    let refresh_token = get_refresh_token(&mut auth);

    let body = LogoutRequest { refresh_token };
    let result = auth.logout(&body.refresh_token);

    assert!(result.is_ok());
}

#[test]
fn test_logout_idempotent() {
    let mut auth = setup_auth_service();
    let refresh_token = get_refresh_token(&mut auth);

    let result1 = auth.logout(&refresh_token);
    assert!(result1.is_ok());

    let body = LogoutRequest { refresh_token };
    let result2 = auth.logout(&body.refresh_token);
    assert!(result2.is_ok());
}

#[test]
fn test_refresh_success() {
    let mut auth = setup_auth_service();
    let refresh_token = get_refresh_token(&mut auth);

    let body = RefreshRequest { refresh_token };
    let result = auth.refresh(&body.refresh_token);

    let response = result.expect("refresh should succeed");
    assert!(!response.access_token.is_empty());
    assert!(!response.refresh_token.is_empty());
}

#[test]
fn test_refresh_invalid_token() {
    let mut auth = setup_auth_service();
    let body = RefreshRequest { refresh_token: "invalid_token".to_string() };
    let result = auth.refresh(&body.refresh_token);

    assert!(result.is_err());
}

#[test]
fn test_register_success() {
    let mut auth = setup_auth_service();
    let body = RegisterRequest {
        email: "new@example.com".to_string(),
        password: "password123".to_string(),
    };
    let result = register_customer(&mut auth, &body);

    let response = result.expect("register should succeed");
    assert!(!response.0.message.is_empty());
}

#[test]
fn test_register_duplicate_email() {
    let mut auth = setup_auth_service();
    auth.register("a@b.com", "pass", "customer").unwrap();

    let body = RegisterRequest { email: "a@b.com".to_string(), password: "pass".to_string() };
    let result = register_customer(&mut auth, &body);

    assert!(result.is_err());
}

#[test]
fn test_resend_verification_success() {
    let mut auth = setup_auth_service();
    auth.register("test@example.com", "password123", "customer").unwrap();

    let body = ResendVerificationRequest { email: "test@example.com".to_string() };
    let result = auth.resend_verification(&body.email);

    let response = result.expect("resend verification should succeed");
    assert!(!response.0.message.is_empty());
}

#[test]
fn test_verify_email_success() {
    let mut auth = setup_auth_service();
    let (_, mail) = auth.register("test@example.com", "password123", "customer").unwrap();

    let query = VerifyEmailQuery { token: mail.token.clone() };
    let result = auth.verify_email(&query.token);

    let response = result.expect("verify email should succeed");
    assert!(!response.message.is_empty());

    let i = auth.db.find_user_by_email("test@example.com").unwrap();
    assert!(auth.db.user(i).email_verified_at.is_some());
}

#[test]
fn test_verify_email_invalid_token() {
    let mut auth = setup_auth_service();
    let query = VerifyEmailQuery { token: "invalid-token".to_string() };
    let result = auth.verify_email(&query.token);

    assert!(result.is_err());
}

#[test]
fn register_stores_unverified_active_user_and_link() {
    let mut auth = setup_auth_service();
    let (response, mail) = auth.register("test@example.com", "password123", "customer").unwrap();
    assert_eq!(response.message, "Please check your email to verify your account.");
    assert_eq!(mail.to, "test@example.com");
    assert_eq!(mail.link, format!("http://localhost:3000/api/v1/auth/verify-email?token={}", mail.token));
    assert_eq!(auth.db.user_count(), 1);
    let user = auth.db.user(0);
    assert_eq!(user.id, 1);
    assert_eq!(user.role, "customer");
    assert!(user.is_active);
    assert!(user.email_verified_at.is_none());
    assert_eq!(user.created_at, user.updated_at);
    assert_eq!(auth.db.verification_token_count(), 1);
    let token = auth.db.verification_token(0);
    assert_eq!(token.user_id, 1);
    assert_eq!(token.token_hash, hash_token(&mail.token));
    assert_eq!(token.expires_at, token.created_at + 86_400_000_000);
}

#[test]
fn register_duplicate_email_message() {
    let mut auth = setup_auth_service();
    auth.register("a@b.com", "pass", "customer").unwrap();
    match auth.register("a@b.com", "other", "customer") {
        Err(AuthServiceError::Conflict(m)) => assert_eq!(m, "Email already registered"),
        _ => panic!("expected a conflict"),
    }
    assert_eq!(auth.db.user_count(), 1);
}

#[test]
fn login_unknown_email_is_not_found() {
    let mut auth = setup_auth_service();
    match auth.login("nobody@example.com", "password123") {
        Err(AuthServiceError::NotFound(m)) => assert_eq!(m, "Invalid email or password"),
        _ => panic!("expected not found"),
    }
}

#[test]
fn login_requires_verified_email() {
    let mut auth = setup_auth_service();
    auth.register("test@example.com", "password123", "customer").unwrap();
    match auth.login("test@example.com", "password123") {
        Err(AuthServiceError::NotVerified(m)) => {
            assert_eq!(m, "Email not verified. Please check your email.")
        },
        _ => panic!("expected not verified"),
    }
    assert_eq!(auth.db.refresh_token_count(), 0);
}

#[test]
fn login_refused_for_deactivated_account() {
    let mut auth = setup_auth_service();
    auth.register("test@example.com", "password123", "customer").unwrap();
    verify_all_users(&mut auth.db, now());
    auth.db.set_user_active(0, false);
    match auth.login("test@example.com", "password123") {
        Err(AuthServiceError::Unauthorized(m)) => assert_eq!(m, "Account is deactivated"),
        _ => panic!("expected unauthorized"),
    }
}

#[test]
fn login_issues_access_token_for_user_id() {
    let mut auth = setup_auth_service();
    auth.register("test@example.com", "password123", "customer").unwrap();
    verify_all_users(&mut auth.db, now());
    let before = chrono::Utc::now().timestamp();
    let response = auth.login("test@example.com", "password123").unwrap();
    let key = jsonwebtoken::DecodingKey::from_secret(b"test-secret-key");
    let data = jsonwebtoken::decode::<serde_json::Value>(
        &response.access_token,
        &key,
        &jsonwebtoken::Validation::default(),
    )
    .unwrap();
    assert_eq!(data.claims["sub"], "1");
    assert_eq!(data.claims["role"], "customer");
    let exp = data.claims["exp"].as_i64().unwrap();
    assert!(exp >= before + 900 && exp <= before + 902);
    let stored = auth.db.refresh_token(0);
    assert_eq!(stored.user_id, 1);
    assert_eq!(stored.token_hash, hash_token(&response.refresh_token));
    assert!(stored.revoked_at.is_none());
    assert_eq!(stored.expires_at, stored.created_at + 604_800_000_000);
}

#[test]
fn refresh_revokes_presented_token() {
    let mut auth = setup_auth_service();
    let refresh_token = get_refresh_token(&mut auth);
    let response = auth.refresh(&refresh_token).unwrap();
    assert_ne!(response.refresh_token, refresh_token);
    match auth.refresh(&refresh_token) {
        Err(AuthServiceError::Unauthorized(m)) => assert_eq!(m, "Refresh token revoked"),
        _ => panic!("expected revoked"),
    }
    assert!(auth.refresh(&response.refresh_token).is_ok());
}

#[test]
fn refresh_refuses_expired_token() {
    let mut auth = setup_auth_service();
    let refresh_token = get_refresh_token(&mut auth);
    auth.db.set_refresh_token_expiry_at(0, now() - 3_600_000_000);
    match auth.refresh(&refresh_token) {
        Err(AuthServiceError::Unauthorized(m)) => assert_eq!(m, "Refresh token expired"),
        _ => panic!("expected expired"),
    }
    assert!(auth.db.refresh_token(0).revoked_at.is_none());
}

#[test]
fn refresh_revokes_before_checking_account() {
    let mut auth = setup_auth_service();
    let refresh_token = get_refresh_token(&mut auth);
    auth.db.set_user_active(0, false);
    match auth.refresh(&refresh_token) {
        Err(AuthServiceError::Unauthorized(m)) => assert_eq!(m, "Account is deactivated"),
        _ => panic!("expected deactivated"),
    }
    assert!(auth.db.refresh_token(0).revoked_at.is_some());
    assert_eq!(auth.db.refresh_token_count(), 1);
}

#[test]
fn logout_unknown_token_is_unauthorized() {
    let mut auth = setup_auth_service();
    match auth.logout("no-such-token") {
        Err(AuthServiceError::Unauthorized(m)) => assert_eq!(m, "Invalid refresh token"),
        _ => panic!("expected unauthorized"),
    }
}

#[test]
fn logout_then_refresh_is_refused() {
    let mut auth = setup_auth_service();
    let refresh_token = get_refresh_token(&mut auth);
    auth.logout(&refresh_token).unwrap();
    assert!(matches!(auth.refresh(&refresh_token), Err(AuthServiceError::Unauthorized(_))));
    let body = LogoutResponse::confirmation();
    assert_eq!(body.message, "Logged out successfully");
}

#[test]
fn verification_token_is_used_once() {
    let mut auth = setup_auth_service();
    let (_, mail) = auth.register("test@example.com", "password123", "customer").unwrap();
    let response = auth.verify_email(&mail.token).unwrap();
    assert_eq!(response.message, "Email verified successfully. You can now log in.");
    assert_eq!(auth.db.verification_token_count(), 0);
    match auth.verify_email(&mail.token) {
        Err(AuthServiceError::NotFound(m)) => assert_eq!(m, "Invalid verification token"),
        _ => panic!("expected not found"),
    }
}

#[test]
fn expired_verification_token_is_refused() {
    let mut auth = setup_auth_service();
    let (_, mail) = auth.register("test@example.com", "password123", "customer").unwrap();
    let expires_at = auth.db.verification_token(0).expires_at;
    match auth.verify_email_at(&mail.token, expires_at + 1) {
        Err(AuthServiceError::NotFound(m)) => {
            assert_eq!(m, "Verification token expired. Please request a new one.")
        },
        _ => panic!("expected expired"),
    }
    assert_eq!(auth.db.verification_token_count(), 1);
    assert!(auth.verify_email_at(&mail.token, expires_at).is_ok());
}

#[test]
fn resend_replaces_previous_token() {
    let mut auth = setup_auth_service();
    let (_, first) = auth.register("test@example.com", "password123", "customer").unwrap();
    let (response, mail) = auth.resend_verification("test@example.com").unwrap();
    assert_eq!(
        response.message,
        "If an account with that email exists and is not yet verified, we've sent a verification email."
    );
    let mail = mail.expect("a new e-mail");
    assert_eq!(mail.to, "test@example.com");
    assert_eq!(auth.db.verification_token_count(), 1);
    assert!(auth.verify_email(&first.token).is_err());
    assert!(auth.verify_email(&mail.token).is_ok());
}

#[test]
fn resend_reply_is_uniform() {
    let mut auth = setup_auth_service();
    let (unknown, mail) = auth.resend_verification("nobody@example.com").unwrap();
    assert!(mail.is_none());
    auth.register("test@example.com", "password123", "customer").unwrap();
    verify_all_users(&mut auth.db, now());
    let (verified, mail) = auth.resend_verification("test@example.com").unwrap();
    assert!(mail.is_none());
    assert_eq!(unknown.message, verified.message);
}

#[test]
fn verify_all_marks_only_unverified_users() {
    let mut auth = setup_auth_service();
    auth.register("a@example.com", "password123", "customer").unwrap();
    auth.register("b@example.com", "password123", "customer").unwrap();
    let (_, mail) = auth.resend_verification("a@example.com").unwrap();
    auth.verify_email_at(&mail.unwrap().token, 5).unwrap();
    let response = verify_all_users(&mut auth.db, 7);
    assert_eq!(response.message, "All users verified");
    assert_eq!(auth.db.user(0).email_verified_at, Some(5));
    assert_eq!(auth.db.user(1).email_verified_at, Some(7));
}

#[test]
fn get_me_shows_profile() {
    let mut auth = setup_auth_service();
    auth.register("test@example.com", "password123", "customer").unwrap();
    let me = auth.get_me(1).unwrap();
    assert_eq!(me.id, 1);
    assert_eq!(me.email, "test@example.com");
    assert_eq!(me.role, "customer");
    assert!(me.is_active);
    assert!(me.email_verified_at.is_none());
    match auth.get_me(2) {
        Err(AuthServiceError::Unauthorized(m)) => assert_eq!(m, "User not found"),
        _ => panic!("expected unauthorized"),
    }
}

#[test]
fn auth_errors_map_to_responses() {
    assert!(matches!(
        AppError::from_auth(AuthServiceError::NotFound("x".to_string())),
        AppError::NotFound
    ));
    assert!(matches!(
        AppError::from_auth(AuthServiceError::Unauthorized("x".to_string())),
        AppError::Unauthorized
    ));
    match AppError::from_auth(AuthServiceError::Conflict("Email already registered".to_string())) {
        AppError::Conflict(m) => assert_eq!(m, "Email already registered"),
        _ => panic!("expected conflict"),
    }
    assert!(matches!(
        AppError::from_auth(AuthServiceError::NotVerified("x".to_string())),
        AppError::Forbidden
    ));
    assert!(matches!(
        AppError::from_auth(AuthServiceError::Internal("x".to_string())),
        AppError::InternalServerError
    ));
}

#[test]
fn auth_error_messages() {
    assert_eq!(AuthServiceError::Conflict("taken".to_string()).message(), "conflict: taken");
    assert_eq!(AuthServiceError::NotFound("User not found".to_string()).message(), "User not found");
    assert_eq!(
        AuthServiceError::Database(pos_backend::repositories::StoreError::KeyExhausted).message(),
        "database error"
    );
}
