use pos_backend::app::error::AppError;
use pos_backend::app::{cors_origins, dashboard_service, rate_limit_settings};
use pos_backend::auth::extractor::extract_bearer_token;
use pos_backend::auth::jwt::{decode, encode, encode_at, encode_subject_at, JwtError};
use pos_backend::auth::password;
use pos_backend::auth::token;
use pos_backend::config::{AppEnv, Config};
use pos_backend::email::sender::EmailError;
use pos_backend::email::{build_invitation_email, build_verification_email};
use pos_backend::features::dashboard_auth::me::me;
use pos_backend::features::dashboard_auth::service::DashboardAuthServiceError;
use pos_backend::features::dashboard_invitations::invite::{authorize_inviter, InviteResponse};
use pos_backend::features::dashboard_invitations::service::DashboardInvitationServiceError;
use pos_backend::features::dashboard_invitations::service_impl::DashboardInvitationServiceImpl;
use pos_backend::features::auth::service_impl::hash_token;
use pos_backend::migration::{down, migrations, up, SchemaStatement};
use pos_backend::repositories::{Database, Employee};
use pos_backend::text::{decimal_text, split_trimmed_nonempty, trim_chars};

fn sample_config() -> Config {
    Config {
        app_env: AppEnv::Development,
        database_url: "sqlite::memory:".to_string(),
        address: "0.0.0.0:5000".to_string(),
        jwt_secret: "change-me-in-production".to_string(),
        access_token_ttl: 900,
        refresh_token_ttl: 604_800,
        base_url: "http://localhost:3000".to_string(),
        allowed_origins: "http://localhost:3000".to_string(),
        email_verification_token_ttl: 86400,
        invitation_token_ttl: 259_200,
        bcrypt_cost: 12,
        rate_limit_enabled: true,
        rate_limit_per_second: 10,
        rate_limit_burst: 10,
        login_rate_limit_per_second: 60,
        login_rate_limit_burst: 3,
        app_name: "Headless CMS".to_string(),
        smtp_host: "smtp.example.com".to_string(),
        smtp_port: 587,
        smtp_username: "user".to_string(),
        smtp_password: "SECRET-REDACTED".to_string(),
        smtp_from: "noreply@example.com".to_string(),
        smtp_from_name: "Headless CMS".to_string(),
        smtp_starttls: true,
    }
}

#[test]
fn decimal_text_writes_integers() {
    assert_eq!(decimal_text(0), "0");
    assert_eq!(decimal_text(7), "7");
    assert_eq!(decimal_text(1234), "1234");
    assert_eq!(decimal_text(-45), "-45");
    assert_eq!(decimal_text(i32::MAX), "2147483647");
    assert_eq!(decimal_text(i32::MIN), "-2147483648");
}

#[test]
fn trim_and_split_follow_std() {
    let chars: Vec<char> = " \t a b \u{3000}\n".chars().collect();
    let trimmed: String = trim_chars(&chars).into_iter().collect();
    assert_eq!(trimmed, "a b");
    let pieces = split_trimmed_nonempty(" a, ,b ,,c", ',');
    assert_eq!(pieces, vec!["a".to_string(), "b".to_string(), "c".to_string()]);
    assert!(split_trimmed_nonempty("", ',').is_empty());
    assert!(split_trimmed_nonempty(" , ", ',').is_empty());
}

#[test]
fn cors_origins_lists_trimmed_entries() {
    let origins = cors_origins("http://localhost:3000, https://example.com ,").unwrap();
    assert_eq!(origins, vec!["http://localhost:3000".to_string(), "https://example.com".to_string()]);
}

#[test]
fn cors_origins_refuses_invalid_header_value() {
    match cors_origins("http://ok.example, bad\u{7f}origin") {
        Err(AppError::BadRequest(m)) => {
            assert_eq!(m, "invalid origin in ALLOWED_ORIGINS: failed to parse header value")
        },
        _ => panic!("expected a bad request"),
    }
}

#[test]
fn rate_limit_follows_switch() {
    assert_eq!(rate_limit_settings(true, 10, 3), Some((10, 3)));
    assert_eq!(rate_limit_settings(false, 10, 3), None);
}

#[test]
fn test_routes_only_in_testing() {
    assert!(AppEnv::Testing.test_routes_enabled());
    assert!(!AppEnv::Development.test_routes_enabled());
    assert!(!AppEnv::Production.test_routes_enabled());
}

#[test]
fn dashboard_service_takes_configuration() {
    let config = sample_config();
    let service = dashboard_service(&config, Database::new());
    assert_eq!(service.bcrypt_cost, 12);
    assert_eq!(service.email_verification_token_ttl, 86400);
    assert_eq!(service.token_config.jwt_secret, "change-me-in-production");
    assert_eq!(service.token_config.access_token_ttl, 900);
    assert_eq!(service.token_config.refresh_token_ttl, 604_800);
    assert_eq!(service.app_name, "Headless CMS");
    assert_eq!(service.base_url, "http://localhost:3000");
}

#[test]
fn token_hash_is_sha256_hex() {
    assert_eq!(
        token::hash(b"abc"),
        "ba7816bf8f01cfea414140de5dae2223b00361a396177a9cb410ff61f20015ad"
    );
    assert_eq!(hash_token("abc"), token::hash(b"abc"));
    let (raw, h) = token::generate();
    assert_eq!(h, token::hash(&raw));
    assert_eq!(h.len(), 64);
}

#[test]
fn jwt_encodes_claims() {
    let now_micros: i64 = 1_700_000_000_123_456;
    let id: u128 = 0x0123_4567_89ab_cdef_0123_4567_89ab_cdef;
    let token = encode_at(id, "owner", b"secret", 900, now_micros).unwrap();
    let mut validation = jsonwebtoken::Validation::default();
    validation.validate_exp = false;
    let data = jsonwebtoken::decode::<serde_json::Value>(
        &token,
        &jsonwebtoken::DecodingKey::from_secret(b"secret"),
        &validation,
    )
    .unwrap();
    assert_eq!(data.claims["sub"], "01234567-89ab-cdef-0123-456789abcdef");
    assert_eq!(data.claims["role"], "owner");
    assert_eq!(data.claims["exp"], 1_700_000_900u64);
    let same = encode_subject_at("01234567-89ab-cdef-0123-456789abcdef", "owner", b"secret", 900, now_micros)
        .unwrap();
    assert_eq!(token, same);
}

#[test]
fn jwt_refuses_clock_before_epoch_and_overflow() {
    assert!(matches!(encode_at(1, "owner", b"s", 900, -1), Err(JwtError::TimestampOverflow)));
    assert!(matches!(encode_at(1, "owner", b"s", u64::MAX, 1_000_000), Err(JwtError::TtlOverflow)));
}

#[test]
fn bcrypt_hash_verifies_and_bad_cost_fails() {
    let h = password::hash("hunter2", 4).unwrap();
    assert!(password::verify("hunter2", &h).unwrap());
    assert!(!password::verify("hunter3", &h).unwrap());
    assert!(password::hash("hunter2", 3).is_err());
    assert!(password::verify("hunter2", "not-a-hash").is_err());
}

#[test]
fn bearer_token_is_extracted() {
    assert_eq!(extract_bearer_token(Some("Bearer abc.def")).unwrap(), "abc.def");
    assert!(matches!(extract_bearer_token(Some("Bearer ")), Err(AppError::Unauthorized)));
    assert!(matches!(extract_bearer_token(Some("Basic abc")), Err(AppError::Unauthorized)));
    assert!(matches!(extract_bearer_token(None), Err(AppError::Unauthorized)));
}

#[test]
fn verification_email_has_link() {
    let (subject, text, html) = build_verification_email("Test App", "http://localhost:3000/", "abcd");
    assert_eq!(subject, "Verify your email — Test App");
    let link = "http://localhost:3000/api/v1/dashboard/auth/email/verification?token=abcd";
    assert!(text.contains(link));
    assert!(html.contains(&format!("href=\"{link}\"")));
    assert!(!text.contains("{{"));
}

#[test]
fn invitation_email_fills_placeholders() {
    let (subject, text, html) =
        build_invitation_email("Test App", "http://localhost:3000", "owner@example.com", "manager", "ff00");
    assert_eq!(subject, "You've been invited to join Test App");
    assert!(text.contains("owner@example.com has invited you to join Test App as manager."));
    assert!(text.contains("http://localhost:3000/accept-invitation?token=ff00"));
    assert!(html.contains("http://localhost:3000/accept-invitation?token=ff00"));
    assert!(!html.contains("{{"));
}

#[test]
fn error_responses_carry_status_and_reason() {
    let (status, body) = AppError::Conflict("taken".to_string()).to_response();
    assert_eq!(status, 409);
    assert_eq!(body.error, "Conflict");
    assert_eq!(body.message, "taken");
    let (status, body) = AppError::Unauthorized.to_response();
    assert_eq!(status, 401);
    assert_eq!(body.error, "Unauthorized");
    assert_eq!(body.message, "");
    assert_eq!(AppError::InternalServerError.status(), 500);
}

#[test]
fn dashboard_errors_map_to_responses() {
    match AppError::from_dashboard_auth(DashboardAuthServiceError::WeakPassword) {
        AppError::BadRequest(m) => assert_eq!(m, "Password must be at least 8 characters"),
        _ => panic!("expected bad request"),
    }
    match AppError::from_dashboard_auth(DashboardAuthServiceError::OwnerAlreadyExists) {
        AppError::Conflict(m) => assert_eq!(m, "An owner has already been registered"),
        _ => panic!("expected conflict"),
    }
    assert!(matches!(
        AppError::from_dashboard_auth(DashboardAuthServiceError::AccountInactive),
        AppError::Forbidden
    ));
    match AppError::from_invitation(DashboardInvitationServiceError::OwnerRoleForbidden) {
        AppError::BadRequest(m) => assert_eq!(m, "Cannot invite with owner role"),
        _ => panic!("expected bad request"),
    }
}

#[test]
fn email_error_message() {
    assert_eq!(EmailError::Send("timeout".to_string()).message(), "failed to send email: timeout");
}

#[test]
fn only_owners_invite() {
    assert!(authorize_inviter("owner").is_ok());
    assert!(matches!(authorize_inviter("manager"), Err(AppError::Forbidden)));
    let response = InviteResponse::sent("a@b.com".to_string(), "manager".to_string());
    assert_eq!(response.message, "Invitation sent to a@b.com");
}

#[test]
fn invitation_replaces_pending_one() {
    let service = DashboardInvitationServiceImpl {
        invitation_token_ttl: 259_200,
        app_name: "Test App".to_string(),
        base_url: "http://localhost:3000".to_string(),
    };
    let mut pool = Database::new();
    let first = service.invite(&mut pool, "new@example.com", "manager", 1).unwrap();
    let second = service.invite(&mut pool, "new@example.com", "cashier", 1).unwrap();
    assert_ne!(first, second);
    assert!(pool.find_pending_invitation_by_email("new@example.com").is_some());
    let raw = hex::decode(&second).unwrap();
    let i = pool.find_invitation_by_hash(&token::hash(&raw)).unwrap();
    assert_eq!(pool.invitation(i).role, "cashier");
    let old_raw = hex::decode(&first).unwrap();
    assert!(pool.find_invitation_by_hash(&token::hash(&old_raw)).is_none());
    assert!(matches!(
        service.invite(&mut pool, "x@example.com", "owner", 1),
        Err(DashboardInvitationServiceError::OwnerRoleForbidden)
    ));
}

#[test]
fn invitation_refused_for_existing_employee() {
    let service = DashboardInvitationServiceImpl {
        invitation_token_ttl: 259_200,
        app_name: "Test App".to_string(),
        base_url: "http://localhost:3000".to_string(),
    };
    let mut pool = Database::new();
    pool.insert_employee(Employee {
        id: 7,
        email: "staff@example.com".to_string(),
        password_hash: String::new(),
        role: "manager".to_string(),
        is_active: true,
        email_verified_at: None,
        created_at: 0,
        updated_at: 0,
    })
    .unwrap();
    assert!(matches!(
        service.invite(&mut pool, "staff@example.com", "cashier", 7),
        Err(DashboardInvitationServiceError::EmailAlreadyEmployee)
    ));
    let profile = me(&pool, 7).unwrap();
    assert_eq!(profile.email, "staff@example.com");
    assert!(matches!(me(&pool, 8), Err(AppError::NotFound)));
}

#[test]
fn hex_roundtrip() {
    let bytes: Vec<u8> = (0u8..=255).collect();
    let text = hex::encode(&bytes);
    assert_eq!(hex::decode(&text).unwrap(), bytes);
    let (raw, h) = token::generate();
    assert_eq!(token::hash(&hex::decode(hex::encode(raw)).unwrap()), h);
}

#[test]
fn trailing_slash_does_not_change_links() {
    let with_slash = build_verification_email("A", "http://x.test/", "00");
    let without = build_verification_email("A", "http://x.test", "00");
    assert_eq!(with_slash, without);
    let with_slash = build_invitation_email("A", "http://x.test/", "o@x.test", "manager", "00");
    let without = build_invitation_email("A", "http://x.test", "o@x.test", "manager", "00");
    assert_eq!(with_slash, without);
}

#[test]
fn schema_down_reverses_up() {
    let created: Vec<String> = up()
        .iter()
        .filter_map(|s| match s {
            SchemaStatement::CreateTable(t) => Some(t.name.clone()),
            _ => None,
        })
        .collect();
    let mut dropped: Vec<String> = down()
        .iter()
        .filter_map(|s| match s {
            SchemaStatement::DropTable(n) => Some(n.clone()),
            _ => None,
        })
        .collect();
    dropped.reverse();
    assert_eq!(created, dropped);
    assert_eq!(created, vec!["user".to_string(), "refresh_token".to_string(), "email_verification_token".to_string()]);
    let all = migrations();
    assert_eq!(all.len(), 1);
    assert_eq!(all[0].name, "20260509_000001_initial_schema");
}

fn base64url_decode(text: &str) -> Vec<u8> {
    let alphabet = b"ABCDEFGHIJKLMNOPQRSTUVWXYZabcdefghijklmnopqrstuvwxyz0123456789-_";
    let mut bits: u32 = 0;
    let mut count = 0;
    let mut out = Vec::new();
    for c in text.bytes() {
        let v = alphabet.iter().position(|a| *a == c).unwrap() as u32;
        bits = (bits << 6) | v;
        count += 6;
        if count >= 8 {
            count -= 8;
            out.push((bits >> count) as u8);
            bits &= (1 << count) - 1;
        }
    }
    out
}

#[test]
fn jwt_payload_lists_claims_in_order() {
    let token = encode_at(1, "owner", b"secret", 900, 1_700_000_000_000_000).unwrap();
    let parts: Vec<&str> = token.split('.').collect();
    assert_eq!(parts.len(), 3);
    assert!(parts.iter().all(|p| !p.is_empty()));
    let payload = String::from_utf8(base64url_decode(parts[1])).unwrap();
    assert_eq!(payload, "{\"sub\":\"00000000-0000-0000-0000-000000000001\",\"role\":\"owner\",\"exp\":1700000900}");
}

#[test]
fn jwt_decode_gives_back_claims() {
    let id: u128 = 0x0123_4567_89ab_cdef_0123_4567_89ab_cdef;
    let token = encode(id, "manager", b"secret", 900).unwrap();
    let claims = decode(&token, b"secret").unwrap();
    assert_eq!(claims.sub, id);
    assert_eq!(claims.role, "manager");
    assert!(matches!(decode(&token, b"wrong"), Err(JwtError::Jwt(_))));
    assert!(matches!(decode("not.a.token", b"secret"), Err(JwtError::Jwt(_))));
    let expired = encode_at(id, "manager", b"secret", 900, 1_000_000_000_000_000).unwrap();
    assert!(matches!(decode(&expired, b"secret"), Err(JwtError::Jwt(_))));
    let odd = encode_subject_at("not-a-uuid", "manager", b"secret", 900, chrono::Utc::now().timestamp_micros())
        .unwrap();
    assert!(matches!(decode(&odd, b"secret"), Err(JwtError::InvalidSubject)));
}

#[test]
fn generated_hash_is_64_lowercase_hex() {
    let (_, h) = token::generate();
    assert_eq!(h.len(), 64);
    assert!(h.chars().all(|c| c.is_ascii_digit() || ('a'..='f').contains(&c)));
}

#[test]
fn invitation_token_is_lowercase_hex() {
    let service = DashboardInvitationServiceImpl {
        invitation_token_ttl: 259_200,
        app_name: "Test App".to_string(),
        base_url: "http://localhost:3000".to_string(),
    };
    let mut pool = Database::new();
    let token_hex = service.invite(&mut pool, "new@example.com", "manager", 1).unwrap();
    assert_eq!(token_hex.len(), 64);
    assert!(token_hex.chars().all(|c| c.is_ascii_digit() || ('a'..='f').contains(&c)));
}

#[test]
fn many_trailing_slashes_do_not_change_emails() {
    let many = build_verification_email("A", "http://x.test///", "00");
    let none = build_verification_email("B", "http://x.test", "00");
    assert_eq!(many.1, none.1);
    assert_eq!(many.2, none.2);
    assert_eq!(many.0, "Verify your email — A");
    let many = build_invitation_email("A", "http://x.test////", "o@x.test", "manager", "00");
    let none = build_invitation_email("A", "http://x.test", "o@x.test", "manager", "00");
    assert_eq!(many, none);
}
