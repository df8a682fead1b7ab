use pos_backend::auth::{login, login_with_row, prepare_registration, register};
use pos_backend::config::{Config, ConfigError, parse_u16};
use pos_backend::errors::{ApiError, ValidationIssue};
use pos_backend::jwt::{authenticate, create_jwt, extract_bearer_token};
use pos_backend::password::{hash_password, verify_password};
use pos_backend::user::{CreateUserRequest, LoginRequest, User, UserResponse, UserRole, UserRow};
use pos_backend::user_store::UserStore;
use pos_backend::validation::{validate_login, validate_registration};

fn registration(email: &str, name: &str, password: &str, role: UserRole) -> CreateUserRequest {
    CreateUserRequest {
        email: email.to_string(),
        name: name.to_string(),
        password: password.to_string(),
        role,
    }
}

fn credentials(email: &str, password: &str) -> LoginRequest {
    LoginRequest { email: email.to_string(), password: password.to_string() }
}

fn secret() -> String {
    "test-signing-secret".to_string()
}

#[test]
fn register_then_login_succeeds() {
    let mut store = UserStore::new();
    let reg = registration("a@b.com", "Ann", "secret1", UserRole::Cashier);
    let created = register(&mut store, &reg, 1000).expect("registration should succeed");
    assert_eq!(created.user.email, "a@b.com");
    assert_eq!(created.user.name, "Ann");
    let ok = login(&store, &credentials("a@b.com", "secret1"), &secret(), 1000)
        .expect("login with the registered credentials should succeed");
    assert!(!ok.token.is_empty());
    assert_eq!(ok.user.email, "a@b.com");
}

#[test]
fn register_duplicate_email_is_conflict() {
    let mut store = UserStore::new();
    let first = registration("a@b.com", "Ann", "secret1", UserRole::Cashier);
    register(&mut store, &first, 1000).expect("first registration should succeed");
    let second = registration("a@b.com", "Bob", "other-password", UserRole::Admin);
    let err = register(&mut store, &second, 2000).expect_err("duplicate email must be refused");
    assert_eq!(err, ApiError::Conflict);
    assert_eq!(err.status_code(), 409);
    assert_eq!(store.len(), 1);
}

#[test]
fn login_wrong_password_is_unauthorized() {
    let mut store = UserStore::new();
    register(&mut store, &registration("a@b.com", "Ann", "secret1", UserRole::Cashier), 1000)
        .expect("registration should succeed");
    let err = login(&store, &credentials("a@b.com", "wrongpass"), &secret(), 1000)
        .expect_err("a wrong password must be refused");
    assert_eq!(err, ApiError::Authentication);
    assert_eq!(err.status_code(), 401);
}

#[test]
fn login_unknown_email_is_unauthorized_not_notfound() {
    let store = UserStore::new();
    let err = login(&store, &credentials("ghost@b.com", "secret1"), &secret(), 1000)
        .expect_err("an unknown email must be refused");
    assert_eq!(err, ApiError::Authentication);
    assert_ne!(err, ApiError::NotFound);
}

#[test]
fn login_invalid_payload_is_rejected() {
    let store = UserStore::new();
    let err = login(&store, &credentials("not-an-email", "secret1"), &secret(), 1000)
        .expect_err("a malformed email must be refused");
    assert_eq!(err, ApiError::Validation);
    assert_eq!(err.status_code(), 400);
    let err = login(&store, &credentials("a@b.com", "short"), &secret(), 1000)
        .expect_err("a five-letter password is below the minimum length");
    assert_eq!(err, ApiError::Validation);
}

#[test]
fn validation_collects_every_violation() {
    let bad = registration("nope", "A", "short", UserRole::Cashier);
    let issues = validate_registration(&bad);
    assert_eq!(
        issues,
        vec![
            ValidationIssue::EmailInvalid,
            ValidationIssue::NameLength,
            ValidationIssue::PasswordTooShort
        ]
    );
    assert_eq!(issues[0].field(), "email");
    let ok = registration("a@b.com", "Ann", "secret1", UserRole::Cashier);
    assert!(validate_registration(&ok).is_empty());
    let login_issues = validate_login(&credentials("nope", "12345"));
    assert_eq!(
        login_issues,
        vec![ValidationIssue::EmailInvalid, ValidationIssue::PasswordTooShort]
    );
}

#[test]
fn unknown_role_string_reads_as_cashier() {
    let row = UserRow {
        id: "u-1".to_string(),
        email: "a@b.com".to_string(),
        name: "Ann".to_string(),
        password_hash: "irrelevant".to_string(),
        role: "superadmin".to_string(),
        is_active: 5,
        created_at: None,
        updated_at: Some(42),
    };
    let user = User::from_row(&row, 777);
    assert_eq!(user.role, UserRole::Cashier);
    assert!(user.is_active);
    assert_eq!(user.created_at, 777);
    assert_eq!(user.updated_at, 42);

    let admin_row = UserRow {
        id: "u-2".to_string(),
        email: "b@b.com".to_string(),
        name: "Bea".to_string(),
        password_hash: "irrelevant".to_string(),
        role: "admin".to_string(),
        is_active: 0,
        created_at: Some(5),
        updated_at: Some(6),
    };
    let admin = User::from_row(&admin_row, 777);
    assert_eq!(admin.role, UserRole::Admin);
    assert!(!admin.is_active);
    assert_eq!(admin.created_at, 5);
}

#[test]
fn role_string_roundtrip() {
    assert_eq!(UserRole::Admin.as_str(), "admin");
    assert_eq!(UserRole::Cashier.as_str(), "cashier");
    assert_eq!(UserRole::from("admin".to_string()), UserRole::Admin);
    assert_eq!(UserRole::from("cashier".to_string()), UserRole::Cashier);
    assert_eq!(UserRole::from("anything-else".to_string()), UserRole::Cashier);
}

#[test]
fn response_is_user_without_hash() {
    let user = User {
        id: "u-1".to_string(),
        email: "a@b.com".to_string(),
        name: "Ann".to_string(),
        password_hash: "a-secret-hash".to_string(),
        role: UserRole::Admin,
        is_active: true,
        created_at: 10,
        updated_at: 20,
    };
    let resp = UserResponse::from(user);
    assert_eq!(resp.id, "u-1");
    assert_eq!(resp.email, "a@b.com");
    assert_eq!(resp.name, "Ann");
    assert_eq!(resp.role, UserRole::Admin);
    assert!(resp.is_active);
    assert_eq!(resp.created_at, 10);
    assert_eq!(resp.updated_at, 20);
}

#[test]
fn password_hash_verifies_only_the_same_plaintext() {
    let hash = hash_password(&"secret1".to_string()).expect("hashing should succeed");
    assert!(verify_password(&"secret1".to_string(), &hash));
    assert!(!verify_password(&"secret2".to_string(), &hash));
    assert!(!verify_password(&"secret1".to_string(), &"not-a-valid-hash".to_string()));
}

#[test]
fn token_roundtrip_carries_the_claim() {
    let token = create_jwt(&"user-1".to_string(), &UserRole::Admin, &secret(), 5000)
        .expect("issuing a token should succeed");
    let header = format!("Bearer {}", token);
    let claims = authenticate(Some(&header), &secret(), 5000)
        .expect("a fresh token must authenticate");
    assert_eq!(claims.sub, "user-1");
    assert_eq!(claims.role, UserRole::Admin);
    assert_eq!(claims.iat, 5000);
    assert_eq!(claims.exp, 5000 + 86400);
}

#[test]
fn authentication_refuses_bad_tokens() {
    let token = create_jwt(&"user-1".to_string(), &UserRole::Cashier, &secret(), 5000)
        .expect("issuing a token should succeed");
    let header = format!("Bearer {}", token);
    let expired = authenticate(Some(&header), &secret(), 5000 + 86400)
        .expect_err("an expired token must be refused");
    assert_eq!(expired, ApiError::Authentication);
    let wrong_key = authenticate(Some(&header), &"another-secret".to_string(), 5000)
        .expect_err("a token signed with another secret must be refused");
    assert_eq!(wrong_key, ApiError::Authentication);
    let missing = authenticate(None, &secret(), 5000).expect_err("no header, no access");
    assert_eq!(missing, ApiError::Authentication);
    let bad_scheme = format!("Token {}", token);
    let refused = authenticate(Some(&bad_scheme), &secret(), 5000)
        .expect_err("a non-bearer scheme must be refused");
    assert_eq!(refused, ApiError::Authentication);
}

#[test]
fn bearer_extraction_requires_the_scheme() {
    assert_eq!(extract_bearer_token("Bearer abc"), Some("abc"));
    assert_eq!(extract_bearer_token("Token abc"), None);
    assert_eq!(extract_bearer_token("Bearer"), None);
    assert_eq!(extract_bearer_token("Bearer "), Some(""));
    assert_eq!(extract_bearer_token(""), None);
}

#[test]
fn config_requires_store_and_secret() {
    let err = Config::build(None, None, None, None, None)
        .expect_err("no connection string, no startup");
    assert_eq!(err, ConfigError::MissingDatabaseUrl);
    let err = Config::build(None, None, Some("mysql://db".to_string()), None, None)
        .expect_err("no signing secret, no startup");
    assert_eq!(err, ConfigError::MissingJwtSecret);
}

#[test]
fn config_applies_defaults() {
    let cfg = Config::build(
        None,
        None,
        Some("mysql://db".to_string()),
        Some("sec".to_string()),
        None,
    )
    .expect("required settings are present");
    assert_eq!(cfg.host, "127.0.0.1");
    assert_eq!(cfg.port, 8000);
    assert_eq!(cfg.database_url, "mysql://db");
    assert_eq!(cfg.jwt_secret, "sec");
    assert_eq!(cfg.jwt_expires_in, "24h");

    let cfg = Config::build(
        Some("0.0.0.0".to_string()),
        Some("9090".to_string()),
        Some("mysql://db".to_string()),
        Some("sec".to_string()),
        Some("12h".to_string()),
    )
    .expect("required settings are present");
    assert_eq!(cfg.host, "0.0.0.0");
    assert_eq!(cfg.port, 9090);
    assert_eq!(cfg.jwt_expires_in, "12h");

    let cfg = Config::build(
        None,
        Some("not-a-number".to_string()),
        Some("mysql://db".to_string()),
        Some("sec".to_string()),
        None,
    )
    .expect("an unparsable port falls back to the default");
    assert_eq!(cfg.port, 8000);
}

#[test]
fn port_parsing_is_exact() {
    assert_eq!(parse_u16(&"0".to_string()), Some(0));
    assert_eq!(parse_u16(&"8000".to_string()), Some(8000));
    assert_eq!(parse_u16(&"65535".to_string()), Some(65535));
    assert_eq!(parse_u16(&"65536".to_string()), None);
    assert_eq!(parse_u16(&"70000".to_string()), None);
    assert_eq!(parse_u16(&"000065535".to_string()), Some(65535));
    assert_eq!(parse_u16(&"+123".to_string()), Some(123));
    assert_eq!(parse_u16(&"".to_string()), None);
    assert_eq!(parse_u16(&"+".to_string()), None);
    assert_eq!(parse_u16(&"12a".to_string()), None);
    assert_eq!(parse_u16(&"-1".to_string()), None);
}

#[test]
fn example_register_cashier_then_wrong_password() {
    let mut store = UserStore::new();
    let reg = registration("a@b.com", "Ann", "secret1", UserRole::Cashier);
    let created = register(&mut store, &reg, 1000).expect("registration should succeed");
    assert_eq!(created.user.role, UserRole::Cashier);
    assert_eq!(created.user.role.as_str(), "cashier");
    let err = login(&store, &credentials("a@b.com", "wrong-guess"), &secret(), 1000)
        .expect_err("a wrong password must be refused");
    assert_eq!(err.status_code(), 401);
}

#[test]
fn role_parse_is_strict() {
    assert_eq!(UserRole::parse(&"admin".to_string()), Some(UserRole::Admin));
    assert_eq!(UserRole::parse(&"cashier".to_string()), Some(UserRole::Cashier));
    assert_eq!(UserRole::parse(&"manager".to_string()), None);
    assert_eq!(UserRole::parse(&"".to_string()), None);
}

#[test]
fn login_step_decides_over_the_fetched_row() {
    let creds = credentials("a@b.com", "secret1");
    let missing = login_with_row(&creds, None, &secret(), 1000)
        .expect_err("no row means bad credentials");
    assert_eq!(missing, ApiError::Authentication);

    let hash = hash_password(&"secret1".to_string()).expect("hashing should succeed");
    let row = UserRow {
        id: "u-1".to_string(),
        email: "a@b.com".to_string(),
        name: "Ann".to_string(),
        password_hash: hash,
        role: "admin".to_string(),
        is_active: 1,
        created_at: Some(5),
        updated_at: Some(5),
    };
    let ok = login_with_row(&creds, Some(&row), &secret(), 1000)
        .expect("matching credentials must log in");
    assert!(!ok.token.is_empty());
    assert_eq!(ok.user.role, UserRole::Admin);
    let wrong = login_with_row(&credentials("a@b.com", "other-pass"), Some(&row), &secret(), 1000)
        .expect_err("a wrong password must be refused");
    assert_eq!(wrong, ApiError::Authentication);
}

#[test]
fn registration_step_builds_the_row_to_persist() {
    let reg = registration("a@b.com", "Ann", "secret1", UserRole::Cashier);
    let row = prepare_registration(&reg, false, 1000).expect("the payload is valid");
    assert_eq!(row.id.len(), 36);
    assert_eq!(row.email, "a@b.com");
    assert_eq!(row.name, "Ann");
    assert_eq!(row.role, "cashier");
    assert_eq!(row.is_active, 1);
    assert_eq!(row.created_at, Some(1000));
    assert_eq!(row.updated_at, Some(1000));
    assert!(verify_password(&"secret1".to_string(), &row.password_hash));

    let conflict = prepare_registration(&reg, true, 1000)
        .expect_err("a taken email must be refused");
    assert_eq!(conflict, ApiError::Conflict);
    let invalid = prepare_registration(
        &registration("nope", "Ann", "secret1", UserRole::Cashier),
        false,
        1000,
    )
    .expect_err("a malformed email must be refused");
    assert_eq!(invalid, ApiError::Validation);
}

#[test]
fn error_categories_carry_their_texts() {
    assert_eq!(ApiError::Validation.message(), "Validation failed");
    assert_eq!(ApiError::Authentication.message(), "Invalid credentials");
    assert_eq!(ApiError::Conflict.message(), "Email already registered");
    assert_eq!(ApiError::NotFound.message(), "Not found");
    assert_eq!(ApiError::EmptyPatch.message(), "No fields provided for update");
    assert_eq!(ApiError::Internal.message(), "Internal server error");
    assert_eq!(ValidationIssue::PasswordTooShort.field(), "password");
    assert_eq!(ValidationIssue::MinStockNegative.field(), "min_stock");
    assert_eq!(ValidationIssue::UnitPriceNegative.field(), "unit_price");
}

#[test]
fn negative_expiry_token_does_not_authenticate() {
    // The decoder reads the expiry as an unsigned number, so a token whose
    // claim carries a negative expiry never decodes, and authentication
    // refuses it.
    let token = create_jwt(&"user-1".to_string(), &UserRole::Cashier, &secret(), -100000)
        .expect("issuing always succeeds, whatever the clock says");
    assert!(!token.is_empty());
    let header = format!("Bearer {}", token);
    let err = authenticate(Some(&header), &secret(), -100000)
        .expect_err("a token with an unreadable expiry must be refused");
    assert_eq!(err, ApiError::Authentication);
}
