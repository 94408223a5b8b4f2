use chrono::{DateTime, NaiveDateTime};
use finstack_api::auth_service::{AuthService, DEFAULT_TTL_SECONDS};
use finstack_api::config::ConfigError;
use finstack_api::errors::{SigningFailure, TokenInvalid};
use finstack_api::models::{Claims, User, UserId};
use finstack_api::token::TokenPayload;
use jsonwebtoken::{Algorithm, EncodingKey, Header};
use serde_json::Value;

const SECRET: &str = "0123456789abcdef0123456789abcdef";

fn instant(seconds: i64) -> NaiveDateTime {
    DateTime::from_timestamp(seconds, 0).unwrap().naive_utc()
}

fn john() -> User {
    User {
        id: UserId { bits: 0x550e8400_e29b_41d4_a716_446655440000 },
        first_name: "John".to_string(),
        last_name: "Doe".to_string(),
        email: "john@example.com".to_string(),
        password: "$2b$12$abcdefghijklmnopqrstuuABCDEFGHIJKLMNOPQRSTUVWXYZ01234".to_string(),
        created_at: instant(1_700_000_000),
        updated_at: instant(1_700_000_000),
    }
}

fn signed(body: &serde_json::Map<String, Value>, algorithm: Algorithm, secret: &str) -> String {
    jsonwebtoken::encode(&Header::new(algorithm), body, &EncodingKey::from_secret(secret.as_bytes()))
        .unwrap()
}

fn body(sub: Value, email: Value, exp: Value, iat: Value) -> serde_json::Map<String, Value> {
    let mut map = serde_json::Map::new();
    map.insert("sub".to_string(), sub);
    map.insert("email".to_string(), email);
    map.insert("exp".to_string(), exp);
    map.insert("iat".to_string(), iat);
    map
}

#[test]
fn default_lifetime_is_a_day() {
    assert_eq!(DEFAULT_TTL_SECONDS, 86400);
    assert_eq!(AuthService::new(SECRET.to_string()).unwrap().ttl_seconds(), 86400);
    assert_eq!(AuthService::with_ttl(SECRET.to_string(), 60).unwrap().ttl_seconds(), 60);
}

#[test]
fn service_refuses_a_short_secret() {
    assert!(matches!(AuthService::new("your-secret-key".to_string()), Err(ConfigError::SecretTooShort)));
    assert!(matches!(AuthService::new(String::new()), Err(ConfigError::SecretTooShort)));
    assert!(matches!(
        AuthService::with_ttl(SECRET[1..].to_string(), 60),
        Err(ConfigError::SecretTooShort)
    ));
    let service = AuthService::new(SECRET.to_string()).unwrap();
    assert_eq!(service.secret_bytes(), 32);
    let wide = AuthService::new("\u{e9}".repeat(16)).unwrap();
    assert_eq!(wide.secret_bytes(), 32);
    assert!(matches!(AuthService::new("\u{e9}".repeat(15)), Err(ConfigError::SecretTooShort)));
}

#[test]
fn issued_token_validates_before_expiry() {
    let service = AuthService::new(SECRET.to_string()).unwrap();
    let token = service.generate_token_at(&john(), 1_700_000_000).unwrap();
    let claims = service.validate_token_at(&token, 1_700_000_000).unwrap();
    assert_eq!(
        claims,
        Claims {
            sub: "550e8400-e29b-41d4-a716-446655440000".to_string(),
            email: "john@example.com".to_string(),
            exp: 1_700_086_400,
            iat: 1_700_000_000,
        }
    );
    let last = service.validate_token_at(&token, 1_700_086_399).unwrap();
    assert_eq!(last, claims);
}

#[test]
fn issued_token_is_three_dotted_parts() {
    let service = AuthService::new(SECRET.to_string()).unwrap();
    let token = service.generate_token_at(&john(), 1_700_000_000).unwrap();
    assert_eq!(token.split('.').count(), 3);
    assert!(token.split('.').all(|part| !part.is_empty()));
    assert_eq!(service.generate_token_at(&john(), 1_700_000_000).unwrap(), token);
    assert_ne!(service.generate_token_at(&john(), 1_700_000_001).unwrap(), token);
}

#[test]
fn token_is_rejected_at_and_after_expiry() {
    let service = AuthService::new(SECRET.to_string()).unwrap();
    let token = service.generate_token_at(&john(), 1_700_000_000).unwrap();
    assert_eq!(service.validate_token_at(&token, 1_700_086_400), Err(TokenInvalid));
    assert_eq!(service.validate_token_at(&token, 1_700_086_401), Err(TokenInvalid));
    assert_eq!(service.validate_token_at(&token, usize::MAX), Err(TokenInvalid));
}

#[test]
fn expiry_is_compared_without_allowance() {
    let service = AuthService::with_ttl(SECRET.to_string(), 10).unwrap();
    let token = service.generate_token_at(&john(), 1_000).unwrap();
    assert!(service.validate_token_at(&token, 1_009).is_ok());
    assert_eq!(service.validate_token_at(&token, 1_010), Err(TokenInvalid));
    assert_eq!(service.validate_token_at(&token, 1_069), Err(TokenInvalid));
}

#[test]
fn token_of_zero_lifetime_never_validates() {
    let service = AuthService::with_ttl(SECRET.to_string(), 0).unwrap();
    let token = service.generate_token_at(&john(), 5_000).unwrap();
    assert_eq!(service.validate_token_at(&token, 5_000), Err(TokenInvalid));
    assert_eq!(service.validate_token_at(&token, 4_999).unwrap().exp, 5_000);
}

#[test]
fn token_signed_with_another_secret_is_rejected() {
    let service = AuthService::new(SECRET.to_string()).unwrap();
    let other = AuthService::new("fedcba9876543210fedcba9876543210".to_string()).unwrap();
    let token = other.generate_token_at(&john(), 1_700_000_000).unwrap();
    assert!(other.validate_token_at(&token, 1_700_000_001).is_ok());
    assert_eq!(service.validate_token_at(&token, 1_700_000_001), Err(TokenInvalid));
}

#[test]
fn tampered_token_is_rejected() {
    let service = AuthService::new(SECRET.to_string()).unwrap();
    let token = service.generate_token_at(&john(), 1_700_000_000).unwrap();
    let mut parts: Vec<String> = token.split('.').map(|p| p.to_string()).collect();
    let forged = signed(
        &body(
            Value::from("550e8400-e29b-41d4-a716-446655440000"),
            Value::from("john@example.com"),
            Value::from(9_999_999_999u64),
            Value::from(1_700_000_000u64),
        ),
        Algorithm::HS256,
        "guess",
    );
    parts[1] = forged.split('.').nth(1).unwrap().to_string();
    assert_eq!(service.validate_token_at(&parts.join("."), 1_700_000_001), Err(TokenInvalid));
}

#[test]
fn malformed_tokens_are_rejected() {
    let service = AuthService::new(SECRET.to_string()).unwrap();
    assert_eq!(service.validate_token_at("", 0), Err(TokenInvalid));
    assert_eq!(service.validate_token_at("xyz", 0), Err(TokenInvalid));
    assert_eq!(service.validate_token_at("a.b.c", 0), Err(TokenInvalid));
    assert_eq!(service.validate_token_at("a.b.c.d", 0), Err(TokenInvalid));
}

#[test]
fn token_under_another_algorithm_is_rejected() {
    let service = AuthService::new(SECRET.to_string()).unwrap();
    let claims = body(
        Value::from("550e8400-e29b-41d4-a716-446655440000"),
        Value::from("john@example.com"),
        Value::from(2_000u64),
        Value::from(1_000u64),
    );
    let good = signed(&claims, Algorithm::HS256, SECRET);
    assert!(service.validate_token_at(&good, 1_500).is_ok());
    let other = signed(&claims, Algorithm::HS384, SECRET);
    assert_eq!(service.validate_token_at(&other, 1_500), Err(TokenInvalid));
}

#[test]
fn token_that_lacks_a_claim_is_rejected() {
    let service = AuthService::new(SECRET.to_string()).unwrap();
    let mut no_email = body(
        Value::from("550e8400-e29b-41d4-a716-446655440000"),
        Value::Null,
        Value::from(2_000u64),
        Value::from(1_000u64),
    );
    no_email.remove("email");
    assert_eq!(
        service.validate_token_at(&signed(&no_email, Algorithm::HS256, SECRET), 1_500),
        Err(TokenInvalid)
    );
    let mut no_exp = body(
        Value::from("550e8400-e29b-41d4-a716-446655440000"),
        Value::from("john@example.com"),
        Value::Null,
        Value::from(1_000u64),
    );
    no_exp.remove("exp");
    assert_eq!(
        service.validate_token_at(&signed(&no_exp, Algorithm::HS256, SECRET), 1_500),
        Err(TokenInvalid)
    );
    let wrong_type = body(
        Value::from(17u64),
        Value::from("john@example.com"),
        Value::from(2_000u64),
        Value::from(1_000u64),
    );
    assert_eq!(
        service.validate_token_at(&signed(&wrong_type, Algorithm::HS256, SECRET), 1_500),
        Err(TokenInvalid)
    );
    let negative = body(
        Value::from("550e8400-e29b-41d4-a716-446655440000"),
        Value::from("john@example.com"),
        Value::from(2_000u64),
        Value::from(-1i64),
    );
    assert_eq!(
        service.validate_token_at(&signed(&negative, Algorithm::HS256, SECRET), 1_500),
        Err(TokenInvalid)
    );
}

#[test]
fn issuing_fails_where_the_expiry_cannot_be_represented() {
    let service = AuthService::new(SECRET.to_string()).unwrap();
    assert_eq!(service.generate_token_at(&john(), usize::MAX), Err(SigningFailure));
    assert_eq!(service.generate_token_at(&john(), usize::MAX - 86_399), Err(SigningFailure));
    assert!(service.generate_token_at(&john(), usize::MAX - 86_400).is_ok());
}

#[test]
fn clock_driven_issue_and_validate_agree() {
    let service = AuthService::new(SECRET.to_string()).unwrap();
    let token = service.generate_token(&john()).unwrap();
    let claims = service.validate_token(&token).unwrap();
    assert_eq!(claims.sub, "550e8400-e29b-41d4-a716-446655440000");
    assert_eq!(claims.email, "john@example.com");
    assert_eq!(claims.exp, claims.iat + 86_400);
    let now = chrono::Utc::now().timestamp() as usize;
    assert!(claims.iat <= now && now <= claims.iat + 5);
}

#[test]
fn payload_check_decides_by_completeness_and_expiry() {
    let full = TokenPayload {
        sub: Some("abc".to_string()),
        email: Some("a@b.c".to_string()),
        exp: Some(100),
        iat: Some(50),
    };
    assert_eq!(
        full.clone().check(99),
        Ok(Claims { sub: "abc".to_string(), email: "a@b.c".to_string(), exp: 100, iat: 50 })
    );
    assert_eq!(full.clone().check(100), Err(TokenInvalid));
    assert_eq!(TokenPayload { sub: None, ..full.clone() }.check(0), Err(TokenInvalid));
    assert_eq!(TokenPayload { email: None, ..full.clone() }.check(0), Err(TokenInvalid));
    assert_eq!(TokenPayload { exp: None, ..full.clone() }.check(0), Err(TokenInvalid));
    assert_eq!(TokenPayload { iat: None, ..full }.check(0), Err(TokenInvalid));
}

#[test]
fn claims_carry_the_text_of_the_identity() {
    let claims = Claims::issued_at(UserId { bits: 1 }, "a@b.c".to_string(), 20, 10);
    assert_eq!(claims.sub, "00000000-0000-0000-0000-000000000001");
    assert_eq!(claims.email, "a@b.c");
    assert_eq!((claims.exp, claims.iat), (20, 10));
    let upper = Claims::issued_at(UserId { bits: u128::MAX }, String::new(), 0, 0);
    assert_eq!(upper.sub, "ffffffff-ffff-ffff-ffff-ffffffffffff");
    let fresh = Claims::new(UserId { bits: 2 }, "x@y.z".to_string(), 7);
    assert_eq!(fresh.sub, "00000000-0000-0000-0000-000000000002");
    assert_eq!(fresh.exp, 7);
    assert!(fresh.iat > 1_600_000_000);
}
