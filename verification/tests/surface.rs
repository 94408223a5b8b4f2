use finstack_api::auth_service::AuthService;
use finstack_api::bearer::{extract_token, is_text, starts_with_bearer};
use finstack_api::controllers::{logout, Body, Endpoint};
use finstack_api::errors::{AuthError, ErrorCategory, ErrorCode};
use finstack_api::middleware::{decide, jwt_validator, jwt_validator_at, Admission};
use finstack_api::errors::TokenInvalid;
use finstack_api::models::{User, UserId};

const SECRET: &str = "0123456789abcdef0123456789abcdef";

const ALL_CODES: [ErrorCode; 15] = [
    ErrorCode::PasswordMismatch,
    ErrorCode::InvalidAuthFormat,
    ErrorCode::MissingAuthHeader,
    ErrorCode::InvalidAuthHeader,
    ErrorCode::InvalidUserId,
    ErrorCode::InvalidCredentials,
    ErrorCode::InvalidToken,
    ErrorCode::EmailExists,
    ErrorCode::UserNotFound,
    ErrorCode::DbConnectionError,
    ErrorCode::DbQueryError,
    ErrorCode::UserCreationError,
    ErrorCode::HashError,
    ErrorCode::VerificationError,
    ErrorCode::TokenError,
];

fn user() -> User {
    let at = chrono::DateTime::from_timestamp(0, 0).unwrap().naive_utc();
    User {
        id: UserId { bits: 7 },
        first_name: "Ann".to_string(),
        last_name: "Lee".to_string(),
        email: "ann@example.com".to_string(),
        password: "hash".to_string(),
        created_at: at,
        updated_at: at,
    }
}

fn challenge() -> Admission {
    Admission::Abort { status: 401, scheme: "Bearer".to_string(), scope: "Bearer".to_string() }
}

#[test]
fn header_yields_the_credential_behind_the_scheme() {
    assert_eq!(extract_token(Some(b"Bearer abc.def.ghi")), Ok("abc.def.ghi".to_string()));
    assert_eq!(extract_token(Some(b"Bearer ")), Ok(String::new()));
    assert_eq!(extract_token(Some(b"Bearer  two  spaces")), Ok(" two  spaces".to_string()));
    assert_eq!(extract_token(Some(b"Bearer a\tb~")), Ok("a\tb~".to_string()));
    assert_eq!(
        AuthService::extract_token_from_request(Some(b"Bearer t0k3n")),
        Ok("t0k3n".to_string())
    );
}

#[test]
fn header_failures_are_told_apart() {
    let missing = AuthError {
        message: "Missing Authorization header".to_string(),
        code: ErrorCode::MissingAuthHeader,
    };
    let not_text = AuthError {
        message: "Invalid Authorization header".to_string(),
        code: ErrorCode::InvalidAuthHeader,
    };
    let format = AuthError {
        message: "Invalid Authorization format".to_string(),
        code: ErrorCode::InvalidAuthFormat,
    };
    assert_eq!(extract_token(None), Err(missing));
    assert_eq!(extract_token(Some(b"Bearer caf\xc3\xa9")), Err(not_text.clone()));
    assert_eq!(extract_token(Some(b"Bearer a\x7fb")), Err(not_text.clone()));
    assert_eq!(extract_token(Some(b"Bearer a\nb")), Err(not_text.clone()));
    assert_eq!(extract_token(Some(b"Token \x00")), Err(not_text));
    assert_eq!(extract_token(Some(b"Token xyz")), Err(format.clone()));
    assert_eq!(extract_token(Some(b"bearer xyz")), Err(format.clone()));
    assert_eq!(extract_token(Some(b"Bearer")), Err(format.clone()));
    assert_eq!(extract_token(Some(b"Bearer\txyz")), Err(format.clone()));
    assert_eq!(extract_token(Some(b" Bearer xyz")), Err(format.clone()));
    assert_eq!(extract_token(Some(b"")), Err(format));
}

#[test]
fn header_predicates_agree_with_their_names() {
    assert!(is_text(b""));
    assert!(is_text(b" ~\t"));
    assert!(!is_text(&[31]));
    assert!(!is_text(&[127]));
    assert!(!is_text(&[65, 128]));
    assert!(starts_with_bearer(b"Bearer "));
    assert!(starts_with_bearer(b"Bearer x"));
    assert!(!starts_with_bearer(b"Bearer"));
    assert!(!starts_with_bearer(b"BEARER x"));
}

#[test]
fn filter_lets_a_valid_token_through_with_its_claims() {
    let service = AuthService::new(SECRET.to_string()).unwrap();
    let token = service.generate_token_at(&user(), 1_000).unwrap();
    match jwt_validator_at(&service, Some(&token), 1_001) {
        Admission::Continue { claims } => {
            assert_eq!(claims.sub, "00000000-0000-0000-0000-000000000007");
            assert_eq!(claims.email, "ann@example.com");
            assert_eq!(claims.iat, 1_000);
            assert_eq!(claims.exp, 87_400);
        },
        other => panic!("expected to continue, got {:?}", other),
    }
    let fresh = service.generate_token(&user()).unwrap();
    assert!(matches!(jwt_validator(&service, Some(&fresh)), Admission::Continue { .. }));
}

#[test]
fn filter_stops_everything_else_with_a_challenge() {
    let service = AuthService::new(SECRET.to_string()).unwrap();
    let token = service.generate_token_at(&user(), 1_000).unwrap();
    assert_eq!(jwt_validator_at(&service, Some(&token), 87_400), challenge());
    assert_eq!(jwt_validator_at(&service, Some("xyz"), 1_001), challenge());
    assert_eq!(jwt_validator_at(&service, Some(""), 1_001), challenge());
    assert_eq!(jwt_validator_at(&service, None, 1_001), challenge());
    assert_eq!(jwt_validator(&service, Some(&token)), challenge());
    assert_eq!(jwt_validator(&service, None), challenge());
    assert_eq!(decide(Err(TokenInvalid)), challenge());
    let other = AuthService::new("another-secret-another-secret-123".to_string()).unwrap();
    assert_eq!(jwt_validator_at(&other, Some(&token), 1_001), challenge());
}

#[test]
fn codes_have_their_names_and_messages() {
    let names = [
        "PASSWORD_MISMATCH",
        "INVALID_AUTH_FORMAT",
        "MISSING_AUTH_HEADER",
        "INVALID_AUTH_HEADER",
        "INVALID_USER_ID",
        "INVALID_CREDENTIALS",
        "INVALID_TOKEN",
        "EMAIL_EXISTS",
        "USER_NOT_FOUND",
        "DB_CONNECTION_ERROR",
        "DB_QUERY_ERROR",
        "USER_CREATION_ERROR",
        "HASH_ERROR",
        "VERIFICATION_ERROR",
        "TOKEN_ERROR",
    ];
    let messages = [
        "Passwords do not match",
        "Invalid Authorization format",
        "Missing Authorization header",
        "Invalid Authorization header",
        "Invalid user ID in token",
        "Invalid credentials",
        "Invalid token",
        "Email already exists",
        "User not found",
        "Database connection failed",
        "Database query failed",
        "Failed to create user",
        "Password hashing failed",
        "Password verification failed",
        "Token generation failed",
    ];
    for i in 0..15 {
        assert_eq!(ALL_CODES[i].as_str(), names[i]);
        assert_eq!(ALL_CODES[i].message_text(), messages[i]);
        let error = AuthError::new(ALL_CODES[i]);
        assert_eq!(error.code, ALL_CODES[i]);
        assert_eq!(error.message, messages[i]);
    }
}

#[test]
fn codes_fall_into_four_categories() {
    let expected = [
        ErrorCategory::Validation,
        ErrorCategory::Validation,
        ErrorCategory::Validation,
        ErrorCategory::Validation,
        ErrorCategory::Validation,
        ErrorCategory::Authentication,
        ErrorCategory::Authentication,
        ErrorCategory::Resource,
        ErrorCategory::Resource,
        ErrorCategory::Infrastructure,
        ErrorCategory::Infrastructure,
        ErrorCategory::Infrastructure,
        ErrorCategory::Infrastructure,
        ErrorCategory::Infrastructure,
        ErrorCategory::Infrastructure,
    ];
    for i in 0..15 {
        assert_eq!(ALL_CODES[i].category(), expected[i]);
    }
}

#[test]
fn statuses_follow_the_endpoint_table() {
    assert_eq!(Endpoint::Register.success_status(), 201);
    assert_eq!(Endpoint::Login.success_status(), 200);
    assert_eq!(Endpoint::Me.success_status(), 200);
    assert_eq!(Endpoint::Logout.success_status(), 200);
    let register = [400, 500, 500, 500, 500, 500, 500, 409, 500, 500, 500, 500, 500, 500, 500];
    let login = [500, 500, 500, 500, 500, 401, 500, 500, 500, 500, 500, 500, 500, 500, 500];
    let me = [500, 401, 401, 401, 500, 500, 401, 500, 404, 500, 500, 500, 500, 500, 500];
    for i in 0..15 {
        assert_eq!(Endpoint::Register.failure_status(ALL_CODES[i]), register[i]);
        assert_eq!(Endpoint::Login.failure_status(ALL_CODES[i]), login[i]);
        assert_eq!(Endpoint::Me.failure_status(ALL_CODES[i]), me[i]);
        assert_eq!(Endpoint::Logout.failure_status(ALL_CODES[i]), 500);
        if ALL_CODES[i].category() == ErrorCategory::Infrastructure {
            assert_eq!(register[i], 500);
            assert_eq!(login[i], 500);
            assert_eq!(me[i], 500);
        }
    }
}

#[test]
fn logout_answers_with_a_notice() {
    let reply = logout();
    assert_eq!(reply.status, 200);
    assert_eq!(
        reply.body,
        Body::Notice {
            message: "Logout successful. Please delete the token from client storage.".to_string(),
        }
    );
}

#[test]
fn info_leaves_the_password_behind() {
    let info = user().into_info();
    assert_eq!(info.id, UserId { bits: 7 });
    assert_eq!(info.first_name, "Ann");
    assert_eq!(info.last_name, "Lee");
    assert_eq!(info.email, "ann@example.com");
    assert!(!format!("{:?}", info).contains("hash"));
}
