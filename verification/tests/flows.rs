use chrono::{DateTime, NaiveDateTime};
use finstack_api::auth_service::AuthService;
use finstack_api::controllers::{login, me, register, Body};
use finstack_api::errors::{AuthError, ErrorCode};
use finstack_api::flows::{CurrentUserFlow, LoginFlow, RegisterFlow};
use finstack_api::models::{LoginRequest, NewUser, RegisterRequest, User, UserId, UserInfo};
use finstack_api::store::{StoreReply, StoreRequest};

const SECRET: &str = "0123456789abcdef0123456789abcdef";

fn service() -> AuthService {
    AuthService::new(SECRET.to_string()).unwrap()
}

fn instant(seconds: i64) -> NaiveDateTime {
    DateTime::from_timestamp(seconds, 0).unwrap().naive_utc()
}

fn john_request(confirm: &str) -> RegisterRequest {
    RegisterRequest {
        first_name: "John".to_string(),
        last_name: "Doe".to_string(),
        email: "john@example.com".to_string(),
        password: "password123".to_string(),
        confirm_password: confirm.to_string(),
    }
}

fn john_with_hash(hash: &str) -> User {
    User {
        id: UserId { bits: 0x123e4567_e89b_12d3_a456_426614174000 },
        first_name: "John".to_string(),
        last_name: "Doe".to_string(),
        email: "john@example.com".to_string(),
        password: hash.to_string(),
        created_at: instant(1_700_000_000),
        updated_at: instant(1_700_000_000),
    }
}

fn failure(code: ErrorCode, message: &str) -> AuthError {
    AuthError { message: message.to_string(), code }
}

fn bearer(token: &str) -> Option<Vec<u8>> {
    Some(format!("Bearer {}", token).into_bytes())
}

#[test]
fn register_walks_through_connect_lookup_and_insert() {
    let service = service();
    let flow = RegisterFlow::start(john_request("password123"));
    assert_eq!(flow.pending(), Some(StoreRequest::Connect));

    let flow = service.register_user_at(flow, StoreReply::Connected, 1_700_000_000);
    assert_eq!(
        flow.pending(),
        Some(StoreRequest::FindUserByEmail { email: "john@example.com".to_string() })
    );

    let flow = service.register_user_at(flow, StoreReply::Absent, 1_700_000_000);
    let new_user = match flow.pending() {
        Some(StoreRequest::InsertUser { user }) => user,
        other => panic!("expected an insert, got {:?}", other),
    };
    assert_eq!(new_user.first_name, "John");
    assert_eq!(new_user.last_name, "Doe");
    assert_eq!(new_user.email, "john@example.com");
    assert_ne!(new_user.password, "password123");
    assert_eq!(AuthService::verify_password("password123", &new_user.password), Ok(true));
    assert_eq!(new_user.created_at, new_user.updated_at);

    let stored = new_user.into_user();
    let id = stored.id;
    let flow = service.register_user_at(flow, StoreReply::Inserted { user: stored }, 1_700_000_000);
    assert_eq!(flow.pending(), None);
    let response = flow.into_outcome().unwrap().unwrap();
    assert!(!response.token.is_empty());
    assert_eq!(response.token_type, "Bearer");
    assert_eq!(response.expires_in, 86400);
    assert_eq!(
        response.user,
        UserInfo {
            id,
            first_name: "John".to_string(),
            last_name: "Doe".to_string(),
            email: "john@example.com".to_string(),
        }
    );
    let claims = service.validate_token_at(&response.token, 1_700_000_001).unwrap();
    assert_eq!(claims.email, "john@example.com");
    assert_eq!(claims.iat, 1_700_000_000);
    assert_eq!(claims.exp, 1_700_086_400);
}

#[test]
fn register_scenario_answers_created_with_a_day_long_bearer_token() {
    let service = service();
    let mut flow = RegisterFlow::start(john_request("password123"));
    let mut asked = Vec::new();
    while let Some(request) = flow.pending() {
        let reply = match request {
            StoreRequest::Connect => StoreReply::Connected,
            StoreRequest::FindUserByEmail { .. } => StoreReply::Absent,
            StoreRequest::InsertUser { user } => StoreReply::Inserted { user: user.into_user() },
            StoreRequest::FindUserById { .. } => StoreReply::QueryFailed,
        };
        asked.push(asked.len());
        flow = service.register_user(flow, reply);
    }
    assert_eq!(asked.len(), 3);
    let reply = register(flow.into_outcome().unwrap());
    assert_eq!(reply.status, 201);
    match reply.body {
        Body::Grant { response } => {
            assert!(!response.token.is_empty());
            assert_eq!(response.token_type, "Bearer");
            assert_eq!(response.expires_in, 86400);
            assert_eq!(response.user.first_name, "John");
            assert_eq!(response.user.last_name, "Doe");
            assert_eq!(response.user.email, "john@example.com");
        },
        other => panic!("expected a grant, got {:?}", other),
    }
}

#[test]
fn me_scenario_answers_the_profile_for_a_fresh_token() {
    let service = service();
    let hash = AuthService::hash_password("password123").unwrap();
    let john = john_with_hash(&hash);
    let token = service.generate_token(&john).unwrap();

    let flow = CurrentUserFlow::start(bearer(&token));
    assert_eq!(flow.pending(), Some(StoreRequest::Connect));
    let flow = service.get_current_user(flow, StoreReply::Connected);
    assert_eq!(flow.pending(), Some(StoreRequest::FindUserById { id: john.id }));
    let flow = service.get_current_user(flow, StoreReply::Found { user: john_with_hash(&hash) });
    assert_eq!(flow.pending(), None);

    let outcome = flow.into_outcome().unwrap();
    assert_eq!(outcome, Ok(john_with_hash(&hash)));
    let reply = me(outcome);
    assert_eq!(reply.status, 200);
    assert_eq!(
        reply.body,
        Body::Profile {
            user: UserInfo {
                id: john.id,
                first_name: "John".to_string(),
                last_name: "Doe".to_string(),
                email: "john@example.com".to_string(),
            },
        }
    );
}

#[test]
fn me_scenario_wrong_scheme_is_invalid_auth_format() {
    let service = service();
    let flow = CurrentUserFlow::start(Some(b"Token xyz".to_vec()));
    let flow = service.get_current_user(flow, StoreReply::Connected);
    assert_eq!(flow.pending(), None);
    let reply = me(flow.into_outcome().unwrap());
    assert_eq!(reply.status, 401);
    assert_eq!(
        reply.body,
        Body::Failure {
            error: failure(ErrorCode::InvalidAuthFormat, "Invalid Authorization format"),
        }
    );
    assert_eq!(ErrorCode::InvalidAuthFormat.as_str(), "INVALID_AUTH_FORMAT");
}

#[test]
fn me_scenario_expired_token_is_invalid_token() {
    let service = service();
    let john = john_with_hash("x");
    let token = service.generate_token_at(&john, 1_000).unwrap();
    let flow = CurrentUserFlow::start(bearer(&token));
    let flow = service.get_current_user(flow, StoreReply::Connected);
    let reply = me(flow.into_outcome().unwrap());
    assert_eq!(reply.status, 401);
    assert_eq!(
        reply.body,
        Body::Failure { error: failure(ErrorCode::InvalidToken, "Invalid token") }
    );
    assert_eq!(ErrorCode::InvalidToken.as_str(), "INVALID_TOKEN");

    let at_expiry = service.get_current_user_at(
        CurrentUserFlow::start(bearer(&token)),
        StoreReply::Connected,
        1_000 + 86_400,
    );
    assert_eq!(
        at_expiry.into_outcome(),
        Some(Err(failure(ErrorCode::InvalidToken, "Invalid token")))
    );
    let before = service.get_current_user_at(
        CurrentUserFlow::start(bearer(&token)),
        StoreReply::Connected,
        1_000 + 86_399,
    );
    assert_eq!(before.pending(), Some(StoreRequest::FindUserById { id: john.id }));
}

#[test]
fn register_with_mismatch_never_asks_for_users() {
    let service = service();
    let flow = RegisterFlow::start(john_request("password124"));
    assert_eq!(flow.pending(), Some(StoreRequest::Connect));
    let flow = service.register_user(flow, StoreReply::Connected);
    assert_eq!(flow.pending(), None);
    let flow = service.register_user(flow, StoreReply::Absent);
    assert_eq!(flow.pending(), None);
    let outcome = flow.into_outcome().unwrap();
    assert_eq!(outcome, Err(failure(ErrorCode::PasswordMismatch, "Passwords do not match")));
    let reply = register(outcome);
    assert_eq!(reply.status, 400);
    assert_eq!(ErrorCode::PasswordMismatch.as_str(), "PASSWORD_MISMATCH");
}

#[test]
fn register_checks_the_connection_before_the_passwords() {
    let service = service();
    let flow = service.register_user(
        RegisterFlow::start(john_request("password124")),
        StoreReply::ConnectionFailed,
    );
    let outcome = flow.into_outcome().unwrap();
    assert_eq!(outcome, Err(failure(ErrorCode::DbConnectionError, "Database connection failed")));
    assert_eq!(register(outcome).status, 500);
}

#[test]
fn register_with_taken_email_never_inserts() {
    let service = service();
    let flow = service.register_user(RegisterFlow::start(john_request("password123")), StoreReply::Connected);
    let flow = service.register_user(flow, StoreReply::Found { user: john_with_hash("h") });
    assert_eq!(flow.pending(), None);
    let outcome = flow.into_outcome().unwrap();
    assert_eq!(outcome, Err(failure(ErrorCode::EmailExists, "Email already exists")));
    assert_eq!(register(outcome).status, 409);
    assert_eq!(ErrorCode::EmailExists.as_str(), "EMAIL_EXISTS");
}

#[test]
fn register_reports_store_failures() {
    let service = service();
    let flow = service.register_user(RegisterFlow::start(john_request("password123")), StoreReply::Connected);
    let flow = service.register_user(flow, StoreReply::QueryFailed);
    let outcome = flow.into_outcome().unwrap();
    assert_eq!(outcome, Err(failure(ErrorCode::DbQueryError, "Database query failed")));
    assert_eq!(register(outcome).status, 500);

    let flow = service.register_user(RegisterFlow::start(john_request("password123")), StoreReply::Connected);
    let flow = service.register_user(flow, StoreReply::Absent);
    let flow = service.register_user(flow, StoreReply::InsertFailed);
    let outcome = flow.into_outcome().unwrap();
    assert_eq!(outcome, Err(failure(ErrorCode::UserCreationError, "Failed to create user")));
    assert_eq!(register(outcome).status, 500);
}

#[test]
fn register_reports_a_token_that_cannot_be_issued() {
    let service = service();
    let flow = RegisterFlow::Inserting {
        user: NewUser::assemble(
            UserId { bits: 9 },
            "A".to_string(),
            "B".to_string(),
            "a@b.c".to_string(),
            "hash".to_string(),
            instant(0),
        ),
    };
    let flow = service.register_user_at(
        flow,
        StoreReply::Inserted { user: john_with_hash("hash") },
        usize::MAX,
    );
    let outcome = flow.into_outcome().unwrap();
    assert_eq!(outcome, Err(failure(ErrorCode::TokenError, "Token generation failed")));
    assert_eq!(register(outcome).status, 500);
}

#[test]
fn register_hashed_reports_a_hashing_failure() {
    let flow = AuthService::register_hashed(
        john_request("password123"),
        Err(finstack_api::errors::HashingFailure),
    );
    assert_eq!(
        flow.into_outcome(),
        Some(Err(failure(ErrorCode::HashError, "Password hashing failed")))
    );
    let flow = AuthService::register_hashed(john_request("password123"), Ok("the-hash".to_string()));
    match flow {
        RegisterFlow::Inserting { user } => {
            assert_eq!(user.password, "the-hash");
            assert_eq!(user.email, "john@example.com");
            assert_eq!(user.created_at, user.updated_at);
        },
        other => panic!("expected an insert, got {:?}", other),
    }
}

#[test]
fn new_users_get_distinct_identities() {
    let a = NewUser::new("A".to_string(), "B".to_string(), "a@b.c".to_string(), "h".to_string());
    let b = NewUser::new("A".to_string(), "B".to_string(), "a@b.c".to_string(), "h".to_string());
    assert_ne!(a.id, b.id);
    assert_eq!((a.id.bits >> 76) & 0xf, 4);
    assert_eq!(a.created_at, a.updated_at);
    let now = chrono::Utc::now().naive_utc();
    assert!((now - a.created_at).num_seconds().abs() < 5);
    let user = a.into_user();
    assert_eq!(user.first_name, "A");
    assert_eq!(user.last_name, "B");
    assert_eq!(user.email, "a@b.c");
    assert_eq!(user.password, "h");
}

#[test]
fn login_succeeds_with_the_right_password() {
    let service = service();
    let hash = AuthService::hash_password("password123").unwrap();
    let data = LoginRequest { email: "john@example.com".to_string(), password: "password123".to_string() };
    let flow = LoginFlow::start(data);
    assert_eq!(flow.pending(), Some(StoreRequest::Connect));
    let flow = service.login_user(flow, StoreReply::Connected);
    assert_eq!(
        flow.pending(),
        Some(StoreRequest::FindUserByEmail { email: "john@example.com".to_string() })
    );
    let flow = service.login_user_at(flow, StoreReply::Found { user: john_with_hash(&hash) }, 2_000);
    assert_eq!(flow.pending(), None);
    let outcome = flow.into_outcome().unwrap();
    let reply = login(outcome);
    assert_eq!(reply.status, 200);
    match reply.body {
        Body::Grant { response } => {
            assert_eq!(response.token_type, "Bearer");
            assert_eq!(response.expires_in, 86400);
            assert_eq!(response.user.id, UserId { bits: 0x123e4567_e89b_12d3_a456_426614174000 });
            let claims = service.validate_token_at(&response.token, 2_001).unwrap();
            assert_eq!(claims.sub, "123e4567-e89b-12d3-a456-426614174000");
            assert_eq!(claims.exp, 2_000 + 86_400);
        },
        other => panic!("expected a grant, got {:?}", other),
    }
}

#[test]
fn login_failures_do_not_tell_whether_the_email_exists() {
    let service = service();
    let hash = AuthService::hash_password("password123").unwrap();

    let stranger = LoginRequest { email: "nobody@example.com".to_string(), password: "password123".to_string() };
    let flow = service.login_user(LoginFlow::start(stranger), StoreReply::Connected);
    let unknown = service.login_user(flow, StoreReply::Absent).into_outcome().unwrap();

    let member = LoginRequest { email: "john@example.com".to_string(), password: "wrong".to_string() };
    let flow = service.login_user(LoginFlow::start(member), StoreReply::Connected);
    let wrong = service
        .login_user(flow, StoreReply::Found { user: john_with_hash(&hash) })
        .into_outcome()
        .unwrap();

    assert_eq!(unknown, Err(failure(ErrorCode::InvalidCredentials, "Invalid credentials")));
    assert_eq!(unknown, wrong);
    assert_eq!(login(unknown).status, 401);
    assert_eq!(login(wrong).status, 401);
    assert_eq!(ErrorCode::InvalidCredentials.as_str(), "INVALID_CREDENTIALS");
}

#[test]
fn login_reports_infrastructure_failures() {
    let service = service();
    let data = || LoginRequest { email: "john@example.com".to_string(), password: "password123".to_string() };

    let flow = service.login_user(LoginFlow::start(data()), StoreReply::ConnectionFailed);
    let outcome = flow.into_outcome().unwrap();
    assert_eq!(outcome, Err(failure(ErrorCode::DbConnectionError, "Database connection failed")));
    assert_eq!(login(outcome).status, 500);

    let flow = service.login_user(LoginFlow::start(data()), StoreReply::Connected);
    let outcome = service.login_user(flow, StoreReply::QueryFailed).into_outcome().unwrap();
    assert_eq!(outcome, Err(failure(ErrorCode::DbQueryError, "Database query failed")));
    assert_eq!(login(outcome).status, 500);

    let flow = service.login_user(LoginFlow::start(data()), StoreReply::Connected);
    let outcome = service
        .login_user(flow, StoreReply::Found { user: john_with_hash("not-a-hash") })
        .into_outcome()
        .unwrap();
    assert_eq!(outcome, Err(failure(ErrorCode::VerificationError, "Password verification failed")));
    assert_eq!(login(outcome).status, 500);

    let hash = AuthService::hash_password("password123").unwrap();
    let flow = service.login_user(LoginFlow::start(data()), StoreReply::Connected);
    let outcome = service
        .login_user_at(flow, StoreReply::Found { user: john_with_hash(&hash) }, usize::MAX)
        .into_outcome()
        .unwrap();
    assert_eq!(outcome, Err(failure(ErrorCode::TokenError, "Token generation failed")));
    assert_eq!(login(outcome).status, 500);
}

#[test]
fn current_user_reports_each_failure() {
    let service = service();
    let john = john_with_hash("h");
    let token = service.generate_token_at(&john, 1_000).unwrap();
    let step = |header: Option<Vec<u8>>| {
        service
            .get_current_user_at(CurrentUserFlow::start(header), StoreReply::Connected, 1_500)
            .into_outcome()
    };

    assert_eq!(
        step(None),
        Some(Err(failure(ErrorCode::MissingAuthHeader, "Missing Authorization header")))
    );
    assert_eq!(
        step(Some(vec![0x42, 0x65, 0x61, 0x72, 0x65, 0x72, 0x20, 0xff])),
        Some(Err(failure(ErrorCode::InvalidAuthHeader, "Invalid Authorization header")))
    );
    assert_eq!(
        step(Some(b"Basic abc".to_vec())),
        Some(Err(failure(ErrorCode::InvalidAuthFormat, "Invalid Authorization format")))
    );
    assert_eq!(step(bearer("xyz")), Some(Err(failure(ErrorCode::InvalidToken, "Invalid token"))));
    assert_eq!(step(bearer("")), Some(Err(failure(ErrorCode::InvalidToken, "Invalid token"))));
    assert_eq!(step(bearer(&token)), None);

    let outcome = service
        .get_current_user_at(CurrentUserFlow::start(bearer(&token)), StoreReply::ConnectionFailed, 1_500)
        .into_outcome()
        .unwrap();
    assert_eq!(outcome, Err(failure(ErrorCode::DbConnectionError, "Database connection failed")));
    assert_eq!(me(outcome).status, 500);

    let waiting = || service.get_current_user_at(CurrentUserFlow::start(bearer(&token)), StoreReply::Connected, 1_500);
    let outcome = service.get_current_user(waiting(), StoreReply::Absent).into_outcome().unwrap();
    assert_eq!(outcome, Err(failure(ErrorCode::UserNotFound, "User not found")));
    assert_eq!(me(outcome).status, 404);
    let outcome = service.get_current_user(waiting(), StoreReply::QueryFailed).into_outcome().unwrap();
    assert_eq!(outcome, Err(failure(ErrorCode::DbQueryError, "Database query failed")));
    assert_eq!(me(outcome).status, 500);
}

#[test]
fn current_user_rejects_a_subject_that_is_no_identity() {
    let service = service();
    let mut body = serde_json::Map::new();
    body.insert("sub".to_string(), serde_json::Value::from("not-a-uuid"));
    body.insert("email".to_string(), serde_json::Value::from("john@example.com"));
    body.insert("exp".to_string(), serde_json::Value::from(2_000u64));
    body.insert("iat".to_string(), serde_json::Value::from(1_000u64));
    let token = jsonwebtoken::encode(
        &jsonwebtoken::Header::default(),
        &body,
        &jsonwebtoken::EncodingKey::from_secret(SECRET.as_bytes()),
    )
    .unwrap();
    let outcome = service
        .get_current_user_at(CurrentUserFlow::start(bearer(&token)), StoreReply::Connected, 1_500)
        .into_outcome()
        .unwrap();
    assert_eq!(outcome, Err(failure(ErrorCode::InvalidUserId, "Invalid user ID in token")));
    assert_eq!(me(outcome).status, 500);

    body.insert("sub".to_string(), serde_json::Value::from("550E8400E29B41D4A716446655440000"));
    let token = jsonwebtoken::encode(
        &jsonwebtoken::Header::default(),
        &body,
        &jsonwebtoken::EncodingKey::from_secret(SECRET.as_bytes()),
    )
    .unwrap();
    let flow = service.get_current_user_at(CurrentUserFlow::start(bearer(&token)), StoreReply::Connected, 1_500);
    assert_eq!(
        flow.pending(),
        Some(StoreRequest::FindUserById { id: UserId { bits: 0x550e8400_e29b_41d4_a716_446655440000 } })
    );
    assert_eq!(
        service.identify_at(Some(format!("Bearer {}", token).as_bytes()), 1_500),
        Ok(UserId { bits: 0x550e8400_e29b_41d4_a716_446655440000 })
    );
}

#[test]
fn finished_flows_stay_finished() {
    let service = service();
    let flow = RegisterFlow::fail(ErrorCode::EmailExists);
    let flow = service.register_user(flow, StoreReply::Connected);
    assert_eq!(flow, RegisterFlow::fail(ErrorCode::EmailExists));
    let flow = LoginFlow::fail(ErrorCode::InvalidCredentials);
    let flow = service.login_user(flow, StoreReply::Absent);
    assert_eq!(flow, LoginFlow::fail(ErrorCode::InvalidCredentials));
    let flow = CurrentUserFlow::fail(ErrorCode::UserNotFound);
    let flow = service.get_current_user(flow, StoreReply::QueryFailed);
    assert_eq!(flow, CurrentUserFlow::fail(ErrorCode::UserNotFound));
    assert_eq!(RegisterFlow::start(john_request("x")).into_outcome(), None);
}
