use finstack_api::auth_service::AuthService;
use finstack_api::errors::HashingFailure;

#[test]
fn hash_then_verify_accepts_the_same_password() {
    let hash = AuthService::hash_password("password123").unwrap();
    assert_eq!(AuthService::verify_password("password123", &hash), Ok(true));
}

#[test]
fn hash_then_verify_rejects_another_password() {
    let hash = AuthService::hash_password("password123").unwrap();
    assert_eq!(AuthService::verify_password("password124", &hash), Ok(false));
    assert_eq!(AuthService::verify_password("", &hash), Ok(false));
}

#[test]
fn verify_tells_passwords_apart_under_a_known_hash() {
    let hash = "$2b$04$EGdrhbKUv8Oc9vGiXX0HQOxSg445d458Muh7DAHskb6QbtCvdxcie";
    assert_eq!(AuthService::verify_password("correctbatteryhorsestapler", hash), Ok(true));
    assert_eq!(AuthService::verify_password("correctbatteryhorsestaple", hash), Ok(false));
    assert_eq!(AuthService::verify_password("correctbatteryhorsestaplerr", hash), Ok(false));
    assert_eq!(AuthService::verify_password("Correctbatteryhorsestapler", hash), Ok(false));
}

#[test]
fn hash_describes_itself() {
    let hash = AuthService::hash_password("password123").unwrap();
    assert_ne!(hash, "password123");
    assert_eq!(hash.len(), 60);
    assert!(hash.starts_with("$2b$12$"));
}

#[test]
fn two_hashes_of_one_password_differ() {
    let first = AuthService::hash_password("s3cret").unwrap();
    let second = AuthService::hash_password("s3cret").unwrap();
    assert_ne!(first, second);
    assert_eq!(AuthService::verify_password("s3cret", &second), Ok(true));
}

#[test]
fn empty_password_hashes_and_verifies() {
    let empty = AuthService::hash_password("").unwrap();
    assert_eq!(AuthService::verify_password("", &empty), Ok(true));
    assert_eq!(AuthService::verify_password("x", &empty), Ok(false));
}

#[test]
fn long_password_hashes_and_verifies() {
    let long = "a".repeat(100);
    let hash = AuthService::hash_password(&long).unwrap();
    assert_eq!(AuthService::verify_password(&long, &hash), Ok(true));
}

#[test]
fn non_ascii_password_hashes_and_verifies() {
    let hash = AuthService::hash_password("p\u{e4}ssw\u{f6}rd \u{1f511}").unwrap();
    assert_eq!(AuthService::verify_password("p\u{e4}ssw\u{f6}rd \u{1f511}", &hash), Ok(true));
    assert_eq!(AuthService::verify_password("password", &hash), Ok(false));
}

#[test]
fn verify_accepts_a_known_hash() {
    let hash = "$2a$04$UuTkLRZZ6QofpDOlMz32MuuxEHA43WOemOYHPz6.SjsVsyO1tDU96";
    assert_eq!(AuthService::verify_password("password", hash), Ok(true));
    assert_eq!(AuthService::verify_password("Password", hash), Ok(false));
}

#[test]
fn verify_fails_on_a_malformed_hash() {
    assert_eq!(AuthService::verify_password("password", "not-a-hash"), Err(HashingFailure));
    assert_eq!(AuthService::verify_password("password", ""), Err(HashingFailure));
    assert_eq!(
        AuthService::verify_password("password", "$2a$04$tjARW6ZON3PhrAIRW2LG/u9a."),
        Err(HashingFailure)
    );
}

#[test]
fn hasher_answers_are_handed_on() {
    assert_eq!(AuthService::hashed(Ok("the-hash".to_string())), Ok("the-hash".to_string()));
    assert_eq!(
        AuthService::hashed(Err(bcrypt::BcryptError::InvalidHash("x".to_string()))),
        Err(HashingFailure)
    );
    assert_eq!(AuthService::hashed(Err(bcrypt::BcryptError::CostNotAllowed(3))), Err(HashingFailure));
}
