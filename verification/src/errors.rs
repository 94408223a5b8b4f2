//! The closed set of failure codes and the record that carries one to a caller.

use vstd::prelude::*;

verus! {

/// Every way an authentication request can fail.
#[derive(Clone, Copy, Debug, PartialEq, Eq, Structural)]
pub enum ErrorCode {
    PasswordMismatch,
    InvalidAuthFormat,
    MissingAuthHeader,
    InvalidAuthHeader,
    InvalidUserId,
    InvalidCredentials,
    InvalidToken,
    EmailExists,
    UserNotFound,
    DbConnectionError,
    DbQueryError,
    UserCreationError,
    HashError,
    VerificationError,
    TokenError,
}

/// How a failure is classified when it is reported.
#[derive(Clone, Copy, Debug, PartialEq, Eq, Structural)]
pub enum ErrorCategory {
    /// The request itself was malformed; repeating it unchanged cannot help.
    Validation,
    /// The caller did not prove an identity.
    Authentication,
    /// The request conflicts with, or names, a record that decides it.
    Resource,
    /// Something the service depends on failed.
    Infrastructure,
}

impl ErrorCode {
    /// The machine-readable name of the code.
    pub open spec fn name(self) -> Seq<char> {
        match self {
            ErrorCode::PasswordMismatch => "PASSWORD_MISMATCH"@,
            ErrorCode::InvalidAuthFormat => "INVALID_AUTH_FORMAT"@,
            ErrorCode::MissingAuthHeader => "MISSING_AUTH_HEADER"@,
            ErrorCode::InvalidAuthHeader => "INVALID_AUTH_HEADER"@,
            ErrorCode::InvalidUserId => "INVALID_USER_ID"@,
            ErrorCode::InvalidCredentials => "INVALID_CREDENTIALS"@,
            ErrorCode::InvalidToken => "INVALID_TOKEN"@,
            ErrorCode::EmailExists => "EMAIL_EXISTS"@,
            ErrorCode::UserNotFound => "USER_NOT_FOUND"@,
            ErrorCode::DbConnectionError => "DB_CONNECTION_ERROR"@,
            ErrorCode::DbQueryError => "DB_QUERY_ERROR"@,
            ErrorCode::UserCreationError => "USER_CREATION_ERROR"@,
            ErrorCode::HashError => "HASH_ERROR"@,
            ErrorCode::VerificationError => "VERIFICATION_ERROR"@,
            ErrorCode::TokenError => "TOKEN_ERROR"@,
        }
    }

    /// The human-readable sentence that accompanies the code.
    pub open spec fn message(self) -> Seq<char> {
        match self {
            ErrorCode::PasswordMismatch => "Passwords do not match"@,
            ErrorCode::InvalidAuthFormat => "Invalid Authorization format"@,
            ErrorCode::MissingAuthHeader => "Missing Authorization header"@,
            ErrorCode::InvalidAuthHeader => "Invalid Authorization header"@,
            ErrorCode::InvalidUserId => "Invalid user ID in token"@,
            ErrorCode::InvalidCredentials => "Invalid credentials"@,
            ErrorCode::InvalidToken => "Invalid token"@,
            ErrorCode::EmailExists => "Email already exists"@,
            ErrorCode::UserNotFound => "User not found"@,
            ErrorCode::DbConnectionError => "Database connection failed"@,
            ErrorCode::DbQueryError => "Database query failed"@,
            ErrorCode::UserCreationError => "Failed to create user"@,
            ErrorCode::HashError => "Password hashing failed"@,
            ErrorCode::VerificationError => "Password verification failed"@,
            ErrorCode::TokenError => "Token generation failed"@,
        }
    }

    /// The class a code belongs to.
    pub open spec fn spec_category(self) -> ErrorCategory {
        match self {
            ErrorCode::PasswordMismatch
            | ErrorCode::InvalidAuthFormat
            | ErrorCode::MissingAuthHeader
            | ErrorCode::InvalidAuthHeader
            | ErrorCode::InvalidUserId => ErrorCategory::Validation,
            ErrorCode::InvalidCredentials | ErrorCode::InvalidToken => ErrorCategory::Authentication,
            ErrorCode::EmailExists | ErrorCode::UserNotFound => ErrorCategory::Resource,
            ErrorCode::DbConnectionError
            | ErrorCode::DbQueryError
            | ErrorCode::UserCreationError
            | ErrorCode::HashError
            | ErrorCode::VerificationError
            | ErrorCode::TokenError => ErrorCategory::Infrastructure,
        }
    }

    /// The class the code belongs to.
    #[verifier::when_used_as_spec(spec_category)]
    pub fn category(self) -> (c: ErrorCategory)
        ensures
            c == self.spec_category(),
    {
        match self {
            ErrorCode::PasswordMismatch
            | ErrorCode::InvalidAuthFormat
            | ErrorCode::MissingAuthHeader
            | ErrorCode::InvalidAuthHeader
            | ErrorCode::InvalidUserId => ErrorCategory::Validation,
            ErrorCode::InvalidCredentials | ErrorCode::InvalidToken => ErrorCategory::Authentication,
            ErrorCode::EmailExists | ErrorCode::UserNotFound => ErrorCategory::Resource,
            ErrorCode::DbConnectionError
            | ErrorCode::DbQueryError
            | ErrorCode::UserCreationError
            | ErrorCode::HashError
            | ErrorCode::VerificationError
            | ErrorCode::TokenError => ErrorCategory::Infrastructure,
        }
    }

    /// The code's name as text, for the body of a response.
    pub fn as_str(self) -> (text: &'static str)
        ensures
            text@ == self.name(),
    {
        match self {
            ErrorCode::PasswordMismatch => "PASSWORD_MISMATCH",
            ErrorCode::InvalidAuthFormat => "INVALID_AUTH_FORMAT",
            ErrorCode::MissingAuthHeader => "MISSING_AUTH_HEADER",
            ErrorCode::InvalidAuthHeader => "INVALID_AUTH_HEADER",
            ErrorCode::InvalidUserId => "INVALID_USER_ID",
            ErrorCode::InvalidCredentials => "INVALID_CREDENTIALS",
            ErrorCode::InvalidToken => "INVALID_TOKEN",
            ErrorCode::EmailExists => "EMAIL_EXISTS",
            ErrorCode::UserNotFound => "USER_NOT_FOUND",
            ErrorCode::DbConnectionError => "DB_CONNECTION_ERROR",
            ErrorCode::DbQueryError => "DB_QUERY_ERROR",
            ErrorCode::UserCreationError => "USER_CREATION_ERROR",
            ErrorCode::HashError => "HASH_ERROR",
            ErrorCode::VerificationError => "VERIFICATION_ERROR",
            ErrorCode::TokenError => "TOKEN_ERROR",
        }
    }

    /// The sentence that goes with the code.
    pub fn message_text(self) -> (text: &'static str)
        ensures
            text@ == self.message(),
    {
        match self {
            ErrorCode::PasswordMismatch => "Passwords do not match",
            ErrorCode::InvalidAuthFormat => "Invalid Authorization format",
            ErrorCode::MissingAuthHeader => "Missing Authorization header",
            ErrorCode::InvalidAuthHeader => "Invalid Authorization header",
            ErrorCode::InvalidUserId => "Invalid user ID in token",
            ErrorCode::InvalidCredentials => "Invalid credentials",
            ErrorCode::InvalidToken => "Invalid token",
            ErrorCode::EmailExists => "Email already exists",
            ErrorCode::UserNotFound => "User not found",
            ErrorCode::DbConnectionError => "Database connection failed",
            ErrorCode::DbQueryError => "Database query failed",
            ErrorCode::UserCreationError => "Failed to create user",
            ErrorCode::HashError => "Password hashing failed",
            ErrorCode::VerificationError => "Password verification failed",
            ErrorCode::TokenError => "Token generation failed",
        }
    }
}

/// Hashing or verifying a password could not be carried out.
#[derive(Clone, Copy, Debug, PartialEq, Eq, Structural)]
pub struct HashingFailure;

/// A token could not be produced.
#[derive(Clone, Copy, Debug, PartialEq, Eq, Structural)]
pub struct SigningFailure;

/// A token was rejected: its signature does not verify, it is malformed, or
/// it has expired.
#[derive(Clone, Copy, Debug, PartialEq, Eq, Structural)]
pub struct TokenInvalid;

/// What a failed request hands back: a sentence for people and a code for
/// programs. The code alone decides the status of the response.
#[derive(Clone, Debug, PartialEq, Eq)]
pub struct AuthError {
    pub message: String,
    pub code: ErrorCode,
}

/// An `AuthError` as contracts see it.
pub struct AuthErrorView {
    pub message: Seq<char>,
    pub code: ErrorCode,
}

impl View for AuthError {
    type V = AuthErrorView;

    open spec fn view(&self) -> AuthErrorView {
        AuthErrorView { message: self.message@, code: self.code }
    }
}

impl AuthError {
    /// The record every failure with `code` produces.
    pub open spec fn of(code: ErrorCode) -> AuthErrorView {
        AuthErrorView { message: code.message(), code }
    }

    /// Builds the record for `code`, with the sentence that belongs to it.
    pub fn new(code: ErrorCode) -> (e: AuthError)
        ensures
            e@ == Self::of(code),
    {
        AuthError { message: code.message_text().to_owned(), code }
    }
}

} // verus!
