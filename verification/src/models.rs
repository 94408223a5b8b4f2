//! The records that the authentication flows read and produce, each with the
//! mathematical value that contracts speak of.

use vstd::prelude::*;
use chrono::NaiveDateTime;
use crate::trusted::{
    clock_naive_utc, clock_timestamp, uuid_fresh, uuid_parsed, uuid_text, uuid_to_text,
};

verus! {

/// The identity of a user: the 128 bits of a UUID.
#[derive(Clone, Copy, Debug, PartialEq, Eq, Structural)]
pub struct UserId {
    pub bits: u128,
}

/// What a client sends to log in.
#[derive(Clone, Debug, PartialEq, Eq)]
pub struct LoginRequest {
    pub email: String,
    pub password: String,
}

/// A `LoginRequest` as contracts see it.
pub struct LoginRequestView {
    pub email: Seq<char>,
    pub password: Seq<char>,
}

impl View for LoginRequest {
    type V = LoginRequestView;

    open spec fn view(&self) -> LoginRequestView {
        LoginRequestView { email: self.email@, password: self.password@ }
    }
}

/// What a client sends to open an account.
#[derive(Clone, Debug, PartialEq, Eq)]
pub struct RegisterRequest {
    pub first_name: String,
    pub last_name: String,
    pub email: String,
    pub password: String,
    pub confirm_password: String,
}

/// A `RegisterRequest` as contracts see it.
pub struct RegisterRequestView {
    pub first_name: Seq<char>,
    pub last_name: Seq<char>,
    pub email: Seq<char>,
    pub password: Seq<char>,
    pub confirm_password: Seq<char>,
}

impl View for RegisterRequest {
    type V = RegisterRequestView;

    open spec fn view(&self) -> RegisterRequestView {
        RegisterRequestView {
            first_name: self.first_name@,
            last_name: self.last_name@,
            email: self.email@,
            password: self.password@,
            confirm_password: self.confirm_password@,
        }
    }
}

impl RegisterRequestView {
    /// The password and its confirmation are the same text.
    pub open spec fn passwords_agree(self) -> bool {
        self.password == self.confirm_password
    }
}

/// A stored user, password hash included.
#[derive(Debug, PartialEq, Eq)]
pub struct User {
    pub id: UserId,
    pub first_name: String,
    pub last_name: String,
    pub email: String,
    pub password: String,
    pub created_at: NaiveDateTime,
    pub updated_at: NaiveDateTime,
}

/// A user record, stored or about to be, as contracts see it.
pub struct UserView {
    pub id: UserId,
    pub first_name: Seq<char>,
    pub last_name: Seq<char>,
    pub email: Seq<char>,
    pub password: Seq<char>,
    pub created_at: NaiveDateTime,
    pub updated_at: NaiveDateTime,
}

impl View for User {
    type V = UserView;

    open spec fn view(&self) -> UserView {
        UserView {
            id: self.id,
            first_name: self.first_name@,
            last_name: self.last_name@,
            email: self.email@,
            password: self.password@,
            created_at: self.created_at,
            updated_at: self.updated_at,
        }
    }
}

impl UserView {
    /// The part of a user that may leave the service: everything but the
    /// password hash and the timestamps.
    pub open spec fn info(self) -> UserInfoView {
        UserInfoView {
            id: self.id,
            first_name: self.first_name,
            last_name: self.last_name,
            email: self.email,
        }
    }
}

impl User {
    /// The projection of this user that is safe to show a client.
    pub fn into_info(self) -> (info: UserInfo)
        ensures
            info@ == self@.info(),
    {
        UserInfo {
            id: self.id,
            first_name: self.first_name,
            last_name: self.last_name,
            email: self.email,
        }
    }
}

/// A user about to be stored. The store keeps it as a `User` with the same
/// fields.
#[derive(Debug, PartialEq, Eq)]
pub struct NewUser {
    pub id: UserId,
    pub first_name: String,
    pub last_name: String,
    pub email: String,
    pub password: String,
    pub created_at: NaiveDateTime,
    pub updated_at: NaiveDateTime,
}

impl View for NewUser {
    type V = UserView;

    open spec fn view(&self) -> UserView {
        UserView {
            id: self.id,
            first_name: self.first_name@,
            last_name: self.last_name@,
            email: self.email@,
            password: self.password@,
            created_at: self.created_at,
            updated_at: self.updated_at,
        }
    }
}

impl NewUser {
    /// The record that `assemble` builds.
    pub open spec fn assembled(
        id: UserId,
        first_name: Seq<char>,
        last_name: Seq<char>,
        email: Seq<char>,
        password: Seq<char>,
        now: NaiveDateTime,
    ) -> UserView {
        UserView { id, first_name, last_name, email, password, created_at: now, updated_at: now }
    }

    /// A record for a new account, with an identity drawn at random and both
    /// timestamps read once from the clock. `password` is stored as given, so
    /// it has to be a hash already.
    pub fn new(first_name: String, last_name: String, email: String, password: String) -> (user: NewUser)
        ensures
            user@ == Self::assembled(
                user.id,
                first_name@,
                last_name@,
                email@,
                password@,
                user.created_at,
            ),
    {
        let id = UserId { bits: uuid_fresh() };
        let now = clock_naive_utc();
        Self::assemble(id, first_name, last_name, email, password, now)
    }

    /// A record for a new account under the identity `id`, created and last
    /// updated at `now`.
    pub fn assemble(
        id: UserId,
        first_name: String,
        last_name: String,
        email: String,
        password: String,
        now: NaiveDateTime,
    ) -> (user: NewUser)
        ensures
            user@ == Self::assembled(id, first_name@, last_name@, email@, password@, now),
    {
        NewUser { id, first_name, last_name, email, password, created_at: now, updated_at: now }
    }

    /// The stored form of this record: every field unchanged.
    pub fn into_user(self) -> (user: User)
        ensures
            user@ == self@,
    {
        User {
            id: self.id,
            first_name: self.first_name,
            last_name: self.last_name,
            email: self.email,
            password: self.password,
            created_at: self.created_at,
            updated_at: self.updated_at,
        }
    }
}

/// The part of a user that is returned to clients. It has no password field.
#[derive(Clone, Debug, PartialEq, Eq)]
pub struct UserInfo {
    pub id: UserId,
    pub first_name: String,
    pub last_name: String,
    pub email: String,
}

/// An `UserInfo` as contracts see it.
pub struct UserInfoView {
    pub id: UserId,
    pub first_name: Seq<char>,
    pub last_name: Seq<char>,
    pub email: Seq<char>,
}

impl View for UserInfo {
    type V = UserInfoView;

    open spec fn view(&self) -> UserInfoView {
        UserInfoView {
            id: self.id,
            first_name: self.first_name@,
            last_name: self.last_name@,
            email: self.email@,
        }
    }
}

/// What a successful registration or login returns.
#[derive(Clone, Debug, PartialEq, Eq)]
pub struct TokenResponse {
    pub token: String,
    pub token_type: String,
    pub expires_in: i64,
    pub user: UserInfo,
}

/// A `TokenResponse` as contracts see it.
pub struct TokenResponseView {
    pub token: Seq<char>,
    pub token_type: Seq<char>,
    pub expires_in: int,
    pub user: UserInfoView,
}

impl View for TokenResponse {
    type V = TokenResponseView;

    open spec fn view(&self) -> TokenResponseView {
        TokenResponseView {
            token: self.token@,
            token_type: self.token_type@,
            expires_in: self.expires_in as int,
            user: self.user@,
        }
    }
}

/// What a token says: who it was issued to, and from when until when it
/// holds. Times are whole seconds since the Unix epoch, UTC.
#[derive(Clone, Debug, PartialEq, Eq)]
pub struct Claims {
    pub sub: String,
    pub email: String,
    pub exp: usize,
    pub iat: usize,
}

/// `Claims` as contracts see them.
pub struct ClaimsView {
    pub sub: Seq<char>,
    pub email: Seq<char>,
    pub exp: nat,
    pub iat: nat,
}

impl View for Claims {
    type V = ClaimsView;

    open spec fn view(&self) -> ClaimsView {
        ClaimsView { sub: self.sub@, email: self.email@, exp: self.exp as nat, iat: self.iat as nat }
    }
}

impl ClaimsView {
    /// The claims of a token for the user `id` with address `email`, issued at
    /// `iat` and expiring at `exp`.
    pub open spec fn issued(id: UserId, email: Seq<char>, exp: nat, iat: nat) -> ClaimsView {
        ClaimsView { sub: uuid_text(id.bits), email, exp, iat }
    }

    /// Whether the claims still hold at `now`: strictly before the expiry
    /// instant.
    pub open spec fn live_at(self, now: nat) -> bool {
        now < self.exp
    }
}

impl Claims {
    /// Claims for `user_id` that expire at `exp`, issued at the current time.
    pub fn new(user_id: UserId, email: String, exp: usize) -> (claims: Claims)
        ensures
            claims@ == ClaimsView::issued(user_id, email@, exp as nat, claims.iat as nat),
            uuid_parsed(claims@.sub) == Some(user_id.bits),
    {
        let now = clock_timestamp();
        Self::issued_at(user_id, email, exp, now)
    }

    /// Claims for `user_id` that expire at `exp`, issued at `iat`. The subject
    /// is the text of the identity, and reads back as that identity.
    pub fn issued_at(user_id: UserId, email: String, exp: usize, iat: usize) -> (claims: Claims)
        ensures
            claims@ == ClaimsView::issued(user_id, email@, exp as nat, iat as nat),
            uuid_parsed(claims@.sub) == Some(user_id.bits),
    {
        Claims { sub: uuid_to_text(user_id.bits), email, exp, iat }
    }
}

} // verus!
