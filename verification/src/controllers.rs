//! What each endpoint answers for the outcome of its flow: the status and the
//! body of the response. The status of a failure is read from one table, by
//! endpoint and code.

use vstd::prelude::*;
use crate::errors::{AuthError, AuthErrorView, ErrorCategory, ErrorCode};
use crate::flows::{view_grant, view_profile, GrantView, ProfileView};
use crate::models::{TokenResponse, TokenResponseView, User, UserInfo, UserInfoView};

verus! {

/// The endpoints of the authentication service.
#[derive(Clone, Copy, Debug, PartialEq, Eq, Structural)]
pub enum Endpoint {
    Register,
    Login,
    Me,
    Logout,
}

impl Endpoint {
    /// The status of a response that reports success.
    pub open spec fn spec_success_status(self) -> u16 {
        match self {
            Endpoint::Register => 201,
            _ => 200,
        }
    }

    /// The status of a response that reports the failure `code`. An endpoint
    /// answers the codes that its own flow can end with by their kind, and
    /// anything else as a server error.
    pub open spec fn spec_failure_status(self, code: ErrorCode) -> u16 {
        match self {
            Endpoint::Register => match code {
                ErrorCode::EmailExists => 409,
                ErrorCode::PasswordMismatch => 400,
                _ => 500,
            },
            Endpoint::Login => match code {
                ErrorCode::InvalidCredentials => 401,
                _ => 500,
            },
            Endpoint::Me => match code {
                ErrorCode::MissingAuthHeader
                | ErrorCode::InvalidToken
                | ErrorCode::InvalidAuthHeader
                | ErrorCode::InvalidAuthFormat => 401,
                ErrorCode::UserNotFound => 404,
                _ => 500,
            },
            Endpoint::Logout => 500,
        }
    }

    /// The status of a response that reports success.
    #[verifier::when_used_as_spec(spec_success_status)]
    pub fn success_status(self) -> (status: u16)
        ensures
            status == self.spec_success_status(),
    {
        match self {
            Endpoint::Register => 201,
            _ => 200,
        }
    }

    /// The status of a response that reports the failure `code`.
    #[verifier::when_used_as_spec(spec_failure_status)]
    pub fn failure_status(self, code: ErrorCode) -> (status: u16)
        ensures
            status == self.spec_failure_status(code),
    {
        match self {
            Endpoint::Register => match code {
                ErrorCode::EmailExists => 409,
                ErrorCode::PasswordMismatch => 400,
                _ => 500,
            },
            Endpoint::Login => match code {
                ErrorCode::InvalidCredentials => 401,
                _ => 500,
            },
            Endpoint::Me => match code {
                ErrorCode::MissingAuthHeader
                | ErrorCode::InvalidToken
                | ErrorCode::InvalidAuthHeader
                | ErrorCode::InvalidAuthFormat => 401,
                ErrorCode::UserNotFound => 404,
                _ => 500,
            },
            Endpoint::Logout => 500,
        }
    }
}

/// The body of a response.
#[derive(Clone, Debug, PartialEq, Eq)]
pub enum Body {
    /// A token with the user it was issued to.
    Grant { response: TokenResponse },
    /// A user, without the password hash.
    Profile { user: UserInfo },
    /// A failure: message and code.
    Failure { error: AuthError },
    /// A sentence for the client.
    Notice { message: String },
}

/// A `Body` as contracts see it.
pub enum BodyView {
    Grant { response: TokenResponseView },
    Profile { user: UserInfoView },
    Failure { error: AuthErrorView },
    Notice { message: Seq<char> },
}

impl View for Body {
    type V = BodyView;

    open spec fn view(&self) -> BodyView {
        match self {
            Body::Grant { response } => BodyView::Grant { response: response@ },
            Body::Profile { user } => BodyView::Profile { user: user@ },
            Body::Failure { error } => BodyView::Failure { error: error@ },
            Body::Notice { message } => BodyView::Notice { message: message@ },
        }
    }
}

/// A response: status and body.
#[derive(Clone, Debug, PartialEq, Eq)]
pub struct Reply {
    pub status: u16,
    pub body: Body,
}

/// A `Reply` as contracts see it.
pub struct ReplyView {
    pub status: u16,
    pub body: BodyView,
}

impl View for Reply {
    type V = ReplyView;

    open spec fn view(&self) -> ReplyView {
        ReplyView { status: self.status, body: self.body@ }
    }
}

impl ReplyView {
    /// The response that reports `error` at `endpoint`.
    pub open spec fn failure(endpoint: Endpoint, error: AuthErrorView) -> ReplyView {
        ReplyView {
            status: endpoint.spec_failure_status(error.code),
            body: BodyView::Failure { error },
        }
    }

    /// The response to a registration or a login at `endpoint`.
    pub open spec fn grant(endpoint: Endpoint, outcome: GrantView) -> ReplyView {
        match outcome {
            Ok(response) => ReplyView {
                status: endpoint.spec_success_status(),
                body: BodyView::Grant { response },
            },
            Err(error) => Self::failure(endpoint, error),
        }
    }

    /// The response to a current-user request: the user without the
    /// password hash.
    pub open spec fn profile(outcome: ProfileView) -> ReplyView {
        match outcome {
            Ok(user) => ReplyView {
                status: Endpoint::Me.spec_success_status(),
                body: BodyView::Profile { user: user.info() },
            },
            Err(error) => Self::failure(Endpoint::Me, error),
        }
    }

    /// The response to a logout. Tokens are not kept on the server, so
    /// there is nothing to revoke: the client is told to forget its token.
    pub open spec fn farewell() -> ReplyView {
        ReplyView {
            status: Endpoint::Logout.spec_success_status(),
            body: BodyView::Notice {
                message: "Logout successful. Please delete the token from client storage."@,
            },
        }
    }
}

/// The response to a registration.
pub fn register(outcome: Result<TokenResponse, AuthError>) -> (reply: Reply)
    ensures
        reply@ == ReplyView::grant(Endpoint::Register, view_grant(outcome)),
{
    match outcome {
        Ok(response) => Reply {
            status: Endpoint::Register.success_status(),
            body: Body::Grant { response },
        },
        Err(error) => Reply {
            status: Endpoint::Register.failure_status(error.code),
            body: Body::Failure { error },
        },
    }
}

/// The response to a login.
pub fn login(outcome: Result<TokenResponse, AuthError>) -> (reply: Reply)
    ensures
        reply@ == ReplyView::grant(Endpoint::Login, view_grant(outcome)),
{
    match outcome {
        Ok(response) => Reply {
            status: Endpoint::Login.success_status(),
            body: Body::Grant { response },
        },
        Err(error) => Reply {
            status: Endpoint::Login.failure_status(error.code),
            body: Body::Failure { error },
        },
    }
}

/// The response to a current-user request. The password hash stays behind.
pub fn me(outcome: Result<User, AuthError>) -> (reply: Reply)
    ensures
        reply@ == ReplyView::profile(view_profile(outcome)),
{
    match outcome {
        Ok(user) => Reply {
            status: Endpoint::Me.success_status(),
            body: Body::Profile { user: user.into_info() },
        },
        Err(error) => Reply {
            status: Endpoint::Me.failure_status(error.code),
            body: Body::Failure { error },
        },
    }
}

/// The response to a logout.
pub fn logout() -> (reply: Reply)
    ensures
        reply@ == ReplyView::farewell(),
{
    Reply {
        status: Endpoint::Logout.success_status(),
        body: Body::Notice {
            message: "Logout successful. Please delete the token from client storage.".to_owned(),
        },
    }
}

/// A failure that something the service depends on caused is answered as a
/// server error at every endpoint, and every failure is answered with one of
/// five statuses.
pub proof fn failure_statuses(endpoint: Endpoint, code: ErrorCode)
    ensures
        code.spec_category() == ErrorCategory::Infrastructure ==> endpoint.spec_failure_status(code)
            == 500,
        ({
            let status = endpoint.spec_failure_status(code);
            status == 400 || status == 401 || status == 404 || status == 409 || status == 500
        }),
{
}

} // verus!
