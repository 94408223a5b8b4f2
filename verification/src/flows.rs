//! The three request flows as states. A flow that is not finished waits for
//! the reply to exactly one store request, which its state determines.

use vstd::prelude::*;
use crate::errors::{AuthError, AuthErrorView, ErrorCode};
use crate::models::{
    LoginRequest, LoginRequestView, NewUser, RegisterRequest, RegisterRequestView, TokenResponse,
    TokenResponseView, User, UserId, UserView,
};
use crate::store::{StoreRequest, StoreRequestView};

verus! {

/// How a registration or a login ends, as contracts see it.
pub type GrantView = Result<TokenResponseView, AuthErrorView>;

/// How a current-user request ends, as contracts see it.
pub type ProfileView = Result<UserView, AuthErrorView>;

/// The outcome of a registration or a login, as contracts see it.
pub open spec fn view_grant(outcome: Result<TokenResponse, AuthError>) -> GrantView {
    match outcome {
        Ok(response) => Ok(response@),
        Err(e) => Err(e@),
    }
}

/// The outcome of a current-user request, as contracts see it.
pub open spec fn view_profile(outcome: Result<User, AuthError>) -> ProfileView {
    match outcome {
        Ok(user) => Ok(user@),
        Err(e) => Err(e@),
    }
}

/// A registration under way.
#[derive(Debug, PartialEq, Eq)]
pub enum RegisterFlow {
    /// Waiting for a connection.
    Connecting { data: RegisterRequest },
    /// Waiting to learn whether the address is taken.
    CheckingEmail { data: RegisterRequest },
    /// Waiting for the new record to be stored.
    Inserting { user: NewUser },
    /// Over, with this outcome.
    Finished { outcome: Result<TokenResponse, AuthError> },
}

/// A `RegisterFlow` as contracts see it.
pub enum RegisterFlowView {
    Connecting { data: RegisterRequestView },
    CheckingEmail { data: RegisterRequestView },
    Inserting { user: UserView },
    Finished { outcome: GrantView },
}

impl View for RegisterFlow {
    type V = RegisterFlowView;

    open spec fn view(&self) -> RegisterFlowView {
        match self {
            RegisterFlow::Connecting { data } => RegisterFlowView::Connecting { data: data@ },
            RegisterFlow::CheckingEmail { data } => RegisterFlowView::CheckingEmail { data: data@ },
            RegisterFlow::Inserting { user } => RegisterFlowView::Inserting { user: user@ },
            RegisterFlow::Finished { outcome } => RegisterFlowView::Finished {
                outcome: view_grant(*outcome),
            },
        }
    }
}

impl RegisterFlowView {
    /// The flow that ended in the failure `code`.
    pub open spec fn failed(code: ErrorCode) -> RegisterFlowView {
        RegisterFlowView::Finished { outcome: Err(AuthError::of(code)) }
    }

    /// The store request the flow waits for; none once it is over.
    pub open spec fn pending(self) -> Option<StoreRequestView> {
        match self {
            RegisterFlowView::Connecting { .. } => Some(StoreRequestView::Connect),
            RegisterFlowView::CheckingEmail { data } => Some(
                StoreRequestView::FindUserByEmail { email: data.email },
            ),
            RegisterFlowView::Inserting { user } => Some(StoreRequestView::InsertUser { user }),
            RegisterFlowView::Finished { .. } => None,
        }
    }
}

impl RegisterFlow {
    /// A registration that has not asked anything of the store yet.
    pub fn start(data: RegisterRequest) -> (flow: RegisterFlow)
        ensures
            flow@ == (RegisterFlowView::Connecting { data: data@ }),
    {
        RegisterFlow::Connecting { data }
    }

    /// The flow that ended in the failure `code`.
    pub fn fail(code: ErrorCode) -> (flow: RegisterFlow)
        ensures
            flow@ == RegisterFlowView::failed(code),
    {
        RegisterFlow::Finished { outcome: Err(AuthError::new(code)) }
    }

    /// The store request to perform next; `None` once the flow is over.
    pub fn pending(&self) -> (request: Option<StoreRequest>)
        ensures
            view_request(request) == self@.pending(),
    {
        match self {
            RegisterFlow::Connecting { .. } => Some(StoreRequest::Connect),
            RegisterFlow::CheckingEmail { data } => Some(
                StoreRequest::FindUserByEmail { email: data.email.clone() },
            ),
            RegisterFlow::Inserting { user } => Some(
                StoreRequest::InsertUser {
                    user: NewUser {
                        id: user.id,
                        first_name: user.first_name.clone(),
                        last_name: user.last_name.clone(),
                        email: user.email.clone(),
                        password: user.password.clone(),
                        created_at: user.created_at,
                        updated_at: user.updated_at,
                    },
                },
            ),
            RegisterFlow::Finished { .. } => None,
        }
    }

    /// The outcome of a flow that is over; `None` while it still waits.
    pub fn into_outcome(self) -> (outcome: Option<Result<TokenResponse, AuthError>>)
        ensures
            match outcome {
                Some(o) => self@ == (RegisterFlowView::Finished { outcome: view_grant(o) }),
                None => !(self@ is Finished),
            },
    {
        match self {
            RegisterFlow::Finished { outcome } => Some(outcome),
            _ => None,
        }
    }
}

/// A login under way.
#[derive(Debug, PartialEq, Eq)]
pub enum LoginFlow {
    /// Waiting for a connection.
    Connecting { data: LoginRequest },
    /// Waiting for the user with the given address.
    FindingUser { data: LoginRequest },
    /// Over, with this outcome.
    Finished { outcome: Result<TokenResponse, AuthError> },
}

/// A `LoginFlow` as contracts see it.
pub enum LoginFlowView {
    Connecting { data: LoginRequestView },
    FindingUser { data: LoginRequestView },
    Finished { outcome: GrantView },
}

impl View for LoginFlow {
    type V = LoginFlowView;

    open spec fn view(&self) -> LoginFlowView {
        match self {
            LoginFlow::Connecting { data } => LoginFlowView::Connecting { data: data@ },
            LoginFlow::FindingUser { data } => LoginFlowView::FindingUser { data: data@ },
            LoginFlow::Finished { outcome } => LoginFlowView::Finished {
                outcome: view_grant(*outcome),
            },
        }
    }
}

impl LoginFlowView {
    /// The flow that ended in the failure `code`.
    pub open spec fn failed(code: ErrorCode) -> LoginFlowView {
        LoginFlowView::Finished { outcome: Err(AuthError::of(code)) }
    }

    /// The store request the flow waits for; none once it is over.
    pub open spec fn pending(self) -> Option<StoreRequestView> {
        match self {
            LoginFlowView::Connecting { .. } => Some(StoreRequestView::Connect),
            LoginFlowView::FindingUser { data } => Some(
                StoreRequestView::FindUserByEmail { email: data.email },
            ),
            LoginFlowView::Finished { .. } => None,
        }
    }
}

impl LoginFlow {
    /// A login that has not asked anything of the store yet.
    pub fn start(data: LoginRequest) -> (flow: LoginFlow)
        ensures
            flow@ == (LoginFlowView::Connecting { data: data@ }),
    {
        LoginFlow::Connecting { data }
    }

    /// The flow that ended in the failure `code`.
    pub fn fail(code: ErrorCode) -> (flow: LoginFlow)
        ensures
            flow@ == LoginFlowView::failed(code),
    {
        LoginFlow::Finished { outcome: Err(AuthError::new(code)) }
    }

    /// The store request to perform next; `None` once the flow is over.
    pub fn pending(&self) -> (request: Option<StoreRequest>)
        ensures
            view_request(request) == self@.pending(),
    {
        match self {
            LoginFlow::Connecting { .. } => Some(StoreRequest::Connect),
            LoginFlow::FindingUser { data } => Some(
                StoreRequest::FindUserByEmail { email: data.email.clone() },
            ),
            LoginFlow::Finished { .. } => None,
        }
    }

    /// The outcome of a flow that is over; `None` while it still waits.
    pub fn into_outcome(self) -> (outcome: Option<Result<TokenResponse, AuthError>>)
        ensures
            match outcome {
                Some(o) => self@ == (LoginFlowView::Finished { outcome: view_grant(o) }),
                None => !(self@ is Finished),
            },
    {
        match self {
            LoginFlow::Finished { outcome } => Some(outcome),
            _ => None,
        }
    }
}

/// A current-user request under way.
#[derive(Debug, PartialEq, Eq)]
pub enum CurrentUserFlow {
    /// Waiting for a connection. `header` holds the bytes of the request's
    /// `Authorization` header, if it has one.
    Connecting { header: Option<Vec<u8>> },
    /// Waiting for the user that the token names.
    FindingUser { id: UserId },
    /// Over, with this outcome.
    Finished { outcome: Result<User, AuthError> },
}

/// A `CurrentUserFlow` as contracts see it.
pub enum CurrentUserFlowView {
    Connecting { header: Option<Seq<u8>> },
    FindingUser { id: UserId },
    Finished { outcome: ProfileView },
}

impl View for CurrentUserFlow {
    type V = CurrentUserFlowView;

    open spec fn view(&self) -> CurrentUserFlowView {
        match self {
            CurrentUserFlow::Connecting { header } => CurrentUserFlowView::Connecting {
                header: match header {
                    Some(value) => Some(value@),
                    None => None,
                },
            },
            CurrentUserFlow::FindingUser { id } => CurrentUserFlowView::FindingUser { id: *id },
            CurrentUserFlow::Finished { outcome } => CurrentUserFlowView::Finished {
                outcome: view_profile(*outcome),
            },
        }
    }
}

impl CurrentUserFlowView {
    /// The flow that ended in the failure `code`.
    pub open spec fn failed(code: ErrorCode) -> CurrentUserFlowView {
        CurrentUserFlowView::Finished { outcome: Err(AuthError::of(code)) }
    }

    /// The store request the flow waits for; none once it is over.
    pub open spec fn pending(self) -> Option<StoreRequestView> {
        match self {
            CurrentUserFlowView::Connecting { .. } => Some(StoreRequestView::Connect),
            CurrentUserFlowView::FindingUser { id } => Some(StoreRequestView::FindUserById { id }),
            CurrentUserFlowView::Finished { .. } => None,
        }
    }
}

impl CurrentUserFlow {
    /// A request that has not asked anything of the store yet.
    pub fn start(header: Option<Vec<u8>>) -> (flow: CurrentUserFlow)
        ensures
            flow@ == (CurrentUserFlowView::Connecting {
                header: match header {
                    Some(value) => Some(value@),
                    None => None,
                },
            }),
    {
        CurrentUserFlow::Connecting { header }
    }

    /// The flow that ended in the failure `code`.
    pub fn fail(code: ErrorCode) -> (flow: CurrentUserFlow)
        ensures
            flow@ == CurrentUserFlowView::failed(code),
    {
        CurrentUserFlow::Finished { outcome: Err(AuthError::new(code)) }
    }

    /// The store request to perform next; `None` once the flow is over.
    pub fn pending(&self) -> (request: Option<StoreRequest>)
        ensures
            view_request(request) == self@.pending(),
    {
        match self {
            CurrentUserFlow::Connecting { .. } => Some(StoreRequest::Connect),
            CurrentUserFlow::FindingUser { id } => Some(StoreRequest::FindUserById { id: *id }),
            CurrentUserFlow::Finished { .. } => None,
        }
    }

    /// The outcome of a flow that is over; `None` while it still waits.
    pub fn into_outcome(self) -> (outcome: Option<Result<User, AuthError>>)
        ensures
            match outcome {
                Some(o) => self@ == (CurrentUserFlowView::Finished { outcome: view_profile(o) }),
                None => !(self@ is Finished),
            },
    {
        match self {
            CurrentUserFlow::Finished { outcome } => Some(outcome),
            _ => None,
        }
    }
}

/// A request that may be pending, as contracts see it.
pub open spec fn view_request(request: Option<StoreRequest>) -> Option<StoreRequestView> {
    match request {
        Some(r) => Some(r@),
        None => None,
    }
}

} // verus!
