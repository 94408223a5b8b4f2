//! The filter in front of protected routes. It lets a request through with
//! the claims of its token attached, or stops it before any handler runs.

use vstd::prelude::*;
use crate::auth_service::AuthService;
use crate::errors::TokenInvalid;
use crate::models::{Claims, ClaimsView};
use crate::trusted::clock_timestamp;

verus! {

/// The status of the response that stops a request.
pub const UNAUTHORIZED: u16 = 401;

/// What the filter decides for one request.
#[derive(Clone, Debug, PartialEq, Eq)]
pub enum Admission {
    /// The request goes on to its handler, which finds these claims in the
    /// request's context.
    Continue { claims: Claims },
    /// The request ends here, with a response of this status that challenges
    /// the client to authenticate under this scheme and scope.
    Abort { status: u16, scheme: String, scope: String },
}

/// An `Admission` as contracts see it.
pub enum AdmissionView {
    Continue { claims: ClaimsView },
    Abort { status: u16, scheme: Seq<char>, scope: Seq<char> },
}

impl View for Admission {
    type V = AdmissionView;

    open spec fn view(&self) -> AdmissionView {
        match self {
            Admission::Continue { claims } => AdmissionView::Continue { claims: claims@ },
            Admission::Abort { status, scheme, scope } => AdmissionView::Abort {
                status: *status,
                scheme: scheme@,
                scope: scope@,
            },
        }
    }
}

impl AdmissionView {
    /// The one way a request is stopped.
    pub open spec fn challenge() -> AdmissionView {
        AdmissionView::Abort { status: UNAUTHORIZED, scheme: "Bearer"@, scope: "Bearer"@ }
    }
}

/// What the filter decides at the instant `now` for a request with this
/// bearer credential, or with none: through with the token's claims if the
/// token validates, stopped otherwise.
pub open spec fn admission(service: AuthService, credentials: Option<Seq<char>>, now: nat) -> AdmissionView {
    match credentials {
        Some(token) => match service.spec_validate(token, now) {
            Ok(claims) => AdmissionView::Continue { claims },
            Err(_) => AdmissionView::challenge(),
        },
        None => AdmissionView::challenge(),
    }
}

/// The outcome of a validation as the filter's decision.
pub fn decide(validated: Result<Claims, TokenInvalid>) -> (decision: Admission)
    ensures
        decision@ == match validated {
            Ok(claims) => AdmissionView::Continue { claims: claims@ },
            Err(_) => AdmissionView::challenge(),
        },
{
    match validated {
        Ok(claims) => Admission::Continue { claims },
        Err(_) => Admission::Abort {
            status: UNAUTHORIZED,
            scheme: "Bearer".to_owned(),
            scope: "Bearer".to_owned(),
        },
    }
}

/// Decides for one request at the current time.
pub fn jwt_validator(service: &AuthService, credentials: Option<&str>) -> (decision: Admission)
    ensures
        exists|now: nat|
            now <= usize::MAX && decision@ == #[trigger] admission(
                *service,
                credentials_view(credentials),
                now,
            ),
{
    let now = clock_timestamp();
    let decision = jwt_validator_at(service, credentials, now);
    assert(decision@ == admission(*service, credentials_view(credentials), now as nat));
    decision
}

/// Decides for one request at the instant `now`. A request without a bearer
/// credential is stopped like one whose token does not validate.
pub fn jwt_validator_at(service: &AuthService, credentials: Option<&str>, now: usize) -> (decision:
    Admission)
    ensures
        decision@ == admission(*service, credentials_view(credentials), now as nat),
{
    match credentials {
        Some(token) => decide(service.validate_token_at(token, now)),
        None => decide(Err(TokenInvalid)),
    }
}

/// A bearer credential, as contracts see it.
pub open spec fn credentials_view(credentials: Option<&str>) -> Option<Seq<char>> {
    match credentials {
        Some(token) => Some(token@),
        None => None,
    }
}

} // verus!
