//! The token codec's checks on what a decoded token holds.

use vstd::prelude::*;
use crate::errors::TokenInvalid;
use crate::models::{Claims, ClaimsView};

verus! {

/// The body of a token whose signature was verified, before anything in it is
/// trusted: each claim is present only if the body held it with the right
/// type.
#[derive(Clone, Debug, PartialEq, Eq)]
pub struct TokenPayload {
    pub sub: Option<String>,
    pub email: Option<String>,
    pub exp: Option<u64>,
    pub iat: Option<u64>,
}

/// A `TokenPayload` as contracts see it.
pub struct TokenPayloadView {
    pub sub: Option<Seq<char>>,
    pub email: Option<Seq<char>>,
    pub exp: Option<u64>,
    pub iat: Option<u64>,
}

impl View for TokenPayload {
    type V = TokenPayloadView;

    open spec fn view(&self) -> TokenPayloadView {
        TokenPayloadView {
            sub: match self.sub {
                Some(s) => Some(s@),
                None => None,
            },
            email: match self.email {
                Some(s) => Some(s@),
                None => None,
            },
            exp: self.exp,
            iat: self.iat,
        }
    }
}

impl TokenPayloadView {
    /// The body of a token that carries `claims`.
    pub open spec fn of_claims(claims: ClaimsView) -> TokenPayloadView {
        TokenPayloadView {
            sub: Some(claims.sub),
            email: Some(claims.email),
            exp: Some(claims.exp as u64),
            iat: Some(claims.iat as u64),
        }
    }

    /// Whether all four claims are there and both times fit the machine's
    /// word.
    pub open spec fn complete(self) -> bool {
        &&& self.sub is Some
        &&& self.email is Some
        &&& self.exp matches Some(exp) && exp <= usize::MAX
        &&& self.iat matches Some(iat) && iat <= usize::MAX
    }

    /// The claims of a complete body.
    pub open spec fn claims(self) -> ClaimsView
        recommends
            self.complete(),
    {
        ClaimsView {
            sub: self.sub->0,
            email: self.email->0,
            exp: self.exp->0 as nat,
            iat: self.iat->0 as nat,
        }
    }

    /// What validation at the instant `now` makes of a verified body: its
    /// claims if it is complete and not yet expired, and a rejection
    /// otherwise.
    pub open spec fn checked_at(self, now: nat) -> Result<ClaimsView, TokenInvalid> {
        if self.complete() && self.claims().live_at(now) {
            Ok(self.claims())
        } else {
            Err(TokenInvalid)
        }
    }
}

impl TokenPayload {
    /// Decides whether a verified body stands at the instant `now`. A body
    /// that lacks a claim is rejected, and so is one whose expiry is not
    /// strictly after `now`.
    pub fn check(self, now: usize) -> (res: Result<Claims, TokenInvalid>)
        ensures
            match res {
                Ok(claims) => self@.checked_at(now as nat) == Ok::<ClaimsView, TokenInvalid>(claims@),
                Err(e) => self@.checked_at(now as nat) == Err::<ClaimsView, TokenInvalid>(e),
            },
    {
        let TokenPayload { sub, email, exp, iat } = self;
        match (sub, email, exp, iat) {
            (Some(sub), Some(email), Some(exp), Some(iat)) => {
                if exp > usize::MAX as u64 || iat > usize::MAX as u64 {
                    return Err(TokenInvalid);
                }
                if now as u64 >= exp {
                    return Err(TokenInvalid);
                }
                Ok(Claims { sub, email, exp: exp as usize, iat: iat as usize })
            },
            _ => Err(TokenInvalid),
        }
    }
}

} // verus!
