//! The authentication service: the credential hasher, the token codec, and the
//! registration, login and current-user flows built on them.

use vstd::prelude::*;
use vstd::utf8::encode_utf8;
use crate::bearer::{bearer_token, extract_token};
use crate::config::{strong_secret, ConfigError, MIN_SECRET_BYTES};
use crate::errors::{AuthError, ErrorCode, HashingFailure, SigningFailure, TokenInvalid};
use crate::flows::{
    view_grant, CurrentUserFlow, CurrentUserFlowView, GrantView, LoginFlow, LoginFlowView,
    RegisterFlow, RegisterFlowView,
};
use crate::models::{
    Claims, ClaimsView, NewUser, RegisterRequest, RegisterRequestView, TokenResponse,
    TokenResponseView, User, UserId, UserView,
};
use crate::store::{StoreReply, StoreReplyView};
use crate::token::TokenPayloadView;
use crate::trusted::{
    bcrypt_hash, bcrypt_verdict, bcrypt_verify, clock_timestamp, hs256_decode, hs256_encode,
    hs256_payload, hs256_token, uuid_parse, uuid_parsed,
};

verus! {

/// How long a token holds unless the service is configured otherwise: 24
/// hours, in seconds.
pub const DEFAULT_TTL_SECONDS: u32 = 86400;

/// The service and its configuration, fixed when the process starts: the
/// secret that signs tokens and the time a token holds. A service cannot be
/// made with a secret shorter than 32 bytes.
pub struct AuthService {
    secret: String,
    ttl_seconds: u32,
}

impl AuthService {
    #[verifier::type_invariant]
    spec fn well_formed(self) -> bool {
        strong_secret(self.secret@)
    }

    /// The signing secret.
    pub closed spec fn secret(&self) -> Seq<char> {
        self.secret@
    }

    /// The lifetime of a token, in seconds.
    pub closed spec fn ttl(&self) -> nat {
        self.ttl_seconds as nat
    }

    /// A service that signs with `secret` and issues tokens for 24 hours;
    /// none where the secret is too short.
    pub fn new(secret: String) -> (res: Result<AuthService, ConfigError>)
        ensures
            match res {
                Ok(service) => strong_secret(secret@) && service.secret() == secret@
                    && service.ttl() == DEFAULT_TTL_SECONDS,
                Err(e) => !strong_secret(secret@) && e == ConfigError::SecretTooShort,
            },
    {
        Self::with_ttl(secret, DEFAULT_TTL_SECONDS)
    }

    /// A service that signs with `secret` and issues tokens for
    /// `ttl_seconds`; none where the secret is too short.
    pub fn with_ttl(secret: String, ttl_seconds: u32) -> (res: Result<AuthService, ConfigError>)
        ensures
            match res {
                Ok(service) => strong_secret(secret@) && service.secret() == secret@
                    && service.ttl() == ttl_seconds,
                Err(e) => !strong_secret(secret@) && e == ConfigError::SecretTooShort,
            },
    {
        if secret.as_str().as_bytes().len() < MIN_SECRET_BYTES {
            Err(ConfigError::SecretTooShort)
        } else {
            Ok(AuthService { secret, ttl_seconds })
        }
    }

    /// The secret a service signs with is never shorter than 32 bytes.
    pub fn secret_bytes(&self) -> (n: usize)
        ensures
            n == encode_utf8(self.secret()).len(),
            n >= MIN_SECRET_BYTES,
            strong_secret(self.secret()),
    {
        proof {
            use_type_invariant(self);
        }
        self.secret.as_str().as_bytes().len()
    }

    /// The configured lifetime of a token, in seconds.
    pub fn ttl_seconds(&self) -> (ttl: u32)
        ensures
            ttl == self.ttl(),
    {
        self.ttl_seconds
    }

    /// What checking `password` against `hash` answers: whether they match,
    /// or a failure where the hash is malformed.
    pub open spec fn spec_verify(password: Seq<char>, hash: Seq<char>) -> Result<
        bool,
        HashingFailure,
    > {
        match bcrypt_verdict(password, hash) {
            Some(matches) => Ok(matches),
            None => Err(HashingFailure),
        }
    }

    /// Hashes a password with a fresh salt. The hash describes itself: it
    /// carries its salt and its cost. Whatever hash comes back, checking the
    /// same password against it answers `true`.
    pub fn hash_password(password: &str) -> (res: Result<String, HashingFailure>)
        ensures
            res matches Ok(hash) ==> Self::spec_verify(password@, hash@) == Ok::<bool, HashingFailure>(
                true,
            ),
    {
        Self::hashed(bcrypt_hash(password))
    }

    /// What hashing hands on of the hasher's answer: the hash as it came, or
    /// the one failure that stands for every error of the hasher.
    pub fn hashed(answer: Result<String, bcrypt::BcryptError>) -> (res: Result<String, HashingFailure>)
        ensures
            match answer {
                Ok(hash) => res matches Ok(same) && same@ == hash@,
                Err(_) => res == Err::<String, HashingFailure>(HashingFailure),
            },
    {
        match answer {
            Ok(hash) => Ok(hash),
            Err(_) => Err(HashingFailure),
        }
    }

    /// Checks a password against a stored hash. A password that does not
    /// match is an answer, `Ok(false)`; only a malformed hash is a failure.
    pub fn verify_password(password: &str, hash: &str) -> (res: Result<bool, HashingFailure>)
        ensures
            res == Self::spec_verify(password@, hash@),
    {
        match bcrypt_verify(password, hash) {
            Ok(matches) => Ok(matches),
            Err(_) => Err(HashingFailure),
        }
    }

    /// The claims of a token issued to `user` at the instant `now`.
    pub open spec fn claims_for(&self, user: UserView, now: nat) -> ClaimsView {
        ClaimsView::issued(user.id, user.email, now + self.ttl(), now)
    }

    /// What issuing a token to `user` at the instant `now` gives: a failure
    /// where the expiry instant cannot be represented or the token cannot be
    /// encoded, else the signed token.
    pub open spec fn spec_issue(&self, user: UserView, now: nat) -> Result<Seq<char>, SigningFailure> {
        if now + self.ttl() > usize::MAX {
            Err(SigningFailure)
        } else {
            match hs256_token(self.claims_for(user, now), self.secret()) {
                Some(token) => Ok(token),
                None => Err(SigningFailure),
            }
        }
    }

    /// Whether `token` is one that decodes, under the service's secret, to
    /// the claims of a token issued to `user` at the instant `now`. Every
    /// token that the service issues is such a token.
    pub open spec fn carries(&self, token: Seq<char>, user: UserView, now: nat) -> bool {
        &&& now + self.ttl() <= usize::MAX
        &&& hs256_payload(token, self.secret()) == Some(
            TokenPayloadView::of_claims(self.claims_for(user, now)),
        )
        &&& uuid_parsed(self.claims_for(user, now).sub) == Some(user.id.bits)
    }

    /// Whether issuing to `user` at the instant `now` keeps its word: the
    /// token, if there is one, decodes to the claims it was issued for.
    pub open spec fn issue_holds(&self, user: UserView, now: nat) -> bool {
        self.spec_issue(user, now) matches Ok(token) ==> self.carries(token, user, now)
    }

    /// What validating `token` at the instant `now` gives: its claims if the
    /// signature verifies under the service's secret, the body holds all four
    /// claims and `now` is strictly before the expiry; a rejection otherwise.
    pub open spec fn spec_validate(&self, token: Seq<char>, now: nat) -> Result<
        ClaimsView,
        TokenInvalid,
    > {
        match hs256_payload(token, self.secret()) {
            Some(payload) => payload.checked_at(now),
            None => Err(TokenInvalid),
        }
    }

    /// Issues a token to `user` at the current time. The token is one that
    /// `generate_token_at` gives for some instant.
    pub fn generate_token(&self, user: &User) -> (res: Result<String, SigningFailure>)
        ensures
            exists|now: nat|
                now <= usize::MAX && #[trigger] self.spec_issue(user@, now) == view_token(res)
                    && self.issue_holds(user@, now),
    {
        let now = clock_timestamp();
        let res = self.generate_token_at(user, now);
        assert(self.spec_issue(user@, now as nat) == view_token(res) && self.issue_holds(
            user@,
            now as nat,
        ));
        res
    }

    /// Issues a token to `user` at the instant `now`: subject and address are
    /// the user's, the token is issued at `now` and expires one lifetime
    /// later.
    pub fn generate_token_at(&self, user: &User, now: usize) -> (res: Result<String, SigningFailure>)
        ensures
            view_token(res) == self.spec_issue(user@, now as nat),
            self.issue_holds(user@, now as nat),
    {
        let ttl = self.ttl_seconds as usize;
        if now > usize::MAX - ttl {
            return Err(SigningFailure);
        }
        let claims = Claims::issued_at(user.id, user.email.clone(), now + ttl, now);
        match hs256_encode(&claims, self.secret.as_str()) {
            Ok(token) => Ok(token),
            Err(_) => Err(SigningFailure),
        }
    }

    /// Validates a token at the current time.
    pub fn validate_token(&self, token: &str) -> (res: Result<Claims, TokenInvalid>)
        ensures
            exists|now: nat| now <= usize::MAX && #[trigger] self.spec_validate(token@, now) == view_claims(res),
    {
        let now = clock_timestamp();
        let res = self.validate_token_at(token, now);
        assert(self.spec_validate(token@, now as nat) == view_claims(res));
        res
    }

    /// Validates a token at the instant `now`. The signature is verified
    /// first; the expiry inside the token is read only after that, and
    /// compared with `now` as it stands, without allowance for clock skew.
    pub fn validate_token_at(&self, token: &str, now: usize) -> (res: Result<Claims, TokenInvalid>)
        ensures
            view_claims(res) == self.spec_validate(token@, now as nat),
    {
        match hs256_decode(token, self.secret.as_str()) {
            Ok(payload) => payload.check(now),
            Err(_) => Err(TokenInvalid),
        }
    }

    /// What a registration or a login returns for `user` once the token is
    /// made or has failed: the token with its label and lifetime and the part
    /// of the user that may be shown, or the failure to make one.
    pub open spec fn spec_envelope(&self, user: UserView, token: Result<Seq<char>, SigningFailure>) -> GrantView {
        match token {
            Ok(token) => Ok(
                TokenResponseView {
                    token,
                    token_type: "Bearer"@,
                    expires_in: self.ttl() as int,
                    user: user.info(),
                },
            ),
            Err(_) => Err(AuthError::of(ErrorCode::TokenError)),
        }
    }

    /// What a registration or a login that reached `user` returns when the
    /// token is issued at the instant `now`.
    pub open spec fn grant_at(&self, user: UserView, now: nat) -> GrantView {
        self.spec_envelope(user, self.spec_issue(user, now))
    }

    /// Wraps a token for `user`, or the failure to make one, into what the
    /// client is sent. The password hash is left behind.
    pub fn envelope(&self, user: User, token: Result<String, SigningFailure>) -> (res: Result<
        TokenResponse,
        AuthError,
    >)
        ensures
            view_grant(res) == self.spec_envelope(user@, view_token(token)),
    {
        match token {
            Ok(token) => Ok(
                TokenResponse {
                    token,
                    token_type: "Bearer".to_owned(),
                    expires_in: self.ttl_seconds as i64,
                    user: user.into_info(),
                },
            ),
            Err(_) => Err(AuthError::new(ErrorCode::TokenError)),
        }
    }

    /// Whether `user` is a record that registration may store for `data`:
    /// names and address are the request's, the two timestamps agree, and
    /// the stored password is a hash that the request's password verifies
    /// against. The identity and the instant are free.
    pub open spec fn enrols(data: RegisterRequestView, user: UserView) -> bool {
        &&& user == NewUser::assembled(
            user.id,
            data.first_name,
            data.last_name,
            data.email,
            user.password,
            user.created_at,
        )
        &&& Self::spec_verify(data.password, user.password) == Ok::<bool, HashingFailure>(true)
    }

    /// Where a registration goes once the password has been hashed, or could
    /// not be: on to storing a record that holds the hash in place of the
    /// password.
    pub fn register_hashed(data: RegisterRequest, hashed: Result<String, HashingFailure>) -> (next:
        RegisterFlow)
        ensures
            match hashed {
                Ok(hash) => next@ matches RegisterFlowView::Inserting { user } && user
                    == NewUser::assembled(
                    user.id,
                    data.first_name@,
                    data.last_name@,
                    data.email@,
                    hash@,
                    user.created_at,
                ),
                Err(_) => next@ == RegisterFlowView::failed(ErrorCode::HashError),
            },
    {
        match hashed {
            Ok(hash) => RegisterFlow::Inserting {
                user: NewUser::new(data.first_name, data.last_name, data.email, hash),
            },
            Err(_) => RegisterFlow::fail(ErrorCode::HashError),
        }
    }

    /// The steps a registration may take. From `flow`, on `reply`, with a
    /// token issued at `now` if one is issued, the flow may go to `next`.
    /// Every step but the hashing is decided by `flow`, `reply` and `now`;
    /// the hashing draws a salt, and may fail.
    pub open spec fn register_step(
        &self,
        flow: RegisterFlowView,
        reply: StoreReplyView,
        now: nat,
        next: RegisterFlowView,
    ) -> bool {
        match flow {
            RegisterFlowView::Connecting { data } => next == if !(reply is Connected) {
                RegisterFlowView::failed(ErrorCode::DbConnectionError)
            } else if !data.passwords_agree() {
                RegisterFlowView::failed(ErrorCode::PasswordMismatch)
            } else {
                RegisterFlowView::CheckingEmail { data }
            },
            RegisterFlowView::CheckingEmail { data } => match reply {
                StoreReplyView::Absent => {
                    ||| next == RegisterFlowView::failed(ErrorCode::HashError)
                    ||| next matches RegisterFlowView::Inserting { user } && Self::enrols(data, user)
                },
                StoreReplyView::Found { .. } => next == RegisterFlowView::failed(
                    ErrorCode::EmailExists,
                ),
                _ => next == RegisterFlowView::failed(ErrorCode::DbQueryError),
            },
            RegisterFlowView::Inserting { .. } => match reply {
                StoreReplyView::Inserted { user } => next == (RegisterFlowView::Finished {
                    outcome: self.grant_at(user, now),
                }) && self.issue_holds(user, now),
                _ => next == RegisterFlowView::failed(ErrorCode::UserCreationError),
            },
            RegisterFlowView::Finished { .. } => next == flow,
        }
    }

    /// Takes a registration one step further on the store's reply, reading
    /// the clock where a token is issued.
    pub fn register_user(&self, flow: RegisterFlow, reply: StoreReply) -> (next: RegisterFlow)
        ensures
            exists|now: nat| now <= usize::MAX && #[trigger] self.register_step(flow@, reply@, now, next@),
    {
        let now = clock_timestamp();
        let next = self.register_user_at(flow, reply, now);
        assert(self.register_step(flow@, reply@, now as nat, next@));
        next
    }

    /// Takes a registration one step further on the store's reply, at the
    /// instant `now`. A reply that does not answer what the flow asked counts
    /// as the failure of what it asked. A finished flow stays as it is.
    pub fn register_user_at(&self, flow: RegisterFlow, reply: StoreReply, now: usize) -> (next:
        RegisterFlow)
        ensures
            self.register_step(flow@, reply@, now as nat, next@),
    {
        match flow {
            RegisterFlow::Connecting { data } => match reply {
                StoreReply::Connected => {
                    if data.password != data.confirm_password {
                        RegisterFlow::fail(ErrorCode::PasswordMismatch)
                    } else {
                        RegisterFlow::CheckingEmail { data }
                    }
                },
                _ => RegisterFlow::fail(ErrorCode::DbConnectionError),
            },
            RegisterFlow::CheckingEmail { data } => match reply {
                StoreReply::Absent => {
                    let hashed = Self::hash_password(data.password.as_str());
                    Self::register_hashed(data, hashed)
                },
                StoreReply::Found { .. } => RegisterFlow::fail(ErrorCode::EmailExists),
                _ => RegisterFlow::fail(ErrorCode::DbQueryError),
            },
            RegisterFlow::Inserting { .. } => match reply {
                StoreReply::Inserted { user } => {
                    let token = self.generate_token_at(&user, now);
                    RegisterFlow::Finished { outcome: self.envelope(user, token) }
                },
                _ => RegisterFlow::fail(ErrorCode::UserCreationError),
            },
            RegisterFlow::Finished { outcome } => RegisterFlow::Finished { outcome },
        }
    }

    /// Where a login goes from `flow` on `reply`, with a token issued at
    /// `now` if one is issued. An address that is not on record and a
    /// password that does not match end in the same failure.
    pub open spec fn login_next(&self, flow: LoginFlowView, reply: StoreReplyView, now: nat) -> LoginFlowView {
        match flow {
            LoginFlowView::Connecting { data } => if reply is Connected {
                LoginFlowView::FindingUser { data }
            } else {
                LoginFlowView::failed(ErrorCode::DbConnectionError)
            },
            LoginFlowView::FindingUser { data } => match reply {
                StoreReplyView::Found { user } => match Self::spec_verify(data.password, user.password) {
                    Err(_) => LoginFlowView::failed(ErrorCode::VerificationError),
                    Ok(false) => LoginFlowView::failed(ErrorCode::InvalidCredentials),
                    Ok(true) => LoginFlowView::Finished { outcome: self.grant_at(user, now) },
                },
                StoreReplyView::Absent => LoginFlowView::failed(ErrorCode::InvalidCredentials),
                _ => LoginFlowView::failed(ErrorCode::DbQueryError),
            },
            LoginFlowView::Finished { .. } => flow,
        }
    }

    /// One step of a login: the flow goes where `login_next` says, and a
    /// token that is issued on the way keeps its word.
    pub open spec fn login_step(
        &self,
        flow: LoginFlowView,
        reply: StoreReplyView,
        now: nat,
        next: LoginFlowView,
    ) -> bool {
        &&& next == self.login_next(flow, reply, now)
        &&& reply matches StoreReplyView::Found { user } ==> (flow is FindingUser
            && Self::granted(next) ==> self.issue_holds(user, now))
    }

    /// Whether a login is over and ended with a token.
    pub open spec fn granted(flow: LoginFlowView) -> bool {
        flow matches LoginFlowView::Finished { outcome } && outcome is Ok
    }

    /// Takes a login one step further on the store's reply, reading the
    /// clock where a token is issued.
    pub fn login_user(&self, flow: LoginFlow, reply: StoreReply) -> (next: LoginFlow)
        ensures
            exists|now: nat| now <= usize::MAX && #[trigger] self.login_step(flow@, reply@, now, next@),
    {
        let now = clock_timestamp();
        let next = self.login_user_at(flow, reply, now);
        assert(self.login_step(flow@, reply@, now as nat, next@));
        next
    }

    /// Takes a login one step further on the store's reply, at the instant
    /// `now`. A reply that does not answer what the flow asked counts as the
    /// failure of what it asked. A finished flow stays as it is.
    pub fn login_user_at(&self, flow: LoginFlow, reply: StoreReply, now: usize) -> (next: LoginFlow)
        ensures
            next@ == self.login_next(flow@, reply@, now as nat),
            self.login_step(flow@, reply@, now as nat, next@),
    {
        match flow {
            LoginFlow::Connecting { data } => match reply {
                StoreReply::Connected => LoginFlow::FindingUser { data },
                _ => LoginFlow::fail(ErrorCode::DbConnectionError),
            },
            LoginFlow::FindingUser { data } => match reply {
                StoreReply::Found { user } => {
                    match Self::verify_password(data.password.as_str(), user.password.as_str()) {
                        Err(_) => LoginFlow::fail(ErrorCode::VerificationError),
                        Ok(false) => LoginFlow::fail(ErrorCode::InvalidCredentials),
                        Ok(true) => {
                            let token = self.generate_token_at(&user, now);
                            LoginFlow::Finished { outcome: self.envelope(user, token) }
                        },
                    }
                },
                StoreReply::Absent => LoginFlow::fail(ErrorCode::InvalidCredentials),
                _ => LoginFlow::fail(ErrorCode::DbQueryError),
            },
            LoginFlow::Finished { outcome } => LoginFlow::Finished { outcome },
        }
    }

    /// Whom a request with this `Authorization` header speaks for at the
    /// instant `now`: the identity in the subject of its token, or the reason
    /// it speaks for nobody. The header is read first, then the token is
    /// validated, then its subject is parsed.
    pub open spec fn spec_identify(&self, header: Option<Seq<u8>>, now: nat) -> Result<UserId, ErrorCode> {
        match bearer_token(header) {
            Err(code) => Err(code),
            Ok(token) => match self.spec_validate(token, now) {
                Err(_) => Err(ErrorCode::InvalidToken),
                Ok(claims) => match uuid_parsed(claims.sub) {
                    None => Err(ErrorCode::InvalidUserId),
                    Some(bits) => Ok(UserId { bits }),
                },
            },
        }
    }

    /// Finds out whom a request speaks for at the instant `now`.
    pub fn identify_at(&self, header: Option<&[u8]>, now: usize) -> (res: Result<UserId, AuthError>)
        ensures
            match res {
                Ok(id) => self.spec_identify(crate::bearer::header_view(header), now as nat) == Ok::<
                    UserId,
                    ErrorCode,
                >(id),
                Err(e) => self.spec_identify(crate::bearer::header_view(header), now as nat) == Err::<
                    UserId,
                    ErrorCode,
                >(e.code) && e@ == AuthError::of(e.code),
            },
    {
        let token = match extract_token(header) {
            Ok(token) => token,
            Err(e) => {
                return Err(e);
            },
        };
        let claims = match self.validate_token_at(token.as_str(), now) {
            Ok(claims) => claims,
            Err(_) => {
                return Err(AuthError::new(ErrorCode::InvalidToken));
            },
        };
        match uuid_parse(claims.sub.as_str()) {
            Ok(bits) => Ok(UserId { bits }),
            Err(_) => Err(AuthError::new(ErrorCode::InvalidUserId)),
        }
    }

    /// Where a current-user request goes from `flow` on `reply` at the
    /// instant `now`.
    pub open spec fn current_user_next(
        &self,
        flow: CurrentUserFlowView,
        reply: StoreReplyView,
        now: nat,
    ) -> CurrentUserFlowView {
        match flow {
            CurrentUserFlowView::Connecting { header } => if reply is Connected {
                match self.spec_identify(header, now) {
                    Ok(id) => CurrentUserFlowView::FindingUser { id },
                    Err(code) => CurrentUserFlowView::failed(code),
                }
            } else {
                CurrentUserFlowView::failed(ErrorCode::DbConnectionError)
            },
            CurrentUserFlowView::FindingUser { .. } => match reply {
                StoreReplyView::Found { user } => CurrentUserFlowView::Finished { outcome: Ok(user) },
                StoreReplyView::Absent => CurrentUserFlowView::failed(ErrorCode::UserNotFound),
                _ => CurrentUserFlowView::failed(ErrorCode::DbQueryError),
            },
            CurrentUserFlowView::Finished { .. } => flow,
        }
    }

    /// Takes a current-user request one step further on the store's reply,
    /// reading the clock to validate the token.
    pub fn get_current_user(&self, flow: CurrentUserFlow, reply: StoreReply) -> (next: CurrentUserFlow)
        ensures
            exists|now: nat| now <= usize::MAX && next@ == #[trigger] self.current_user_next(flow@, reply@, now),
    {
        let now = clock_timestamp();
        let next = self.get_current_user_at(flow, reply, now);
        assert(next@ == self.current_user_next(flow@, reply@, now as nat));
        next
    }

    /// Takes a current-user request one step further on the store's reply,
    /// at the instant `now`. The full record is handed out, password hash
    /// included: whoever shows it to a client strips it first. A reply that
    /// does not answer what the flow asked counts as the failure of what it
    /// asked. A finished flow stays as it is.
    pub fn get_current_user_at(&self, flow: CurrentUserFlow, reply: StoreReply, now: usize) -> (next:
        CurrentUserFlow)
        ensures
            next@ == self.current_user_next(flow@, reply@, now as nat),
    {
        match flow {
            CurrentUserFlow::Connecting { header } => match reply {
                StoreReply::Connected => {
                    let identified = match &header {
                        Some(value) => self.identify_at(Some(value.as_slice()), now),
                        None => self.identify_at(None, now),
                    };
                    match identified {
                        Ok(id) => CurrentUserFlow::FindingUser { id },
                        Err(e) => CurrentUserFlow::Finished { outcome: Err(e) },
                    }
                },
                _ => CurrentUserFlow::fail(ErrorCode::DbConnectionError),
            },
            CurrentUserFlow::FindingUser { .. } => match reply {
                StoreReply::Found { user } => CurrentUserFlow::Finished { outcome: Ok(user) },
                StoreReply::Absent => CurrentUserFlow::fail(ErrorCode::UserNotFound),
                _ => CurrentUserFlow::fail(ErrorCode::DbQueryError),
            },
            CurrentUserFlow::Finished { outcome } => CurrentUserFlow::Finished { outcome },
        }
    }

    /// Reads the bearer credential out of a request's `Authorization` header.
    pub fn extract_token_from_request(header: Option<&[u8]>) -> (res: Result<String, AuthError>)
        ensures
            match res {
                Ok(token) => bearer_token(crate::bearer::header_view(header)) == Ok::<
                    Seq<char>,
                    ErrorCode,
                >(token@),
                Err(e) => bearer_token(crate::bearer::header_view(header)) == Err::<
                    Seq<char>,
                    ErrorCode,
                >(e.code) && e@ == AuthError::of(e.code),
            },
    {
        extract_token(header)
    }
}

/// The outcome of issuing a token, as contracts see it.
pub open spec fn view_token(res: Result<String, SigningFailure>) -> Result<Seq<char>, SigningFailure> {
    match res {
        Ok(token) => Ok(token@),
        Err(e) => Err(e),
    }
}

/// The outcome of validating a token, as contracts see it.
pub open spec fn view_claims(res: Result<Claims, TokenInvalid>) -> Result<ClaimsView, TokenInvalid> {
    match res {
        Ok(claims) => Ok(claims@),
        Err(e) => Err(e),
    }
}

} // verus!
