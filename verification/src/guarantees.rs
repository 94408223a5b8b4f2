//! What holds of the service as a whole, proved from the contracts of its
//! parts.

use vstd::prelude::*;
use crate::auth_service::AuthService;
use crate::bearer::bearer_token;
use crate::errors::{AuthError, ErrorCode, HashingFailure, TokenInvalid};
use crate::flows::{CurrentUserFlowView, LoginFlowView, RegisterFlowView};
use crate::models::{ClaimsView, LoginRequestView, RegisterRequestView, UserId, UserView};
use crate::store::StoreReplyView;
use crate::trusted::{hs256_payload, uuid_text};

verus! {

/// A token issued to a user validates, at every instant before its expiry,
/// to claims whose subject is the text of the user's identity and whose
/// address is the user's.
pub proof fn issued_token_validates(
    service: AuthService,
    user: UserView,
    token: Seq<char>,
    issued: nat,
    now: nat,
)
    requires
        service.carries(token, user, issued),
        now < issued + service.ttl(),
    ensures
        service.spec_validate(token, now) == Ok::<ClaimsView, TokenInvalid>(
            service.claims_for(user, issued),
        ),
        service.claims_for(user, issued).sub == uuid_text(user.id.bits),
        service.claims_for(user, issued).email == user.email,
{
}

/// A token issued to a user is rejected at its expiry instant and at every
/// instant after it.
pub proof fn issued_token_expires(
    service: AuthService,
    user: UserView,
    token: Seq<char>,
    issued: nat,
    now: nat,
)
    requires
        service.carries(token, user, issued),
        now >= issued + service.ttl(),
    ensures
        service.spec_validate(token, now) == Err::<ClaimsView, TokenInvalid>(TokenInvalid),
{
}

/// Whatever the token and however good its signature: validation never
/// hands out claims at or after their own expiry.
pub proof fn validated_claims_are_live(service: AuthService, token: Seq<char>, now: nat)
    ensures
        service.spec_validate(token, now) matches Ok(claims) ==> now < claims.exp,
        hs256_payload(token, service.secret()) matches Some(payload) && payload.exp matches Some(exp)
            && now >= exp ==> service.spec_validate(token, now) == Err::<ClaimsView, TokenInvalid>(
            TokenInvalid,
        ),
{
}

/// A token issued to a user, brought back in an `Authorization` header
/// before it expires, identifies that user.
pub proof fn issued_token_identifies(
    service: AuthService,
    user: UserView,
    token: Seq<char>,
    header: Seq<u8>,
    issued: nat,
    now: nat,
)
    requires
        service.carries(token, user, issued),
        now < issued + service.ttl(),
        bearer_token(Some(header)) == Ok::<Seq<char>, ErrorCode>(token),
    ensures
        service.spec_identify(Some(header), now) == Ok::<UserId, ErrorCode>(user.id),
{
}

/// A token that a registration or a login grants to a user, brought back in
/// an `Authorization` header before it expires, identifies that user.
pub proof fn granted_token_identifies(
    service: AuthService,
    user: UserView,
    header: Seq<u8>,
    issued: nat,
    now: nat,
)
    requires
        service.issue_holds(user, issued),
        service.grant_at(user, issued) matches Ok(response) && bearer_token(
            Some(header),
        ) == Ok::<Seq<char>, ErrorCode>(response.token),
        now < issued + service.ttl(),
    ensures
        service.spec_identify(Some(header), now) == Ok::<UserId, ErrorCode>(user.id),
{
}

/// A history of a registration: the states it went through and the replies
/// that took it from each to the next.
pub open spec fn register_run(
    service: AuthService,
    states: Seq<RegisterFlowView>,
    replies: Seq<StoreReplyView>,
) -> bool {
    &&& states.len() == replies.len() + 1
    &&& forall|i: int|
        0 <= i < replies.len() ==> register_moves(service, states[i], #[trigger] replies[i], states[i + 1])
}

/// One step of a registration, at some instant.
pub open spec fn register_moves(
    service: AuthService,
    flow: RegisterFlowView,
    reply: StoreReplyView,
    next: RegisterFlowView,
) -> bool {
    exists|now: nat| #[trigger] service.register_step(flow, reply, now, next)
}

/// Whether a registration in this state asks the store to read or write a
/// user record.
pub open spec fn register_touches_users(flow: RegisterFlowView) -> bool {
    flow.pending() matches Some(request) && request.touches_users()
}

/// Whether a registration in this state asks the store to insert a user.
pub open spec fn register_inserts(flow: RegisterFlowView) -> bool {
    flow.pending() matches Some(request) && request is InsertUser
}

/// With differing passwords, every state after the first is the failure that
/// the first reply decided.
proof fn mismatch_stays_out(
    service: AuthService,
    data: RegisterRequestView,
    states: Seq<RegisterFlowView>,
    replies: Seq<StoreReplyView>,
    k: int,
)
    requires
        register_run(service, states, replies),
        states[0] == (RegisterFlowView::Connecting { data }),
        !data.passwords_agree(),
        1 <= k < states.len(),
    ensures
        states[k] == RegisterFlowView::failed(
            if replies[0] is Connected {
                ErrorCode::PasswordMismatch
            } else {
                ErrorCode::DbConnectionError
            },
        ),
    decreases k,
{
    assert(register_moves(service, states[k - 1], replies[k - 1], states[k]));
    if k > 1 {
        mismatch_stays_out(service, data, states, replies, k - 1);
    }
}

/// A registration whose password and confirmation differ never asks the
/// store for a user record, neither to look one up nor to insert one, and
/// once a connection is had it ends with the code for a password mismatch.
/// (Where no connection can be had, that failure comes first.)
pub proof fn mismatch_never_reaches_users(
    service: AuthService,
    data: RegisterRequestView,
    states: Seq<RegisterFlowView>,
    replies: Seq<StoreReplyView>,
)
    requires
        register_run(service, states, replies),
        states[0] == (RegisterFlowView::Connecting { data }),
        !data.passwords_agree(),
    ensures
        forall|i: int| 0 <= i < states.len() ==> !register_touches_users(#[trigger] states[i]),
        forall|i: int|
            1 <= i < states.len() && replies[0] is Connected ==> #[trigger] states[i]
                == RegisterFlowView::failed(ErrorCode::PasswordMismatch),
{
    assert forall|i: int| 0 <= i < states.len() implies !register_touches_users(
        #[trigger] states[i],
    ) by {
        if i >= 1 {
            mismatch_stays_out(service, data, states, replies, i);
        }
    }
    assert forall|i: int| 1 <= i < states.len() && replies[0] is Connected implies #[trigger] states[i]
        == RegisterFlowView::failed(ErrorCode::PasswordMismatch) by {
        mismatch_stays_out(service, data, states, replies, i);
    }
}

/// With a taken address, every state from the second reply on is the failure
/// for an existing address.
proof fn taken_stays_out(
    service: AuthService,
    data: RegisterRequestView,
    states: Seq<RegisterFlowView>,
    replies: Seq<StoreReplyView>,
    k: int,
)
    requires
        register_run(service, states, replies),
        states[0] == (RegisterFlowView::Connecting { data }),
        data.passwords_agree(),
        replies.len() >= 2,
        replies[0] is Connected,
        replies[1] is Found,
        2 <= k < states.len(),
    ensures
        states[1] == (RegisterFlowView::CheckingEmail { data }),
        states[k] == RegisterFlowView::failed(ErrorCode::EmailExists),
    decreases k,
{
    assert(register_moves(service, states[0], replies[0], states[1]));
    assert(register_moves(service, states[k - 1], replies[k - 1], states[k]));
    if k > 2 {
        taken_stays_out(service, data, states, replies, k - 1);
    }
}

/// A registration for an address that the store already holds ends with the
/// code for an existing address, and never asks the store to insert.
pub proof fn taken_email_never_inserts(
    service: AuthService,
    data: RegisterRequestView,
    states: Seq<RegisterFlowView>,
    replies: Seq<StoreReplyView>,
)
    requires
        register_run(service, states, replies),
        states[0] == (RegisterFlowView::Connecting { data }),
        data.passwords_agree(),
        replies.len() >= 2,
        replies[0] is Connected,
        replies[1] is Found,
    ensures
        forall|i: int| 0 <= i < states.len() ==> !register_inserts(#[trigger] states[i]),
        forall|i: int|
            2 <= i < states.len() ==> #[trigger] states[i] == RegisterFlowView::failed(
                ErrorCode::EmailExists,
            ),
{
    taken_stays_out(service, data, states, replies, 2);
    assert forall|i: int| 0 <= i < states.len() implies !register_inserts(#[trigger] states[i]) by {
        if i >= 2 {
            taken_stays_out(service, data, states, replies, i);
        }
    }
    assert forall|i: int| 2 <= i < states.len() implies #[trigger] states[i]
        == RegisterFlowView::failed(ErrorCode::EmailExists) by {
        taken_stays_out(service, data, states, replies, i);
    }
}

/// How far a registration can be after `k` replies: still connecting
/// before the first, checking the address or over after the first, inserting
/// a record fit for the request or over after the second, and over from the
/// third on.
pub open spec fn register_stage(data: RegisterRequestView, k: int, flow: RegisterFlowView) -> bool {
    if k == 0 {
        flow == (RegisterFlowView::Connecting { data })
    } else if k == 1 {
        flow == (RegisterFlowView::CheckingEmail { data }) || flow is Finished
    } else if k == 2 {
        (flow matches RegisterFlowView::Inserting { user } && AuthService::enrols(data, user))
            || flow is Finished
    } else {
        flow is Finished
    }
}

/// The failures a registration can end with.
pub open spec fn register_failure(code: ErrorCode) -> bool {
    code == ErrorCode::DbConnectionError || code == ErrorCode::PasswordMismatch || code
        == ErrorCode::DbQueryError || code == ErrorCode::EmailExists || code == ErrorCode::HashError
        || code == ErrorCode::UserCreationError || code == ErrorCode::TokenError
}

/// The failures a login can end with.
pub open spec fn login_failure(code: ErrorCode) -> bool {
    code == ErrorCode::DbConnectionError || code == ErrorCode::DbQueryError || code
        == ErrorCode::InvalidCredentials || code == ErrorCode::VerificationError || code
        == ErrorCode::TokenError
}

/// The failures a current-user request can end with.
pub open spec fn current_user_failure(code: ErrorCode) -> bool {
    code == ErrorCode::DbConnectionError || code == ErrorCode::MissingAuthHeader || code
        == ErrorCode::InvalidAuthHeader || code == ErrorCode::InvalidAuthFormat || code
        == ErrorCode::InvalidToken || code == ErrorCode::InvalidUserId || code
        == ErrorCode::DbQueryError || code == ErrorCode::UserNotFound
}

/// Whether a registration, if it is over and failed, failed with one of its
/// own codes and the message that belongs to the code.
pub open spec fn register_fails_in_kind(flow: RegisterFlowView) -> bool {
    flow matches RegisterFlowView::Finished { outcome: Err(e) } ==> register_failure(e.code) && e
        == AuthError::of(e.code)
}

/// After `k` replies a registration is at the stage for `k`, has failed, if
/// it has, in kind, and is still under way only if the replies so far were
/// the good ones.
proof fn register_stages(
    service: AuthService,
    data: RegisterRequestView,
    states: Seq<RegisterFlowView>,
    replies: Seq<StoreReplyView>,
    k: int,
)
    requires
        register_run(service, states, replies),
        states[0] == (RegisterFlowView::Connecting { data }),
        0 <= k < states.len(),
    ensures
        register_stage(data, k, states[k]),
        register_fails_in_kind(states[k]),
        k >= 1 && !(states[k] is Finished) ==> replies[0] is Connected && data.passwords_agree(),
        k >= 2 && !(states[k] is Finished) ==> replies[1] is Absent,
    decreases k,
{
    if k >= 1 {
        register_stages(service, data, states, replies, k - 1);
        assert(register_moves(service, states[k - 1], replies[k - 1], states[k]));
    }
}

/// A registration asks the store at most three times: it is over once it
/// has had three replies, whatever they were.
pub proof fn register_ends_after_three_replies(
    service: AuthService,
    data: RegisterRequestView,
    states: Seq<RegisterFlowView>,
    replies: Seq<StoreReplyView>,
)
    requires
        register_run(service, states, replies),
        states[0] == (RegisterFlowView::Connecting { data }),
    ensures
        forall|i: int| 3 <= i < states.len() ==> (#[trigger] states[i]) is Finished,
{
    assert forall|i: int| 3 <= i < states.len() implies (#[trigger] states[i]) is Finished by {
        register_stages(service, data, states, replies, i);
    }
}

/// A registration fails only with the codes of its own steps, each with the
/// message that belongs to it.
pub proof fn register_fails_only_in_kind(
    service: AuthService,
    data: RegisterRequestView,
    states: Seq<RegisterFlowView>,
    replies: Seq<StoreReplyView>,
)
    requires
        register_run(service, states, replies),
        states[0] == (RegisterFlowView::Connecting { data }),
    ensures
        forall|i: int| 0 <= i < states.len() ==> register_fails_in_kind(#[trigger] states[i]),
{
    assert forall|i: int| 0 <= i < states.len() implies register_fails_in_kind(
        #[trigger] states[i],
    ) by {
        register_stages(service, data, states, replies, i);
    }
}

/// A login and a current-user request fail only with the codes of their own
/// steps, each with the message that belongs to it.
pub proof fn lookups_fail_only_in_kind(
    service: AuthService,
    first: StoreReplyView,
    second: StoreReplyView,
    now: nat,
)
    ensures
        forall|data: LoginRequestView|
            (#[trigger] service.login_next(
                service.login_next(LoginFlowView::Connecting { data }, first, now),
                second,
                now,
            )) matches LoginFlowView::Finished { outcome: Err(e) } ==> login_failure(e.code) && e
                == AuthError::of(e.code),
        forall|header: Option<Seq<u8>>|
            (#[trigger] service.current_user_next(
                service.current_user_next(
                    CurrentUserFlowView::Connecting { header },
                    first,
                    now,
                ),
                second,
                now,
            )) matches CurrentUserFlowView::Finished { outcome: Err(e) }
                ==> current_user_failure(e.code) && e == AuthError::of(e.code),
{
}

/// A registration asks the store to insert only after it got a connection,
/// found the two passwords equal and learned that nobody has the address;
/// and what it asks to insert carries the request's names and address and,
/// in place of the password, a hash that the password verifies against.
pub proof fn insert_follows_a_clean_lookup(
    service: AuthService,
    data: RegisterRequestView,
    states: Seq<RegisterFlowView>,
    replies: Seq<StoreReplyView>,
    i: int,
)
    requires
        register_run(service, states, replies),
        states[0] == (RegisterFlowView::Connecting { data }),
        0 <= i < states.len(),
        register_inserts(states[i]),
    ensures
        i == 2,
        replies[0] is Connected,
        replies[1] is Absent,
        data.passwords_agree(),
        states[i] matches RegisterFlowView::Inserting { user } && AuthService::enrols(data, user),
{
    register_stages(service, data, states, replies, i);
}

/// A login and a current-user request are over after two replies, whatever
/// they were.
pub proof fn lookups_end_after_two_replies(
    service: AuthService,
    first: StoreReplyView,
    second: StoreReplyView,
    now: nat,
)
    ensures
        forall|data: LoginRequestView|
            (#[trigger] service.login_next(
                service.login_next(LoginFlowView::Connecting { data }, first, now),
                second,
                now,
            )) is Finished,
        forall|header: Option<Seq<u8>>|
            (#[trigger] service.current_user_next(
                service.current_user_next(
                    CurrentUserFlowView::Connecting { header },
                    first,
                    now,
                ),
                second,
                now,
            )) is Finished,
{
}

/// Where a login ends that got its connection and then `reply` to its
/// lookup.
pub open spec fn login_end(
    service: AuthService,
    data: LoginRequestView,
    reply: StoreReplyView,
    now: nat,
) -> LoginFlowView {
    service.login_next(
        service.login_next(LoginFlowView::Connecting { data }, StoreReplyView::Connected, now),
        reply,
        now,
    )
}

/// A login for an address that is not on record and a login for a known
/// address with a password that does not match end alike: same code, same
/// message. Nothing in the outcome tells whether the address exists.
pub proof fn login_failures_alike(
    service: AuthService,
    stranger: LoginRequestView,
    member: LoginRequestView,
    user: UserView,
    now_stranger: nat,
    now_member: nat,
)
    requires
        AuthService::spec_verify(member.password, user.password) == Ok::<bool, HashingFailure>(false),
    ensures
        login_end(service, stranger, StoreReplyView::Absent, now_stranger) == LoginFlowView::failed(
            ErrorCode::InvalidCredentials,
        ),
        login_end(service, member, StoreReplyView::Found { user }, now_member)
            == LoginFlowView::failed(ErrorCode::InvalidCredentials),
{
}

/// A flow that is over asks nothing more of the store, whatever it is told.
pub proof fn finished_flows_rest(service: AuthService, reply: StoreReplyView, now: nat)
    ensures
        forall|flow: RegisterFlowView, next: RegisterFlowView|
            flow is Finished && #[trigger] service.register_step(flow, reply, now, next) ==> next
                == flow && next.pending() is None,
        forall|flow: LoginFlowView|
            flow is Finished ==> #[trigger] service.login_next(flow, reply, now) == flow
                && flow.pending() is None,
        forall|flow: CurrentUserFlowView|
            flow is Finished ==> #[trigger] service.current_user_next(flow, reply, now) == flow
                && flow.pending() is None,
{
}

} // verus!
