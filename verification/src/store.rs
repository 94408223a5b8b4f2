//! The user store as the flows see it: what they ask of it and what it
//! answers. The flows never touch the store themselves. Each step names the
//! one request it waits for; whoever runs the flow performs it and hands back
//! the reply.

use vstd::prelude::*;
use crate::models::{NewUser, User, UserId, UserView};

verus! {

/// One operation on the store.
#[derive(Debug, PartialEq, Eq)]
pub enum StoreRequest {
    /// Acquire a connection.
    Connect,
    /// Look up the user with exactly this address.
    FindUserByEmail { email: String },
    /// Look up the user with this identity.
    FindUserById { id: UserId },
    /// Store a new user, all or nothing.
    InsertUser { user: NewUser },
}

/// A `StoreRequest` as contracts see it.
pub enum StoreRequestView {
    Connect,
    FindUserByEmail { email: Seq<char> },
    FindUserById { id: UserId },
    InsertUser { user: UserView },
}

impl View for StoreRequest {
    type V = StoreRequestView;

    open spec fn view(&self) -> StoreRequestView {
        match self {
            StoreRequest::Connect => StoreRequestView::Connect,
            StoreRequest::FindUserByEmail { email } => StoreRequestView::FindUserByEmail {
                email: email@,
            },
            StoreRequest::FindUserById { id } => StoreRequestView::FindUserById { id: *id },
            StoreRequest::InsertUser { user } => StoreRequestView::InsertUser { user: user@ },
        }
    }
}

impl StoreRequestView {
    /// Whether the request reads or writes user records, as opposed to only
    /// acquiring a connection.
    pub open spec fn touches_users(self) -> bool {
        !(self is Connect)
    }
}

/// What the store answers.
#[derive(Debug, PartialEq, Eq)]
pub enum StoreReply {
    /// A connection was acquired.
    Connected,
    /// No connection could be had.
    ConnectionFailed,
    /// The lookup found this user.
    Found { user: User },
    /// The lookup found nobody.
    Absent,
    /// The lookup itself failed.
    QueryFailed,
    /// The user was stored, and this is the stored record.
    Inserted { user: User },
    /// The user was not stored.
    InsertFailed,
}

/// A `StoreReply` as contracts see it.
pub enum StoreReplyView {
    Connected,
    ConnectionFailed,
    Found { user: UserView },
    Absent,
    QueryFailed,
    Inserted { user: UserView },
    InsertFailed,
}

impl View for StoreReply {
    type V = StoreReplyView;

    open spec fn view(&self) -> StoreReplyView {
        match self {
            StoreReply::Connected => StoreReplyView::Connected,
            StoreReply::ConnectionFailed => StoreReplyView::ConnectionFailed,
            StoreReply::Found { user } => StoreReplyView::Found { user: user@ },
            StoreReply::Absent => StoreReplyView::Absent,
            StoreReply::QueryFailed => StoreReplyView::QueryFailed,
            StoreReply::Inserted { user } => StoreReplyView::Inserted { user: user@ },
            StoreReply::InsertFailed => StoreReplyView::InsertFailed,
        }
    }
}

} // verus!
