//! Reading a bearer credential out of the bytes of an `Authorization` header.

use vstd::prelude::*;
use crate::errors::{AuthError, ErrorCode};
use crate::trusted::string_push;

verus! {

/// A byte that may stand in a header value read as text: printable ASCII, the
/// space, or a tab.
pub open spec fn is_visible_ascii(b: u8) -> bool {
    (32 <= b && b < 127) || b == 9
}

/// Whether every byte of a header value is visible ASCII.
pub open spec fn all_visible_ascii(value: Seq<u8>) -> bool {
    forall|i: int| 0 <= i < value.len() ==> is_visible_ascii(#[trigger] value[i])
}

/// The scheme that a header value must begin with: the bytes of `Bearer`
/// and one space.
pub open spec fn bearer_prefix() -> Seq<u8> {
    seq![66u8, 101u8, 97u8, 114u8, 101u8, 114u8, 32u8]
}

/// Whether a header value begins with the bearer scheme.
pub open spec fn has_bearer_prefix(value: Seq<u8>) -> bool {
    value.len() >= 7 && value.subrange(0, 7) == bearer_prefix()
}

/// The text that a run of ASCII bytes spells.
pub open spec fn ascii_text(bytes: Seq<u8>) -> Seq<char> {
    Seq::new(bytes.len(), |i: int| bytes[i] as char)
}

/// What a request's `Authorization` header yields: the credential behind the
/// scheme, or the reason there is none. A header that is absent, one that is
/// not text and one that names another scheme are told apart, in that order.
pub open spec fn bearer_token(header: Option<Seq<u8>>) -> Result<Seq<char>, ErrorCode> {
    match header {
        None => Err(ErrorCode::MissingAuthHeader),
        Some(value) => if !all_visible_ascii(value) {
            Err(ErrorCode::InvalidAuthHeader)
        } else if !has_bearer_prefix(value) {
            Err(ErrorCode::InvalidAuthFormat)
        } else {
            Ok(ascii_text(value.subrange(7, value.len() as int)))
        },
    }
}

/// Decides whether every byte of `value` is visible ASCII.
pub fn is_text(value: &[u8]) -> (ok: bool)
    ensures
        ok == all_visible_ascii(value@),
{
    let mut i: usize = 0;
    while i < value.len()
        invariant
            i <= value.len(),
            forall|j: int| 0 <= j < i ==> is_visible_ascii(#[trigger] value@[j]),
        decreases value.len() - i,
    {
        let b = value[i];
        if !((32 <= b && b < 127) || b == 9) {
            return false;
        }
        i += 1;
    }
    true
}

/// Decides whether `value` begins with the bearer scheme.
pub fn starts_with_bearer(value: &[u8]) -> (ok: bool)
    ensures
        ok == has_bearer_prefix(value@),
{
    if value.len() < 7 {
        return false;
    }
    let ok = value[0] == 66 && value[1] == 101 && value[2] == 97 && value[3] == 114 && value[4]
        == 101 && value[5] == 114 && value[6] == 32;
    proof {
        let head = value@.subrange(0, 7);
        if ok {
            assert(head =~= bearer_prefix());
        } else {
            assert(head[0] == value@[0] && head[1] == value@[1] && head[2] == value@[2] && head[3]
                == value@[3] && head[4] == value@[4] && head[5] == value@[5] && head[6]
                == value@[6]);
        }
    }
    ok
}

/// Spells the tail of `value` from `from` on as text.
fn text_from(value: &[u8], from: usize) -> (text: String)
    requires
        from <= value.len(),
        all_visible_ascii(value@),
    ensures
        text@ == ascii_text(value@.subrange(from as int, value.len() as int)),
{
    let mut text = String::new();
    let mut i: usize = from;
    while i < value.len()
        invariant
            from <= i <= value.len(),
            all_visible_ascii(value@),
            text@ == ascii_text(value@.subrange(from as int, i as int)),
        decreases value.len() - i,
    {
        let b = value[i];
        assert(is_visible_ascii(value@[i as int]));
        string_push(&mut text, b as char);
        assert(text@ =~= ascii_text(value@.subrange(from as int, i + 1)));
        i += 1;
    }
    text
}

/// Reads the bearer credential out of a request's `Authorization` header,
/// given as the header's bytes, or `None` where the request has no such
/// header.
pub fn extract_token(header: Option<&[u8]>) -> (res: Result<String, AuthError>)
    ensures
        match res {
            Ok(token) => bearer_token(header_view(header)) == Ok::<Seq<char>, ErrorCode>(token@),
            Err(e) => bearer_token(header_view(header)) == Err::<Seq<char>, ErrorCode>(e.code)
                && e@ == AuthError::of(e.code),
        },
{
    match header {
        None => Err(AuthError::new(ErrorCode::MissingAuthHeader)),
        Some(value) => {
            if !is_text(value) {
                Err(AuthError::new(ErrorCode::InvalidAuthHeader))
            } else if !starts_with_bearer(value) {
                Err(AuthError::new(ErrorCode::InvalidAuthFormat))
            } else {
                Ok(text_from(value, 7))
            }
        },
    }
}

/// The bytes of a header, as contracts see them.
pub open spec fn header_view(header: Option<&[u8]>) -> Option<Seq<u8>> {
    match header {
        Some(value) => Some(value@),
        None => None,
    }
}

} // verus!
