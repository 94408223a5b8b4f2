//! Contracts taken on trust. Each item here stands for a function or a type of
//! another crate, or of the standard library, that the verifier does not read;
//! what is claimed of it is said above it.

use vstd::prelude::*;
use chrono::NaiveDateTime;
use jsonwebtoken::{Algorithm, DecodingKey, EncodingKey, Header, Validation};
use serde_json::Value;
use crate::models::{Claims, ClaimsView};
use crate::token::{TokenPayload, TokenPayloadView};

verus! {

/// The error of the `bcrypt` crate, carried but never inspected.
#[verifier::external_type_specification]
#[verifier::external_body]
pub struct ExBcryptError(bcrypt::BcryptError);

/// The error of the `jsonwebtoken` crate, carried but never inspected.
#[verifier::external_type_specification]
#[verifier::external_body]
pub struct ExJwtError(jsonwebtoken::errors::Error);

/// The error of the `uuid` crate, carried but never inspected.
#[verifier::external_type_specification]
#[verifier::external_body]
pub struct ExUuidError(uuid::Error);

/// A calendar date and time of day without a zone, from `chrono`. The library
/// stores and copies such values and never looks inside one.
#[verifier::external_type_specification]
#[verifier::external_body]
pub struct ExNaiveDateTime(NaiveDateTime);

/// A calendar date without a zone, from `chrono`: stored and copied, never
/// looked into.
#[verifier::external_type_specification]
#[verifier::external_body]
pub struct ExNaiveDate(chrono::NaiveDate);

/// A decimal amount, from `rust_decimal`: stored and copied, never looked
/// into.
#[verifier::external_type_specification]
#[verifier::external_body]
pub struct ExDecimal(rust_decimal::Decimal);

/// What `bcrypt::verify` answers for a password and a stored hash: `Some` of
/// its verdict, or `None` where it reports the hash as malformed.
pub uninterp spec fn bcrypt_verdict(password: Seq<char>, hash: Seq<char>) -> Option<bool>;

/// What `jsonwebtoken::decode` finds in a token under a secret, with HS256 as
/// the only algorithm allowed and no check of the time: `None` where it
/// rejects the token, else the four claims this service uses, each as far as
/// the token's body holds it with the right type.
pub uninterp spec fn hs256_payload(token: Seq<char>, secret: Seq<char>) -> Option<TokenPayloadView>;

/// The token that `jsonwebtoken::encode` makes of four claims under a secret,
/// with its default header: `None` where it reports an error.
pub uninterp spec fn hs256_token(claims: ClaimsView, secret: Seq<char>) -> Option<Seq<char>>;

/// The hex digit, in lower case, for a value below 16.
pub open spec fn hex_digit(value: u128) -> char {
    if value < 10 {
        ('0' as u128 + value) as char
    } else {
        ('a' as u128 + (value - 10)) as char
    }
}

/// The `k`-th of the 32 hex digits of 128 bits, the most significant first.
pub open spec fn uuid_digit(bits: u128, k: int) -> char {
    hex_digit((bits >> ((4 * (31 - k)) as u128)) & 0xf)
}

/// How many hyphens stand before position `i` of a UUID's text.
pub open spec fn hyphens_before(i: int) -> int {
    if i > 23 {
        4
    } else if i > 18 {
        3
    } else if i > 13 {
        2
    } else if i > 8 {
        1
    } else {
        0
    }
}

/// The text of a UUID: its 32 hex digits in lower case, in groups of 8, 4,
/// 4, 4 and 12 with a hyphen between groups.
pub open spec fn uuid_text(bits: u128) -> Seq<char> {
    Seq::new(
        36,
        |i: int|
            if i == 8 || i == 13 || i == 18 || i == 23 {
                '-'
            } else {
                uuid_digit(bits, i - hyphens_before(i))
            },
    )
}

/// What `uuid::Uuid::parse_str` reads from a text: `None` where it reports an
/// error.
pub uninterp spec fn uuid_parsed(text: Seq<char>) -> Option<u128>;

/// `bcrypt::hash` at the crate's default cost. The salt is drawn at random, so
/// nothing is said of the text that comes back but this: `bcrypt::verify`
/// accepts it for the password it was made from. The call fails where the
/// system's random source does.
#[verifier::external_body]
pub(crate) fn bcrypt_hash(password: &str) -> (res: Result<String, bcrypt::BcryptError>)
    ensures
        res matches Ok(hash) ==> bcrypt_verdict(password@, hash@) == Some(true),
{
    bcrypt::hash(password, bcrypt::DEFAULT_COST)
}

/// `bcrypt::verify`: its answer depends on the two texts alone.
#[verifier::external_body]
pub(crate) fn bcrypt_verify(password: &str, hash: &str) -> (res: Result<bool, bcrypt::BcryptError>)
    ensures
        match res {
            Ok(matches) => bcrypt_verdict(password@, hash@) == Some(matches),
            Err(_) => bcrypt_verdict(password@, hash@) is None,
        },
{
    bcrypt::verify(password, hash)
}

/// `jsonwebtoken::encode` with the default header (HS256) on a JSON object
/// that holds the four claims. The token depends on the claims and the secret
/// alone. A token that comes back decodes, under the same secret, to the
/// claims it was made from.
#[verifier::external_body]
pub(crate) fn hs256_encode(claims: &Claims, secret: &str) -> (res: Result<
    String,
    jsonwebtoken::errors::Error,
>)
    ensures
        match res {
            Ok(token) => hs256_token(claims@, secret@) == Some(token@),
            Err(_) => hs256_token(claims@, secret@) is None,
        },
        res matches Ok(token) ==> hs256_payload(token@, secret@) == Some(
            TokenPayloadView::of_claims(claims@),
        ),
{
    let mut body = serde_json::Map::new();
    body.insert("sub".to_owned(), Value::from(claims.sub.as_str()));
    body.insert("email".to_owned(), Value::from(claims.email.as_str()));
    body.insert("exp".to_owned(), Value::from(claims.exp));
    body.insert("iat".to_owned(), Value::from(claims.iat));
    jsonwebtoken::encode(&Header::default(), &body, &EncodingKey::from_secret(secret.as_bytes()))
}

/// `jsonwebtoken::decode` into a JSON value, with HS256 as the only algorithm
/// allowed and the crate's own expiry check switched off, so that the answer
/// depends on the token and the secret alone. The signature is verified
/// before the body is read. Each of the four claims is handed out if the body
/// holds it as a string, or as an unsigned integer, and left out otherwise.
#[verifier::external_body]
pub(crate) fn hs256_decode(token: &str, secret: &str) -> (res: Result<
    TokenPayload,
    jsonwebtoken::errors::Error,
>)
    ensures
        match res {
            Ok(payload) => hs256_payload(token@, secret@) == Some(payload@),
            Err(_) => hs256_payload(token@, secret@) is None,
        },
{
    let mut validation = Validation::new(Algorithm::HS256);
    validation.validate_exp = false;
    let key = DecodingKey::from_secret(secret.as_bytes());
    let body = jsonwebtoken::decode::<Value>(token, &key, &validation)?.claims;
    Ok(TokenPayload {
        sub: body.get("sub").and_then(Value::as_str).map(str::to_owned),
        email: body.get("email").and_then(Value::as_str).map(str::to_owned),
        exp: body.get("exp").and_then(Value::as_u64),
        iat: body.get("iat").and_then(Value::as_u64),
    })
}

/// The text form of a UUID, as `Uuid`'s `Display` gives it: hyphenated, in
/// lower case. `parse_str` reads that form back to the same bits.
#[verifier::external_body]
pub(crate) fn uuid_to_text(bits: u128) -> (text: String)
    ensures
        text@ == uuid_text(bits),
        uuid_parsed(text@) == Some(bits),
{
    uuid::Uuid::from_u128(bits).to_string()
}

/// `uuid::Uuid::parse_str`: its answer depends on the text alone.
#[verifier::external_body]
pub(crate) fn uuid_parse(text: &str) -> (res: Result<u128, uuid::Error>)
    ensures
        match res {
            Ok(bits) => uuid_parsed(text@) == Some(bits),
            Err(_) => uuid_parsed(text@) is None,
        },
{
    match uuid::Uuid::parse_str(text) {
        Ok(id) => Ok(id.as_u128()),
        Err(e) => Err(e),
    }
}

/// The bits of `uuid::Uuid::new_v4()`: drawn at random, so nothing is
/// claimed of them.
#[verifier::external_body]
pub(crate) fn uuid_fresh() -> u128 {
    uuid::Uuid::new_v4().as_u128()
}

/// Seconds since the Unix epoch by `chrono::Utc::now()`. Nothing is claimed of
/// a clock.
#[verifier::external_body]
pub(crate) fn clock_timestamp() -> usize {
    chrono::Utc::now().timestamp() as usize
}

/// `chrono::Utc::now().naive_utc()`. Nothing is claimed of a clock.
#[verifier::external_body]
pub(crate) fn clock_naive_utc() -> NaiveDateTime {
    chrono::Utc::now().naive_utc()
}

/// The calendar date of a date and time, by `NaiveDateTime::date`.
#[verifier::external_body]
pub(crate) fn date_of(at: NaiveDateTime) -> chrono::NaiveDate {
    at.date()
}

/// Appends one character, as `String::push` does.
#[verifier::external_body]
pub(crate) fn string_push(text: &mut String, c: char)
    ensures
        final(text)@ == old(text)@.push(c),
{
    text.push(c);
}

} // verus!
