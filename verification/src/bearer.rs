//! Reading a bearer credential out of an `Authorization` header value.
//!
//! The decoding is done by the `headers` crate, as the HTTP layer itself
//! does it. This module says what the rest of the crate relies on.

use crate::identity::text_view;
use axum::http::HeaderValue;
use axum_extra::headers::authorization::Bearer;
use axum_extra::headers::{Authorization, Header};
use vstd::prelude::*;

verus! {

/// Whether `byte` is the ASCII letter `lower`, in either case. `lower` is
/// the lower-case letter.
pub open spec fn is_letter(byte: u8, lower: u8) -> bool {
    byte == lower || byte == lower - 32
}

/// Whether a header value begins with the word `Bearer`, in any mix of
/// cases, followed by a space.
pub open spec fn names_bearer_scheme(value: Seq<u8>) -> bool {
    &&& value.len() > 6
    &&& is_letter(value[0], 0x62)
    &&& is_letter(value[1], 0x65)
    &&& is_letter(value[2], 0x61)
    &&& is_letter(value[3], 0x72)
    &&& is_letter(value[4], 0x65)
    &&& is_letter(value[5], 0x72)
    &&& value[6] == 0x20
}

/// Whether `byte` is a visible ASCII character, a space or a tab: what a
/// header value may hold if it is to be read as text.
pub open spec fn is_text_byte(byte: u8) -> bool {
    32 <= byte < 127 || byte == 9
}

/// Whether a header value can be read as text.
pub open spec fn is_text(value: Seq<u8>) -> bool {
    forall|at: int| 0 <= at < value.len() ==> is_text_byte(#[trigger] value[at])
}

/// Whether `byte` is a space or a tab.
pub open spec fn is_blank(byte: u8) -> bool {
    byte == 32 || byte == 9
}

/// `text` without the blanks that it begins with.
pub open spec fn skip_blanks(text: Seq<u8>) -> Seq<u8>
    decreases text.len(),
{
    if text.len() > 0 && is_blank(text[0]) {
        skip_blanks(text.drop_first())
    } else {
        text
    }
}

/// ASCII bytes as the characters they stand for.
pub open spec fn as_chars(bytes: Seq<u8>) -> Seq<char> {
    Seq::new(bytes.len(), |at: int| bytes[at] as char)
}

/// The credential that an `Authorization` header value carries. There is
/// one where the value names the bearer scheme and is text throughout: it is
/// what follows the scheme and its space, without the blanks that it begins
/// with. It may be empty.
pub open spec fn credential_of(value: Seq<u8>) -> Option<Seq<char>> {
    if names_bearer_scheme(value) && is_text(value) {
        Some(as_chars(skip_blanks(value.subrange(7, value.len() as int))))
    } else {
        None
    }
}

/// The credential of a request, given the first value of its
/// `Authorization` header, if it has one.
pub open spec fn credential_of_header(header: Option<Seq<u8>>) -> Option<Seq<char>> {
    match header {
        Some(value) => credential_of(value),
        None => None,
    }
}

/// Calls `Authorization::<Bearer>::decode` of `headers` on the one header
/// value `value`, and `Authorization::token` on what it yields.
///
/// Trusted, not proved. `decode` yields nothing unless the value is longer
/// than `Bearer`, begins with that word in any case and has a space after
/// it; it then yields nothing unless `HeaderValue::to_str` of `http`
/// succeeds, which asks that every byte be visible ASCII, a space or a tab.
/// `token` is the text from the eighth byte on, after `str::trim_start`,
/// which on such text drops spaces and tabs. Bytes that `http` does not
/// accept as a header value at all yield nothing: they are not text either.
#[verifier::external_body]
fn decode_bearer(value: &[u8]) -> (token: Option<String>)
    ensures
        text_view(token) == credential_of(value@),
{
    let value = HeaderValue::from_bytes(value).ok()?;
    let decoded = Authorization::<Bearer>::decode(&mut std::iter::once(&value)).ok()?;
    Some(decoded.token().to_owned())
}

/// Reads the credential of a request. `header` is the first value of its
/// `Authorization` header, or `None` where the request has no such header.
///
/// A request without the header has no credential; so has one whose header
/// is of another scheme or is malformed.
pub fn read_credential(header: Option<&[u8]>) -> (credential: Option<String>)
    ensures
        text_view(credential) == credential_of_header(
            match header {
                Some(value) => Some(value@),
                None => None,
            },
        ),
{
    match header {
        Some(value) => decode_bearer(value),
        None => None,
    }
}

} // verus!
