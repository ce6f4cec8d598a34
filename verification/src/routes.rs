//! What the two routes answer.
//!
//! `/public` is open to everyone and greets an authenticated user by name.
//! `/protected` answers only to an authenticated user, and refuses everyone
//! else with the same bare status.

use crate::extractor::identity_view;
use crate::extractor::optional_identity;
use crate::extractor::Extraction;
use crate::extractor::ExtractionView;
use crate::identity::User;
use crate::identity::UserView;
use crate::identity::STATUS_OK;
use crate::identity::STATUS_UNAUTHORIZED;
use vstd::prelude::*;

verus! {

/// What comes before the user's name in the greeting of `/public`.
pub const WELCOME_OPENING: &'static str = "Welcome back, ";

/// What comes after the user's name in the greeting of `/public`.
pub const WELCOME_CLOSING: &'static str =
    "! You\u{2019}re successfully logged in.\nFeel free to explore the `/protected` route!";

/// What `/public` says to a guest.
pub const GUEST_GREETING: &'static str =
    "Hello, Guest! It looks like you\u{2019}re not logged in yet. No worries\u{2014}this route is open for everyone.";

/// What comes before the identity in the answer of `/protected`.
pub const PROTECTED_OPENING: &'static str = "Welcome to the protected area :)\nHere's your info:\n";

/// What std's `Debug` writes for a string: the text in double quotes, with
/// the characters escaped that need it.
pub uninterp spec fn debug_text(text: Seq<char>) -> Seq<char>;

/// Formats `text` with std's `Debug` for `str`.
///
/// Trusted, not proved: what is written depends on the text alone.
#[verifier::external_body]
fn debug_quoted(text: &str) -> (quoted: String)
    ensures
        quoted@ == debug_text(text@),
{
    format!("{:?}", text)
}

/// Whether `needle` stands somewhere in `text`, in one piece.
pub open spec fn occurs_in(needle: Seq<char>, text: Seq<char>) -> bool {
    exists|at: int|
        0 <= at && at + needle.len() <= text.len() && #[trigger] text.subrange(
            at,
            at + needle.len(),
        ) == needle
}

/// The greeting of `/public` for the user called `username`.
pub open spec fn personal_greeting(username: Seq<char>) -> Seq<char> {
    WELCOME_OPENING@ + username + WELCOME_CLOSING@
}

/// The body that `/public` answers with.
pub open spec fn public_message(user: Option<UserView>) -> Seq<char> {
    match user {
        Some(user) => personal_greeting(user.username),
        None => GUEST_GREETING@,
    }
}

/// An identity written out field by field. The arguments are the fields as
/// they are to appear.
pub open spec fn identity_listing(id: Seq<char>, username: Seq<char>, key_id: Seq<char>) -> Seq<
    char,
> {
    "User { id: "@ + id + ", username: "@ + username + ", key_id: "@ + key_id + " }"@
}

/// The body that `/protected` answers an authenticated user with.
pub open spec fn protected_message(user: UserView) -> Seq<char> {
    PROTECTED_OPENING@ + identity_listing(
        debug_text(user.id),
        debug_text(user.username),
        debug_text(user.key_id),
    )
}

/// The handler of `/public`. It greets the user by name, or a guest where
/// there is no user.
pub fn public_handler(user: Option<User>) -> (body: String)
    ensures
        body@ == public_message(identity_view(user)),
{
    match user {
        Some(user) => {
            let mut body = String::from_str(WELCOME_OPENING);
            body.append(user.username());
            body.append(WELCOME_CLOSING);
            body
        },
        None => String::from_str(GUEST_GREETING),
    }
}

/// Writes out an identity whose fields have been made ready for display.
pub fn list_identity(id: &str, username: &str, key_id: &str) -> (listing: String)
    ensures
        listing@ == identity_listing(id@, username@, key_id@),
{
    let mut listing = String::from_str("User { id: ");
    listing.append(id);
    listing.append(", username: ");
    listing.append(username);
    listing.append(", key_id: ");
    listing.append(key_id);
    listing.append(" }");
    listing
}

/// The handler of `/protected`. It can only be called with an identity:
/// where there is none, there is nothing to hand to it.
pub fn protected_handler(user: User) -> (body: String)
    ensures
        body@ == protected_message(user@),
{
    let id = debug_quoted(user.id());
    let username = debug_quoted(user.username());
    let key_id = debug_quoted(user.key_id());
    let listing = list_identity(id.as_str(), username.as_str(), key_id.as_str());
    let mut body = String::from_str(PROTECTED_OPENING);
    body.append(listing.as_str());
    body
}

/// An HTTP response, as far as this crate decides it.
#[derive(Debug)]
pub struct Response {
    pub status: u16,
    pub body: String,
}

/// The mathematical value of a [`Response`].
pub struct ResponseView {
    pub status: u16,
    pub body: Seq<char>,
}

impl View for Response {
    type V = ResponseView;

    open spec fn view(&self) -> ResponseView {
        ResponseView { status: self.status, body: self.body@ }
    }
}

/// The response that refuses a request: status 401 and no body.
pub open spec fn unauthorized() -> ResponseView {
    ResponseView { status: STATUS_UNAUTHORIZED, body: Seq::<char>::empty() }
}

/// The response of `/public` to a request whose extraction ended in `state`.
pub open spec fn public_response(state: ExtractionView) -> ResponseView {
    ResponseView { status: STATUS_OK, body: public_message(optional_identity(state)) }
}

/// The response of `/protected` to a request whose extraction ended in
/// `state`.
pub open spec fn protected_response(state: ExtractionView) -> ResponseView {
    match optional_identity(state) {
        Some(user) => ResponseView { status: STATUS_OK, body: protected_message(user) },
        None => unauthorized(),
    }
}

/// Answers a request to `/public`. The extraction is optional here: the
/// route answers with status 200 whatever came of it.
pub fn public_route(extraction: Extraction) -> (response: Response)
    ensures
        response@ == public_response(extraction@),
{
    Response { status: STATUS_OK, body: public_handler(extraction.optional()) }
}

/// Answers a request to `/protected`. The extraction is mandatory here:
/// unless it ended with an identity, the handler does not run, and the
/// response is the bare refusal.
pub fn protected_route(extraction: Extraction) -> (response: Response)
    ensures
        response@ == protected_response(extraction@),
{
    match extraction.mandatory() {
        Ok(user) => Response { status: STATUS_OK, body: protected_handler(user) },
        Err(status) => Response { status, body: String::new() },
    }
}

} // verus!
