//! The texts that pass between the registry and whoever speaks for it: the
//! session cookie, in both directions, and the greeting.

use crate::identifier::{format_identifier, hyphenated, parse_identifier, parsed_identifier};
use crate::user::User;
use vstd::prelude::*;

verus! {

/// The name of the cookie that carries the session identifier.
pub const SESSION_COOKIE_NAME: &'static str = "session_id";

/// The text of the cookie that carries `session_id`: kept from scripts, sent
/// over secure connections only, to this site only, on every path.
pub open spec fn session_cookie_text(session_id: u128) -> Seq<char> {
    "session_id="@ + hyphenated(session_id) + "; Secure; SameSite=Strict; HttpOnly; Path=/"@
}

/// The text that greets a user called `name`.
pub open spec fn created_text(name: Seq<char>) -> Seq<char> {
    "Session created for user: "@ + name
}

/// The value of the session cookie for `session_id`. It reads back as
/// `session_id`.
pub fn session_cookie_value(session_id: u128) -> (value: String)
    ensures
        value@ == hyphenated(session_id),
        parsed_identifier(value@) == Some(session_id),
{
    format_identifier(session_id)
}

/// The cookie that hands `session_id` to the user's browser.
pub fn session_cookie(session_id: u128) -> (cookie: String)
    ensures
        cookie@ == session_cookie_text(session_id),
{
    let value = session_cookie_value(session_id);
    let mut cookie = String::from_str("session_id=");
    cookie.append(value.as_str());
    cookie.append("; Secure; SameSite=Strict; HttpOnly; Path=/");
    cookie
}

/// The session identifier that a request carries, given the value of its
/// session cookie: none where the cookie is missing or does not read as an
/// identifier.
pub fn session_id_from_cookie(value: Option<&str>) -> (session_id: Option<u128>)
    ensures
        session_id == match value {
            Some(text) => parsed_identifier(text@),
            None => None,
        },
{
    match value {
        Some(text) => parse_identifier(text),
        None => None,
    }
}

/// The greeting for a user who has just been given a session.
pub fn created_message(user: &User) -> (message: String)
    ensures
        message@ == created_text(user@.name),
{
    let mut message = String::from_str("Session created for user: ");
    message.append(user.name().value());
    message
}

} // verus!
