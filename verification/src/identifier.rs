//! Opaque 128-bit identifiers for users and sessions.

use uuid::Uuid;
use vstd::prelude::*;

verus! {

/// The bits of an identifier that say how it was made.
pub const KIND_MASK: u128 = 0x0000_0000_0000_f000_c000_0000_0000_0000;

/// What those bits read in an identifier that was drawn at random.
pub const RANDOM_KIND: u128 = 0x0000_0000_0000_4000_8000_0000_0000_0000;

/// Whether `id` is marked as drawn at random: version 4, RFC variant.
pub open spec fn is_random_identifier(id: u128) -> bool {
    id & KIND_MASK == RANDOM_KIND
}

/// Draws a fresh identifier with `Uuid::new_v4` and hands it out as the
/// 128-bit number that `Uuid::as_u128` reads from it.
///
/// `new_v4` takes 128 bits from the operating system, clears the version and
/// variant bits and sets them to version 4 and the RFC variant; the rest is
/// chance, so nothing else is claimed. It panics when the operating system
/// cannot supply random bytes.
#[verifier::external_body]
pub(crate) fn random_identifier() -> (id: u128)
    ensures
        is_random_identifier(id),
{
    Uuid::new_v4().as_u128()
}

/// What `Uuid::parse_str` reads from `text`: the identifier that the text
/// writes in one of the forms the parser knows, or `None` where it writes
/// none.
pub uninterp spec fn parsed_identifier(text: Seq<char>) -> Option<u128>;

/// The text that a `Uuid` shows for `id`: 32 lower-case hexadecimal digits
/// in five groups with hyphens between them.
pub uninterp spec fn hyphenated(id: u128) -> Seq<char>;

/// Reads an identifier from `text` with `Uuid::parse_str` and hands it out
/// as the 128-bit number that `Uuid::as_u128` reads from it.
///
/// The parser decides by the text alone; what it reads is what
/// `parsed_identifier` stands for.
#[verifier::external_body]
pub(crate) fn parse_identifier(text: &str) -> (id: Option<u128>)
    ensures
        id == parsed_identifier(text@),
{
    match Uuid::parse_str(text) {
        Ok(uuid) => Some(uuid.as_u128()),
        Err(_) => None,
    }
}

/// Writes `id` as the `Uuid` made by `Uuid::from_u128` shows itself.
///
/// The text depends on the number alone; it is what `hyphenated` stands
/// for. The parser reads every form that a `Uuid` writes, so it reads this
/// text back as `id`.
#[verifier::external_body]
pub(crate) fn format_identifier(id: u128) -> (text: String)
    ensures
        text@ == hyphenated(id),
        parsed_identifier(text@) == Some(id),
{
    Uuid::from_u128(id).to_string()
}

} // verus!
