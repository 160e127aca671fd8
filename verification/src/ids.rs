//! User and session identifiers: UUIDs held as their big-endian 128-bit
//! value, written and read through the `uuid` crate.
use vstd::prelude::*;
use crate::encoding::{uuid_nibble, uuid_text};

verus! {

/// A name for what `str::parse::<uuid::Uuid>` reads from a text (any of the
/// forms that `Uuid::parse_str` accepts), as the 128-bit value.
pub uninterp spec fn uuid_parsed(text: Seq<char>) -> Option<u128>;

/// `Uuid::from_u128(id).to_string()`: the hyphenated lowercase form
/// (`uuid`'s `Display` writes `format_hyphenated` with lowercase digits).
#[verifier::external_body]
fn uuid_format(id: u128) -> (text: String)
    ensures
        text@ == uuid_text(id),
{
    uuid::Uuid::from_u128(id).to_string()
}

/// `text.parse::<uuid::Uuid>()` read back as `as_u128`. The result is named
/// `uuid_parsed`; as the uuid documentation and source show, the hyphenated
/// lowercase form of a value parses to that value.
#[verifier::external_body]
fn uuid_parse(text: &str) -> (id: Option<u128>)
    ensures
        id == uuid_parsed(text@),
        forall|v: u128| #[trigger] uuid_text(v) == text@ ==> id == Some(v),
{
    match text.parse::<uuid::Uuid>() {
        Ok(parsed) => Some(parsed.as_u128()),
        Err(_) => None,
    }
}

/// `uuid::Uuid::new_v4()` as its 128-bit value. The bits are random; as the
/// uuid source shows (`new_v4` masks and sets them), the version digit (the
/// 13th hex digit) is 4 and the variant digit (the 17th) is one of 8, 9, a, b.
#[verifier::external_body]
fn uuid_random_v4() -> (id: u128)
    ensures
        uuid_nibble(id, 12) == 4,
        8 <= uuid_nibble(id, 16) <= 11,
{
    uuid::Uuid::new_v4().as_u128()
}

/// The text form of an identifier, as it stands in token claims.
pub fn id_to_string(id: u128) -> (text: String)
    ensures
        text@ == uuid_text(id),
{
    uuid_format(id)
}

/// The identifier written in a claim, if the claim holds one.
pub fn parse_id(text: &str) -> (id: Option<u128>)
    ensures
        id == uuid_parsed(text@),
        forall|v: u128| #[trigger] uuid_text(v) == text@ ==> id == Some(v),
{
    uuid_parse(text)
}

/// A fresh random (version 4) identifier for a new session: its version
/// digit is 4 and its variant digit one of 8, 9, a, b (RFC 9562).
pub fn new_session_id() -> (id: u128)
    ensures
        uuid_nibble(id, 12) == 4,
        8 <= uuid_nibble(id, 16) <= 11,
{
    uuid_random_v4()
}

} // verus!
