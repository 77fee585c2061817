use vstd::prelude::*;

use crate::error::CoreError;

verus! {

/// A user's identity: the 128-bit value of their UUID.
pub type UserId = u128;

/// What `uuid::Uuid::parse_str` makes of a text: the UUID's 128-bit value,
/// or `None` where the text is not a UUID.
pub uninterp spec fn uuid_parse(s: Seq<char>) -> Option<u128>;

/// The lowercase hexadecimal digit for `d < 16`.
pub open spec fn hex_char(d: nat) -> char {
    seq!['0', '1', '2', '3', '4', '5', '6', '7', '8', '9', 'a', 'b', 'c', 'd', 'e', 'f'][d as int]
}

/// The lowest `n` hexadecimal digits of `v`, most significant first.
pub open spec fn hex_digits(v: nat, n: nat) -> Seq<char>
    decreases n,
{
    if n == 0 {
        Seq::empty()
    } else {
        hex_digits(v / 16, (n - 1) as nat).push(hex_char(v % 16))
    }
}

/// The hyphenated lowercase form of a UUID: 8-4-4-4-12 hex digits.
pub open spec fn uuid_text(v: u128) -> Seq<char> {
    let d = hex_digits(v as nat, 32);
    d.subrange(0, 8) + seq!['-'] + d.subrange(8, 12) + seq!['-'] + d.subrange(12, 16) + seq!['-']
        + d.subrange(16, 20) + seq!['-'] + d.subrange(20, 32)
}

/// Relies on `uuid::Uuid::parse_str` (and `as_u128`) to read a UUID in any of
/// the textual forms that crate accepts.
#[verifier::external_body]
fn parse_uuid(s: &str) -> (r: Option<u128>)
    ensures
        r == uuid_parse(s@),
{
    match uuid::Uuid::parse_str(s) {
        Ok(u) => Some(u.as_u128()),
        Err(_) => None,
    }
}

/// Relies on `uuid::Uuid::from_u128` and its `Display`, which writes the
/// hyphenated lowercase form; `parse_str` reads every form the crate writes
/// back to the same value.
#[verifier::external_body]
fn format_uuid(v: u128) -> (r: String)
    ensures
        r@ == uuid_text(v),
        uuid_parse(r@) == Some(v),
{
    uuid::Uuid::from_u128(v).to_string()
}

/// Reads a user identifier sent by a client; a text that is not a UUID is an
/// invalid target.
pub fn parse_user_id(s: &str) -> (r: Result<UserId, CoreError>)
    ensures
        uuid_parse(s@) matches Some(v) ==> r == Ok::<UserId, CoreError>(v),
        uuid_parse(s@) is None ==> r == Err::<UserId, CoreError>(CoreError::InvalidTarget),
{
    match parse_uuid(s) {
        Some(v) => Ok(v),
        None => Err(CoreError::InvalidTarget),
    }
}

/// The text form of a user identifier, as clients see it.
pub fn user_id_text(id: UserId) -> (r: String)
    ensures
        r@ == uuid_text(id),
        uuid_parse(r@) == Some(id),
{
    format_uuid(id)
}

} // verus!
