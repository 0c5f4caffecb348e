//! Identifiers are 128-bit UUIDs, held as `u128` in big-endian reading.

use vstd::arithmetic::power::pow;
use vstd::prelude::*;

verus! {

/// What `uuid::Uuid::parse_str` makes of a text: the identifier, or `None`
/// where it does not accept the text.
pub uninterp spec fn uuid_parse_str(input: Seq<char>) -> Option<u128>;

/// Calls `uuid::Uuid::parse_str` and reads the parsed value with
/// `Uuid::as_u128`. The parser accepts the simple, hyphenated and URN
/// forms in either letter case; its grammar is not restated here, the
/// result is named.
#[verifier::external_body]
pub(crate) fn parse_uuid(input: &str) -> (id: Option<u128>)
    ensures
        id == uuid_parse_str(input@),
{
    match uuid::Uuid::parse_str(input) {
        Ok(parsed) => Some(parsed.as_u128()),
        Err(_) => None,
    }
}

/// The lower-case hexadecimal digit for a value below sixteen.
pub open spec fn hex_digit(value: int) -> char
    recommends
        0 <= value < 16,
{
    seq!['0', '1', '2', '3', '4', '5', '6', '7', '8', '9', 'a', 'b', 'c', 'd', 'e', 'f'][value]
}

/// The hexadecimal digit of `id` at `position`, counted from the most
/// significant of its thirty-two.
pub open spec fn nibble(id: u128, position: int) -> int
    recommends
        0 <= position < 32,
{
    (id as int / pow(16, (31 - position) as nat)) % 16
}

/// How many hyphens stand before index `i` of the hyphenated form.
pub open spec fn hyphens_before(i: int) -> int {
    if i < 8 {
        0
    } else if i < 13 {
        1
    } else if i < 18 {
        2
    } else if i < 23 {
        3
    } else {
        4
    }
}

/// The canonical text of an identifier: thirty-two lower-case hexadecimal
/// digits in groups of 8, 4, 4, 4 and 12, separated by hyphens.
pub open spec fn hyphenated(id: u128) -> Seq<char> {
    Seq::new(
        36,
        |i: int|
            if i == 8 || i == 13 || i == 18 || i == 23 {
                '-'
            } else {
                hex_digit(nibble(id, i - hyphens_before(i)))
            },
    )
}

/// Calls `uuid::Uuid::from_u128` and formats the value with its `Display`
/// impl, which writes the hyphenated lower-case form.
#[verifier::external_body]
pub(crate) fn format_uuid(id: u128) -> (text: String)
    ensures
        text@ == hyphenated(id),
{
    uuid::Uuid::from_u128(id).to_string()
}

} // verus!
