//! 128-bit identifiers and their textual form, by way of the `uuid` crate.

use vstd::prelude::*;
use vstd::arithmetic::power::pow;

verus! {

/// The sixteen lower-case hexadecimal digits.
pub open spec fn hex_digits() -> Seq<char> {
    seq!['0', '1', '2', '3', '4', '5', '6', '7', '8', '9', 'a', 'b', 'c', 'd', 'e', 'f']
}

/// The `j`-th hexadecimal digit of `id`, counted from the most significant.
pub open spec fn id_digit(id: u128, j: int) -> char {
    hex_digits()[(id as int / pow(16, (31 - j) as nat)) % 16]
}

/// The hyphenated form of an identifier: its 32 lower-case hexadecimal
/// digits, most significant first, in groups of 8, 4, 4, 4 and 12.
pub open spec fn hyphenated(id: u128) -> Seq<char> {
    Seq::new(
        36,
        |i: int|
            if i == 8 || i == 13 || i == 18 || i == 23 {
                '-'
            } else if i < 8 {
                id_digit(id, i)
            } else if i < 13 {
                id_digit(id, i - 1)
            } else if i < 18 {
                id_digit(id, i - 2)
            } else if i < 23 {
                id_digit(id, i - 3)
            } else {
                id_digit(id, i - 4)
            },
    )
}

/// The identifier that a text denotes, if it denotes one.
pub uninterp spec fn parsed_id(text: Seq<char>) -> Option<u128>;

/// A fresh identifier whose leading bits follow the clock.
///
/// Wraps `uuid::Uuid::now_v7`. The value depends on the time and on random
/// bits, so nothing is claimed of it.
#[verifier::external_body]
pub(crate) fn time_ordered_id() -> u128 {
    uuid::Uuid::now_v7().as_u128()
}

/// A fresh random identifier.
///
/// Wraps `uuid::Uuid::new_v4`. Nothing is claimed of the value.
#[verifier::external_body]
pub(crate) fn random_id() -> u128 {
    uuid::Uuid::new_v4().as_u128()
}

/// The hyphenated text of an identifier.
///
/// Wraps the `Display` impl of `uuid::Uuid`, which writes the lower-case
/// hyphenated form. The crate documents that its parser reads every form it
/// writes, so the text parses back to `id`.
#[verifier::external_body]
pub(crate) fn id_text(id: u128) -> (text: String)
    ensures
        text@ == hyphenated(id),
        parsed_id(text@) == Some(id),
{
    uuid::Uuid::from_u128(id).to_string()
}

/// Reads an identifier from text.
///
/// Wraps `uuid::Uuid::parse_str`, which accepts the simple, hyphenated, URN
/// and braced forms and fails on anything else.
#[verifier::external_body]
pub(crate) fn parse_id(text: &str) -> (id: Option<u128>)
    ensures
        id == parsed_id(text@),
{
    match uuid::Uuid::parse_str(text) {
        Ok(id) => Some(id.as_u128()),
        Err(_) => None,
    }
}

} // verus!
