//! The text form of account and session identifiers, which is how tokens carry them.

use vstd::prelude::*;
use uuid::Uuid;

verus! {

/// The lower-case hexadecimal digit of a value below sixteen.
pub open spec fn hex_digit(d: int) -> char {
    if d < 10 {
        (('0' as int) + d) as char
    } else {
        (('a' as int) + d - 10) as char
    }
}

/// The `k`-th hexadecimal digit of a 128-bit value, counting from the most significant.
pub open spec fn nibble(id: u128, k: int) -> int {
    ((id as int) / vstd::arithmetic::power2::pow2((4 * (31 - k)) as nat) as int) % 16
}

/// The hyphenated form of a UUID: 32 lower-case hexadecimal digits, most significant first, in
/// groups of 8, 4, 4, 4, and 12 separated by hyphens.
pub open spec fn uuid_hyphenated(id: u128) -> Seq<char> {
    Seq::new(
        36,
        |i: int|
            if i == 8 || i == 13 || i == 18 || i == 23 {
                '-'
            } else {
                let k = if i < 8 {
                    i
                } else if i < 13 {
                    i - 1
                } else if i < 18 {
                    i - 2
                } else if i < 23 {
                    i - 3
                } else {
                    i - 4
                };
                hex_digit(nibble(id, k))
            },
    )
}

/// What `Uuid::parse_str` reads a text as: the value it denotes in any of the forms the crate
/// accepts (hyphenated, simple, braced, or URN), or nothing.
pub uninterp spec fn uuid_of_text(text: Seq<char>) -> Option<u128>;

/// `Uuid::to_string`: the hyphenated lower-case form, which `Uuid::parse_str` reads back as
/// the same value.
#[verifier::external_body]
pub(crate) fn uuid_text(id: u128) -> (s: String)
    ensures
        s@ == uuid_hyphenated(id),
        uuid_of_text(s@) == Some(id),
{
    Uuid::from_u128(id).to_string()
}

/// `Uuid::parse_str`.
#[verifier::external_body]
pub(crate) fn parse_uuid(text: &str) -> (r: Option<u128>)
    ensures
        r == uuid_of_text(text@),
{
    match Uuid::parse_str(text) {
        Ok(id) => Some(id.as_u128()),
        Err(_) => None,
    }
}

} // verus!
