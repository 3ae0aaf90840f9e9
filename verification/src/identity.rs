//! User identifiers. A user id is the 128-bit value of a UUID; its text forms
//! are read and written by the `uuid` crate.

use vstd::prelude::*;
use vstd::arithmetic::power2::pow2;

verus! {

/// The id that `uuid::Uuid::parse_str` reads from `text`, if it accepts it
/// (simple, hyphenated, urn or braced hexadecimal forms).
pub uninterp spec fn uuid_from_text(text: Seq<char>) -> Option<u128>;

/// The lower-case hexadecimal digit for `n` in `0..16`.
pub open spec fn hex_digit(n: int) -> char {
    if n < 10 {
        (48 + n) as char
    } else {
        (87 + n) as char
    }
}

/// The `i`-th hexadecimal digit of `id`, counting from the most significant (`i` in `0..32`).
pub open spec fn hex_digit_of(id: u128, i: int) -> int {
    (id as nat / pow2((4 * (31 - i)) as nat)) as int % 16
}

/// Which of the 32 digits stands at position `j` of the hyphenated text.
pub open spec fn digit_at(j: int) -> int {
    if j < 8 {
        j
    } else if j < 13 {
        j - 1
    } else if j < 18 {
        j - 2
    } else if j < 23 {
        j - 3
    } else {
        j - 4
    }
}

/// The text that `uuid::Uuid`'s `Display` writes for `id`: its 32 lower-case
/// hexadecimal digits, most significant first, with hyphens after the 8th,
/// 12th, 16th and 20th (36 characters).
pub open spec fn uuid_hyphenated(id: u128) -> Seq<char> {
    Seq::new(
        36,
        |j: int|
            if j == 8 || j == 13 || j == 18 || j == 23 {
                '-'
            } else {
                hex_digit(hex_digit_of(id, digit_at(j)))
            },
    )
}

/// Reads a user id from text with `uuid::Uuid::parse_str`. The contract names
/// the result (`uuid_from_text`) without restating the accepted forms, and
/// states one of them: the hyphenated lower-case text that `Uuid`'s `Display`
/// writes for an id is read back as that id (`parse_str` takes the
/// 36-character hyphenated form, and `as_u128` undoes `from_u128`).
#[verifier::external_body]
pub(crate) fn parse_user_id(text: &str) -> (res: Option<u128>)
    ensures
        res == uuid_from_text(text@),
        forall|id: u128| #[trigger] uuid_hyphenated(id) == text@ ==> res == Some(id),
{
    match uuid::Uuid::parse_str(text) {
        Ok(id) => Some(id.as_u128()),
        Err(_) => None,
    }
}

/// Writes a user id as `uuid::Uuid` displays it (`Uuid::from_u128` keeps the
/// value's big-endian bytes; `Display` writes them hyphenated in lower case).
#[verifier::external_body]
pub(crate) fn user_id_text(id: u128) -> (res: String)
    ensures
        res@ == uuid_hyphenated(id),
{
    uuid::Uuid::from_u128(id).to_string()
}

} // verus!
