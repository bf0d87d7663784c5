//! Session tokens: 128-bit random values with a canonical hyphenated text
//! form, generated, formatted and parsed by the `uuid` crate.

use vstd::prelude::*;

verus! {

/// The lowercase hexadecimal digit for a value below sixteen.
pub open spec fn hex_char(d: int) -> char {
    if d == 0 {
        '0'
    } else if d == 1 {
        '1'
    } else if d == 2 {
        '2'
    } else if d == 3 {
        '3'
    } else if d == 4 {
        '4'
    } else if d == 5 {
        '5'
    } else if d == 6 {
        '6'
    } else if d == 7 {
        '7'
    } else if d == 8 {
        '8'
    } else if d == 9 {
        '9'
    } else if d == 10 {
        'a'
    } else if d == 11 {
        'b'
    } else if d == 12 {
        'c'
    } else if d == 13 {
        'd'
    } else if d == 14 {
        'e'
    } else {
        'f'
    }
}

/// The low `n` hexadecimal digits of `v`, most significant first.
pub open spec fn hex_digits(v: u128, n: nat) -> Seq<char>
    decreases n,
{
    if n == 0 {
        Seq::empty()
    } else {
        hex_digits(v / 16, (n - 1) as nat).push(hex_char((v % 16) as int))
    }
}

/// The canonical text of a 128-bit token: its 32 lowercase hexadecimal
/// digits, most significant first, hyphenated in groups of 8-4-4-4-12.
pub open spec fn uuid_hyphenated(b: u128) -> Seq<char> {
    let h = hex_digits(b, 32);
    h.subrange(0, 8) + seq!['-'] + h.subrange(8, 12) + seq!['-'] + h.subrange(12, 16)
        + seq!['-'] + h.subrange(16, 20) + seq!['-'] + h.subrange(20, 32)
}

/// What `uuid::Uuid::try_parse` makes of a string: the 128-bit value in
/// big-endian order, or nothing where the string is in none of the formats
/// the parser accepts.
pub uninterp spec fn uuid_parse_of(s: Seq<char>) -> Option<u128>;

/// Relies on `uuid::Uuid::try_parse` and `Uuid::as_u128`: parsing is a pure
/// function of the string.
#[verifier::external_body]
pub(crate) fn parse_token(s: &str) -> (r: Option<u128>)
    ensures
        r == uuid_parse_of(s@),
{
    match uuid::Uuid::try_parse(s) {
        Ok(u) => Some(u.as_u128()),
        Err(_) => None,
    }
}

/// Relies on `uuid::Uuid::from_u128` and the `Display` of `Uuid`: the text
/// is the hyphenated lowercase hexadecimal form of the value, big-endian,
/// and `try_parse` accepts that form and returns the same value.
#[verifier::external_body]
pub(crate) fn format_token(bits: u128) -> (r: String)
    ensures
        r@ == uuid_hyphenated(bits),
        uuid_parse_of(r@) == Some(bits),
{
    uuid::Uuid::from_u128(bits).to_string()
}

/// Relies on `uuid::Uuid::new_v4` for an unguessable random token; nothing
/// is assumed of the value.
#[verifier::external_body]
pub(crate) fn generate_token() -> (r: u128) {
    uuid::Uuid::new_v4().as_u128()
}

} // verus!
