//! Identities: source identities read from their UUID text, and record
//! identities written as UUID text, both through the `uuid` crate.

use vstd::prelude::*;
use crate::text::digit_char;

verus! {

/// The 128-bit value of a UUID text, if it is one.
pub uninterp spec fn uuid_value(s: Seq<char>) -> Option<u128>;

/// Relies on `uuid::Uuid::parse_str` and `Uuid::as_u128`: the result depends on the text alone.
#[verifier::external_body]
pub(crate) fn parse_uuid(s: &str) -> (r: Option<u128>)
    ensures
        r == uuid_value(s@),
{
    uuid::Uuid::parse_str(s).ok().map(|u| u.as_u128())
}

/// `16` to the power `e`.
pub open spec fn pow16(e: nat) -> nat
    decreases e,
{
    if e == 0 {
        1
    } else {
        16 * pow16((e - 1) as nat)
    }
}

/// The lowercase hexadecimal digit of a value below 16.
pub open spec fn hex_char(d: nat) -> char {
    if d < 10 {
        digit_char(d)
    } else if d == 10 {
        'a'
    } else if d == 11 {
        'b'
    } else if d == 12 {
        'c'
    } else if d == 13 {
        'd'
    } else if d == 14 {
        'e'
    } else {
        'f'
    }
}

/// The 32 lowercase hexadecimal digits of a 128-bit value, most significant first.
pub open spec fn hex_digits(v: u128) -> Seq<char> {
    Seq::new(32, |i: int| hex_char((v as nat / pow16((31 - i) as nat)) % 16))
}

/// The hyphenated form of a UUID: its hex digits in groups of 8, 4, 4, 4 and 12.
pub open spec fn uuid_text_of(v: u128) -> Seq<char> {
    let h = hex_digits(v);
    h.subrange(0, 8) + seq!['-'] + h.subrange(8, 12) + seq!['-'] + h.subrange(12, 16) + seq!['-']
        + h.subrange(16, 20) + seq!['-'] + h.subrange(20, 32)
}

/// Relies on the `Display` of `uuid::Uuid` (built by `Uuid::from_u128`): the
/// big-endian bytes as lowercase hex, hyphenated after 8, 12, 16 and 20 digits.
#[verifier::external_body]
fn uuid_text(v: u128) -> (r: String)
    ensures
        r@ == uuid_text_of(v),
{
    uuid::Uuid::from_u128(v).to_string()
}

/// The record identity of a UUID value, in hyphenated form.
pub fn record_id(v: u128) -> (r: String)
    ensures
        r@ == uuid_text_of(v),
        r@.len() == 36,
{
    uuid_text(v)
}

} // verus!
