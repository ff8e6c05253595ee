//! Textual forms of integers and identifiers, as they appear in paths and output.
use vstd::prelude::*;
use vstd::arithmetic::power::pow;

verus! {

/// The decimal digit for `d` (`0 <= d < 10`).
pub open spec fn digit_char(d: int) -> char {
    seq!['0', '1', '2', '3', '4', '5', '6', '7', '8', '9'][d]
}

/// The lowercase hexadecimal digit for `d` (`0 <= d < 16`).
pub open spec fn hex_char(d: int) -> char {
    seq!['0', '1', '2', '3', '4', '5', '6', '7', '8', '9', 'a', 'b', 'c', 'd', 'e', 'f'][d]
}

/// Decimal digits of a natural number, most significant first, no leading zeros.
pub open spec fn nat_text(n: nat) -> Seq<char>
    decreases n,
{
    if n < 10 {
        seq![digit_char(n as int)]
    } else {
        nat_text(n / 10) + seq![digit_char((n % 10) as int)]
    }
}

/// Decimal text of an integer, with a leading `-` when negative.
pub open spec fn int_text(v: int) -> Seq<char> {
    if v < 0 {
        seq!['-'] + nat_text((-v) as nat)
    } else {
        nat_text(v as nat)
    }
}

/// The 32 hexadecimal digits of a 128-bit identifier, most significant first.
pub open spec fn uuid_digits(v: u128) -> Seq<char> {
    Seq::new(32, |i: int| hex_char((v as int / pow(16, (31 - i) as nat)) % 16))
}

/// The hyphenated lowercase form of a 128-bit identifier (8-4-4-4-12 digits).
pub open spec fn uuid_text(v: u128) -> Seq<char> {
    let d = uuid_digits(v);
    d.subrange(0, 8) + seq!['-'] + d.subrange(8, 12) + seq!['-'] + d.subrange(12, 16) + seq!['-']
        + d.subrange(16, 20) + seq!['-'] + d.subrange(20, 32)
}

/// Relies on the `Display` impl of `i128`, which writes the value in decimal
/// with a leading minus sign for negative values.
#[verifier::external_body]
pub(crate) fn decimal(v: i128) -> (r: String)
    ensures
        r@ == int_text(v as int),
{
    v.to_string()
}

/// Relies on `uuid::Uuid::from_u128` (big-endian) and the `Display` impl of
/// `uuid::fmt::Hyphenated`: lowercase hex digits grouped 8-4-4-4-12.
#[verifier::external_body]
pub(crate) fn uuid_string(v: u128) -> (r: String)
    ensures
        r@ == uuid_text(v),
{
    uuid::Uuid::from_u128(v).hyphenated().to_string()
}

/// Appends the decimal text of `v` to `s`.
pub fn push_decimal(s: &mut String, v: i128)
    ensures
        final(s)@ == old(s)@ + int_text(v as int),
{
    let d = decimal(v);
    s.append(d.as_str());
}

/// Appends the hyphenated text of identifier `v` to `s`.
pub fn push_uuid(s: &mut String, v: u128)
    ensures
        final(s)@ == old(s)@ + uuid_text(v),
{
    let d = uuid_string(v);
    s.append(d.as_str());
}

} // verus!
