//! Scalar wire encodings: percent-encoding of keys and values, and decimal
//! rendering of integers.

use vstd::prelude::*;

verus! {

/// The characters that percent-encoding produces for a given string.
/// Percent-encoding is a pure function of the input characters, so its result
/// can be given a name even though writing it out would take pages (it runs
/// over the UTF-8 bytes of the input).
pub uninterp spec fn encoded(s: Seq<char>) -> Seq<char>;

/// The character for a single decimal digit.
pub open spec fn dec_digit(d: nat) -> char
    recommends
        d < 10,
{
    if d == 0 {
        '0'
    } else if d == 1 {
        '1'
    } else if d == 2 {
        '2'
    } else if d == 3 {
        '3'
    } else if d == 4 {
        '4'
    } else if d == 5 {
        '5'
    } else if d == 6 {
        '6'
    } else if d == 7 {
        '7'
    } else if d == 8 {
        '8'
    } else {
        '9'
    }
}

/// Decimal representation of a natural number: most significant digit first,
/// no sign, no padding, and no leading zeroes (zero itself is `"0"`).
pub open spec fn dec_str(n: nat) -> Seq<char>
    decreases n,
{
    if n < 10 {
        seq![dec_digit(n)]
    } else {
        dec_str(n / 10).push(dec_digit(n % 10))
    }
}

/// Decimal representation of a signed integer: a leading `'-'` for negative
/// values, the bare digits otherwise.
pub open spec fn dec_str_signed(v: int) -> Seq<char> {
    if v >= 0 {
        dec_str(v as nat)
    } else {
        seq!['-'] + dec_str((-v) as nat)
    }
}

/// Relies on `urlencoding::encode`: it percent-encodes every byte of the
/// input except ASCII alphanumerics and `'-'`, `'_'`, `'.'`, `'~'`, and is a
/// pure function of the input string, named here by `encoded`.
#[verifier::external_body]
pub(crate) fn url_encode(s: &str) -> (r: String)
    ensures
        r@ == encoded(s@),
{
    urlencoding::encode(s).into_owned()
}

/// Relies on `itoa::Buffer::format`: it writes the exact decimal digits of
/// the integer, most significant first, without padding or separators.
#[verifier::external_body]
pub(crate) fn u64_to_dec(v: u64) -> (r: String)
    ensures
        r@ == dec_str(v as nat),
{
    itoa::Buffer::new().format(v).to_string()
}

/// Relies on `itoa::Buffer::format`: decimal digits, with a leading `'-'`
/// for negative values.
#[verifier::external_body]
pub(crate) fn i64_to_dec(v: i64) -> (r: String)
    ensures
        r@ == dec_str_signed(v as int),
{
    itoa::Buffer::new().format(v).to_string()
}

/// Relies on `itoa::Buffer::format`, exactly as `u64_to_dec` does.
#[verifier::external_body]
pub(crate) fn usize_to_dec(v: usize) -> (r: String)
    ensures
        r@ == dec_str(v as nat),
{
    itoa::Buffer::new().format(v).to_string()
}

} // verus!
