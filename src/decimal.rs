use vstd::prelude::*;

verus! {

/// Value of an ASCII decimal digit.
pub open spec fn digit_value(c: char) -> nat {
    (c as nat - '0' as nat) as nat
}

pub open spec fn is_digit(c: char) -> bool {
    '0' <= c && c <= '9'
}

/// A non-empty string made of decimal digits only.
pub open spec fn is_decimal(s: Seq<char>) -> bool {
    s.len() > 0 && forall|i: int| 0 <= i < s.len() ==> is_digit(#[trigger] s[i])
}

/// The number that a string of decimal digits spells, most significant first.
pub open spec fn dec_value(s: Seq<char>) -> nat
    decreases s.len(),
{
    if s.len() == 0 {
        0
    } else {
        dec_value(s.drop_last()) * 10 + digit_value(s.last())
    }
}

/// The number that a byte string holds, most significant byte first.
pub open spec fn be_value(b: Seq<u8>) -> nat
    decreases b.len(),
{
    if b.len() == 0 {
        0
    } else {
        be_value(b.drop_last()) * 256 + b.last() as nat
    }
}

/// The number that a byte string holds, least significant byte first.
pub open spec fn le_value(b: Seq<u8>) -> nat
    decreases b.len(),
{
    if b.len() == 0 {
        0
    } else {
        b[0] as nat + 256 * le_value(b.skip(1))
    }
}

/// Tells whether `s` is a non-empty string of decimal digits.
pub fn check_decimal(s: &str) -> (r: bool)
    ensures
        r == is_decimal(s@),
{
    let n = s.unicode_len();
    if n == 0 {
        return false;
    }
    let mut i: usize = 0;
    while i < n
        invariant
            n == s@.len(),
            i <= n,
            forall|j: int| 0 <= j < i ==> is_digit(#[trigger] s@[j]),
        decreases n - i,
    {
        let c = s.get_char(i);
        if !('0' <= c && c <= '9') {
            return false;
        }
        i = i + 1;
    }
    true
}

/// Relies on `num_bigint::BigUint::from_str_radix` with radix 10, which on a
/// non-empty string of ASCII digits returns the number they spell; the number
/// is handed back through `BigUint::to_bytes_be` (big-endian bytes, at least
/// one: zero gives `[0]`).
#[verifier::external_body]
pub(crate) fn decimal_to_be_bytes(s: &str) -> (r: Option<Vec<u8>>)
    requires
        is_decimal(s@),
    ensures
        r is Some && r->0@.len() > 0 && be_value(r->0@) == dec_value(s@),
{
    match <num_bigint::BigUint as num_traits::Num>::from_str_radix(s, 10) {
        Ok(n) => Some(n.to_bytes_be()),
        Err(_) => None,
    }
}

} // verus!
