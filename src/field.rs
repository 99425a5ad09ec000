use vstd::prelude::*;
use vstd::arithmetic::div_mod::{lemma_small_mod, lemma_mod_twice};
use crate::decimal::{is_decimal, dec_value, be_value, le_value, check_decimal, decimal_to_be_bytes};
use crate::error::ConvertError;

verus! {

/// Order of BN254's base field Fq.
pub open spec fn fq_modulus() -> nat {
    0x30644e72e131a029b85045b68181585d * 0x1_0000_0000_0000_0000_0000_0000_0000_0000nat
        + 0x97816a916871ca8d3c208c16d87cfd47nat
}

/// Order of BN254's scalar field Fr.
pub open spec fn fr_modulus() -> nat {
    0x30644e72e131a029b85045b68181585d * 0x1_0000_0000_0000_0000_0000_0000_0000_0000nat
        + 0x2833e84879b9709143e1f593f0000001nat
}

/// The residue modulo `m` of the number that the decimal string `s` spells:
/// values at or above the modulus wrap around, they are not rejected.
pub open spec fn field_of(s: Seq<char>, m: nat) -> nat {
    dec_value(s) % m
}

/// An element of the base field Fq, held as its canonical residue in 32
/// little-endian bytes.
#[derive(Debug, Clone, PartialEq, Eq)]
pub struct FqElem {
    pub le_bytes: Vec<u8>,
}

/// An element of the scalar field Fr, held as its canonical residue in 32
/// little-endian bytes.
#[derive(Debug, Clone, PartialEq, Eq)]
pub struct FrElem {
    pub le_bytes: Vec<u8>,
}

/// An element of the quadratic extension Fq2: `c0 + c1 * u`.
#[derive(Debug, Clone, PartialEq, Eq)]
pub struct Fq2Elem {
    pub c0: FqElem,
    pub c1: FqElem,
}

impl FqElem {
    pub open spec fn value(&self) -> nat {
        le_value(self.le_bytes@)
    }

    pub open spec fn wf(&self) -> bool {
        self.le_bytes@.len() == 32 && self.value() < fq_modulus()
    }
}

impl FrElem {
    pub open spec fn value(&self) -> nat {
        le_value(self.le_bytes@)
    }

    pub open spec fn wf(&self) -> bool {
        self.le_bytes@.len() == 32 && self.value() < fr_modulus()
    }
}

impl Fq2Elem {
    pub open spec fn wf(&self) -> bool {
        self.c0.wf() && self.c1.wf()
    }
}

/// Relies on `ark_ff::PrimeField::from_be_bytes_mod_order` for BN254's Fq: the
/// big-endian integer reduced modulo the field order. The element is read back
/// as its canonical integer through `into_bigint().to_bytes_le()` (four 64-bit
/// limbs, 32 bytes).
#[verifier::external_body]
fn fq_from_be_bytes_mod_order(b: &Vec<u8>) -> (r: Vec<u8>)
    requires
        b@.len() > 0,
    ensures
        r@.len() == 32 && le_value(r@) == be_value(b@) % fq_modulus(),
{
    let f = <ark_bn254::Fq as ark_ff::PrimeField>::from_be_bytes_mod_order(b.as_slice());
    ark_ff::BigInteger::to_bytes_le(&ark_ff::PrimeField::into_bigint(f))
}

/// Relies on `ark_ff::PrimeField::from_be_bytes_mod_order` for BN254's Fr: the
/// big-endian integer reduced modulo the field order. The element is read back
/// as its canonical integer through `into_bigint().to_bytes_le()` (32 bytes).
#[verifier::external_body]
fn fr_from_be_bytes_mod_order(b: &Vec<u8>) -> (r: Vec<u8>)
    requires
        b@.len() > 0,
    ensures
        r@.len() == 32 && le_value(r@) == be_value(b@) % fr_modulus(),
{
    let f = <ark_bn254::Fr as ark_ff::PrimeField>::from_be_bytes_mod_order(b.as_slice());
    ark_ff::BigInteger::to_bytes_le(&ark_ff::PrimeField::into_bigint(f))
}

/// `n` written in `len` bytes, least significant first (truncated beyond).
pub open spec fn le_bytes_of(n: nat, len: nat) -> Seq<u8>
    decreases len,
{
    if len == 0 {
        Seq::empty()
    } else {
        seq![(n % 256) as u8] + le_bytes_of(n / 256, (len - 1) as nat)
    }
}

/// Relies on `CanonicalSerialize::serialize_compressed` for BN254's Fr: a field
/// element is written as its canonical integer in 32 little-endian bytes, with
/// no flags.
#[verifier::external_body]
fn fr_serialize_compressed(e: &FrElem) -> (r: Vec<u8>)
    requires
        e.wf(),
    ensures
        r@ == le_bytes_of(e.value(), 32),
{
    let f = <ark_bn254::Fr as ark_ff::PrimeField>::from_le_bytes_mod_order(&e.le_bytes);
    let mut buf: Vec<u8> = Vec::new();
    ark_serialize::CanonicalSerialize::serialize_compressed(&f, &mut buf).unwrap();
    buf
}

/// The fixed-width encoding of a scalar: its canonical value in 32
/// little-endian bytes.
pub fn encode_fr(e: &FrElem) -> (r: Vec<u8>)
    requires
        e.wf(),
    ensures
        r@ == le_bytes_of(e.value(), 32),
{
    fr_serialize_compressed(e)
}

proof fn lemma_residue_below(x: nat, m: nat)
    requires
        m > 0,
    ensures
        x % m < m,
{
}

/// Parses a decimal string into an element of Fq, reducing it modulo the
/// field order.
pub fn try_as_fq(repr: &String) -> (r: Result<FqElem, ConvertError>)
    ensures
        match r {
            Ok(e) => is_decimal(repr@) && e.wf() && e.value() == field_of(repr@, fq_modulus()),
            Err(err) => !is_decimal(repr@) && err == ConvertError::MalformedNumber,
        },
{
    if !check_decimal(repr.as_str()) {
        return Err(ConvertError::MalformedNumber);
    }
    match decimal_to_be_bytes(repr.as_str()) {
        Some(b) => {
            let le = fq_from_be_bytes_mod_order(&b);
            proof {
                lemma_residue_below(be_value(b@), fq_modulus());
            }
            Ok(FqElem { le_bytes: le })
        },
        None => Err(ConvertError::MalformedNumber),
    }
}

/// Parses a decimal string into an element of Fr, reducing it modulo the
/// field order.
pub fn try_as_fr(repr: &String) -> (r: Result<FrElem, ConvertError>)
    ensures
        match r {
            Ok(e) => is_decimal(repr@) && e.wf() && e.value() == field_of(repr@, fr_modulus()),
            Err(err) => !is_decimal(repr@) && err == ConvertError::MalformedNumber,
        },
{
    if !check_decimal(repr.as_str()) {
        return Err(ConvertError::MalformedNumber);
    }
    match decimal_to_be_bytes(repr.as_str()) {
        Some(b) => {
            let le = fr_from_be_bytes_mod_order(&b);
            proof {
                lemma_residue_below(be_value(b@), fr_modulus());
            }
            Ok(FrElem { le_bytes: le })
        },
        None => Err(ConvertError::MalformedNumber),
    }
}

/// Parses a pair of decimal strings into an element of Fq2, component by
/// component.
pub fn try_as_fq2(repr: &[String; 2]) -> (r: Result<Fq2Elem, ConvertError>)
    ensures
        match r {
            Ok(e) => is_decimal(repr@[0]@) && is_decimal(repr@[1]@) && e.wf()
                && e.c0.value() == field_of(repr@[0]@, fq_modulus())
                && e.c1.value() == field_of(repr@[1]@, fq_modulus()),
            Err(err) => !(is_decimal(repr@[0]@) && is_decimal(repr@[1]@))
                && err == ConvertError::MalformedNumber,
        },
{
    let c0 = try_as_fq(&repr[0])?;
    let c1 = try_as_fq(&repr[1])?;
    Ok(Fq2Elem { c0, c1 })
}

/// Parsing a decimal string below the modulus yields that very number, so
/// reducing the parsed element once more leaves it as it is.
pub proof fn lemma_parse_below_modulus_is_reduced(s: Seq<char>, m: nat)
    requires
        is_decimal(s),
        m > 0,
        dec_value(s) < m,
    ensures
        field_of(s, m) == dec_value(s),
        field_of(s, m) % m == field_of(s, m),
{
    lemma_small_mod(dec_value(s), m);
}

/// A decimal string at or above the modulus parses to the same element as the
/// decimal string of its remainder: parsing wraps around.
pub proof fn lemma_parse_wraps_around(s: Seq<char>, t: Seq<char>, m: nat)
    requires
        is_decimal(s),
        is_decimal(t),
        m > 0,
        dec_value(s) >= m,
        dec_value(t) == dec_value(s) % m,
    ensures
        field_of(s, m) == field_of(t, m),
{
    lemma_mod_twice(dec_value(s) as int, m as int);
}

} // verus!
