use vstd::prelude::*;
use crate::decimal::is_decimal;
use crate::error::ConvertError;
use crate::field::{fq_modulus, field_of, FqElem, Fq2Elem, try_as_fq, try_as_fq2};

verus! {

/// The compressed encoding that arkworks gives the BN254 G1 point with
/// projective coordinates `(x, y, z)`.
pub uninterp spec fn g1_compressed(x: nat, y: nat, z: nat) -> Seq<u8>;

/// The compressed encoding that arkworks gives the BN254 G2 point with
/// projective coordinates `(x0 + x1 u, y0 + y1 u, z0 + z1 u)`.
pub uninterp spec fn g2_compressed(x0: nat, x1: nat, y0: nat, y1: nat, z0: nat, z1: nat) -> Seq<u8>;

/// A point of G1 in projective coordinates over Fq. The coordinates are taken
/// as given: nothing checks that they lie on the curve.
#[derive(Debug, Clone, PartialEq, Eq)]
pub struct G1Point {
    pub x: FqElem,
    pub y: FqElem,
    pub z: FqElem,
}

/// A point of G2 in projective coordinates over Fq2, taken as given like
/// [`G1Point`].
#[derive(Debug, Clone, PartialEq, Eq)]
pub struct G2Point {
    pub x: Fq2Elem,
    pub y: Fq2Elem,
    pub z: Fq2Elem,
}

impl G1Point {
    pub open spec fn wf(&self) -> bool {
        self.x.wf() && self.y.wf() && self.z.wf()
    }

    pub open spec fn encoding(&self) -> Seq<u8> {
        g1_compressed(self.x.value(), self.y.value(), self.z.value())
    }
}

impl G2Point {
    pub open spec fn wf(&self) -> bool {
        self.x.wf() && self.y.wf() && self.z.wf()
    }

    pub open spec fn encoding(&self) -> Seq<u8> {
        g2_compressed(
            self.x.c0.value(),
            self.x.c1.value(),
            self.y.c0.value(),
            self.y.c1.value(),
            self.z.c0.value(),
            self.z.c1.value(),
        )
    }
}

/// Three decimal coordinates, each a valid number.
pub open spec fn g1_repr_valid(repr: [String; 3]) -> bool {
    is_decimal(repr@[0]@) && is_decimal(repr@[1]@) && is_decimal(repr@[2]@)
}

/// Three pairs of decimal coordinates, each a valid number.
pub open spec fn g2_repr_valid(repr: [[String; 2]; 3]) -> bool {
    forall|i: int, j: int| 0 <= i < 3 && 0 <= j < 2 ==> is_decimal(#[trigger] repr@[i]@[j]@)
}

/// The base-field element that a decimal coordinate stands for.
pub open spec fn fq_of(s: String) -> nat {
    field_of(s@, fq_modulus())
}

/// The encoding of the G1 point that three decimal coordinates stand for.
pub open spec fn g1_encoding_of(repr: [String; 3]) -> Seq<u8> {
    g1_compressed(fq_of(repr@[0]), fq_of(repr@[1]), fq_of(repr@[2]))
}

/// The encoding of the G2 point that three pairs of decimal coordinates stand for.
pub open spec fn g2_encoding_of(repr: [[String; 2]; 3]) -> Seq<u8> {
    g2_compressed(
        fq_of(repr@[0]@[0]),
        fq_of(repr@[0]@[1]),
        fq_of(repr@[1]@[0]),
        fq_of(repr@[1]@[1]),
        fq_of(repr@[2]@[0]),
        fq_of(repr@[2]@[1]),
    )
}

/// Relies on `CanonicalSerialize::serialize_compressed` for BN254's
/// `G1Projective`, built with `Projective::new_unchecked` (no curve check)
/// from the canonical coordinates: 32 bytes (the affine x with the y-sign and
/// infinity flags in its top bits), depending on the coordinates alone.
#[verifier::external_body]
fn g1_serialize_compressed(p: &G1Point) -> (r: Vec<u8>)
    requires
        p.wf(),
    ensures
        r@ == g1_compressed(p.x.value(), p.y.value(), p.z.value()) && r@.len() == 32,
{
    let fq = |e: &FqElem| <ark_bn254::Fq as ark_ff::PrimeField>::from_le_bytes_mod_order(&e.le_bytes);
    let q = ark_bn254::G1Projective::new_unchecked(fq(&p.x), fq(&p.y), fq(&p.z));
    let mut buf: Vec<u8> = Vec::new();
    ark_serialize::CanonicalSerialize::serialize_compressed(&q, &mut buf).unwrap();
    buf
}

/// Relies on `CanonicalSerialize::serialize_compressed` for BN254's
/// `G2Projective`, built with `Projective::new_unchecked` (no curve check)
/// from the canonical coordinates: 64 bytes (the affine x, two Fq
/// components, with the flags in the top bits of the second), depending on the
/// coordinates alone.
#[verifier::external_body]
fn g2_serialize_compressed(p: &G2Point) -> (r: Vec<u8>)
    requires
        p.wf(),
    ensures
        r@ == g2_compressed(
            p.x.c0.value(),
            p.x.c1.value(),
            p.y.c0.value(),
            p.y.c1.value(),
            p.z.c0.value(),
            p.z.c1.value(),
        ) && r@.len() == 64,
{
    let fq = |e: &FqElem| <ark_bn254::Fq as ark_ff::PrimeField>::from_le_bytes_mod_order(&e.le_bytes);
    let fq2 = |e: &Fq2Elem| ark_bn254::Fq2::new(fq(&e.c0), fq(&e.c1));
    let q = ark_bn254::G2Projective::new_unchecked(fq2(&p.x), fq2(&p.y), fq2(&p.z));
    let mut buf: Vec<u8> = Vec::new();
    ark_serialize::CanonicalSerialize::serialize_compressed(&q, &mut buf).unwrap();
    buf
}

/// Builds a G1 point from three decimal coordinates, each reduced modulo the
/// base field order, without checking that it lies on the curve.
pub fn try_as_g1_proj(repr: &[String; 3]) -> (r: Result<G1Point, ConvertError>)
    ensures
        match r {
            Ok(p) => g1_repr_valid(*repr) && p.wf() && p.x.value() == fq_of(repr@[0])
                && p.y.value() == fq_of(repr@[1]) && p.z.value() == fq_of(repr@[2]),
            Err(e) => !g1_repr_valid(*repr) && e == ConvertError::MalformedNumber,
        },
{
    let x = try_as_fq(&repr[0])?;
    let y = try_as_fq(&repr[1])?;
    let z = try_as_fq(&repr[2])?;
    Ok(G1Point { x, y, z })
}

/// Builds a G2 point from three pairs of decimal coordinates, without checking
/// that it lies on the curve.
pub fn try_as_g2_proj(repr: &[[String; 2]; 3]) -> (r: Result<G2Point, ConvertError>)
    ensures
        match r {
            Ok(p) => g2_repr_valid(*repr) && p.wf()
                && p.x.c0.value() == fq_of(repr@[0]@[0]) && p.x.c1.value() == fq_of(repr@[0]@[1])
                && p.y.c0.value() == fq_of(repr@[1]@[0]) && p.y.c1.value() == fq_of(repr@[1]@[1])
                && p.z.c0.value() == fq_of(repr@[2]@[0]) && p.z.c1.value() == fq_of(repr@[2]@[1]),
            Err(e) => !g2_repr_valid(*repr) && e == ConvertError::MalformedNumber,
        },
{
    let x = try_as_fq2(&repr[0])?;
    let y = try_as_fq2(&repr[1])?;
    let z = try_as_fq2(&repr[2])?;
    Ok(G2Point { x, y, z })
}

/// The compressed encoding of a G1 point: one base-field width.
pub fn encode_g1(p: &G1Point) -> (r: Vec<u8>)
    requires
        p.wf(),
    ensures
        r@ == p.encoding(),
        r@.len() == 32,
{
    g1_serialize_compressed(p)
}

/// The compressed encoding of a G2 point: twice the base-field width.
pub fn encode_g2(p: &G2Point) -> (r: Vec<u8>)
    requires
        p.wf(),
    ensures
        r@ == p.encoding(),
        r@.len() == 64,
{
    g2_serialize_compressed(p)
}

/// Encoding is a function of the coordinates: two G1 points with the same
/// coordinates have the same bytes, and so do the points that the same
/// decimal triple stands for.
pub proof fn lemma_g1_encoding_deterministic(p: G1Point, q: G1Point, a: [String; 3], b: [String; 3])
    requires
        p.x.value() == q.x.value(),
        p.y.value() == q.y.value(),
        p.z.value() == q.z.value(),
        a@ == b@,
    ensures
        p.encoding() == q.encoding(),
        g1_encoding_of(a) == g1_encoding_of(b),
{
}

/// Encoding is a function of the coordinates, for G2 as for G1.
pub proof fn lemma_g2_encoding_deterministic(p: G2Point, q: G2Point, a: [[String; 2]; 3], b: [[String; 2]; 3])
    requires
        p.x.c0.value() == q.x.c0.value(),
        p.x.c1.value() == q.x.c1.value(),
        p.y.c0.value() == q.y.c0.value(),
        p.y.c1.value() == q.y.c1.value(),
        p.z.c0.value() == q.z.c0.value(),
        p.z.c1.value() == q.z.c1.value(),
        a@ == b@,
    ensures
        p.encoding() == q.encoding(),
        g2_encoding_of(a) == g2_encoding_of(b),
{
}

} // verus!
