use vstd::prelude::*;
use crate::curve::{
    g1_repr_valid, g2_repr_valid, g1_encoding_of, g2_encoding_of, try_as_g1_proj, try_as_g2_proj,
    encode_g1, encode_g2,
};
use crate::decimal::is_decimal;
use crate::error::ConvertError;
use crate::field::{field_of, fr_modulus, le_bytes_of, try_as_fr, encode_fr};
use crate::literal::{literal_of, array_literal_of, byte_views, to_aptos_move_bytes_expr, to_aptos_move_bytes_arr_expr};

verus! {

/// A Groth16 verification key as the JavaScript prover writes it: decimal
/// coordinates, `[x, y, z]` for G1 and `[[x0, x1], [y0, y1], [z0, z1]]` for G2.
#[derive(Debug, Clone, PartialEq, Eq)]
pub struct SnarkJsGroth16VerificationKey {
    pub vk_alpha_1: [String; 3],
    pub vk_beta_2: [[String; 2]; 3],
    pub vk_gamma_2: [[String; 2]; 3],
    pub vk_delta_2: [[String; 2]; 3],
    /// One point per public input, plus the constant term.
    pub ic: Vec<[String; 3]>,
}

/// A Groth16 proof as the JavaScript prover writes it.
#[derive(Debug, Clone, PartialEq, Eq)]
pub struct SnarkJsGroth16Proof {
    pub pi_a: [String; 3],
    pub pi_b: [[String; 2]; 3],
    pub pi_c: [String; 3],
}

/// The nine expressions that go into the verifier module's placeholders.
#[derive(Debug, Clone, PartialEq, Eq)]
pub struct MoveBindings {
    pub vk_alpha_g1: String,
    pub vk_beta_g2: String,
    pub vk_gamma_g2: String,
    pub vk_delta_g2: String,
    pub vk_gamma_abc_g1: String,
    pub vk_public_inputs: String,
    pub proof_a: String,
    pub proof_b: String,
    pub proof_c: String,
}

/// The 32-byte encoding of the scalar that a decimal string stands for.
pub open spec fn fr_encoding_of(s: String) -> Seq<u8> {
    le_bytes_of(field_of(s@, fr_modulus()), 32)
}

pub open spec fn g1_list_valid(reprs: Seq<[String; 3]>) -> bool {
    forall|i: int| 0 <= i < reprs.len() ==> g1_repr_valid(#[trigger] reprs[i])
}

pub open spec fn fr_list_valid(reprs: Seq<String>) -> bool {
    forall|i: int| 0 <= i < reprs.len() ==> is_decimal(#[trigger] reprs[i]@)
}

pub open spec fn g1_array_literal_of(reprs: Seq<[String; 3]>) -> Seq<char> {
    array_literal_of(reprs.map_values(|r: [String; 3]| g1_encoding_of(r)))
}

pub open spec fn fr_array_literal_of(reprs: Seq<String>) -> Seq<char> {
    array_literal_of(reprs.map_values(|s: String| fr_encoding_of(s)))
}

/// Every number of the three artifacts is a valid decimal.
pub open spec fn artifacts_valid(
    vk: SnarkJsGroth16VerificationKey,
    proof: SnarkJsGroth16Proof,
    inputs: Seq<String>,
) -> bool {
    &&& g1_repr_valid(vk.vk_alpha_1)
    &&& g2_repr_valid(vk.vk_beta_2)
    &&& g2_repr_valid(vk.vk_gamma_2)
    &&& g2_repr_valid(vk.vk_delta_2)
    &&& g1_list_valid(vk.ic@)
    &&& fr_list_valid(inputs)
    &&& g1_repr_valid(proof.pi_a)
    &&& g2_repr_valid(proof.pi_b)
    &&& g1_repr_valid(proof.pi_c)
}

/// The expressions that the three artifacts give.
pub open spec fn bindings_of(
    b: MoveBindings,
    vk: SnarkJsGroth16VerificationKey,
    proof: SnarkJsGroth16Proof,
    inputs: Seq<String>,
) -> bool {
    &&& b.vk_alpha_g1@ == literal_of(g1_encoding_of(vk.vk_alpha_1))
    &&& b.vk_beta_g2@ == literal_of(g2_encoding_of(vk.vk_beta_2))
    &&& b.vk_gamma_g2@ == literal_of(g2_encoding_of(vk.vk_gamma_2))
    &&& b.vk_delta_g2@ == literal_of(g2_encoding_of(vk.vk_delta_2))
    &&& b.vk_gamma_abc_g1@ == g1_array_literal_of(vk.ic@)
    &&& b.vk_public_inputs@ == fr_array_literal_of(inputs)
    &&& b.proof_a@ == literal_of(g1_encoding_of(proof.pi_a))
    &&& b.proof_b@ == literal_of(g2_encoding_of(proof.pi_b))
    &&& b.proof_c@ == literal_of(g1_encoding_of(proof.pi_c))
}

/// The byte-string literal of the G1 point that three decimal coordinates
/// stand for.
pub fn g1_bytes_expr(repr: &[String; 3]) -> (r: Result<String, ConvertError>)
    ensures
        match r {
            Ok(s) => g1_repr_valid(*repr) && s@ == literal_of(g1_encoding_of(*repr)),
            Err(e) => !g1_repr_valid(*repr) && e == ConvertError::MalformedNumber,
        },
{
    let p = try_as_g1_proj(repr)?;
    let b = encode_g1(&p);
    Ok(to_aptos_move_bytes_expr(&b))
}

/// The byte-string literal of the G2 point that three pairs of decimal
/// coordinates stand for.
pub fn g2_bytes_expr(repr: &[[String; 2]; 3]) -> (r: Result<String, ConvertError>)
    ensures
        match r {
            Ok(s) => g2_repr_valid(*repr) && s@ == literal_of(g2_encoding_of(*repr)),
            Err(e) => !g2_repr_valid(*repr) && e == ConvertError::MalformedNumber,
        },
{
    let p = try_as_g2_proj(repr)?;
    let b = encode_g2(&p);
    Ok(to_aptos_move_bytes_expr(&b))
}

/// The vector literal of the G1 points that a list of decimal triples stands
/// for, in order.
pub fn g1_array_expr(reprs: &Vec<[String; 3]>) -> (r: Result<String, ConvertError>)
    ensures
        match r {
            Ok(s) => g1_list_valid(reprs@) && s@ == g1_array_literal_of(reprs@),
            Err(e) => !g1_list_valid(reprs@) && e == ConvertError::MalformedNumber,
        },
{
    let ghost enc = reprs@.map_values(|r: [String; 3]| g1_encoding_of(r));
    let mut items: Vec<Vec<u8>> = Vec::new();
    let mut i: usize = 0;
    while i < reprs.len()
        invariant
            enc == reprs@.map_values(|r: [String; 3]| g1_encoding_of(r)),
            i <= reprs@.len(),
            items@.len() == i,
            forall|j: int| 0 <= j < i ==> g1_repr_valid(#[trigger] reprs@[j]),
            forall|j: int| 0 <= j < i ==> (#[trigger] items@[j])@ == enc[j],
        decreases reprs@.len() - i,
    {
        let p = try_as_g1_proj(&reprs[i])?;
        let b = encode_g1(&p);
        items.push(b);
        i = i + 1;
    }
    assert(byte_views(items@) =~= enc);
    Ok(to_aptos_move_bytes_arr_expr(&items))
}

/// The vector literal of the scalars that a list of decimal strings stands
/// for, in order.
pub fn fr_array_expr(reprs: &Vec<String>) -> (r: Result<String, ConvertError>)
    ensures
        match r {
            Ok(s) => fr_list_valid(reprs@) && s@ == fr_array_literal_of(reprs@),
            Err(e) => !fr_list_valid(reprs@) && e == ConvertError::MalformedNumber,
        },
{
    let ghost enc = reprs@.map_values(|s: String| fr_encoding_of(s));
    let mut items: Vec<Vec<u8>> = Vec::new();
    let mut i: usize = 0;
    while i < reprs.len()
        invariant
            enc == reprs@.map_values(|s: String| fr_encoding_of(s)),
            i <= reprs@.len(),
            items@.len() == i,
            forall|j: int| 0 <= j < i ==> is_decimal(#[trigger] reprs@[j]@),
            forall|j: int| 0 <= j < i ==> (#[trigger] items@[j])@ == enc[j],
        decreases reprs@.len() - i,
    {
        let e = try_as_fr(&reprs[i])?;
        let b = encode_fr(&e);
        items.push(b);
        i = i + 1;
    }
    assert(byte_views(items@) =~= enc);
    Ok(to_aptos_move_bytes_arr_expr(&items))
}

} // verus!
