use vstd::prelude::*;
use crate::artifact::{
    SnarkJsGroth16VerificationKey, SnarkJsGroth16Proof, MoveBindings, artifacts_valid, bindings_of,
    g1_bytes_expr, g2_bytes_expr, g1_array_expr, fr_array_expr,
};
use crate::error::ConvertError;

verus! {

/// `s` with every match of `pat` replaced by `with`, matches taken left to
/// right without overlap.
pub open spec fn replace_all(s: Seq<char>, pat: Seq<char>, with: Seq<char>) -> Seq<char>
    decreases s.len(),
{
    if s.len() == 0 {
        Seq::empty()
    } else if 0 < pat.len() <= s.len() && s.take(pat.len() as int) == pat {
        with + replace_all(s.skip(pat.len() as int), pat, with)
    } else {
        seq![s[0]] + replace_all(s.skip(1), pat, with)
    }
}

/// The template with its nine placeholders replaced, one after the other, by
/// the bound expressions.
pub open spec fn populated(t: Seq<char>, b: MoveBindings) -> Seq<char> {
    let t1 = replace_all(t, "__VK_ALPHA_G1__"@, b.vk_alpha_g1@);
    let t2 = replace_all(t1, "__VK_BETA_G2__"@, b.vk_beta_g2@);
    let t3 = replace_all(t2, "__VK_GAMMA_G2__"@, b.vk_gamma_g2@);
    let t4 = replace_all(t3, "__VK_DELTA_G2__"@, b.vk_delta_g2@);
    let t5 = replace_all(t4, "__VK_GAMMA_ABC_G1__"@, b.vk_gamma_abc_g1@);
    let t6 = replace_all(t5, "__VK_PUBLIC_INPUTS__"@, b.vk_public_inputs@);
    let t7 = replace_all(t6, "__PROOF_A__"@, b.proof_a@);
    let t8 = replace_all(t7, "__PROOF_B__"@, b.proof_b@);
    replace_all(t8, "__PROOF_C__"@, b.proof_c@)
}

/// Relies on `str::replace`: every match of a non-empty pattern, taken left to
/// right without overlap, is replaced.
#[verifier::external_body]
fn replace_str(s: &str, pat: &str, with: &str) -> (r: String)
    requires
        pat@.len() > 0,
    ensures
        r@ == replace_all(s@, pat@, with@),
{
    s.replace(pat, with)
}

/// Converts the three artifacts into the nine expressions of the verifier
/// module. Fails with `MalformedNumber` exactly when some number of the
/// artifacts is not a decimal; nothing is produced then.
pub fn convert_artifacts(
    vk: &SnarkJsGroth16VerificationKey,
    proof: &SnarkJsGroth16Proof,
    inputs: &Vec<String>,
) -> (r: Result<MoveBindings, ConvertError>)
    ensures
        match r {
            Ok(b) => artifacts_valid(*vk, *proof, inputs@) && bindings_of(b, *vk, *proof, inputs@),
            Err(e) => !artifacts_valid(*vk, *proof, inputs@) && e == ConvertError::MalformedNumber,
        },
{
    let vk_alpha_g1 = g1_bytes_expr(&vk.vk_alpha_1)?;
    let vk_beta_g2 = g2_bytes_expr(&vk.vk_beta_2)?;
    let vk_gamma_g2 = g2_bytes_expr(&vk.vk_gamma_2)?;
    let vk_delta_g2 = g2_bytes_expr(&vk.vk_delta_2)?;
    let vk_gamma_abc_g1 = g1_array_expr(&vk.ic)?;
    let vk_public_inputs = fr_array_expr(inputs)?;
    let proof_a = g1_bytes_expr(&proof.pi_a)?;
    let proof_b = g2_bytes_expr(&proof.pi_b)?;
    let proof_c = g1_bytes_expr(&proof.pi_c)?;
    Ok(
        MoveBindings {
            vk_alpha_g1,
            vk_beta_g2,
            vk_gamma_g2,
            vk_delta_g2,
            vk_gamma_abc_g1,
            vk_public_inputs,
            proof_a,
            proof_b,
            proof_c,
        },
    )
}

/// Replaces the nine placeholders of the template by the bound expressions.
pub fn populate_template(template: &str, b: &MoveBindings) -> (r: String)
    ensures
        r@ == populated(template@, *b),
{
    proof {
        reveal_strlit("__VK_ALPHA_G1__");
        reveal_strlit("__VK_BETA_G2__");
        reveal_strlit("__VK_GAMMA_G2__");
        reveal_strlit("__VK_DELTA_G2__");
        reveal_strlit("__VK_GAMMA_ABC_G1__");
        reveal_strlit("__VK_PUBLIC_INPUTS__");
        reveal_strlit("__PROOF_A__");
        reveal_strlit("__PROOF_B__");
        reveal_strlit("__PROOF_C__");
    }
    let t = replace_str(template, "__VK_ALPHA_G1__", b.vk_alpha_g1.as_str());
    let t = replace_str(t.as_str(), "__VK_BETA_G2__", b.vk_beta_g2.as_str());
    let t = replace_str(t.as_str(), "__VK_GAMMA_G2__", b.vk_gamma_g2.as_str());
    let t = replace_str(t.as_str(), "__VK_DELTA_G2__", b.vk_delta_g2.as_str());
    let t = replace_str(t.as_str(), "__VK_GAMMA_ABC_G1__", b.vk_gamma_abc_g1.as_str());
    let t = replace_str(t.as_str(), "__VK_PUBLIC_INPUTS__", b.vk_public_inputs.as_str());
    let t = replace_str(t.as_str(), "__PROOF_A__", b.proof_a.as_str());
    let t = replace_str(t.as_str(), "__PROOF_B__", b.proof_b.as_str());
    replace_str(t.as_str(), "__PROOF_C__", b.proof_c.as_str())
}

/// The verifier module that the template becomes for the three artifacts, or
/// `MalformedNumber`, exactly when some number of the artifacts is not a
/// decimal.
pub fn render_module(
    template: &str,
    vk: &SnarkJsGroth16VerificationKey,
    proof: &SnarkJsGroth16Proof,
    inputs: &Vec<String>,
) -> (r: Result<String, ConvertError>)
    ensures
        match r {
            Ok(s) => artifacts_valid(*vk, *proof, inputs@) && exists|b: MoveBindings|
                bindings_of(b, *vk, *proof, inputs@) && s@ == #[trigger] populated(template@, b),
            Err(e) => !artifacts_valid(*vk, *proof, inputs@) && e == ConvertError::MalformedNumber,
        },
{
    let b = convert_artifacts(vk, proof, inputs)?;
    let s = populate_template(template, &b);
    assert(bindings_of(b, *vk, *proof, inputs@) && s@ == populated(template@, b));
    Ok(s)
}

} // verus!
