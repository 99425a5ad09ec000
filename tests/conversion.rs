use groth16_move::artifact::{
    fr_array_expr, g1_array_expr, g1_bytes_expr, g2_bytes_expr, SnarkJsGroth16Proof,
    SnarkJsGroth16VerificationKey,
};
use groth16_move::curve::{encode_g1, encode_g2, try_as_g1_proj, try_as_g2_proj};
use groth16_move::decimal::check_decimal;
use groth16_move::error::ConvertError;
use groth16_move::field::{encode_fr, try_as_fq, try_as_fq2, try_as_fr};
use groth16_move::literal::{to_aptos_move_bytes_arr_expr, to_aptos_move_bytes_expr};
use groth16_move::template::{convert_artifacts, populate_template, render_module};

const FR_MODULUS: &str =
    "21888242871839275222246405745257275088548364400416034343698204186575808495617";
const FR_MODULUS_PLUS_5: &str =
    "21888242871839275222246405745257275088548364400416034343698204186575808495622";
const FQ_MODULUS: &str =
    "21888242871839275222246405745257275088696311157297823662689037894645226208583";
const FQ_MODULUS_MINUS_2: &str =
    "21888242871839275222246405745257275088696311157297823662689037894645226208581";
const G2_X0: &str = "10857046999023057135944570762232829481370756359578518086990519993285655852781";
const G2_X1: &str = "11559732032986387107991004021392285783925812861821192530917403151452391805634";
const G2_Y0: &str = "8495653923123431417604973247489272438418190587263600148770280649306958101930";
const G2_Y1: &str = "4082367875863433681332203403145435568316851327593401208105741076214120093531";
const G2_GEN_HEX: &str = "edf692d95cbdde46ddda5ef7d422436779445c5e66006a42761e1f12efde0018c212f3aeb785e49712e7a9353349aaf1255dfb31b7bf60723a480d9293938e19";

fn s(x: &str) -> String {
    x.to_string()
}

fn g1(x: &str, y: &str, z: &str) -> [String; 3] {
    [s(x), s(y), s(z)]
}

fn g2_gen() -> [[String; 2]; 3] {
    [[s(G2_X0), s(G2_X1)], [s(G2_Y0), s(G2_Y1)], [s("1"), s("0")]]
}

fn le32(n: u8) -> Vec<u8> {
    let mut v = vec![0u8; 32];
    v[0] = n;
    v
}

fn hex_of(b: &[u8]) -> String {
    b.iter().map(|x| format!("{:02x}", x)).collect()
}

#[test]
fn decimal_check_accepts_only_digits() {
    assert!(check_decimal("0"));
    assert!(check_decimal("0123456789"));
    assert!(!check_decimal(""));
    assert!(!check_decimal("12a"));
    assert!(!check_decimal("+1"));
    assert!(!check_decimal("1_0"));
    assert!(!check_decimal("-1"));
    assert!(!check_decimal(" 1"));
}

#[test]
fn small_value_parses_to_itself() {
    let e = try_as_fr(&s("123456789")).unwrap();
    assert_eq!(hex_of(&e.le_bytes), "15cd5b0700000000000000000000000000000000000000000000000000000000");
    let again = try_as_fr(&s("123456789")).unwrap();
    assert_eq!(e, again);
    assert_eq!(try_as_fq(&s("0")).unwrap().le_bytes, vec![0u8; 32]);
}

#[test]
fn value_at_or_above_modulus_wraps_around() {
    assert_eq!(try_as_fr(&s(FR_MODULUS)).unwrap().le_bytes, vec![0u8; 32]);
    assert_eq!(try_as_fr(&s(FR_MODULUS_PLUS_5)).unwrap(), try_as_fr(&s("5")).unwrap());
    assert_eq!(try_as_fq(&s(FQ_MODULUS)).unwrap().le_bytes, vec![0u8; 32]);
    // The same string is reduced differently in the two fields.
    assert_eq!(try_as_fq(&s(FR_MODULUS)).unwrap().le_bytes.len(), 32);
    assert_ne!(try_as_fq(&s(FR_MODULUS)).unwrap().le_bytes, vec![0u8; 32]);
}

#[test]
fn malformed_numbers_are_rejected() {
    assert_eq!(try_as_fr(&s("")), Err(ConvertError::MalformedNumber));
    assert_eq!(try_as_fq(&s("12x")), Err(ConvertError::MalformedNumber));
    assert_eq!(try_as_fq(&s("+7")), Err(ConvertError::MalformedNumber));
    assert_eq!(try_as_fq2(&[s("1"), s("")]), Err(ConvertError::MalformedNumber));
    assert!(try_as_g1_proj(&g1("1", "2", "z")).is_err());
    let mut bad = g2_gen();
    bad[2][1] = s("");
    assert!(try_as_g2_proj(&bad).is_err());
}

#[test]
fn extension_element_keeps_component_order() {
    let e = try_as_fq2(&[s("1"), s("5")]).unwrap();
    assert_eq!(e.c0.le_bytes, le32(1));
    assert_eq!(e.c1.le_bytes, le32(5));
}

#[test]
fn g1_generator_encoding() {
    let p = try_as_g1_proj(&g1("1", "2", "1")).unwrap();
    assert_eq!(encode_g1(&p), le32(1));
}

#[test]
fn g1_encoding_uses_projective_scaling() {
    // (X / Z^2, Y / Z^3) = (1, 2) for Z = 2.
    let p = try_as_g1_proj(&g1("4", "16", "2")).unwrap();
    assert_eq!(encode_g1(&p), le32(1));
}

#[test]
fn g1_encoding_flags_negative_y() {
    let p = try_as_g1_proj(&g1("1", FQ_MODULUS_MINUS_2, "1")).unwrap();
    let mut expected = le32(1);
    expected[31] = 0x80;
    assert_eq!(encode_g1(&p), expected);
}

#[test]
fn g1_point_at_infinity_encoding() {
    let p = try_as_g1_proj(&g1("1", "1", "0")).unwrap();
    let mut expected = vec![0u8; 32];
    expected[31] = 0x40;
    assert_eq!(encode_g1(&p), expected);
}

#[test]
fn g2_generator_encoding() {
    let p = try_as_g2_proj(&g2_gen()).unwrap();
    let b = encode_g2(&p);
    assert_eq!(b.len(), 64);
    assert_eq!(hex_of(&b), G2_GEN_HEX);
}

#[test]
fn g2_point_at_infinity_encoding() {
    let zero = [[s("1"), s("0")], [s("1"), s("0")], [s("0"), s("0")]];
    let b = encode_g2(&try_as_g2_proj(&zero).unwrap());
    let mut expected = vec![0u8; 64];
    expected[63] = 0x40;
    assert_eq!(b, expected);
}

#[test]
fn encoding_is_deterministic() {
    let a = encode_g2(&try_as_g2_proj(&g2_gen()).unwrap());
    let b = encode_g2(&try_as_g2_proj(&g2_gen()).unwrap());
    assert_eq!(a, b);
    let c = g1_bytes_expr(&g1("7", "8", "9")).unwrap();
    let d = g1_bytes_expr(&g1("7", "8", "9")).unwrap();
    assert_eq!(c, d);
}

#[test]
fn encoding_widths() {
    assert_eq!(encode_g1(&try_as_g1_proj(&g1("3", "5", "7")).unwrap()).len(), 32);
    assert_eq!(encode_g2(&try_as_g2_proj(&g2_gen()).unwrap()).len(), 64);
    assert_eq!(encode_fr(&try_as_fr(&s("9")).unwrap()), le32(9));
    assert_eq!(g1_bytes_expr(&g1("3", "5", "7")).unwrap().len(), 3 + 64);
    assert_eq!(g2_bytes_expr(&g2_gen()).unwrap().len(), 3 + 128);
}

#[test]
fn bytes_literal_renders_lowercase_hex() {
    assert_eq!(to_aptos_move_bytes_expr(&vec![0xde, 0xad, 0x0b, 0xef]), "x\"dead0bef\"");
    assert_eq!(to_aptos_move_bytes_expr(&vec![]), "x\"\"");
    assert_eq!(to_aptos_move_bytes_expr(&vec![0x00, 0xff]), "x\"00ff\"");
}

#[test]
fn bytes_literal_round_trips() {
    let b: Vec<u8> = (0..=255u8).collect();
    let lit = to_aptos_move_bytes_expr(&b);
    assert!(lit.starts_with("x\"") && lit.ends_with('"'));
    let h = &lit[2..lit.len() - 1];
    let back: Vec<u8> = (0..h.len() / 2).map(|i| u8::from_str_radix(&h[2 * i..2 * i + 2], 16).unwrap()).collect();
    assert_eq!(back, b);
}

#[test]
fn array_literal_keeps_order() {
    let items = vec![vec![0x0a], vec![0x0b], vec![0x0c]];
    assert_eq!(to_aptos_move_bytes_arr_expr(&items), "vector[x\"0a\",x\"0b\",x\"0c\"]");
    assert_eq!(to_aptos_move_bytes_arr_expr(&vec![]), "vector[]");
    assert_eq!(to_aptos_move_bytes_arr_expr(&vec![vec![1, 2]]), "vector[x\"0102\"]");
}

#[test]
fn scalar_array_literal() {
    let r = fr_array_expr(&vec![s("1"), s("2")]).unwrap();
    let one = format!("x\"{}\"", hex_of(&le32(1)));
    let two = format!("x\"{}\"", hex_of(&le32(2)));
    assert_eq!(r, format!("vector[{},{}]", one, two));
    assert_eq!(fr_array_expr(&vec![s("1"), s("")]), Err(ConvertError::MalformedNumber));
    assert_eq!(fr_array_expr(&vec![]).unwrap(), "vector[]");
}

#[test]
fn point_array_literal() {
    let r = g1_array_expr(&vec![g1("1", "2", "1"), g1("0", "1", "0")]).unwrap();
    let mut inf = vec![0u8; 32];
    inf[31] = 0x40;
    let expected = format!("vector[x\"{}\",x\"{}\"]", hex_of(&le32(1)), hex_of(&inf));
    assert_eq!(r, expected);
    assert_eq!(g1_array_expr(&vec![g1("1", "2", "")]), Err(ConvertError::MalformedNumber));
}

const TEMPLATE: &str = "module verifier {\n\
    alpha = __VK_ALPHA_G1__;\n beta = __VK_BETA_G2__;\n gamma = __VK_GAMMA_G2__;\n\
    delta = __VK_DELTA_G2__;\n ic = __VK_GAMMA_ABC_G1__;\n inputs = __VK_PUBLIC_INPUTS__;\n\
    a = __PROOF_A__;\n b = __PROOF_B__;\n c = __PROOF_C__;\n}\n";

fn sample_vk(ic_len: usize) -> SnarkJsGroth16VerificationKey {
    SnarkJsGroth16VerificationKey {
        vk_alpha_1: g1("1", "2", "1"),
        vk_beta_2: g2_gen(),
        vk_gamma_2: g2_gen(),
        vk_delta_2: g2_gen(),
        ic: (0..ic_len).map(|_| g1("1", "2", "1")).collect(),
    }
}

fn sample_proof() -> SnarkJsGroth16Proof {
    SnarkJsGroth16Proof { pi_a: g1("1", "2", "1"), pi_b: g2_gen(), pi_c: g1("4", "16", "2") }
}

#[test]
fn end_to_end_fills_every_placeholder() {
    let vk = sample_vk(3);
    let proof = sample_proof();
    let inputs = vec![s("7"), s("11")];
    let b = convert_artifacts(&vk, &proof, &inputs).unwrap();
    for e in [
        &b.vk_alpha_g1, &b.vk_beta_g2, &b.vk_gamma_g2, &b.vk_delta_g2, &b.vk_gamma_abc_g1,
        &b.vk_public_inputs, &b.proof_a, &b.proof_b, &b.proof_c,
    ] {
        assert!(!e.is_empty());
    }
    assert_eq!(b.vk_gamma_abc_g1.matches("x\"").count(), 3);
    assert_eq!(b.vk_public_inputs.matches("x\"").count(), 2);
    let out = populate_template(TEMPLATE, &b);
    assert!(!out.contains("__"));
    assert!(out.contains(&format!("alpha = {};", b.vk_alpha_g1)));
    assert!(out.contains(&format!("inputs = {};", b.vk_public_inputs)));
    assert!(out.contains(&format!("c = {};", b.proof_c)));
    assert_eq!(render_module(TEMPLATE, &vk, &proof, &inputs).unwrap(), out);
}

#[test]
fn end_to_end_empty_scalar_aborts() {
    let proof = sample_proof();
    let mut vk = sample_vk(3);
    vk.ic[1][0] = s("");
    assert_eq!(render_module(TEMPLATE, &vk, &proof, &vec![s("1"), s("2")]), Err(ConvertError::MalformedNumber));
    let vk = sample_vk(3);
    assert_eq!(render_module(TEMPLATE, &vk, &proof, &vec![s("1"), s("")]), Err(ConvertError::MalformedNumber));
    let mut bad_proof = sample_proof();
    bad_proof.pi_b[1][0] = s("");
    assert_eq!(convert_artifacts(&vk, &bad_proof, &vec![s("1")]), Err(ConvertError::MalformedNumber));
}

#[test]
fn template_without_placeholders_is_unchanged() {
    let b = convert_artifacts(&sample_vk(1), &sample_proof(), &vec![]).unwrap();
    assert_eq!(populate_template("no tokens here", &b), "no tokens here");
}

#[test]
fn error_names() {
    assert_eq!(ConvertError::MalformedArtifact.name(), "MalformedArtifact");
    assert_eq!(ConvertError::MalformedNumber.name(), "MalformedNumber");
}
