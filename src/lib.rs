//! Conversion of Groth16 artifacts over BN254 (decimal field elements and
//! projective points) into compressed byte encodings and the byte-string
//! literals of a Move verifier module.

pub mod decimal;
pub mod error;
pub mod field;
pub mod curve;
pub mod literal;
pub mod artifact;
pub mod template;
