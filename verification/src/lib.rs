//! Verified core of a confidential-transaction proof pipeline.
//!
//! The crate models Baby Jubjub curve parameters and point validation,
//! scalar-multiplication key derivation, Groth16 trusted setup, proving
//! and verification over BN254, and canonical hex encoding of the
//! resulting keys, proofs and public inputs.

pub mod bignat;
pub mod curve;
pub mod groth;
pub mod hexcodec;
pub mod keygen;
pub mod witness;
