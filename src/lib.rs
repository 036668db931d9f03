//! Groth16 proof verification over the BLS12-381 pairing-friendly curve.
//!
//! Group elements are opaque values of the `bls12_381` crate. Their behaviour
//! is modelled in `curve` by discrete logarithms modulo the prime group order,
//! so that the pairing check of `groth16` is stated as arithmetic on integers.

mod curve;
mod keys;
mod groth16;

pub use keys::{PreparedVerifyingKey, Proof, SynthesisError, VerifyingKey};
pub use groth16::{
    lemma_no_public_inputs, lemma_prepared_key_checks_groth16_identity, lemma_shifted_a_rejected,
    lemma_shifted_b_rejected, lemma_shifted_c_rejected, lemma_verify_is_pure,
    prepare_verifying_key, verify_outcome, verify_proof,
};

pub use curve::{
    g1_log, g1_valid, g1p_log, g1p_valid, g2_log, g2_valid, g2p_log, g2p_valid, group_order,
    gt_log, ml_log, ml_valid, scalar_val,
};


