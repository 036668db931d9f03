//! Verifying keys, prepared verifying keys and proofs, with their models.
use vstd::prelude::*;

use bls12_381::{G1Affine, G2Affine, G2Prepared, Gt, Scalar};

use crate::curve::{g1_check, g2_check, g1_log, g1_valid, g2_log, g2_valid, g2p_log, g2p_valid, group_order, gt_log, scalar_val};

verus! {

/// The only way a verification call can fail: the number of public inputs
/// plus one is not the number of input coefficients of the key.
#[derive(Debug, Clone, Copy, PartialEq, Eq, Structural)]
pub enum SynthesisError {
    MalformedVerifyingKey,
}

/// A Groth16 verifying key for one circuit.
pub struct VerifyingKey {
    pub alpha_g1: G1Affine,
    pub beta_g2: G2Affine,
    pub gamma_g2: G2Affine,
    pub delta_g2: G2Affine,
    /// One coefficient per public input, after the constant term at index 0.
    pub ic: Vec<G1Affine>,
}

/// A verifying key with the work that does not depend on the proof done once.
pub struct PreparedVerifyingKey {
    /// The pairing of `alpha_g1` and `beta_g2`.
    pub alpha_g1_beta_g2: Gt,
    /// The negation of `gamma_g2`, prepared for the Miller loop.
    pub neg_gamma_g2: G2Prepared,
    /// The negation of `delta_g2`, prepared for the Miller loop.
    pub neg_delta_g2: G2Prepared,
    pub ic: Vec<G1Affine>,
}

/// A Groth16 proof: two points of G1 and one of G2.
pub struct Proof {
    pub a: G1Affine,
    pub b: G2Affine,
    pub c: G1Affine,
}

/// Whether every point of a sequence lies in the prime-order subgroup.
pub open spec fn all_g1_valid(ps: Seq<G1Affine>) -> bool {
    forall|i: int| 0 <= i < ps.len() ==> #[trigger] g1_valid(ps[i])
}

/// The logarithm of the constant term plus the first `n` public inputs, each
/// times its coefficient: that of `ic[0] + ic[1] * x[0] + ... + ic[n] * x[n - 1]`,
/// before reduction mod `r`.
pub open spec fn input_acc(ic: Seq<G1Affine>, xs: Seq<Scalar>, n: nat) -> int
    decreases n,
{
    if n == 0 {
        g1_log(ic[0])
    } else {
        input_acc(ic, xs, (n - 1) as nat) + g1_log(ic[n as int]) * scalar_val(xs[n - 1])
    }
}

impl VerifyingKey {
    /// All points of the key lie in the prime-order subgroups.
    pub open spec fn valid(&self) -> bool {
        &&& g1_valid(self.alpha_g1)
        &&& g2_valid(self.beta_g2)
        &&& g2_valid(self.gamma_g2)
        &&& g2_valid(self.delta_g2)
        &&& all_g1_valid(self.ic@)
    }

    /// Checks that all points of the key lie in the prime-order subgroups, as
    /// `prepare_verifying_key` requires.
    pub fn is_valid(&self) -> (r: bool)
        ensures
            r == self.valid(),
    {
        if !(g1_check(&self.alpha_g1) && g2_check(&self.beta_g2) && g2_check(&self.gamma_g2)
            && g2_check(&self.delta_g2)) {
            return false;
        }
        let mut i: usize = 0;
        while i < self.ic.len()
            invariant
                i <= self.ic@.len(),
                forall|j: int| 0 <= j < i ==> #[trigger] g1_valid(self.ic@[j]),
            decreases self.ic@.len() - i,
        {
            if !g1_check(&self.ic[i]) {
                return false;
            }
            i += 1;
        }
        true
    }

    /// The Groth16 identity `e(A, B) == e(alpha, beta) + e(acc, gamma) + e(C, delta)`
    /// in the additively written target group, where `acc` accumulates the
    /// public inputs `xs` over `ic`.
    pub open spec fn accepts(&self, proof: Proof, xs: Seq<Scalar>) -> bool {
        (g1_log(proof.a) * g2_log(proof.b)) % group_order() == (g1_log(self.alpha_g1) * g2_log(
            self.beta_g2,
        ) + input_acc(self.ic@, xs, xs.len()) * g2_log(self.gamma_g2) + g1_log(proof.c) * g2_log(
            self.delta_g2,
        )) % group_order()
    }
}

impl PreparedVerifyingKey {
    /// The points that verification reads lie in the prime-order subgroups.
    pub open spec fn valid(&self) -> bool {
        &&& g2p_valid(self.neg_gamma_g2)
        &&& g2p_valid(self.neg_delta_g2)
        &&& all_g1_valid(self.ic@)
    }

    /// What preparing `vk` yields: the pairing of alpha and beta, the
    /// negations of gamma and delta, and the same coefficients.
    pub open spec fn prepared_from(&self, vk: VerifyingKey) -> bool {
        &&& gt_log(self.alpha_g1_beta_g2) == (g1_log(vk.alpha_g1) * g2_log(vk.beta_g2))
            % group_order()
        &&& g2p_valid(self.neg_gamma_g2)
        &&& g2p_log(self.neg_gamma_g2) == (group_order() - g2_log(vk.gamma_g2)) % group_order()
        &&& g2p_valid(self.neg_delta_g2)
        &&& g2p_log(self.neg_delta_g2) == (group_order() - g2_log(vk.delta_g2)) % group_order()
        &&& self.ic@ == vk.ic@
    }

    /// The rearranged identity
    /// `e(A, B) + e(acc, -gamma) + e(C, -delta) == e(alpha, beta)`,
    /// with the accumulator reduced mod `r` as a point's logarithm is.
    pub open spec fn accepts(&self, proof: Proof, xs: Seq<Scalar>) -> bool {
        (g1_log(proof.a) * g2_log(proof.b) + (input_acc(self.ic@, xs, xs.len()) % group_order())
            * g2p_log(self.neg_gamma_g2) + g1_log(proof.c) * g2p_log(self.neg_delta_g2))
            % group_order() == gt_log(self.alpha_g1_beta_g2)
    }
}

impl Proof {
    /// All points of the proof lie in the prime-order subgroups.
    pub open spec fn valid(&self) -> bool {
        g1_valid(self.a) && g2_valid(self.b) && g1_valid(self.c)
    }

    /// Checks that all points of the proof lie in the prime-order subgroups,
    /// as `verify_proof` requires.
    pub fn is_valid(&self) -> (r: bool)
        ensures
            r == self.valid(),
    {
        g1_check(&self.a) && g2_check(&self.b) && g1_check(&self.c)
    }
}

} // verus!
