//! Preparing a verifying key, and checking a proof against a prepared key.
use vstd::prelude::*;

use vstd::arithmetic::div_mod::{
    lemma_add_mod_noop, lemma_fundamental_div_mod, lemma_mod_equivalence,
    lemma_mod_multiples_vanish,
};

use bls12_381::{G1Affine, G2Affine, Scalar};

use crate::curve::{
    final_exponentiation, g1_add_assign, g1_log, g1_mul, g2_log, g1_to_affine, g1_to_projective,
    g1_valid, g1p_log, g1p_valid, g2_neg, g2_prepare, g2p_log, group_order, gt_eq, gt_log,
    multi_miller_loop, pairing,
};
use crate::keys::{input_acc, PreparedVerifyingKey, Proof, SynthesisError, VerifyingKey};

verus! {

/// Prepares `vk` for repeated verification: pairs alpha with beta once,
/// negates gamma and delta and prepares them for the Miller loop, and copies
/// the input coefficients.
pub fn prepare_verifying_key(vk: &VerifyingKey) -> (pvk: PreparedVerifyingKey)
    requires
        vk.valid(),
    ensures
        0 <= gt_log(pvk.alpha_g1_beta_g2) < group_order(),
        pvk.prepared_from(*vk),
        pvk.valid(),
{
    let gamma = g2_neg(&vk.gamma_g2);
    let delta = g2_neg(&vk.delta_g2);
    let mut ic: Vec<G1Affine> = Vec::new();
    let mut i: usize = 0;
    while i < vk.ic.len()
        invariant
            i <= vk.ic@.len(),
            ic@ == vk.ic@.subrange(0, i as int),
        decreases vk.ic@.len() - i,
    {
        ic.push(vk.ic[i]);
        i += 1;
    }
    assert(ic@ == vk.ic@);
    PreparedVerifyingKey {
        alpha_g1_beta_g2: pairing(&vk.alpha_g1, &vk.beta_g2),
        neg_gamma_g2: g2_prepare(gamma),
        neg_delta_g2: g2_prepare(delta),
        ic,
    }
}

/// What a call `verify_proof(pvk, proof, xs)` may return as `r`: the
/// malformed-key error exactly when `xs` does not have one element fewer than
/// `pvk.ic`; otherwise whether the rearranged pairing identity holds.
pub open spec fn verify_outcome(
    pvk: PreparedVerifyingKey,
    proof: Proof,
    xs: Seq<Scalar>,
    r: Result<bool, SynthesisError>,
) -> bool {
    &&& (r is Err) == (xs.len() + 1 != pvk.ic@.len())
    &&& r is Err ==> r == Err::<bool, SynthesisError>(SynthesisError::MalformedVerifyingKey)
    &&& r is Ok ==> r == Ok::<bool, SynthesisError>(
        pvk.accepts(proof, xs),
    )
}

/// Checks `proof` for the public inputs `public_inputs` against `pvk`, with
/// one multi-Miller loop over three pairs and a single final exponentiation.
pub fn verify_proof(pvk: &PreparedVerifyingKey, proof: &Proof, public_inputs: &[Scalar]) -> (r:
    Result<bool, SynthesisError>)
    requires
        pvk.valid(),
        proof.valid(),
    ensures
        verify_outcome(*pvk, *proof, public_inputs@, r),
{
    if pvk.ic.len() == 0 || public_inputs.len() != pvk.ic.len() - 1 {
        return Err(SynthesisError::MalformedVerifyingKey);
    }
    let n = public_inputs.len();
    let mut acc = g1_to_projective(&pvk.ic[0]);
    let mut i: usize = 0;
    while i < n
        invariant
            i <= n,
            n == public_inputs@.len(),
            n + 1 == pvk.ic@.len(),
            pvk.valid(),
            g1p_valid(acc) && g1p_log(acc) == input_acc(
                pvk.ic@,
                public_inputs@,
                i as nat,
            ) % group_order(),
        decreases n - i,
    {
        let term = g1_mul(&pvk.ic[i + 1], &public_inputs[i]);
        g1_add_assign(&mut acc, &term);
        proof {
            assert(g1_valid(pvk.ic@[i + 1]));
            lemma_add_mod_noop(
                input_acc(pvk.ic@, public_inputs@, i as nat),
                g1_log(pvk.ic@[i + 1]) * crate::curve::scalar_val(public_inputs@[i as int]),
                group_order(),
            );
        }
        i += 1;
    }
    let acc = g1_to_affine(&acc);
    let b = g2_prepare(proof.b);
    let ml = multi_miller_loop(&proof.a, &b, &acc, &pvk.neg_gamma_g2, &proof.c, &pvk.neg_delta_g2);
    let lhs = final_exponentiation(&ml);
    Ok(gt_eq(&lhs, &pvk.alpha_g1_beta_g2))
}

/// Moving the pairings with gamma and delta to the other side, by pairing
/// with their negations, keeps an identity modulo `m`.
proof fn lemma_rearranged(a: int, b: int, acc: int, g: int, c: int, d: int, ab: int, m: int)
    requires
        0 < m,
    ensures
        ((a * b + (acc % m) * ((m - g) % m) + c * ((m - d) % m)) % m == ab % m) == ((a * b) % m
            == (ab + acc * g + c * d) % m),
{
    let q1 = acc / m;
    let q2 = (m - g) / m;
    let q3 = (m - d) / m;
    let a1 = acc % m;
    let g1 = (m - g) % m;
    let d1 = (m - d) % m;
    lemma_fundamental_div_mod(acc, m);
    lemma_fundamental_div_mod(m - g, m);
    lemma_fundamental_div_mod(m - d, m);
    let x = a * b + a1 * g1 + c * d1;
    let p = a * b - acc * g - c * d;
    let k = acc - acc * q2 - q1 * g1 + c - c * q3;
    assert(a1 * g1 + acc * g == m * (acc - acc * q2 - q1 * g1)) by (nonlinear_arith)
        requires
            a1 == acc - m * q1,
            g1 == m - g - m * q2,
    ;
    assert(c * d1 + c * d == m * (c - c * q3)) by (nonlinear_arith)
        requires
            d1 == m - d - m * q3,
    ;
    assert(m * k == m * (acc - acc * q2 - q1 * g1) + m * (c - c * q3)) by (nonlinear_arith)
        requires
            k == (acc - acc * q2 - q1 * g1) + (c - c * q3),
    ;
    lemma_mod_multiples_vanish(k, p, m);
    lemma_mod_equivalence(p, ab, m);
    lemma_mod_equivalence(a * b, ab + acc * g + c * d, m);
    assert(p - ab == a * b - (ab + acc * g + c * d));
}

/// A key prepared from `vk` accepts exactly the proofs that satisfy the
/// Groth16 identity `e(A, B) == e(alpha, beta) + e(acc, gamma) + e(C, delta)`
/// for `vk`: negating gamma and delta once, at preparation, moves their
/// pairings to the side of `e(A, B)` without changing the verdict.
pub proof fn lemma_prepared_key_checks_groth16_identity(
    vk: VerifyingKey,
    pvk: PreparedVerifyingKey,
    proof: Proof,
    xs: Seq<Scalar>,
)
    requires
        pvk.prepared_from(vk),
    ensures
        pvk.accepts(proof, xs) == vk.accepts(proof, xs),
{
    lemma_rearranged(
        g1_log(proof.a),
        g2_log(proof.b),
        input_acc(vk.ic@, xs, xs.len()),
        g2_log(vk.gamma_g2),
        g1_log(proof.c),
        g2_log(vk.delta_g2),
        g1_log(vk.alpha_g1) * g2_log(vk.beta_g2),
        group_order(),
    );
}

/// Verification has no hidden state: two calls with the same key, proof and
/// public inputs return the same result.
pub proof fn lemma_verify_is_pure(
    pvk: PreparedVerifyingKey,
    proof: Proof,
    xs: Seq<Scalar>,
    r1: Result<bool, SynthesisError>,
    r2: Result<bool, SynthesisError>,
)
    requires
        verify_outcome(pvk, proof, xs, r1),
        verify_outcome(pvk, proof, xs, r2),
    ensures
        r1 == r2,
{
}

/// With no public inputs the accumulator is the constant term `ic[0]` alone.
pub proof fn lemma_no_public_inputs(pvk: PreparedVerifyingKey, proof: Proof, xs: Seq<Scalar>)
    requires
        xs.len() == 0,
    ensures
        pvk.accepts(proof, xs) == ((g1_log(proof.a) * g2_log(proof.b) + (g1_log(pvk.ic@[0])
            % group_order()) * g2p_log(pvk.neg_gamma_g2) + g1_log(proof.c) * g2p_log(
            pvk.neg_delta_g2,
        )) % group_order() == gt_log(pvk.alpha_g1_beta_g2)),
{
}

/// Moving `x` by `t` changes its residue modulo `m` unless `t` is a multiple
/// of `m`.
proof fn lemma_shift_changes_residue(x: int, t: int, m: int)
    requires
        0 < m,
        t % m != 0,
    ensures
        (x + t) % m != x % m,
{
    lemma_mod_equivalence(x + t, x, m);
    assert(x + t - x == t);
}

/// Replacing `u` by `(u + k) % m` in `u * v + w` moves it by `k * v` modulo `m`.
proof fn lemma_shift_factor(u: int, v: int, w: int, k: int, m: int)
    requires
        0 < m,
    ensures
        (((u + k) % m) * v + w) % m == (u * v + w + k * v) % m,
{
    let q = (u + k) / m;
    let u2 = (u + k) % m;
    lemma_fundamental_div_mod(u + k, m);
    assert(u2 * v + w == m * (-q * v) + (u * v + w + k * v)) by (nonlinear_arith)
        requires
            u + k == m * q + u2,
    ;
    lemma_mod_multiples_vanish(-q * v, u * v + w + k * v, m);
}

/// A key that accepts a proof rejects it once `A` is moved by `k` times the
/// generator of G1, whenever `k * log B` is not a multiple of `r`.
pub proof fn lemma_shifted_a_rejected(
    pvk: PreparedVerifyingKey,
    proof: Proof,
    xs: Seq<Scalar>,
    a2: G1Affine,
    k: int,
)
    requires
        pvk.accepts(proof, xs),
        g1_log(a2) == (g1_log(proof.a) + k) % group_order(),
        (k * g2_log(proof.b)) % group_order() != 0,
    ensures
        !pvk.accepts((Proof { a: a2, b: proof.b, c: proof.c }), xs),
{
    let m = group_order();
    let w = (input_acc(pvk.ic@, xs, xs.len()) % m) * g2p_log(pvk.neg_gamma_g2) + g1_log(proof.c)
        * g2p_log(pvk.neg_delta_g2);
    lemma_shift_factor(g1_log(proof.a), g2_log(proof.b), w, k, m);
    lemma_shift_changes_residue(g1_log(proof.a) * g2_log(proof.b) + w, k * g2_log(proof.b), m);
}

/// A key that accepts a proof rejects it once `B` is moved by `k` times the
/// generator of G2, whenever `log A * k` is not a multiple of `r`.
pub proof fn lemma_shifted_b_rejected(
    pvk: PreparedVerifyingKey,
    proof: Proof,
    xs: Seq<Scalar>,
    b2: G2Affine,
    k: int,
)
    requires
        pvk.accepts(proof, xs),
        g2_log(b2) == (g2_log(proof.b) + k) % group_order(),
        (g1_log(proof.a) * k) % group_order() != 0,
    ensures
        !pvk.accepts((Proof { a: proof.a, b: b2, c: proof.c }), xs),
{
    let m = group_order();
    let a = g1_log(proof.a);
    let b = g2_log(proof.b);
    let w = (input_acc(pvk.ic@, xs, xs.len()) % m) * g2p_log(pvk.neg_gamma_g2) + g1_log(proof.c)
        * g2p_log(pvk.neg_delta_g2);
    lemma_shift_factor(b, a, w, k, m);
    assert(a * g2_log(b2) == g2_log(b2) * a && b * a == a * b && k * a == a * k)
        by (nonlinear_arith);
    lemma_shift_changes_residue(a * b + w, a * k, m);
}

/// A key that accepts a proof rejects it once `C` is moved by `k` times the
/// generator of G1, whenever `k` times the logarithm of the key's negated
/// delta is not a multiple of `r`.
pub proof fn lemma_shifted_c_rejected(
    pvk: PreparedVerifyingKey,
    proof: Proof,
    xs: Seq<Scalar>,
    c2: G1Affine,
    k: int,
)
    requires
        pvk.accepts(proof, xs),
        g1_log(c2) == (g1_log(proof.c) + k) % group_order(),
        (k * g2p_log(pvk.neg_delta_g2)) % group_order() != 0,
    ensures
        !pvk.accepts((Proof { a: proof.a, b: proof.b, c: c2 }), xs),
{
    let m = group_order();
    let nd = g2p_log(pvk.neg_delta_g2);
    let w = g1_log(proof.a) * g2_log(proof.b) + (input_acc(pvk.ic@, xs, xs.len()) % m)
        * g2p_log(pvk.neg_gamma_g2);
    lemma_shift_factor(g1_log(proof.c), nd, w, k, m);
    lemma_shift_changes_residue(g1_log(proof.c) * nd + w, k * nd, m);
}

} // verus!
