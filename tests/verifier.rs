use bls12_381::{G1Affine, G1Projective, G2Affine, G2Projective, Scalar};
use groth16_verifier::{prepare_verifying_key, verify_proof, Proof, SynthesisError, VerifyingKey};

fn s(v: u64) -> Scalar {
    Scalar::from(v)
}

fn inv(x: Scalar) -> Scalar {
    x.invert().unwrap()
}

fn g1(x: Scalar) -> G1Affine {
    G1Affine::from(G1Affine::generator() * x)
}

fn g2(x: Scalar) -> G2Affine {
    G2Affine::from(G2Affine::generator() * x)
}

/// Trapdoor of a setup: alpha, beta, gamma, delta.
struct Trapdoor {
    alpha: Scalar,
    beta: Scalar,
    gamma: Scalar,
    delta: Scalar,
}

fn trapdoor() -> Trapdoor {
    Trapdoor {
        alpha: s(11),
        beta: s(13),
        gamma: s(17),
        delta: s(19),
    }
}

/// The key of a circuit whose public part contributes `w[i]` to the output
/// wire only: `ic[i] = w[i] / gamma`.
fn key(t: &Trapdoor, w: &[Scalar]) -> VerifyingKey {
    VerifyingKey {
        alpha_g1: g1(t.alpha),
        beta_g2: g2(t.beta),
        gamma_g2: g2(t.gamma),
        delta_g2: g2(t.delta),
        ic: w.iter().map(|wi| g1(*wi * inv(t.gamma))).collect(),
    }
}

/// A proof of knowledge of the private `x` in the single constraint `x * x = out`,
/// where `x` enters the left and right factors with coefficient one.
fn prove_square(t: &Trapdoor, x: Scalar, r: Scalar, sr: Scalar) -> Proof {
    let a = t.alpha + x + r * t.delta;
    let b = t.beta + x + sr * t.delta;
    let c = x * (t.beta + t.alpha) * inv(t.delta) + sr * a + r * b - r * sr * t.delta;
    Proof {
        a: g1(a),
        b: g2(b),
        c: g1(c),
    }
}

/// The circuit "output = input²" with `output` public: `ic = [0, 1 / gamma]`.
fn square_key() -> VerifyingKey {
    key(&trapdoor(), &[s(0), s(1)])
}

fn square_proof() -> Proof {
    prove_square(&trapdoor(), s(3), s(5), s(7))
}

#[test]
fn square_circuit_accepts_true_output() {
    let pvk = prepare_verifying_key(&square_key());
    assert_eq!(verify_proof(&pvk, &square_proof(), &[s(9)]), Ok(true));
}

#[test]
fn square_circuit_rejects_wrong_output() {
    let pvk = prepare_verifying_key(&square_key());
    assert_eq!(verify_proof(&pvk, &square_proof(), &[s(10)]), Ok(false));
}

#[test]
fn other_randomness_still_verifies() {
    let pvk = prepare_verifying_key(&square_key());
    let proof = prove_square(&trapdoor(), s(3), s(1234567), s(7654321));
    assert_eq!(verify_proof(&pvk, &proof, &[s(9)]), Ok(true));
}

#[test]
fn witness_not_satisfying_is_rejected() {
    let pvk = prepare_verifying_key(&square_key());
    let proof = prove_square(&trapdoor(), s(4), s(5), s(7));
    assert_eq!(verify_proof(&pvk, &proof, &[s(9)]), Ok(false));
    assert_eq!(verify_proof(&pvk, &proof, &[s(16)]), Ok(true));
}

#[test]
fn mutated_a_is_rejected() {
    let pvk = prepare_verifying_key(&square_key());
    let p = square_proof();
    let a = G1Affine::from(G1Projective::from(p.a) + G1Affine::generator());
    let proof = Proof { a, b: p.b, c: p.c };
    assert_eq!(verify_proof(&pvk, &proof, &[s(9)]), Ok(false));
}

#[test]
fn mutated_b_is_rejected() {
    let pvk = prepare_verifying_key(&square_key());
    let p = square_proof();
    let b = G2Affine::from(G2Projective::from(p.b) + G2Affine::generator());
    let proof = Proof { a: p.a, b, c: p.c };
    assert_eq!(verify_proof(&pvk, &proof, &[s(9)]), Ok(false));
}

#[test]
fn mutated_c_is_rejected() {
    let pvk = prepare_verifying_key(&square_key());
    let p = square_proof();
    let c = G1Affine::from(G1Projective::from(p.c) + G1Affine::generator() * s(2));
    let proof = Proof { a: p.a, b: p.b, c };
    assert_eq!(verify_proof(&pvk, &proof, &[s(9)]), Ok(false));
}

#[test]
fn no_public_inputs() {
    // x * x = 9 with 9 a constant: the constant term carries it.
    let t = trapdoor();
    let vk = key(&t, &[s(9)]);
    let pvk = prepare_verifying_key(&vk);
    assert_eq!(pvk.ic.len(), 1);
    assert_eq!(verify_proof(&pvk, &prove_square(&t, s(3), s(2), s(8)), &[]), Ok(true));
    assert_eq!(verify_proof(&pvk, &prove_square(&t, s(2), s(2), s(8)), &[]), Ok(false));
}

#[test]
fn two_public_inputs_keep_their_positions() {
    // Output wire fed by 2 * y0 + 5 * y1 with coefficients on the public inputs.
    let t = trapdoor();
    let vk = key(&t, &[s(0), s(2), s(5)]);
    let pvk = prepare_verifying_key(&vk);
    let proof = prove_square(&t, s(3), s(5), s(7));
    // 2 * 2 + 5 * 1 == 9
    assert_eq!(verify_proof(&pvk, &proof, &[s(2), s(1)]), Ok(true));
    // 2 * 1 + 5 * 2 == 12
    assert_eq!(verify_proof(&pvk, &proof, &[s(1), s(2)]), Ok(false));
}

#[test]
fn too_few_inputs_is_malformed_key() {
    let pvk = prepare_verifying_key(&square_key());
    assert_eq!(
        verify_proof(&pvk, &square_proof(), &[]),
        Err(SynthesisError::MalformedVerifyingKey)
    );
}

#[test]
fn too_many_inputs_is_malformed_key() {
    let pvk = prepare_verifying_key(&square_key());
    assert_eq!(
        verify_proof(&pvk, &square_proof(), &[s(9), s(9)]),
        Err(SynthesisError::MalformedVerifyingKey)
    );
}

#[test]
fn empty_ic_is_malformed_key() {
    let pvk = prepare_verifying_key(&key(&trapdoor(), &[]));
    assert_eq!(
        verify_proof(&pvk, &square_proof(), &[]),
        Err(SynthesisError::MalformedVerifyingKey)
    );
}

#[test]
fn prepared_alpha_beta_is_their_pairing() {
    let vk = square_key();
    let pvk = prepare_verifying_key(&vk);
    assert_eq!(pvk.alpha_g1_beta_g2, bls12_381::pairing(&vk.alpha_g1, &vk.beta_g2));
    let t = trapdoor();
    let expected = bls12_381::pairing(&G1Affine::generator(), &G2Affine::generator()) * (t.alpha * t.beta);
    assert_eq!(pvk.alpha_g1_beta_g2, expected);
}

#[test]
fn prepared_key_keeps_coefficients() {
    let vk = key(&trapdoor(), &[s(4), s(1), s(6)]);
    let pvk = prepare_verifying_key(&vk);
    assert_eq!(pvk.ic, vk.ic);
}

#[test]
fn verify_twice_gives_same_result() {
    let pvk = prepare_verifying_key(&square_key());
    let proof = square_proof();
    let first = verify_proof(&pvk, &proof, &[s(9)]);
    let second = verify_proof(&pvk, &proof, &[s(9)]);
    assert_eq!(first, second);
    let first = verify_proof(&pvk, &proof, &[s(10)]);
    let second = verify_proof(&pvk, &proof, &[s(10)]);
    assert_eq!(first, second);
}

#[test]
fn generated_key_and_proof_are_valid() {
    assert!(square_key().is_valid());
    assert!(square_proof().is_valid());
}

#[test]
fn unchecked_point_off_subgroup_is_invalid() {
    let bad_g2 = G2Affine::from_uncompressed_unchecked(&[0u8; 192]).unwrap();
    let p = square_proof();
    let proof = Proof { a: p.a, b: bad_g2, c: p.c };
    assert!(!proof.is_valid());
    let mut vk = square_key();
    vk.beta_g2 = bad_g2;
    assert!(!vk.is_valid());
}

#[test]
fn unchecked_g1_point_in_ic_is_invalid() {
    let bad_g1 = G1Affine::from_uncompressed_unchecked(&[0u8; 96]).unwrap();
    let mut vk = square_key();
    vk.ic.push(bad_g1);
    assert!(!vk.is_valid());
    let p = square_proof();
    assert!(!Proof { a: bad_g1, b: p.b, c: p.c }.is_valid());
}
