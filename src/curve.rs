//! The outside curve types, and what the library relies on of the
//! operations it calls on them.
//!
//! Every point of G1 or G2 in the prime-order subgroup is `k` times the
//! group's generator for exactly one `k` in `[0, r)`: that `k` is the point's
//! discrete logarithm, named below and never computed. The target group is
//! cyclic of the same order `r`, with the pairing of the two generators as
//! its generator, and is written additively, as the `pairing` crate writes it.
//! Bilinearity then reads `log e(P, Q) == log P * log Q (mod r)`.
//!
//! Points of the curves outside the prime-order subgroup can be built through
//! the unchecked decoders of `bls12_381`, and the pairing can panic on them.
//! Nothing is claimed of such points: the operations that could panic require
//! valid points, the others claim something only of valid points, and
//! `g1_check` and `g2_check` tell the two kinds apart.
use vstd::prelude::*;

use bls12_381::{G1Affine, G1Projective, G2Affine, G2Prepared, Gt, MillerLoopResult, Scalar};

verus! {

#[verifier::external_type_specification]
#[verifier::external_body]
pub struct ExG1Affine(bls12_381::G1Affine);

#[verifier::external_type_specification]
#[verifier::external_body]
pub struct ExG1Projective(bls12_381::G1Projective);

#[verifier::external_type_specification]
#[verifier::external_body]
pub struct ExG2Affine(bls12_381::G2Affine);

#[verifier::external_type_specification]
#[verifier::external_body]
pub struct ExG2Prepared(bls12_381::G2Prepared);

#[verifier::external_type_specification]
#[verifier::external_body]
pub struct ExGt(bls12_381::Gt);

#[verifier::external_type_specification]
#[verifier::external_body]
pub struct ExMillerLoopResult(bls12_381::MillerLoopResult);

#[verifier::external_type_specification]
#[verifier::external_body]
pub struct ExScalar(bls12_381::Scalar);

/// The prime order `r` of G1, G2 and the target group of BLS12-381, which is
/// also the modulus of the scalar field.
pub open spec fn group_order() -> int {
    (0x73eda753299d7d48 * 0x1_0000_0000_0000_0000_0000_0000_0000_0000_0000_0000_0000_0000
        + 0x3339d80809a1d805 * 0x1_0000_0000_0000_0000_0000_0000_0000_0000
        + 0x53bda402fffe5bfe * 0x1_0000_0000_0000_0000
        + 0xffffffff00000001) as int
}

/// The integer in `[0, r)` that a scalar field element stands for.
pub uninterp spec fn scalar_val(s: Scalar) -> int;

/// Whether an affine G1 point lies in the prime-order subgroup.
pub uninterp spec fn g1_valid(p: G1Affine) -> bool;

/// The discrete logarithm of a valid affine G1 point.
pub uninterp spec fn g1_log(p: G1Affine) -> int;

/// Whether a projective G1 point lies in the prime-order subgroup.
pub uninterp spec fn g1p_valid(p: G1Projective) -> bool;

/// The discrete logarithm of a valid projective G1 point.
pub uninterp spec fn g1p_log(p: G1Projective) -> int;

/// Whether an affine G2 point lies in the prime-order subgroup.
pub uninterp spec fn g2_valid(p: G2Affine) -> bool;

/// The discrete logarithm of a valid affine G2 point.
pub uninterp spec fn g2_log(p: G2Affine) -> int;

/// Whether a prepared G2 point was prepared from a valid point.
pub uninterp spec fn g2p_valid(p: G2Prepared) -> bool;

/// The discrete logarithm of the point that a valid prepared point was
/// prepared from.
pub uninterp spec fn g2p_log(p: G2Prepared) -> int;

/// Whether a Miller loop result was computed from valid points, and so is
/// nonzero, as its final exponentiation needs.
pub uninterp spec fn ml_valid(m: MillerLoopResult) -> bool;

/// The discrete logarithm of a target group element.
pub uninterp spec fn gt_log(t: Gt) -> int;

/// The discrete logarithm of the target group element that the final
/// exponentiation turns a Miller loop result into.
pub uninterp spec fn ml_log(m: MillerLoopResult) -> int;

/// The sum of the products of the logarithms of three pairs, reduced mod `r`:
/// the logarithm of the sum of their three pairings.
pub open spec fn pairing_sum(
    a1: G1Affine,
    b1: G2Prepared,
    a2: G1Affine,
    b2: G2Prepared,
    a3: G1Affine,
    b3: G2Prepared,
) -> int {
    (g1_log(a1) * g2p_log(b1) + g1_log(a2) * g2p_log(b2) + g1_log(a3) * g2p_log(b3))
        % group_order()
}

/// Relies on `G1Affine::is_on_curve` and `G1Affine::is_torsion_free`, taken
/// together as the crate's checked decoders take them: whether the point lies
/// in the prime-order subgroup.
#[verifier::external_body]
pub(crate) fn g1_check(p: &G1Affine) -> (r: bool)
    ensures
        r == g1_valid(*p),
{
    bool::from(p.is_on_curve() & p.is_torsion_free())
}

/// Relies on `G2Affine::is_on_curve` and `G2Affine::is_torsion_free`, taken
/// together as the crate's checked decoders take them: whether the point lies
/// in the prime-order subgroup.
#[verifier::external_body]
pub(crate) fn g2_check(p: &G2Affine) -> (r: bool)
    ensures
        r == g2_valid(*p),
{
    bool::from(p.is_on_curve() & p.is_torsion_free())
}

/// Relies on `pairing::Engine::pairing` for `bls12_381::Bls12`: the pairing is
/// bilinear, and maps the two generators to the generator of the target group.
/// Its final exponentiation panics on some points outside the subgroups.
#[verifier::external_body]
pub(crate) fn pairing(p: &G1Affine, q: &G2Affine) -> (r: Gt)
    requires
        g1_valid(*p),
        g2_valid(*q),
    ensures
        0 <= gt_log(r) < group_order(),
        gt_log(r) == (g1_log(*p) * g2_log(*q)) % group_order(),
{
    <bls12_381::Bls12 as pairing::Engine>::pairing(p, q)
}

/// Relies on `Neg for &G2Affine`: the group inverse.
#[verifier::external_body]
pub(crate) fn g2_neg(p: &G2Affine) -> (r: G2Affine)
    ensures
        g2_valid(*p) ==> g2_valid(r) && g2_log(r) == (group_order() - g2_log(*p)) % group_order(),
{
    -p
}

/// Relies on `From<G2Affine> for G2Prepared`: the prepared form stands for
/// the same point.
#[verifier::external_body]
pub(crate) fn g2_prepare(p: G2Affine) -> (r: G2Prepared)
    ensures
        g2_valid(p) ==> g2p_valid(r) && g2p_log(r) == g2_log(p),
{
    G2Prepared::from(p)
}

/// Relies on `group::prime::PrimeCurveAffine::to_curve`: the same point in
/// projective form (a logarithm lies in `[0, r)`, so reducing it changes
/// nothing).
#[verifier::external_body]
pub(crate) fn g1_to_projective(p: &G1Affine) -> (r: G1Projective)
    ensures
        g1_valid(*p) ==> g1p_valid(r) && g1p_log(r) == g1_log(*p) % group_order(),
{
    group::prime::PrimeCurveAffine::to_curve(p)
}

/// Relies on `group::Curve::to_affine`: the same point in affine form.
#[verifier::external_body]
pub(crate) fn g1_to_affine(p: &G1Projective) -> (r: G1Affine)
    ensures
        g1p_valid(*p) ==> g1_valid(r) && g1_log(r) == g1p_log(*p),
{
    group::Curve::to_affine(p)
}

/// Relies on `Mul<&Scalar> for &G1Affine`: scalar multiplication.
#[verifier::external_body]
pub(crate) fn g1_mul(p: &G1Affine, s: &Scalar) -> (r: G1Projective)
    ensures
        g1_valid(*p) ==> g1p_valid(r) && g1p_log(r) == (g1_log(*p) * scalar_val(*s)) % group_order(),
{
    p * s
}

/// Relies on `AddAssign<&G1Projective> for G1Projective`: group addition.
#[verifier::external_body]
pub(crate) fn g1_add_assign(acc: &mut G1Projective, x: &G1Projective)
    ensures
        g1p_valid(*old(acc)) && g1p_valid(*x) ==> g1p_valid(*final(acc)) && g1p_log(*final(acc))
            == (g1p_log(*old(acc)) + g1p_log(*x)) % group_order(),
{
    *acc += x;
}

/// Relies on `pairing::MultiMillerLoop::multi_miller_loop` for
/// `bls12_381::Bls12`, on three terms: the sum of their Miller loops, whose
/// final exponentiation is the sum of their pairings.
#[verifier::external_body]
pub(crate) fn multi_miller_loop(
    a1: &G1Affine,
    b1: &G2Prepared,
    a2: &G1Affine,
    b2: &G2Prepared,
    a3: &G1Affine,
    b3: &G2Prepared,
) -> (r: MillerLoopResult)
    ensures
        g1_valid(*a1) && g2p_valid(*b1) && g1_valid(*a2) && g2p_valid(*b2) && g1_valid(*a3)
            && g2p_valid(*b3) ==> ml_valid(r) && ml_log(r) == pairing_sum(
            *a1,
            *b1,
            *a2,
            *b2,
            *a3,
            *b3,
        ),
{
    <bls12_381::Bls12 as pairing::MultiMillerLoop>::multi_miller_loop(&[(a1, b1), (a2, b2), (a3, b3)])
}

/// Relies on `pairing::MillerLoopResult::final_exponentiation`: its result is
/// the element of the target group that `ml_log` names the logarithm of. It
/// inverts the Miller loop result and panics where that is zero.
#[verifier::external_body]
pub(crate) fn final_exponentiation(m: &MillerLoopResult) -> (r: Gt)
    requires
        ml_valid(*m),
    ensures
        0 <= gt_log(r) < group_order(),
        gt_log(r) == ml_log(*m),
{
    pairing::MillerLoopResult::final_exponentiation(m)
}

/// Relies on `PartialEq for Gt`: equality of elements of a cyclic group of
/// order `r`, which is equality of their logarithms in `[0, r)`.
#[verifier::external_body]
pub(crate) fn gt_eq(x: &Gt, y: &Gt) -> (r: bool)
    ensures
        r == (gt_log(*x) == gt_log(*y)),
{
    x == y
}

} // verus!
