use vstd::prelude::*;
use pairing::CurveAffine;
use pairing::CurveProjective;
use pairing::Engine;
use pairing::Field;
use pairing::bls12_381::Bls12;
use pairing::bls12_381::G1Affine;
use pairing::bls12_381::G2Affine;
use pairing::bls12_381::G2Prepared;
use pairing::bls12_381::Fq12;
use pairing::bls12_381::FrRepr;
use crate::fr::Fr;

verus! {

#[verifier::external_type_specification]
#[verifier::external_body]
pub struct ExG1Affine(G1Affine);

#[verifier::external_type_specification]
#[verifier::external_body]
pub struct ExG2Affine(G2Affine);

#[verifier::external_type_specification]
#[verifier::external_body]
pub struct ExG2Prepared(G2Prepared);

#[verifier::external_type_specification]
#[verifier::external_body]
pub struct ExFq12(Fq12);

/// The precomputed form of a target-group point.
pub uninterp spec fn g2_prepare_of(h: G2Affine) -> G2Prepared;

/// The additive inverse of a target-group point.
pub uninterp spec fn g2_negated_of(h: G2Affine) -> G2Affine;

/// The multiple of a source-group point by the scalar of the given value.
pub uninterp spec fn g1_mul_of(p: G1Affine, s: nat) -> G1Affine;

/// The sum of two source-group points.
pub uninterp spec fn g1_add_of(p: G1Affine, q: G1Affine) -> G1Affine;

/// The pairing of a source-group point with a prepared target-group point,
/// `None` when the final exponentiation has no defined value.
pub uninterp spec fn pair_of(p: G1Affine, q: G2Prepared) -> Option<Fq12>;

/// The product of two target-group values.
pub uninterp spec fn fq12_mul_of(a: Fq12, b: Fq12) -> Fq12;

/// Whether a target-group value is the pairing identity.
pub uninterp spec fn fq12_is_one_of(a: Fq12) -> bool;

/// Relies on `pairing::bls12_381::G2Affine::prepare`: the precomputed form of
/// a target-group point for repeated pairing evaluation.
#[verifier::external_body]
pub(crate) fn g2_prepare(h: &G2Affine) -> (r: G2Prepared)
    ensures
        r == g2_prepare_of(*h),
{
    h.prepare()
}

/// Relies on `pairing::bls12_381::G2Affine::negate`: the additive inverse of
/// a target-group point.
#[verifier::external_body]
pub(crate) fn g2_negated(h: &G2Affine) -> (r: G2Affine)
    ensures
        r == g2_negated_of(*h),
{
    let mut t = *h;
    t.negate();
    t
}

/// Relies on `pairing::bls12_381::G1Affine::mul`: the scalar multiple of a
/// source-group point, the scalar given by its canonical limbs.
#[verifier::external_body]
pub(crate) fn g1_mul(p: &G1Affine, s: &Fr) -> (r: G1Affine)
    requires
        s.wf(),
    ensures
        r == g1_mul_of(*p, s.val()),
{
    p.mul(FrRepr([s.l0, s.l1, s.l2, s.l3])).into_affine()
}

/// Relies on `pairing::bls12_381::G1::add_assign_mixed`: the sum of two
/// source-group points.
#[verifier::external_body]
pub(crate) fn g1_add(p: &G1Affine, q: &G1Affine) -> (r: G1Affine)
    ensures
        r == g1_add_of(*p, *q),
{
    let mut t = p.into_projective();
    t.add_assign_mixed(q);
    t.into_affine()
}

/// Relies on `Bls12::miller_loop` and `Bls12::final_exponentiation`: the
/// bilinear pairing of a source-group point with a prepared target-group
/// point, `None` when the final exponentiation has no defined value.
#[verifier::external_body]
pub(crate) fn pair(p: &G1Affine, q: &G2Prepared) -> (r: Option<Fq12>)
    ensures
        r == pair_of(*p, *q),
{
    let pp = p.prepare();
    Bls12::final_exponentiation(&Bls12::miller_loop(&[(&pp, q)]))
}

/// Relies on `pairing::bls12_381::Fq12::mul_assign`: the product of two
/// target-group values.
#[verifier::external_body]
pub(crate) fn fq12_mul(a: &Fq12, b: &Fq12) -> (r: Fq12)
    ensures
        r == fq12_mul_of(*a, *b),
{
    let mut t = *a;
    t.mul_assign(b);
    t
}

/// Relies on `pairing::bls12_381::Fq12::one` and its derived equality: whether
/// a target-group value is the pairing identity.
#[verifier::external_body]
pub(crate) fn fq12_is_one(a: &Fq12) -> (r: bool)
    ensures
        r == fq12_is_one_of(*a),
{
    *a == Fq12::one()
}

} // verus!
