use vstd::prelude::*;
use pairing::bls12_381::G1Affine;
use pairing::bls12_381::G2Prepared;
use pairing::bls12_381::Fq12;
use crate::error::SynthesisError;
use crate::fr::Fr;
use crate::fr::fadd;
use crate::fr::fmul;
use crate::group::g2_prepare;
use crate::group::g2_negated;
use crate::group::g1_mul;
use crate::group::g1_add;
use crate::group::pair;
use crate::group::fq12_mul;
use crate::group::fq12_is_one;
use crate::group::g2_prepare_of;
use crate::group::g2_negated_of;
use crate::group::g1_mul_of;
use crate::group::g1_add_of;
use crate::group::pair_of;
use crate::group::fq12_mul_of;
use crate::group::fq12_is_one_of;
use crate::srs::SRS;

verus! {

/// All scalars of an accumulator are canonical field elements.
pub open spec fn acc_wf(s: Seq<(G1Affine, Fr)>) -> bool {
    forall|i: int| 0 <= i < s.len() ==> (#[trigger] s[i]).1.wf()
}

/// The scalar-weighted sum of an accumulator's entries, folded left to right:
/// entry 0 scaled by its scalar, then each further scaled entry added on.
pub open spec fn weighted_sum(s: Seq<(G1Affine, Fr)>) -> G1Affine
    recommends
        s.len() >= 1,
    decreases s.len(),
{
    if s.len() <= 1 {
        g1_mul_of(s[0].0, s[0].1.val())
    } else {
        g1_add_of(weighted_sum(s.drop_last()), g1_mul_of(s.last().0, s.last().1.val()))
    }
}

/// The product of a sequence of target-group values, folded left to right.
pub open spec fn fq12_product(fs: Seq<Fq12>) -> Fq12
    recommends
        fs.len() >= 1,
    decreases fs.len(),
{
    if fs.len() <= 1 {
        fs[0]
    } else {
        fq12_mul_of(fq12_product(fs.drop_last()), fs.last())
    }
}

/// Every pairing in the sequence has a defined value.
pub open spec fn all_defined(fs: Seq<Option<Fq12>>) -> bool {
    forall|i: int| 0 <= i < fs.len() ==> (#[trigger] fs[i]) is Some
}

/// The defined values of a sequence of pairings.
pub open spec fn defined_values(fs: Seq<Option<Fq12>>) -> Seq<Fq12> {
    fs.map_values(|o: Option<Fq12>| o->Some_0)
}

/// A context for batch verification: commitment/opening pairs accumulate,
/// each tagged with a randomizer, against four fixed prepared target-group
/// elements drawn from the reference string, together with a running scalar
/// `value` for the claimed evaluations.  The whole batch stands for one
/// multi-pairing product that must equal the pairing identity.
pub struct Batch {
    /// Openings of polynomial commitments, paired against `alpha * h^{x^1}`.
    pub alpha_x: Vec<(G1Affine, Fr)>,
    pub alpha_x_precomp: G2Prepared,
    /// Openings of polynomial commitments, paired against `alpha * h^{x^0}`.
    pub alpha: Vec<(G1Affine, Fr)>,
    pub alpha_precomp: G2Prepared,
    /// Polynomial commitments with their randomizers, paired against `-h^{x^0}`.
    pub neg_h: Vec<(G1Affine, Fr)>,
    pub neg_h_precomp: G2Prepared,
    /// Degree-bound terms, paired against `-h^{x^{d-n}}`.
    pub neg_x_n_minus_d: Vec<(G1Affine, Fr)>,
    pub neg_x_n_minus_d_precomp: G2Prepared,
    /// The generator of the target group, for the claimed-value term.
    pub h_precomp: G2Prepared,
    /// Randomized sum of the claimed evaluation values.
    pub value: Fr,
    /// g^{x^0}, the source-group generator of the reference string.
    pub g: G1Affine,
}

impl Batch {
    /// Canonical scalars everywhere.
    pub open spec fn wf(&self) -> bool {
        &&& self.value.wf()
        &&& acc_wf(self.alpha_x@)
        &&& acc_wf(self.alpha@)
        &&& acc_wf(self.neg_h@)
        &&& acc_wf(self.neg_x_n_minus_d@)
    }

    /// Nothing has been accumulated yet.
    pub open spec fn is_empty(&self) -> bool {
        &&& self.alpha_x@.len() == 0
        &&& self.alpha@.len() == 0
        &&& self.neg_h@.len() == 0
        &&& self.neg_x_n_minus_d@.len() == 0
    }

    /// All prepared pairing terms of the batch are unchanged from `other`.
    pub open spec fn same_precomps(&self, other: &Batch) -> bool {
        &&& self.alpha_x_precomp == other.alpha_x_precomp
        &&& self.alpha_precomp == other.alpha_precomp
        &&& self.neg_h_precomp == other.neg_h_precomp
        &&& self.neg_x_n_minus_d_precomp == other.neg_x_n_minus_d_precomp
        &&& self.h_precomp == other.h_precomp
    }

    /// The factors of the batch's multi-pairing product, in the order the
    /// decision evaluates them: one pairing of the scalar-weighted sum of each
    /// nonempty accumulator against its fixed prepared term, then, for a
    /// nonzero running value, the pairing of `g` raised to that value against
    /// the target-group generator.  An empty accumulator contributes no
    /// factor: its empty sum would pair to the identity.
    pub open spec fn pairing_factors(&self) -> Seq<Option<Fq12>> {
        let s0 = Seq::<Option<Fq12>>::empty();
        let s1 = if self.alpha_x@.len() > 0 {
            s0.push(pair_of(weighted_sum(self.alpha_x@), self.alpha_x_precomp))
        } else {
            s0
        };
        let s2 = if self.alpha@.len() > 0 {
            s1.push(pair_of(weighted_sum(self.alpha@), self.alpha_precomp))
        } else {
            s1
        };
        let s3 = if self.neg_h@.len() > 0 {
            s2.push(pair_of(weighted_sum(self.neg_h@), self.neg_h_precomp))
        } else {
            s2
        };
        let s4 = if self.neg_x_n_minus_d@.len() > 0 {
            s3.push(pair_of(weighted_sum(self.neg_x_n_minus_d@), self.neg_x_n_minus_d_precomp))
        } else {
            s3
        };
        if self.value.val() != 0 {
            s4.push(pair_of(g1_mul_of(self.g, self.value.val()), self.h_precomp))
        } else {
            s4
        }
    }

    /// Prepares the four fixed pairing terms from the reference string for a
    /// batch over `n` powers: the positive fixed elements at `alpha * x^1` and
    /// `alpha * x^0`, the negated fixed elements at `x^0` and `x^{d-n}`
    /// (negation applied before preparing), and the target-group generator for
    /// the claimed-value term.  Fails exactly when `n` exceeds the degree
    /// bound `d` of the setup.
    pub fn new(srs: &SRS, n: usize) -> (r: Result<Batch, SynthesisError>)
        requires
            srs.wf(),
        ensures
            r is Err <==> n > srs.d,
            r is Err ==> r == Result::<Batch, SynthesisError>::Err(SynthesisError::BoundExceeded),
            r matches Ok(b) ==> {
                &&& b.wf()
                &&& b.is_empty()
                &&& b.value.val() == 0
                &&& b.g == srs.g_pos_x@[0]
                &&& b.alpha_x_precomp == g2_prepare_of(srs.h_pos_x_alpha@[1])
                &&& b.alpha_precomp == g2_prepare_of(srs.h_pos_x_alpha@[0])
                &&& b.neg_h_precomp == g2_prepare_of(g2_negated_of(srs.h_neg_x@[0]))
                &&& b.neg_x_n_minus_d_precomp == g2_prepare_of(
                    g2_negated_of(srs.h_neg_x@[srs.d - n]),
                )
                &&& b.h_precomp == g2_prepare_of(srs.h_neg_x@[0])
            },
    {
        if n > srs.d {
            return Err(SynthesisError::BoundExceeded);
        }
        let neg_h0 = g2_negated(&srs.h_neg_x[0]);
        let neg_hdn = g2_negated(&srs.h_neg_x[srs.d - n]);
        Ok(
            Batch {
                alpha_x: Vec::new(),
                alpha_x_precomp: g2_prepare(&srs.h_pos_x_alpha[1]),
                alpha: Vec::new(),
                alpha_precomp: g2_prepare(&srs.h_pos_x_alpha[0]),
                neg_h: Vec::new(),
                neg_h_precomp: g2_prepare(&neg_h0),
                neg_x_n_minus_d: Vec::new(),
                neg_x_n_minus_d_precomp: g2_prepare(&neg_hdn),
                h_precomp: g2_prepare(&srs.h_neg_x[0]),
                value: Fr::zero(),
                g: srs.g_pos_x[0],
            },
        )
    }

    /// Appends one randomized polynomial commitment to the accumulator that
    /// pairs against the negated fixed term; everything else is unchanged.
    pub fn add_comm(&mut self, comm: G1Affine, random: Fr)
        requires
            old(self).wf(),
            random.wf(),
        ensures
            final(self).wf(),
            final(self).neg_h@ == old(self).neg_h@.push((comm, random)),
            final(self).alpha_x@ == old(self).alpha_x@,
            final(self).alpha@ == old(self).alpha@,
            final(self).neg_x_n_minus_d@ == old(self).neg_x_n_minus_d@,
            final(self).value == old(self).value,
            final(self).g == old(self).g,
            final(self).same_precomps(old(self)),
    {
        self.neg_h.push((comm, random));
    }

    /// Appends one randomized opening to the accumulator that pairs against
    /// `alpha * h^{x^1}`, and folds the claimed evaluation point into the
    /// running scalar: `value <- value + random * point`.  Everything else is
    /// unchanged.
    pub fn add_opening(&mut self, opening: G1Affine, random: Fr, point: Fr)
        requires
            old(self).wf(),
            random.wf(),
            point.wf(),
        ensures
            final(self).wf(),
            final(self).alpha_x@ == old(self).alpha_x@.push((opening, random)),
            final(self).value.val() == fadd(
                old(self).value.val(),
                fmul(random.val(), point.val()),
            ),
            final(self).alpha@ == old(self).alpha@,
            final(self).neg_h@ == old(self).neg_h@,
            final(self).neg_x_n_minus_d@ == old(self).neg_x_n_minus_d@,
            final(self).g == old(self).g,
            final(self).same_precomps(old(self)),
    {
        self.alpha_x.push((opening, random));
        let mut t = random;
        t.mul_assign(&point);
        self.value.add_assign(&t);
    }

    /// Decides the whole batch: folds each accumulator into one aggregate
    /// source-group element by scalar-weighted summation and pairs it against
    /// its fixed prepared term, pairs `g` raised to `value` against the
    /// target-group generator, multiplies every factor, and accepts exactly
    /// when the product is the pairing identity.  An empty product is the
    /// identity, so a batch with nothing accumulated and a zero value is
    /// accepted outright; a pairing without a defined value rejects — a
    /// failed check is plain rejection, indistinguishable from any other
    /// verification failure.
    pub fn check_all(self) -> (r: bool)
        requires
            self.wf(),
        ensures
            self.pairing_factors().len() == 0 ==> r == true,
            !all_defined(self.pairing_factors()) ==> r == false,
            all_defined(self.pairing_factors()) && self.pairing_factors().len() > 0 ==> r
                == fq12_is_one_of(fq12_product(defined_values(self.pairing_factors()))),
            self.is_empty() && self.value.val() == 0 ==> r == true,
    {
        let ghost fs = self.pairing_factors();
        let mut factors: Vec<Option<Fq12>> = Vec::new();

        if self.alpha_x.len() > 0 {
            let agg = combine(&self.alpha_x);
            factors.push(pair(&agg, &self.alpha_x_precomp));
        }
        if self.alpha.len() > 0 {
            let agg = combine(&self.alpha);
            factors.push(pair(&agg, &self.alpha_precomp));
        }
        if self.neg_h.len() > 0 {
            let agg = combine(&self.neg_h);
            factors.push(pair(&agg, &self.neg_h_precomp));
        }
        if self.neg_x_n_minus_d.len() > 0 {
            let agg = combine(&self.neg_x_n_minus_d);
            factors.push(pair(&agg, &self.neg_x_n_minus_d_precomp));
        }
        if !self.value.is_zero() {
            let gv = g1_mul(&self.g, &self.value);
            factors.push(pair(&gv, &self.h_precomp));
        }
        proof {
            assert(factors@ =~= fs);
        }

        let vals = Ghost(defined_values(fs));
        let mut prod: Option<Fq12> = None;
        let mut i: usize = 0;
        while i < factors.len()
            invariant
                fs == self.pairing_factors(),
                factors@ == fs,
                vals@ == defined_values(fs),
                0 <= i <= fs.len(),
                forall|j: int| 0 <= j < i ==> (#[trigger] fs[j]) is Some,
                prod is None <==> i == 0,
                i > 0 ==> prod == Some(fq12_product(vals@.take(i as int))),
            decreases fs.len() - i,
        {
            match &factors[i] {
                None => {
                    proof {
                        assert(fs[i as int] is None);
                    }
                    return false;
                },
                Some(f) => {
                    proof {
                        assert(vals@[i as int] == fs[i as int]->Some_0);
                    }
                    prod = match prod {
                        None => Some(*f),
                        Some(p) => {
                            proof {
                                assert(vals@.take(i + 1).drop_last() =~= vals@.take(i as int));
                                assert(vals@.take(i + 1).last() == vals@[i as int]);
                            }
                            Some(fq12_mul(&p, f))
                        },
                    };
                    proof {
                        if i == 0 {
                            assert(vals@.take(1) =~= seq![vals@[0]]);
                        }
                    }
                },
            }
            i = i + 1;
        }

        match prod {
            None => true,
            Some(p) => {
                proof {
                    assert(vals@.take(fs.len() as int) =~= vals@);
                }
                fq12_is_one(&p)
            },
        }
    }
}

/// Folds one accumulator into a single source-group element by scalar-weighted
/// summation of its entries, left to right.
fn combine(pairs: &Vec<(G1Affine, Fr)>) -> (r: G1Affine)
    requires
        pairs@.len() > 0,
        acc_wf(pairs@),
    ensures
        r == weighted_sum(pairs@),
{
    let mut acc = g1_mul(&pairs[0].0, &pairs[0].1);
    proof {
        assert(pairs@.take(1).len() == 1);
        assert(pairs@.take(1)[0] == pairs@[0]);
    }
    let mut i: usize = 1;
    while i < pairs.len()
        invariant
            1 <= i <= pairs@.len(),
            acc_wf(pairs@),
            acc == weighted_sum(pairs@.take(i as int)),
        decreases pairs@.len() - i,
    {
        let term = g1_mul(&pairs[i].0, &pairs[i].1);
        acc = g1_add(&acc, &term);
        proof {
            assert(pairs@.take(i + 1).drop_last() =~= pairs@.take(i as int));
            assert(pairs@.take(i + 1).last() == pairs@[i as int]);
        }
        i = i + 1;
    }
    proof {
        assert(pairs@.take(pairs@.len() as int) =~= pairs@);
    }
    acc
}

} // verus!
