use vstd::prelude::*;
use crate::error::SynthesisError;
use crate::fr::Fr;
use crate::fr::fr_m;
use crate::fr::fadd;
use crate::fr::fsub;
use crate::fr::fneg;
use crate::fr::fmul;
use crate::fr::fpow;
use crate::poly::vals;
use crate::poly::all_wf;
use crate::poly::filled;
use crate::poly::eval_bivar_poly;
use crate::poly::add_polynomials;
use crate::poly::lemma_fmul_comm;
use crate::poly::lemma_fmul_assoc;
use crate::poly::lemma_fmul_one;
use crate::poly::lemma_fmul_neg_one;
use crate::poly::lemma_fpow_add;
use crate::poly::lemma_fadd_fsub_cancel;

verus! {

/// A reference to one wire of a multiplication gate: left (A), right (B) or
/// output (C) family, with a 1-based index.
#[derive(Clone, Copy, Debug, PartialEq, Eq, Structural)]
pub enum Variable {
    A(usize),
    B(usize),
    C(usize),
}

/// A compact constraint coefficient, avoiding a scalar multiplication for the
/// common cases.
#[derive(Clone, Copy, Debug, PartialEq, Eq, Structural)]
pub enum Coeff {
    Zero,
    One,
    NegativeOne,
    Full(Fr),
}

/// The coefficient carries only canonical field elements.
pub open spec fn coeff_wf(c: Coeff) -> bool {
    match c {
        Coeff::Full(v) => v.wf(),
        _ => true,
    }
}

/// Whether the wire index of `var` lies in `[1, n]`.
pub open spec fn var_in_range(var: Variable, n: nat) -> bool {
    match var {
        Variable::A(i) => 1 <= i && i <= n,
        Variable::B(i) => 1 <= i && i <= n,
        Variable::C(i) => 1 <= i && i <= n,
    }
}

/// The additive effect of one coefficient on a wire slot holding `cur`, with
/// the current power `yqn`: `Zero` leaves it, `One` adds `yqn`, `NegativeOne`
/// subtracts `yqn`, and `Full(v)` adds `v * yqn`.
pub open spec fn coeff_apply(cur: nat, c: Coeff, yqn: nat) -> nat {
    match c {
        Coeff::Zero => cur,
        Coeff::One => fadd(cur, yqn),
        Coeff::NegativeOne => fsub(cur, yqn),
        Coeff::Full(v) => fadd(cur, fmul(v.val(), yqn)),
    }
}

/// `xi` is the multiplicative inverse of `x` in the field.
pub open spec fn is_inverse(xi: nat, x: nat) -> bool {
    xi < fr_m() && fmul(xi, x) == 1
}

/// A field element has at most one multiplicative inverse, so a contract
/// stated for some inverse witness pins the result completely.
pub proof fn lemma_inverse_unique(a: nat, b: nat, x: nat)
    requires
        is_inverse(a, x),
        is_inverse(b, x),
    ensures
        a == b,
{
    lemma_fmul_one(a);
    lemma_fmul_one(b);
    lemma_fmul_comm(b, x);
    lemma_fmul_assoc(a, x, b);
    lemma_fmul_comm(1, b);
    assert(fmul(a, fmul(x, b)) == fmul(fmul(a, x), b));
}

/// Ascending powers of `base`: entry `i` is `base^(i+1)`.
pub open spec fn power_seq(base: nat, len: nat) -> Seq<nat> {
    Seq::new(len, |i: int| fpow(base, (i + 1) as nat))
}

/// Within one constraint row, adding `One` and then `NegativeOne` to the same
/// wire slot restores the slot exactly: both act on the same `yqn`.
pub proof fn lemma_term_cancellation(slot: Seq<nat>, i: int, yqn: nat)
    requires
        0 <= i < slot.len(),
        slot[i] < fr_m(),
        yqn < fr_m(),
    ensures
        slot.update(i, coeff_apply(slot[i], Coeff::One, yqn)).update(
            i,
            coeff_apply(coeff_apply(slot[i], Coeff::One, yqn), Coeff::NegativeOne, yqn),
        ) == slot,
{
    lemma_fadd_fsub_cancel(slot[i], yqn);
    assert(slot.update(i, coeff_apply(slot[i], Coeff::One, yqn)).update(i, slot[i]) =~= slot);
}

/// Evaluation of the bivariate constraint polynomial s(X, Y) at a fixed `x`:
/// a one-shot cache of coefficient sequences consumed by opening-proof
/// construction downstream.
#[derive(Clone)]
pub struct SyEval {
    pub max_n: usize,
    pub current_q: usize,
    /// coefficients of x^{-1}, ..., x^{-n}
    pub a: Vec<Fr>,
    /// coefficients of x^1, ..., x^n
    pub b: Vec<Fr>,
    /// coefficients of x^{n+1}, ..., x^{2n}
    pub c: Vec<Fr>,
    /// coefficients for y^1, ..., y^{n+q}
    pub pos_coeffs: Vec<Fr>,
    /// coefficients for y^{-1}, ..., y^{-n}
    pub neg_coeffs: Vec<Fr>,
}

impl SyEval {
    /// Everything the constructor guarantees of a freshly built cache, given
    /// the value `x` of the evaluation point and its inverse `xi`.
    pub open spec fn built(&self, x: nat, xi: nat, n: nat, q: nat) -> bool {
        &&& self.max_n == n
        &&& self.current_q == 0
        &&& all_wf(self.a@) && all_wf(self.b@) && all_wf(self.c@)
        &&& all_wf(self.pos_coeffs@) && all_wf(self.neg_coeffs@)
        &&& vals(self.a@) == power_seq(xi, n)
        &&& vals(self.b@) == power_seq(x, n)
        &&& vals(self.c@) == Seq::new(n as nat, |i: int| fpow(x, (n + 1 + i) as nat))
        &&& vals(self.neg_coeffs@) == Seq::new(
            n as nat,
            |i: int| fneg(fpow(x, (n + 1 + i) as nat)),
        )
        &&& vals(self.pos_coeffs@) == Seq::new(
            (n + q) as nat,
            |i: int|
                if i < n {
                    fneg(fpow(x, (n + 1 + i) as nat))
                } else {
                    0
                },
        )
    }

    /// Builds the evaluation cache at `x`: powers of the inverse of `x` across
    /// `a`, powers of `x` across `b`, powers starting at `x^{n+1}` across `c`,
    /// and the negated positive powers across the padded `pos_coeffs` and the
    /// unpadded `neg_coeffs`.  Fails exactly when `x` has no inverse.
    #[verifier::rlimit(60)]
    pub fn new(x: Fr, n: usize, q: usize) -> (r: Result<SyEval, SynthesisError>)
        requires
            x.wf(),
            n + q <= usize::MAX,
            n < usize::MAX,
        ensures
            r is Err <==> x.val() == 0,
            r is Err ==> r == Result::<SyEval, SynthesisError>::Err(
                SynthesisError::DivisionByZero,
            ),
            r matches Ok(s) ==> s.a@.len() == n && s.b@.len() == n && s.c@.len() == n
                && s.pos_coeffs@.len() == n + q && s.neg_coeffs@.len() == n,
            r matches Ok(s) ==> exists|xi: nat|
                is_inverse(xi, x.val()) && s.built(x.val(), xi, n as nat, q as nat),
    {
        let x_inv = match x.inverse() {
            Some(v) => v,
            None => { return Err(SynthesisError::DivisionByZero) },
        };

        let one = Fr::one();
        let mut a = filled(one, n);
        let mut b = filled(one, n);
        let mut c = filled(one, n);

        eval_bivar_poly(&mut a, x_inv, x_inv);
        eval_bivar_poly(&mut b, x, x);
        let x_n1 = x.pow((n as u64) + 1);
        eval_bivar_poly(&mut c, x_n1, x);

        let mut minus_one = Fr::one();
        minus_one.negate();

        let mut neg_coeffs = filled(minus_one, n);
        eval_bivar_poly(&mut neg_coeffs, x_n1, x);

        let mut pos_coeffs = filled(minus_one, n);
        eval_bivar_poly(&mut pos_coeffs, x_n1, x);
        let zero = Fr::zero();
        let mut k: usize = n;
        while k < n + q
            invariant
                n <= k <= n + q,
                pos_coeffs@.len() == k,
                zero.val() == 0,
                forall|j: int| 0 <= j < n ==> (#[trigger] pos_coeffs@[j]).wf()
                    && pos_coeffs@[j].val() == neg_coeffs@[j].val(),
                forall|j: int| n <= j < k ==> pos_coeffs@[j] == zero,
                n + q <= usize::MAX,
            decreases n + q - k,
        {
            pos_coeffs.push(zero);
            k = k + 1;
        }

        proof {
            let xv = x.val();
            let xiv = x_inv.val();
            vstd::arithmetic::div_mod::lemma_small_mod(1, fr_m());
            vstd::arithmetic::div_mod::lemma_small_mod((fr_m() - 1) as nat, fr_m());
            assert(minus_one.val() == (fr_m() - 1) as nat);
            assert forall|i: int| 0 <= i < n implies vals(a@)[i] == fpow(xiv, (i + 1) as nat) by {
                lemma_fmul_one(fmul(xiv, fpow(xiv, i as nat)));
            }
            assert forall|i: int| 0 <= i < n implies vals(b@)[i] == fpow(xv, (i + 1) as nat) by {
                lemma_fmul_one(fmul(xv, fpow(xv, i as nat)));
            }
            assert forall|i: int| 0 <= i < n implies vals(c@)[i] == fpow(xv, (n + 1 + i) as nat) by {
                lemma_fpow_add(xv, (n + 1) as nat, i as nat);
                lemma_fmul_one(fmul(fpow(xv, (n + 1) as nat), fpow(xv, i as nat)));
            }
            assert forall|i: int| 0 <= i < n implies vals(neg_coeffs@)[i] == fneg(
                fpow(xv, (n + 1 + i) as nat),
            ) by {
                lemma_fpow_add(xv, (n + 1) as nat, i as nat);
                lemma_fmul_neg_one(fmul(fpow(xv, (n + 1) as nat), fpow(xv, i as nat)));
            }
            assert(vals(a@) =~= power_seq(xiv, n as nat));
            assert(vals(b@) =~= power_seq(xv, n as nat));
            assert(vals(c@) =~= Seq::new(n as nat, |i: int| fpow(xv, (n + 1 + i) as nat)));
            assert(vals(neg_coeffs@) =~= Seq::new(
                n as nat,
                |i: int| fneg(fpow(xv, (n + 1 + i) as nat)),
            ));
            assert forall|i: int| 0 <= i < n + q implies vals(pos_coeffs@)[i] == (
            if i < n {
                fneg(fpow(xv, (n + 1 + i) as nat))
            } else {
                0nat
            }) by {
                if i < n {
                    assert(pos_coeffs@[i].val() == neg_coeffs@[i].val());
                    assert(vals(neg_coeffs@)[i] == fneg(fpow(xv, (n + 1 + i) as nat)));
                } else {
                    assert(pos_coeffs@[i].val() == 0);
                }
            }
            assert(vals(pos_coeffs@) =~= Seq::new(
                (n + q) as nat,
                |i: int|
                    if i < n {
                        fneg(fpow(xv, (n + 1 + i) as nat))
                    } else {
                        0
                    },
            ));
        }

        let s = SyEval { max_n: n, current_q: 0, a, b, c, pos_coeffs, neg_coeffs };
        proof {
            let xv = x.val();
            let xiv = x_inv.val();
            assert(s.built(xv, xiv, n as nat, q as nat));
            assert(is_inverse(xiv, xv) && s.built(xv, xiv, n as nat, q as nat));
        }
        Ok(s)
    }
}

/// Streaming evaluation of the bivariate constraint polynomial s(X, y) at a
/// fixed `y`, driven one constraint row at a time by an external walker
/// through `new_linear_constraint` and `insert_coefficient`.
#[derive(Clone)]
pub struct SxEval {
    pub y: Fr,
    /// The current power `y^{n+q}` after `q` constraint rows.
    pub yqn: Fr,
    /// Accumulated left-wire (negative-power side) coefficients.
    pub u: Vec<Fr>,
    /// Accumulated right-wire (positive-power side) coefficients.
    pub v: Vec<Fr>,
    /// Accumulated output-wire coefficients, seeded with `-y^i - y^{-i}`.
    pub w: Vec<Fr>,
    /// How many constraint rows have been begun so far.
    pub num_constraints: Ghost<nat>,
}

impl SxEval {
    /// The evaluator's invariant: three equal-length canonical coefficient
    /// sequences, and the running power equal to `y^(n + q)` after `q` rows.
    pub open spec fn wf(&self) -> bool {
        &&& self.y.wf()
        &&& self.yqn.wf()
        &&& all_wf(self.u@) && all_wf(self.v@) && all_wf(self.w@)
        &&& self.u@.len() == self.v@.len()
        &&& self.v@.len() == self.w@.len()
        &&& self.yqn.val() == fpow(self.y.val(), (self.u@.len() + self.num_constraints@) as nat)
    }

    /// Builds the streaming evaluator at `y` with `n` wires per family:
    /// `yqn = y^n`, `u` and `v` all zero, and `w` seeded with
    /// `-y^{i+1} - y^{-(i+1)}` at entry `i`.  Fails exactly when `y` has no
    /// inverse.
    pub fn new(y: Fr, n: usize) -> (r: Result<SxEval, SynthesisError>)
        requires
            y.wf(),
        ensures
            r is Err <==> y.val() == 0,
            r is Err ==> r == Result::<SxEval, SynthesisError>::Err(
                SynthesisError::DivisionByZero,
            ),
            r matches Ok(s) ==> {
                &&& s.wf()
                &&& s.y == y
                &&& s.num_constraints@ == 0
                &&& s.u@.len() == n && s.v@.len() == n && s.w@.len() == n
                &&& s.yqn.val() == fpow(y.val(), n as nat)
                &&& vals(s.u@) == Seq::new(n as nat, |i: int| 0nat)
                &&& vals(s.v@) == Seq::new(n as nat, |i: int| 0nat)
                &&& exists|yi: nat|
                    is_inverse(yi, y.val()) && vals(s.w@) == Seq::new(
                        n as nat,
                        |i: int|
                            fadd(
                                fneg(fpow(y.val(), (i + 1) as nat)),
                                fneg(fpow(yi, (i + 1) as nat)),
                            ),
                    )
            },
    {
        let yqn = y.pow(n as u64);

        let zero = Fr::zero();
        let u: Vec<Fr> = vec![zero; n];
        let v: Vec<Fr> = vec![zero; n];

        let mut neg_one = Fr::one();
        neg_one.negate();

        let mut w: Vec<Fr> = vec![neg_one; n];
        let mut neg_w: Vec<Fr> = vec![neg_one; n];

        let y_inv = match y.inverse() {
            Some(v) => v,
            None => { return Err(SynthesisError::DivisionByZero) },
        };

        eval_bivar_poly(&mut w, y, y);
        eval_bivar_poly(&mut neg_w, y_inv, y_inv);
        add_polynomials(&mut w, &neg_w);

        proof {
            let yv = y.val();
            let yiv = y_inv.val();
            assert forall|i: int| 0 <= i < n implies vals(w@)[i] == fadd(
                fneg(fpow(yv, (i + 1) as nat)),
                fneg(fpow(yiv, (i + 1) as nat)),
            ) by {
                lemma_fmul_one(fmul(yv, fpow(yv, i as nat)));
                lemma_fmul_one(fmul(yiv, fpow(yiv, i as nat)));
                lemma_fmul_neg_one(fpow(yv, (i + 1) as nat));
                lemma_fmul_neg_one(fpow(yiv, (i + 1) as nat));
                assert(neg_one.val() == (fr_m() - 1) as nat);
            }
            assert(vals(u@) =~= Seq::new(n as nat, |i: int| 0nat));
            assert(vals(v@) =~= Seq::new(n as nat, |i: int| 0nat));
            assert(vals(w@) =~= Seq::new(
                n as nat,
                |i: int|
                    fadd(fneg(fpow(y.val(), (i + 1) as nat)), fneg(fpow(yiv, (i + 1) as nat))),
            ));
            assert(is_inverse(yiv, y.val()));
        }

        Ok(SxEval { y, yqn, u, v, w, num_constraints: Ghost(0nat) })
    }

    /// Steps to the next constraint row: `yqn <- yqn * y`.  Must be called
    /// once per row, strictly before any term of that row is added; after `k`
    /// calls the running power is exactly `y^(n+k)`.
    pub fn new_linear_constraint(&mut self)
        requires
            old(self).wf(),
        ensures
            final(self).wf(),
            final(self).y == old(self).y,
            final(self).u == old(self).u,
            final(self).v == old(self).v,
            final(self).w == old(self).w,
            final(self).num_constraints@ == old(self).num_constraints@ + 1,
            final(self).yqn.val() == fmul(old(self).yqn.val(), old(self).y.val()),
    {
        let y = self.y;
        self.yqn.mul_assign(&y);
        self.num_constraints = Ghost(old(self).num_constraints@ + 1);
        proof {
            lemma_fmul_comm(
                fpow(self.y.val(), (self.u@.len() + old(self).num_constraints@) as nat),
                self.y.val(),
            );
        }
    }

    /// Adds one term of the current constraint row: selects the wire slot by
    /// the variable's family and 1-based index, and combines the coefficient
    /// additively with the current power `yqn`.  Fails exactly when the index
    /// is outside `[1, n]`, leaving the evaluator unchanged.
    pub fn insert_coefficient(&mut self, var: Variable, coeff: Coeff) -> (r: Result<
        (),
        SynthesisError,
    >)
        requires
            old(self).wf(),
            coeff_wf(coeff),
        ensures
            final(self).wf(),
            final(self).y == old(self).y,
            final(self).yqn == old(self).yqn,
            final(self).num_constraints@ == old(self).num_constraints@,
            r is Ok <==> var_in_range(var, old(self).u@.len() as nat),
            r is Err ==> r == Result::<(), SynthesisError>::Err(SynthesisError::InvalidWireIndex)
                && *final(self) == *old(self),
            r is Ok ==> match var {
                Variable::A(i) => {
                    &&& vals(final(self).u@) == vals(old(self).u@).update(
                        i - 1,
                        coeff_apply(vals(old(self).u@)[i - 1], coeff, old(self).yqn.val()),
                    )
                    &&& final(self).v == old(self).v
                    &&& final(self).w == old(self).w
                },
                Variable::B(i) => {
                    &&& vals(final(self).v@) == vals(old(self).v@).update(
                        i - 1,
                        coeff_apply(vals(old(self).v@)[i - 1], coeff, old(self).yqn.val()),
                    )
                    &&& final(self).u == old(self).u
                    &&& final(self).w == old(self).w
                },
                Variable::C(i) => {
                    &&& vals(final(self).w@) == vals(old(self).w@).update(
                        i - 1,
                        coeff_apply(vals(old(self).w@)[i - 1], coeff, old(self).yqn.val()),
                    )
                    &&& final(self).u == old(self).u
                    &&& final(self).v == old(self).v
                },
            },
    {
        match var {
            Variable::A(index) => {
                if index < 1 || index > self.u.len() {
                    return Err(SynthesisError::InvalidWireIndex);
                }
                let cur = self.u[index - 1];
                let nv = apply_coeff(cur, coeff, self.yqn);
                self.u[index - 1] = nv;
                proof {
                    assert(vals(self.u@) =~= vals(old(self).u@).update(
                        index - 1,
                        coeff_apply(vals(old(self).u@)[index - 1], coeff, old(self).yqn.val()),
                    ));
                }
                Ok(())
            },
            Variable::B(index) => {
                if index < 1 || index > self.v.len() {
                    return Err(SynthesisError::InvalidWireIndex);
                }
                let cur = self.v[index - 1];
                let nv = apply_coeff(cur, coeff, self.yqn);
                self.v[index - 1] = nv;
                proof {
                    assert(vals(self.v@) =~= vals(old(self).v@).update(
                        index - 1,
                        coeff_apply(vals(old(self).v@)[index - 1], coeff, old(self).yqn.val()),
                    ));
                }
                Ok(())
            },
            Variable::C(index) => {
                if index < 1 || index > self.w.len() {
                    return Err(SynthesisError::InvalidWireIndex);
                }
                let cur = self.w[index - 1];
                let nv = apply_coeff(cur, coeff, self.yqn);
                self.w[index - 1] = nv;
                proof {
                    assert(vals(self.w@) =~= vals(old(self).w@).update(
                        index - 1,
                        coeff_apply(vals(old(self).w@)[index - 1], coeff, old(self).yqn.val()),
                    ));
                }
                Ok(())
            },
        }
    }

    /// Consumes the evaluator and returns the negative-power and
    /// positive-power coefficient sequences: `u` unchanged, and `v` with `w`
    /// appended in index order, doubling the positive side to length `2n`.
    pub fn neg_pos_poly(self) -> (r: (Vec<Fr>, Vec<Fr>))
        requires
            self.wf(),
        ensures
            r.0@ == self.u@,
            r.1@ == self.v@ + self.w@,
            r.1@.len() == self.v@.len() + self.w@.len(),
            all_wf(r.0@),
            all_wf(r.1@),
    {
        let ghost sv = self.v@;
        let ghost sw = self.w@;
        let SxEval { y: _, yqn: _, u, mut v, mut w, num_constraints: _ } = self;
        v.append(&mut w);
        proof {
            assert forall|i: int| 0 <= i < v@.len() implies (#[trigger] v@[i]).wf() by {
                if i < sv.len() {
                    assert(v@[i] == sv[i]);
                } else {
                    assert(v@[i] == sw[i - sv.len()]);
                }
            }
        }
        (u, v)
    }
}

/// Combines one coefficient into a wire slot according to its tag.
fn apply_coeff(cur: Fr, coeff: Coeff, yqn: Fr) -> (r: Fr)
    requires
        cur.wf(),
        yqn.wf(),
        coeff_wf(coeff),
    ensures
        r.wf(),
        r.val() == coeff_apply(cur.val(), coeff, yqn.val()),
{
    match coeff {
        Coeff::Zero => cur,
        Coeff::One => {
            let mut c = cur;
            c.add_assign(&yqn);
            c
        },
        Coeff::NegativeOne => {
            let mut c = cur;
            c.sub_assign(&yqn);
            c
        },
        Coeff::Full(v) => {
            let mut t = v;
            t.mul_assign(&yqn);
            let mut c = cur;
            c.add_assign(&t);
            c
        },
    }
}

} // verus!
