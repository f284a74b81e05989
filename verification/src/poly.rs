use vstd::prelude::*;
use crate::fr::Fr;
use crate::fr::fr_m;
use crate::fr::fadd;
use crate::fr::fsub;
use crate::fr::fneg;
use crate::fr::fmul;
use crate::fr::fpow;

verus! {

/// The integer values of a coefficient sequence.
pub open spec fn vals(s: Seq<Fr>) -> Seq<nat> {
    s.map_values(|f: Fr| f.val())
}

/// Every element of the sequence is in canonical form.
pub open spec fn all_wf(s: Seq<Fr>) -> bool {
    forall|i: int| 0 <= i < s.len() ==> (#[trigger] s[i]).wf()
}

/// Multiplication in the field commutes.
pub proof fn lemma_fmul_comm(a: nat, b: nat)
    ensures
        fmul(a, b) == fmul(b, a),
{
    assert(a * b == b * a) by (nonlinear_arith);
}

/// Multiplication in the field associates.
pub proof fn lemma_fmul_assoc(a: nat, b: nat, c: nat)
    ensures
        fmul(fmul(a, b), c) == fmul(a, fmul(b, c)),
{
    let m = fr_m() as int;
    vstd::arithmetic::div_mod::lemma_mul_mod_noop_left((a * b) as int, c as int, m);
    vstd::arithmetic::div_mod::lemma_mul_mod_noop_right(a as int, (b * c) as int, m);
    assert(a * b * c == a * (b * c)) by (nonlinear_arith);
}

/// One is the multiplicative identity on canonical values.
pub proof fn lemma_fmul_one(a: nat)
    requires
        a < fr_m(),
    ensures
        fmul(a, 1) == a,
        fmul(1, a) == a,
{
    vstd::arithmetic::div_mod::lemma_small_mod(a, fr_m());
}

/// Every power of a canonical value is canonical.
pub proof fn lemma_fpow_bound(a: nat, e: nat)
    ensures
        fpow(a, e) < fr_m(),
{
    if e == 0 {
    } else {
        assert(fpow(a, e) == fmul(a, fpow(a, (e - 1) as nat)));
    }
}

/// Powers of one value multiply by adding exponents.
pub proof fn lemma_fpow_add(a: nat, s: nat, t: nat)
    ensures
        fmul(fpow(a, s), fpow(a, t)) == fpow(a, (s + t) as nat),
    decreases s,
{
    if s == 0 {
        lemma_fpow_bound(a, t);
        lemma_fmul_one(fpow(a, t));
        lemma_fmul_comm(1, fpow(a, t));
    } else {
        lemma_fpow_add(a, (s - 1) as nat, t);
        lemma_fmul_assoc(a, fpow(a, (s - 1) as nat), fpow(a, t));
    }
}

/// Multiplying by the negation of one negates a canonical value.
pub proof fn lemma_fmul_neg_one(y: nat)
    requires
        y < fr_m(),
    ensures
        fmul((fr_m() - 1) as nat, y) == fneg(y),
{
    let m = fr_m() as int;
    let yi = y as int;
    assert((m - 1) * yi == m * yi + (-yi)) by (nonlinear_arith);
    vstd::arithmetic::div_mod::lemma_mod_multiples_vanish(yi, -yi, m);
    vstd::arithmetic::div_mod::lemma_mod_multiples_vanish(1, -yi, m);
    vstd::arithmetic::div_mod::lemma_small_mod(y, fr_m());
}

/// Adding and then subtracting the same term leaves a canonical value unchanged.
pub proof fn lemma_fadd_fsub_cancel(a: nat, t: nat)
    requires
        a < fr_m(),
        t < fr_m(),
    ensures
        fsub(fadd(a, t), t) == a,
{
    let m = fr_m() as int;
    let s = a + t;
    vstd::arithmetic::div_mod::lemma_mod_multiples_vanish(-1, s as int, m);
    if s < fr_m() {
        vstd::arithmetic::div_mod::lemma_small_mod(s, fr_m());
        vstd::arithmetic::div_mod::lemma_mod_multiples_vanish(1, a as int, m);
        vstd::arithmetic::div_mod::lemma_small_mod(a, fr_m());
    } else {
        vstd::arithmetic::div_mod::lemma_small_mod((s - fr_m()) as nat, fr_m());
        vstd::arithmetic::div_mod::lemma_small_mod(a, fr_m());
    }
}

/// A coefficient sequence of length `n` with every entry equal to `value`.
pub fn filled(value: Fr, n: usize) -> (r: Vec<Fr>)
    ensures
        r@.len() == n,
        forall|i: int| 0 <= i < n ==> r@[i] == value,
{
    let mut r: Vec<Fr> = Vec::new();
    let mut i: usize = 0;
    while i < n
        invariant
            i <= n,
            r@.len() == i,
            forall|j: int| 0 <= j < i ==> r@[j] == value,
        decreases n - i,
    {
        r.push(value);
        i = i + 1;
    }
    r
}

/// Distributes ascending powers of `base`, starting at `first_power`,
/// multiplicatively across the coefficient sequence in index order:
/// entry `i` is multiplied by `first_power * base^i`.
pub fn eval_bivar_poly(coeffs: &mut Vec<Fr>, first_power: Fr, base: Fr)
    requires
        all_wf(old(coeffs)@),
        first_power.wf(),
        base.wf(),
    ensures
        final(coeffs)@.len() == old(coeffs)@.len(),
        all_wf(final(coeffs)@),
        forall|i: int| 0 <= i < old(coeffs)@.len() ==> final(coeffs)@[i].val() == fmul(
            old(coeffs)@[i].val(),
            fmul(first_power.val(), fpow(base.val(), i as nat)),
        ),
{
    let ghost orig = coeffs@;
    let mut acc = first_power;
    proof {
        lemma_fmul_one(first_power.val());
    }
    let mut i: usize = 0;
    while i < coeffs.len()
        invariant
            coeffs@.len() == orig.len(),
            i <= orig.len(),
            acc.wf(),
            base.wf(),
            first_power.wf(),
            all_wf(orig),
            acc.val() == fmul(first_power.val(), fpow(base.val(), i as nat)),
            forall|j: int| 0 <= j < i ==> (#[trigger] coeffs@[j]).wf() && coeffs@[j].val()
                == fmul(orig[j].val(), fmul(first_power.val(), fpow(base.val(), j as nat))),
            forall|j: int| i <= j < orig.len() ==> coeffs@[j] == orig[j],
        decreases orig.len() - i,
    {
        let mut c = coeffs[i];
        proof {
            assert(coeffs@[i as int] == orig[i as int]);
            assert(orig[i as int].wf());
        }
        c.mul_assign(&acc);
        coeffs[i] = c;
        let ghost acc_before = acc.val();
        acc.mul_assign(&base);
        proof {
            lemma_fmul_assoc(first_power.val(), fpow(base.val(), i as nat), base.val());
            lemma_fmul_comm(fpow(base.val(), i as nat), base.val());
        }
        i = i + 1;
    }
}

/// Adds the second coefficient sequence into the first, element-wise.
pub fn add_polynomials(a: &mut Vec<Fr>, b: &Vec<Fr>)
    requires
        all_wf(old(a)@),
        all_wf(b@),
        old(a)@.len() == b@.len(),
    ensures
        final(a)@.len() == old(a)@.len(),
        all_wf(final(a)@),
        forall|i: int| 0 <= i < old(a)@.len() ==> final(a)@[i].val() == fadd(
            old(a)@[i].val(),
            b@[i].val(),
        ),
{
    let ghost orig = a@;
    let mut i: usize = 0;
    while i < a.len()
        invariant
            a@.len() == orig.len(),
            orig.len() == b@.len(),
            i <= orig.len(),
            all_wf(orig),
            all_wf(b@),
            forall|j: int| 0 <= j < i ==> (#[trigger] a@[j]).wf() && a@[j].val() == fadd(
                orig[j].val(),
                b@[j].val(),
            ),
            forall|j: int| i <= j < orig.len() ==> a@[j] == orig[j],
        decreases orig.len() - i,
    {
        let mut c = a[i];
        proof {
            assert(a@[i as int] == orig[i as int]);
            assert(orig[i as int].wf());
            assert(b@[i as int].wf());
        }
        c.add_assign(&b[i]);
        a[i] = c;
        i = i + 1;
    }
}

} // verus!
