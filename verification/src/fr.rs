use vstd::prelude::*;
use pairing::Field;
use pairing::PrimeField;
use pairing::bls12_381::Fr as EngineFr;
use pairing::bls12_381::FrRepr;

verus! {

/// A scalar-field element of the pairing engine, held as its canonical
/// little-endian 64-bit limbs.  The mathematical value is `val()`, always
/// smaller than the field modulus for a well-formed element.
#[derive(Clone, Copy, Debug, PartialEq, Eq, Structural)]
pub struct Fr {
    pub l0: u64,
    pub l1: u64,
    pub l2: u64,
    pub l3: u64,
}

/// The prime modulus of the scalar field of the BLS12-381 engine.
pub open spec fn fr_m() -> nat {
    0x73eda753299d7d483339d80809a1d80553bda402fffe5bfeffffffff00000001nat
}

/// Field addition on values: `(a + b) mod m`.
pub open spec fn fadd(a: nat, b: nat) -> nat {
    (a + b) % fr_m()
}

/// Field subtraction on values below the modulus: `(a - b) mod m`.
pub open spec fn fsub(a: nat, b: nat) -> nat {
    (((a + fr_m() - b) as int) % (fr_m() as int)) as nat
}

/// Field negation on values below the modulus.
pub open spec fn fneg(a: nat) -> nat {
    (((fr_m() - a % fr_m()) as int) % (fr_m() as int)) as nat
}

/// Field multiplication on values: `(a * b) mod m`.
pub open spec fn fmul(a: nat, b: nat) -> nat {
    (a * b) % fr_m()
}

/// Field exponentiation on values: `a^e mod m`, with `a^0 == 1`.
pub open spec fn fpow(a: nat, e: nat) -> nat
    decreases e,
{
    if e == 0 {
        1
    } else {
        fmul(a, fpow(a, (e - 1) as nat))
    }
}

impl Fr {
    /// The integer encoded by the four limbs.
    pub open spec fn val(&self) -> nat {
        self.l0 as nat
            + self.l1 as nat * 0x10000000000000000
            + self.l2 as nat * 0x100000000000000000000000000000000
            + self.l3 as nat * 0x1000000000000000000000000000000000000000000000000
    }

    /// Canonical form: the encoded integer lies below the modulus.
    pub open spec fn wf(&self) -> bool {
        self.val() < fr_m()
    }

    /// The additive identity.
    pub fn zero() -> (r: Fr)
        ensures
            r.wf(),
            r.val() == 0,
    {
        Fr { l0: 0, l1: 0, l2: 0, l3: 0 }
    }

    /// The multiplicative identity.
    pub fn one() -> (r: Fr)
        ensures
            r.wf(),
            r.val() == 1,
    {
        Fr { l0: 1, l1: 0, l2: 0, l3: 0 }
    }

    /// Embeds a machine integer into the field; every `u64` is below the modulus.
    pub fn from_u64(v: u64) -> (r: Fr)
        ensures
            r.wf(),
            r.val() == v,
    {
        Fr { l0: v, l1: 0, l2: 0, l3: 0 }
    }

    /// True exactly when the element is the additive identity.
    pub fn is_zero(&self) -> (r: bool)
        ensures
            r <==> self.val() == 0,
    {
        self.l0 == 0 && self.l1 == 0 && self.l2 == 0 && self.l3 == 0
    }

    /// `self <- self + other` in the field.
    pub fn add_assign(&mut self, other: &Fr)
        requires
            old(self).wf(),
            other.wf(),
        ensures
            final(self).wf(),
            final(self).val() == fadd(old(self).val(), other.val()),
    {
        *self = fr_add(self, other);
    }

    /// `self <- self - other` in the field.
    pub fn sub_assign(&mut self, other: &Fr)
        requires
            old(self).wf(),
            other.wf(),
        ensures
            final(self).wf(),
            final(self).val() == fsub(old(self).val(), other.val()),
    {
        *self = fr_sub(self, other);
    }

    /// `self <- self * other` in the field.
    pub fn mul_assign(&mut self, other: &Fr)
        requires
            old(self).wf(),
            other.wf(),
        ensures
            final(self).wf(),
            final(self).val() == fmul(old(self).val(), other.val()),
    {
        *self = fr_mul(self, other);
    }

    /// `self <- -self` in the field.
    pub fn negate(&mut self)
        requires
            old(self).wf(),
        ensures
            final(self).wf(),
            final(self).val() == fneg(old(self).val()),
    {
        *self = fr_neg(self);
    }

    /// The multiplicative inverse, or `None` exactly for the additive identity.
    pub fn inverse(&self) -> (r: Option<Fr>)
        requires
            self.wf(),
        ensures
            r is Some <==> self.val() != 0,
            r matches Some(i) ==> i.wf() && fmul(i.val(), self.val()) == 1,
    {
        fr_inverse(self)
    }

    /// `self^exp` in the field.
    pub fn pow(&self, exp: u64) -> (r: Fr)
        requires
            self.wf(),
        ensures
            r.wf(),
            r.val() == fpow(self.val(), exp as nat),
    {
        fr_pow(self, exp)
    }
}

/// Relies on `pairing::bls12_381::Fr::add_assign` (modular addition) and the
/// canonical limb codec `from_repr` / `into_repr`.
#[verifier::external_body]
fn fr_add(a: &Fr, b: &Fr) -> (r: Fr)
    requires
        a.wf(),
        b.wf(),
    ensures
        r.wf(),
        r.val() == fadd(a.val(), b.val()),
{
    let mut x = EngineFr::from_repr(FrRepr([a.l0, a.l1, a.l2, a.l3])).unwrap();
    let y = EngineFr::from_repr(FrRepr([b.l0, b.l1, b.l2, b.l3])).unwrap();
    x.add_assign(&y);
    let l = x.into_repr().0;
    Fr { l0: l[0], l1: l[1], l2: l[2], l3: l[3] }
}

/// Relies on `pairing::bls12_381::Fr::sub_assign` (modular subtraction) and the
/// canonical limb codec `from_repr` / `into_repr`.
#[verifier::external_body]
fn fr_sub(a: &Fr, b: &Fr) -> (r: Fr)
    requires
        a.wf(),
        b.wf(),
    ensures
        r.wf(),
        r.val() == fsub(a.val(), b.val()),
{
    let mut x = EngineFr::from_repr(FrRepr([a.l0, a.l1, a.l2, a.l3])).unwrap();
    let y = EngineFr::from_repr(FrRepr([b.l0, b.l1, b.l2, b.l3])).unwrap();
    x.sub_assign(&y);
    let l = x.into_repr().0;
    Fr { l0: l[0], l1: l[1], l2: l[2], l3: l[3] }
}

/// Relies on `pairing::bls12_381::Fr::mul_assign` (modular multiplication) and
/// the canonical limb codec `from_repr` / `into_repr`.
#[verifier::external_body]
fn fr_mul(a: &Fr, b: &Fr) -> (r: Fr)
    requires
        a.wf(),
        b.wf(),
    ensures
        r.wf(),
        r.val() == fmul(a.val(), b.val()),
{
    let mut x = EngineFr::from_repr(FrRepr([a.l0, a.l1, a.l2, a.l3])).unwrap();
    let y = EngineFr::from_repr(FrRepr([b.l0, b.l1, b.l2, b.l3])).unwrap();
    x.mul_assign(&y);
    let l = x.into_repr().0;
    Fr { l0: l[0], l1: l[1], l2: l[2], l3: l[3] }
}

/// Relies on `pairing::bls12_381::Fr::negate` (modular negation) and the
/// canonical limb codec `from_repr` / `into_repr`.
#[verifier::external_body]
fn fr_neg(a: &Fr) -> (r: Fr)
    requires
        a.wf(),
    ensures
        r.wf(),
        r.val() == fneg(a.val()),
{
    let mut x = EngineFr::from_repr(FrRepr([a.l0, a.l1, a.l2, a.l3])).unwrap();
    x.negate();
    let l = x.into_repr().0;
    Fr { l0: l[0], l1: l[1], l2: l[2], l3: l[3] }
}

/// Relies on `pairing::bls12_381::Fr::inverse`: the multiplicative inverse of a
/// nonzero element, `None` for zero.
#[verifier::external_body]
fn fr_inverse(a: &Fr) -> (r: Option<Fr>)
    requires
        a.wf(),
    ensures
        r is Some <==> a.val() != 0,
        r matches Some(i) ==> i.wf() && fmul(i.val(), a.val()) == 1,
{
    let x = EngineFr::from_repr(FrRepr([a.l0, a.l1, a.l2, a.l3])).unwrap();
    match x.inverse() {
        Some(i) => {
            let l = i.into_repr().0;
            Some(Fr { l0: l[0], l1: l[1], l2: l[2], l3: l[3] })
        }
        None => None,
    }
}

/// Relies on `pairing::bls12_381::Fr::pow`: exponentiation by an integer given
/// as little-endian `u64` limbs.
#[verifier::external_body]
fn fr_pow(a: &Fr, e: u64) -> (r: Fr)
    requires
        a.wf(),
    ensures
        r.wf(),
        r.val() == fpow(a.val(), e as nat),
{
    let x = EngineFr::from_repr(FrRepr([a.l0, a.l1, a.l2, a.l3])).unwrap();
    let l = x.pow(&[e]).into_repr().0;
    Fr { l0: l[0], l1: l[1], l2: l[2], l3: l[3] }
}

} // verus!
