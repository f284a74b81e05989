use sonic_core::error::SynthesisError;
use sonic_core::fr::Fr;
use sonic_core::s_eval::Coeff;
use sonic_core::s_eval::SxEval;
use sonic_core::s_eval::SyEval;
use sonic_core::s_eval::Variable;

fn neg_of(v: u64) -> Fr {
    let mut e = Fr::zero();
    e.sub_assign(&Fr::from_u64(v));
    e
}

#[test]
fn syeval_lengths() {
    let s = SyEval::new(Fr::from_u64(2), 3, 4).unwrap();
    assert_eq!(s.a.len(), 3);
    assert_eq!(s.b.len(), 3);
    assert_eq!(s.c.len(), 3);
    assert_eq!(s.pos_coeffs.len(), 7);
    assert_eq!(s.neg_coeffs.len(), 3);
    assert_eq!(s.max_n, 3);
    assert_eq!(s.current_q, 0);
}

#[test]
fn syeval_zero_point_fails() {
    assert!(matches!(
        SyEval::new(Fr::zero(), 3, 4),
        Err(SynthesisError::DivisionByZero)
    ));
}

#[test]
fn syeval_contents_small() {
    // x = 2, n = 2, q = 1
    let s = SyEval::new(Fr::from_u64(2), 2, 1).unwrap();
    let inv2 = Fr::from_u64(2).inverse().unwrap();
    assert_eq!(s.a[0], inv2);
    assert_eq!(s.a[1], inv2.pow(2));
    assert_eq!(s.b[0], Fr::from_u64(2));
    assert_eq!(s.b[1], Fr::from_u64(4));
    // c starts at x^{n+1} = 8
    assert_eq!(s.c[0], Fr::from_u64(8));
    assert_eq!(s.c[1], Fr::from_u64(16));
    // pos_coeffs: -x^{n+1+i} padded with zeros to n+q
    assert_eq!(s.pos_coeffs[0], neg_of(8));
    assert_eq!(s.pos_coeffs[1], neg_of(16));
    assert!(s.pos_coeffs[2].is_zero());
    assert_eq!(s.neg_coeffs[0], neg_of(8));
    assert_eq!(s.neg_coeffs[1], neg_of(16));
}

#[test]
fn sxeval_initial_state() {
    let s = SxEval::new(Fr::from_u64(2), 3).unwrap();
    assert_eq!(s.yqn, Fr::from_u64(8));
    assert_eq!(s.u.len(), 3);
    assert_eq!(s.v.len(), 3);
    assert_eq!(s.w.len(), 3);
    for e in &s.u {
        assert!(e.is_zero());
    }
    for e in &s.v {
        assert!(e.is_zero());
    }
}

#[test]
fn sxeval_zero_point_fails() {
    assert!(matches!(
        SxEval::new(Fr::zero(), 3),
        Err(SynthesisError::DivisionByZero)
    ));
}

#[test]
fn sxeval_power_accumulation() {
    // after k rows the running power is y^(n+k)
    let mut s = SxEval::new(Fr::from_u64(3), 2).unwrap();
    assert_eq!(s.yqn, Fr::from_u64(3).pow(2));
    s.new_linear_constraint();
    assert_eq!(s.yqn, Fr::from_u64(3).pow(3));
    s.new_linear_constraint();
    assert_eq!(s.yqn, Fr::from_u64(3).pow(4));
}

#[test]
fn sxeval_term_cancellation() {
    // One then NegativeOne on the same wire slot nets to no change
    let mut s = SxEval::new(Fr::from_u64(2), 2).unwrap();
    s.insert_coefficient(Variable::A(1), Coeff::One).unwrap();
    s.insert_coefficient(Variable::A(1), Coeff::NegativeOne).unwrap();
    for e in &s.u {
        assert!(e.is_zero());
    }
}

#[test]
fn sxeval_invalid_wire_index() {
    let mut s = SxEval::new(Fr::from_u64(2), 2).unwrap();
    assert!(matches!(
        s.insert_coefficient(Variable::A(0), Coeff::One),
        Err(SynthesisError::InvalidWireIndex)
    ));
    assert!(matches!(
        s.insert_coefficient(Variable::B(3), Coeff::One),
        Err(SynthesisError::InvalidWireIndex)
    ));
    assert!(matches!(
        s.insert_coefficient(Variable::C(3), Coeff::NegativeOne),
        Err(SynthesisError::InvalidWireIndex)
    ));
    for e in &s.u {
        assert!(e.is_zero());
    }
    for e in &s.v {
        assert!(e.is_zero());
    }
    assert_eq!(s.yqn, Fr::from_u64(4));
}

#[test]
fn sxeval_zero_coefficient_is_noop() {
    let mut s = SxEval::new(Fr::from_u64(2), 2).unwrap();
    s.insert_coefficient(Variable::A(2), Coeff::Zero).unwrap();
    for e in &s.u {
        assert!(e.is_zero());
    }
}

#[test]
fn neg_pos_poly_layout() {
    // v' is v followed by w, in index order; u is untouched
    let mut s = SxEval::new(Fr::from_u64(2), 2).unwrap();
    s.insert_coefficient(Variable::A(1), Coeff::One).unwrap();
    s.insert_coefficient(Variable::B(2), Coeff::NegativeOne).unwrap();
    let u_before = s.u.clone();
    let v_before = s.v.clone();
    let w_before = s.w.clone();
    let (u, vp) = s.neg_pos_poly();
    assert_eq!(u, u_before);
    assert_eq!(vp.len(), 4);
    assert_eq!(vp[0], v_before[0]);
    assert_eq!(vp[1], v_before[1]);
    assert_eq!(vp[2], w_before[0]);
    assert_eq!(vp[3], w_before[1]);
}

#[test]
fn worked_example() {
    // n = 2, y = 2, so the initial running power is 4
    let y = Fr::from_u64(2);
    let mut s = SxEval::new(y, 2).unwrap();
    s.insert_coefficient(Variable::A(1), Coeff::One).unwrap();
    s.insert_coefficient(Variable::B(2), Coeff::NegativeOne).unwrap();
    assert_eq!(s.u[0], Fr::from_u64(4));
    assert!(s.u[1].is_zero());
    assert!(s.v[0].is_zero());
    assert_eq!(s.v[1], neg_of(4));

    s.new_linear_constraint();
    assert_eq!(s.yqn, Fr::from_u64(8));

    s.insert_coefficient(Variable::C(1), Coeff::Full(Fr::from_u64(3))).unwrap();
    // w[0] = -y - y^{-1} + 3 * 8
    let mut expected = Fr::zero();
    expected.sub_assign(&Fr::from_u64(2));
    expected.sub_assign(&Fr::from_u64(2).inverse().unwrap());
    expected.add_assign(&Fr::from_u64(24));
    assert_eq!(s.w[0], expected);
    // w[1] keeps its seed: -y^2 - y^{-2}
    let mut untouched = Fr::zero();
    untouched.sub_assign(&Fr::from_u64(4));
    untouched.sub_assign(&Fr::from_u64(4).inverse().unwrap());
    assert_eq!(s.w[1], untouched);
}
