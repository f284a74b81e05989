use pairing::CurveAffine;
use pairing::bls12_381::G1Affine;
use pairing::bls12_381::G2Affine;
use sonic_core::error::SynthesisError;
use sonic_core::fr::Fr;
use sonic_core::helper::Batch;
use sonic_core::srs::SRS;

fn tiny_srs() -> SRS {
    SRS {
        d: 2,
        g_pos_x: vec![G1Affine::one()],
        h_pos_x_alpha: vec![G2Affine::one(), G2Affine::one()],
        h_neg_x: vec![G2Affine::one(), G2Affine::one(), G2Affine::one()],
    }
}

#[test]
fn batch_new_within_bound() {
    let srs = tiny_srs();
    let b = Batch::new(&srs, 2).unwrap();
    assert_eq!(b.alpha_x.len(), 0);
    assert_eq!(b.alpha.len(), 0);
    assert_eq!(b.neg_h.len(), 0);
    assert_eq!(b.neg_x_n_minus_d.len(), 0);
    assert!(b.value.is_zero());
}

#[test]
fn batch_new_beyond_bound() {
    let srs = tiny_srs();
    assert!(matches!(
        Batch::new(&srs, 3),
        Err(SynthesisError::BoundExceeded)
    ));
}

#[test]
fn batch_appends_one_entry() {
    let srs = tiny_srs();
    let mut b = Batch::new(&srs, 1).unwrap();
    b.add_comm(G1Affine::zero(), Fr::from_u64(5));
    assert_eq!(b.neg_h.len(), 1);
    assert_eq!(b.alpha_x.len(), 0);
    b.add_comm(G1Affine::zero(), Fr::from_u64(6));
    assert_eq!(b.neg_h.len(), 2);
    b.add_opening(G1Affine::zero(), Fr::from_u64(3), Fr::from_u64(7));
    assert_eq!(b.alpha_x.len(), 1);
    assert_eq!(b.value, Fr::from_u64(21));
    b.add_opening(G1Affine::zero(), Fr::from_u64(2), Fr::from_u64(10));
    assert_eq!(b.alpha_x.len(), 2);
    assert_eq!(b.value, Fr::from_u64(41));
}

#[test]
fn empty_batch_accepts() {
    let srs = tiny_srs();
    let b = Batch::new(&srs, 1).unwrap();
    assert!(b.check_all());
}

#[test]
fn zero_commitments_accept() {
    // the scalar-weighted sum of identity points pairs to the identity
    let srs = tiny_srs();
    let mut b = Batch::new(&srs, 1).unwrap();
    b.add_comm(G1Affine::zero(), Fr::from_u64(5));
    b.add_comm(G1Affine::zero(), Fr::from_u64(9));
    assert!(b.check_all());
}

#[test]
fn nonzero_commitment_rejects() {
    // e(g, -h) is not the identity
    let srs = tiny_srs();
    let mut b = Batch::new(&srs, 1).unwrap();
    b.add_comm(G1Affine::one(), Fr::one());
    assert!(!b.check_all());
}

#[test]
fn claimed_value_without_opening_rejects() {
    // a nonzero folded value pairs g against h and cannot vanish alone
    let srs = tiny_srs();
    let mut b = Batch::new(&srs, 1).unwrap();
    b.add_opening(G1Affine::zero(), Fr::one(), Fr::one());
    assert!(!b.check_all());
}
