use vstd::prelude::*;
use pairing::bls12_381::G1Affine;
use pairing::bls12_381::G2Affine;

verus! {

/// The structured reference string from a trusted setup: source-group elements
/// at ascending powers of the committed secret, target-group elements at
/// powers of (secret times alpha) and at negative powers of the secret, and a
/// degree bound `d`.  Built once, shared read-only, never mutated.
pub struct SRS {
    /// Degree bound of the setup.
    pub d: usize,
    /// g^{x^0}, g^{x^1}, ...
    pub g_pos_x: Vec<G1Affine>,
    /// alpha * h^{x^0}, alpha * h^{x^1}, ...
    pub h_pos_x_alpha: Vec<G2Affine>,
    /// h^{x^0}, h^{x^{-1}}, ... (the entry at index i belongs to exponent -i)
    pub h_neg_x: Vec<G2Affine>,
}

impl SRS {
    /// The sequences reach at least as far as the batching logic ever indexes
    /// them for a degree bound of `d`.
    pub open spec fn wf(&self) -> bool {
        &&& self.g_pos_x@.len() >= 1
        &&& self.h_pos_x_alpha@.len() >= 2
        &&& self.h_neg_x@.len() > self.d
    }
}

} // verus!
