//! Algebraic machinery for a pairing-based succinct argument: one-shot and
//! streaming evaluation of the bivariate constraint polynomial s(X, Y) at a
//! fixed coordinate, and a batched verifier that folds commitment/opening
//! pairs into one amortized multi-pairing check against a structured
//! reference string.

use vstd::prelude::*;

pub mod crypto_components;
pub mod error;
pub mod fr;
pub mod group;
pub mod helper;
pub mod poly;
pub mod s_eval;
pub mod srs;

verus! {

} // verus!
