use vstd::prelude::*;

verus! {

/// Failure conditions of the constraint-evaluation and batching algebra.
/// All are reported as values; no operation of this crate panics.
#[derive(Clone, Copy, Debug, PartialEq, Eq, Structural)]
pub enum SynthesisError {
    /// An evaluation point was the additive identity, which has no inverse.
    DivisionByZero,
    /// A wire index fell outside `[1, n]`.
    InvalidWireIndex,
    /// A batch was asked for more powers than the reference string holds.
    BoundExceeded,
}

} // verus!
