use vstd::prelude::*;

verus! {

/// Failures of the split-key signature schemes.
///
/// `LengthMismatch` marks aggregation over vectors of unequal length and a
/// zero-length security parameter; `NonInvertibleScalar` marks a zero
/// denominator met while signing (a retry condition); `RandomnessUnavailable`
/// is surfaced when resampling fresh randomness never escaped the zero
/// denominator within the retry bound.
#[derive(Clone, Copy, Debug, PartialEq, Eq, Structural)]
pub enum SigError {
    LengthMismatch,
    NonInvertibleScalar,
    RandomnessUnavailable,
}

} // verus!
