use vstd::prelude::*;

verus! {

/// Everything a Welch estimate can fail with.
///
/// `NegativeSamplingFrequency` carries the IEEE-754 bit pattern of the
/// rejected `f64` sampling rate.
#[derive(Debug, PartialEq, Eq)]
pub enum SpectralError {
    ZeroSizedInput,
    NegativeSamplingFrequency(u64),
    FftSizeIsTooSmall(usize, usize),
    NoOverlappingWindowLength(usize, usize),
    AmountOfSegmentsIsTooSmall,
    FrequenciesZeroBaseError,
    DetrendingError(String),
    FftError(String),
    /// Failure to allocate a buffer of the given number of elements.
    Allocation(usize),
}

} // verus!
