use vstd::prelude::*;

verus! {

/// The available window functions for use in Welch's method.
#[derive(Debug, Copy, Clone, PartialEq, Eq, Hash, PartialOrd, Ord)]
pub enum WelchWindow {
    /// The Hann window function.
    Hann,
    /// The Hamming window function.
    Hamming,
    /// The Blackman window function.
    Blackman,
}

/// How the averaged periodogram is scaled.
#[derive(Debug, Copy, Clone, PartialEq, Eq, Hash, PartialOrd, Ord)]
pub enum ScalingMethod {
    /// Returns the Power Spectral Density (PSD). Units are Power / Hz.
    Density,
    /// Returns the Power Spectrum. Units are Power (PSD * fs).
    Spectrum,
}

impl ScalingMethod {
    /// The power spectrum is the density multiplied by the sampling rate; the
    /// density is left as averaged.
    pub fn multiplies_by_rate(&self) -> (r: bool)
        ensures
            r == (*self == ScalingMethod::Spectrum),
    {
        match self {
            ScalingMethod::Density => false,
            ScalingMethod::Spectrum => true,
        }
    }
}

/// Frequencies of the one-sided spectrum and the power at each of them.
pub struct WelchResult<T> {
    pub frequencies: Vec<T>,
    pub psd: Vec<T>,
}

/// The longest default segment.
pub open spec fn max_default_segment() -> usize {
    256
}

/// Default segment length for a signal of `input_len` samples.
pub open spec fn spec_default_nperseg(input_len: usize) -> usize {
    if input_len < max_default_segment() { input_len } else { max_default_segment() }
}

/// Default parameters of a new estimate: segments of `min(256, input_len)`
/// samples that overlap by half a segment, rounded down.
pub fn default_segmentation(input_len: usize) -> (r: (usize, usize))
    ensures
        r.0 == spec_default_nperseg(input_len),
        r.0 == (if input_len < 256 { input_len } else { 256 }),
        r.1 == r.0 / 2,
{
    let nperseg: usize = if input_len < 256 { input_len } else { 256 };
    (nperseg, nperseg / 2)
}

} // verus!
