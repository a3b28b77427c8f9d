use vstd::prelude::*;

use crate::error::SpectralError;
use crate::rate::{f64_not_positive, rate_is_rejected};

verus! {

/// The FFT length actually used: the requested one, or the segment length.
pub open spec fn resolved_nfft(nperseg: usize, fft_size: Option<usize>) -> usize {
    match fft_size {
        Some(n) => n,
        None => nperseg,
    }
}

/// Number of segments of `nperseg` samples, each starting
/// `nperseg - noverlap` samples after the previous one, that the signal
/// yields: `(input_len - noverlap) / (nperseg - noverlap)`, rounded down
/// (negative when the signal is shorter than the overlap).
pub open spec fn spec_segment_count(input_len: usize, nperseg: usize, noverlap: usize) -> int {
    (input_len - noverlap) / (nperseg - noverlap)
}

/// The checks that come before the segment count all pass.
pub open spec fn checks_before_count_pass(
    input_len: usize,
    fs_bits: u64,
    nperseg: usize,
    noverlap: usize,
    nfft: usize,
) -> bool {
    &&& input_len != 0
    &&& !f64_not_positive(fs_bits)
    &&& nfft >= nperseg
    &&& noverlap < nperseg
}

/// The abstract plan of an estimate: the parameters it was accepted with and
/// the number of segments.
pub struct WelchPlanView {
    pub input_len: usize,
    pub nperseg: usize,
    pub noverlap: usize,
    pub nfft: usize,
    pub num_segments: nat,
}

impl WelchPlanView {
    /// Distance between the starts of consecutive segments.
    pub open spec fn step(self) -> int {
        self.nperseg - self.noverlap
    }

    /// First sample of segment `i`.
    pub open spec fn segment_start(self, i: int) -> int {
        i * self.step()
    }

    /// One past the last sample of segment `i`.
    pub open spec fn segment_end(self, i: int) -> int {
        self.segment_start(i) + self.nperseg
    }

    /// Number of bins of the one-sided spectrum (DC up to Nyquist).
    pub open spec fn bins(self) -> int {
        self.nfft / 2 + 1
    }

    /// Bins `1 .. doubled_end()` are doubled to fold in the negative
    /// frequencies: every bin but DC, and but Nyquist when it exists.
    pub open spec fn doubled_end(self) -> int {
        if self.nfft % 2 == 0 { self.bins() - 1 } else { self.bins() }
    }
}

/// What validation gives for the parameters, checked in this order: an
/// empty signal, a sampling rate that is not above zero, an FFT shorter than a
/// segment, an overlap not shorter than a segment, no whole segment.
pub open spec fn plan_outcome(
    input_len: usize,
    fs_bits: u64,
    nperseg: usize,
    noverlap: usize,
    nfft: usize,
) -> Result<WelchPlanView, SpectralError> {
    if input_len == 0 {
        Err(SpectralError::ZeroSizedInput)
    } else if f64_not_positive(fs_bits) {
        Err(SpectralError::NegativeSamplingFrequency(fs_bits))
    } else if nfft < nperseg {
        Err(SpectralError::FftSizeIsTooSmall(nfft, nperseg))
    } else if noverlap >= nperseg {
        Err(SpectralError::NoOverlappingWindowLength(noverlap, nperseg))
    } else if spec_segment_count(input_len, nperseg, noverlap) < 1 {
        Err(SpectralError::AmountOfSegmentsIsTooSmall)
    } else {
        Ok(
            WelchPlanView {
                input_len,
                nperseg,
                noverlap,
                nfft,
                num_segments: spec_segment_count(input_len, nperseg, noverlap) as nat,
            },
        )
    }
}

/// An accepted segmentation of a signal.
pub struct WelchPlan {
    input_len: usize,
    nperseg: usize,
    noverlap: usize,
    nfft: usize,
    step: usize,
    num_segments: usize,
}

impl View for WelchPlan {
    type V = WelchPlanView;

    closed spec fn view(&self) -> WelchPlanView {
        WelchPlanView {
            input_len: self.input_len,
            nperseg: self.nperseg,
            noverlap: self.noverlap,
            nfft: self.nfft,
            num_segments: self.num_segments as nat,
        }
    }
}

impl WelchPlan {
    #[verifier::type_invariant]
    spec fn accepted(self) -> bool {
        &&& self.input_len != 0
        &&& self.noverlap < self.nperseg
        &&& self.nperseg <= self.nfft
        &&& self.noverlap <= self.input_len
        &&& self.step == self.nperseg - self.noverlap
        &&& self.num_segments == spec_segment_count(self.input_len, self.nperseg, self.noverlap)
        &&& self.num_segments >= 1
    }

    /// Validates the parameters of an estimate over `input_len` samples at
    /// the sampling rate with bit pattern `fs_bits`, with segments of
    /// `nperseg` samples overlapping by `noverlap`, and an FFT of `fft_size`
    /// points (`nperseg` when not given).
    /// A signal shorter than the overlap has no whole segment.
    pub fn new(
        input_len: usize,
        fs_bits: u64,
        nperseg: usize,
        noverlap: usize,
        fft_size: Option<usize>,
    ) -> (r: Result<WelchPlan, SpectralError>)
        ensures
            match r {
                Ok(plan) => plan_outcome(
                    input_len,
                    fs_bits,
                    nperseg,
                    noverlap,
                    resolved_nfft(nperseg, fft_size),
                ) == Ok::<WelchPlanView, SpectralError>(plan@),
                Err(e) => plan_outcome(
                    input_len,
                    fs_bits,
                    nperseg,
                    noverlap,
                    resolved_nfft(nperseg, fft_size),
                ) == Err::<WelchPlanView, SpectralError>(e),
            },
    {
        if input_len == 0 {
            return Err(SpectralError::ZeroSizedInput);
        }
        let nfft: usize = match fft_size {
            Some(n) => n,
            None => nperseg,
        };
        if rate_is_rejected(fs_bits) {
            return Err(SpectralError::NegativeSamplingFrequency(fs_bits));
        }
        if nfft < nperseg {
            return Err(SpectralError::FftSizeIsTooSmall(nfft, nperseg));
        }
        if noverlap >= nperseg {
            return Err(SpectralError::NoOverlappingWindowLength(noverlap, nperseg));
        }
        if noverlap > input_len {
            proof {
                let rest: int = input_len - noverlap;
                let step: int = nperseg - noverlap;
                assert(rest / step < 1) by (nonlinear_arith)
                    requires
                        step > 0,
                        rest < 0,
                ;
            }
            return Err(SpectralError::AmountOfSegmentsIsTooSmall);
        }
        let step: usize = nperseg - noverlap;
        let num_segments: usize = (input_len - noverlap) / step;
        if num_segments < 1 {
            return Err(SpectralError::AmountOfSegmentsIsTooSmall);
        }
        Ok(WelchPlan { input_len, nperseg, noverlap, nfft, step, num_segments })
    }

    /// Samples in each segment.
    pub fn nperseg(&self) -> (r: usize)
        ensures
            r == self@.nperseg,
    {
        self.nperseg
    }

    /// Samples shared by consecutive segments.
    pub fn noverlap(&self) -> (r: usize)
        ensures
            r == self@.noverlap,
    {
        self.noverlap
    }

    /// Length of the FFT applied to each (zero padded) segment.
    pub fn nfft(&self) -> (r: usize)
        ensures
            r == self@.nfft,
            r >= self@.nperseg,
    {
        proof {
            use_type_invariant(self);
        }
        self.nfft
    }

    /// Number of segments averaged.
    pub fn num_segments(&self) -> (r: usize)
        ensures
            r == self@.num_segments,
            r >= 1,
    {
        proof {
            use_type_invariant(self);
        }
        self.num_segments
    }

    /// Number of bins of the one-sided spectrum, `nfft / 2 + 1`.
    pub fn bins(&self) -> (r: usize)
        ensures
            r == self@.bins(),
            r == self@.nfft / 2 + 1,
            r <= self@.nfft,
    {
        proof {
            use_type_invariant(self);
        }
        self.nfft / 2 + 1
    }

    /// Start and end (exclusive) of segment `i`: `i * (nperseg - noverlap)`
    /// and `nperseg` samples further.
    pub fn segment_bounds(&self, i: usize) -> (r: (usize, usize))
        requires
            i < self@.num_segments,
        ensures
            r.0 == self@.segment_start(i as int),
            r.1 == self@.segment_end(i as int),
            r.0 == i * (self@.nperseg - self@.noverlap),
            r.1 == r.0 + self@.nperseg,
            r.1 <= self@.input_len,
    {
        proof {
            use_type_invariant(self);
            crate::laws::lemma_segment_fits(self@.input_len, self@.nperseg, self@.noverlap, i as int);
        }
        let start: usize = i * self.step;
        (start, start + self.nperseg)
    }

    /// Bin `j` of a segment's periodogram is doubled: `1 <= j` and `j` is
    /// below the Nyquist bin (for an even FFT length) or below the bin count
    /// (for an odd one).
    pub fn doubles_bin(&self, j: usize) -> (r: bool)
        ensures
            r == (1 <= j && j < self@.doubled_end()),
            r == (0 < j && 2 * j < self@.nfft),
    {
        let n_half: usize = self.nfft / 2 + 1;
        let end: usize = if self.nfft % 2 == 0 { n_half - 1 } else { n_half };
        1 <= j && j < end
    }
}

/// Number of frequency bins of the one-sided spectrum of an `n`-point FFT,
/// `n / 2 + 1`; an FFT of no points has no frequency grid.
pub fn frequency_bins(n: usize) -> (r: Result<usize, SpectralError>)
    ensures
        n == 0 ==> r == Err::<usize, SpectralError>(SpectralError::FrequenciesZeroBaseError),
        n != 0 ==> r == Ok::<usize, SpectralError>((n / 2 + 1) as usize),
{
    if n == 0 {
        return Err(SpectralError::FrequenciesZeroBaseError);
    }
    Ok(n / 2 + 1)
}

} // verus!
