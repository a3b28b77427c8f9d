use vstd::prelude::*;

use crate::error::SpectralError;
use crate::params::spec_default_nperseg;
use crate::plan::{
    checks_before_count_pass, plan_outcome, resolved_nfft, spec_segment_count, WelchPlanView,
};
use crate::rate::{f64_is_nan, f64_not_positive};

verus! {

/// Every segment that the count admits lies inside the signal.
pub proof fn lemma_segment_fits(input_len: usize, nperseg: usize, noverlap: usize, i: int)
    requires
        noverlap < nperseg,
        noverlap <= input_len,
        0 <= i < spec_segment_count(input_len, nperseg, noverlap),
    ensures
        i * (nperseg - noverlap) + nperseg <= input_len,
{
    let step: int = nperseg - noverlap;
    let rest: int = input_len - noverlap;
    let q: int = rest / step;
    assert(q * step <= rest) by (nonlinear_arith)
        requires
            step > 0,
            rest >= 0,
            q == rest / step,
    ;
    assert(i * step <= (q - 1) * step) by (nonlinear_arith)
        requires
            step > 0,
            i <= q - 1,
    ;
    assert((q - 1) * step == q * step - step) by (nonlinear_arith);
}

/// Accepted parameters: every segment of the plan lies inside the signal,
/// so no segment is ever cut short.
pub proof fn law_segments_inside_signal(
    input_len: usize,
    fs_bits: u64,
    nperseg: usize,
    noverlap: usize,
    nfft: usize,
    i: int,
)
    requires
        plan_outcome(input_len, fs_bits, nperseg, noverlap, nfft) is Ok,
        0 <= i < plan_outcome(input_len, fs_bits, nperseg, noverlap, nfft)->Ok_0.num_segments,
    ensures
        0 <= plan_outcome(input_len, fs_bits, nperseg, noverlap, nfft)->Ok_0.segment_start(i),
        plan_outcome(input_len, fs_bits, nperseg, noverlap, nfft)->Ok_0.segment_end(i) <= input_len,
{
    let v: WelchPlanView = plan_outcome(input_len, fs_bits, nperseg, noverlap, nfft)->Ok_0;
    assert(noverlap <= input_len) by {
        if noverlap > input_len {
            assert(spec_segment_count(input_len, nperseg, noverlap) < 1) by (nonlinear_arith)
                requires
                    noverlap > input_len,
                    nperseg > noverlap,
            ;
        }
    }
    lemma_segment_fits(input_len, nperseg, noverlap, i);
    assert(0 <= i * (nperseg - noverlap)) by (nonlinear_arith)
        requires
            i >= 0,
            nperseg > noverlap,
    ;
}

/// Accepted parameters: the plan takes as many segments as fit; one more
/// segment at the same stride would run past the end of the signal.
pub proof fn law_segments_maximal(
    input_len: usize,
    fs_bits: u64,
    nperseg: usize,
    noverlap: usize,
    nfft: usize,
)
    requires
        plan_outcome(input_len, fs_bits, nperseg, noverlap, nfft) is Ok,
    ensures
        plan_outcome(input_len, fs_bits, nperseg, noverlap, nfft)->Ok_0.segment_end(
            plan_outcome(input_len, fs_bits, nperseg, noverlap, nfft)->Ok_0.num_segments as int,
        ) > input_len,
{
    let step: int = nperseg - noverlap;
    let rest: int = input_len - noverlap;
    let q: int = rest / step;
    assert(rest < q * step + step) by (nonlinear_arith)
        requires
            step > 0,
            q == rest / step,
    ;
}

/// Accepted parameters: each segment starts `nperseg - noverlap` samples
/// after the previous one, so consecutive segments share exactly `noverlap`
/// samples; the first starts at the first sample.
pub proof fn law_consecutive_segments_overlap(
    input_len: usize,
    fs_bits: u64,
    nperseg: usize,
    noverlap: usize,
    nfft: usize,
    i: int,
)
    requires
        plan_outcome(input_len, fs_bits, nperseg, noverlap, nfft) is Ok,
    ensures
        plan_outcome(input_len, fs_bits, nperseg, noverlap, nfft)->Ok_0.segment_start(0) == 0,
        plan_outcome(input_len, fs_bits, nperseg, noverlap, nfft)->Ok_0.segment_start(i + 1)
            == plan_outcome(input_len, fs_bits, nperseg, noverlap, nfft)->Ok_0.segment_start(i)
            + nperseg - noverlap,
        plan_outcome(input_len, fs_bits, nperseg, noverlap, nfft)->Ok_0.segment_end(i)
            - plan_outcome(input_len, fs_bits, nperseg, noverlap, nfft)->Ok_0.segment_start(i + 1)
            == noverlap,
{
    let step: int = nperseg - noverlap;
    assert((i + 1) * step == i * step + step) by (nonlinear_arith);
}

/// Once the earlier checks pass, the estimate is refused for too few
/// segments exactly when the signal is shorter than one segment.
pub proof fn law_too_few_segments_iff_short_signal(
    input_len: usize,
    fs_bits: u64,
    nperseg: usize,
    noverlap: usize,
    nfft: usize,
)
    requires
        checks_before_count_pass(input_len, fs_bits, nperseg, noverlap, nfft),
    ensures
        (plan_outcome(input_len, fs_bits, nperseg, noverlap, nfft) == Err::<WelchPlanView, SpectralError>(
            SpectralError::AmountOfSegmentsIsTooSmall,
        )) <==> input_len < nperseg,
        (plan_outcome(input_len, fs_bits, nperseg, noverlap, nfft) is Ok) <==> input_len >= nperseg,
{
    let step: int = nperseg - noverlap;
    let rest: int = input_len - noverlap;
    if input_len < nperseg {
        assert(rest / step < 1) by (nonlinear_arith)
            requires
                step > 0,
                rest < step,
        ;
    } else {
        assert(rest / step >= 1) by (nonlinear_arith)
            requires
                step > 0,
                rest >= step,
        ;
    }
}

/// The default parameters (segments of `min(256, input_len)` samples,
/// half of them overlapping, FFT as long as a segment) are accepted for
/// every non-empty signal sampled at a positive rate.
pub proof fn law_defaults_accepted(input_len: usize, fs_bits: u64)
    requires
        input_len != 0,
        !f64_not_positive(fs_bits),
    ensures
        plan_outcome(
            input_len,
            fs_bits,
            spec_default_nperseg(input_len),
            (spec_default_nperseg(input_len) / 2) as usize,
            spec_default_nperseg(input_len),
        ) is Ok,
        spec_default_nperseg(input_len) / 2 <= input_len,
{
    let nperseg: usize = spec_default_nperseg(input_len);
    let noverlap: usize = (nperseg / 2) as usize;
    law_too_few_segments_iff_short_signal(input_len, fs_bits, nperseg, noverlap, nperseg);
}

/// Accepted parameters: bin `j` of the one-sided periodogram is doubled
/// exactly when it has a distinct mirror bin `nfft - j`, i.e. it is neither
/// the DC bin nor the Nyquist bin; all doubled bins are bins of the result.
pub proof fn law_doubled_bins(
    input_len: usize,
    fs_bits: u64,
    nperseg: usize,
    noverlap: usize,
    nfft: usize,
    j: int,
)
    requires
        plan_outcome(input_len, fs_bits, nperseg, noverlap, nfft) is Ok,
    ensures
        (1 <= j < plan_outcome(input_len, fs_bits, nperseg, noverlap, nfft)->Ok_0.doubled_end())
            <==> (0 < j && 2 * j < nfft),
        plan_outcome(input_len, fs_bits, nperseg, noverlap, nfft)->Ok_0.doubled_end()
            <= plan_outcome(input_len, fs_bits, nperseg, noverlap, nfft)->Ok_0.bins(),
{
}

/// Accepted parameters: the FFT has at least one point and at least as many
/// as a segment, so the frequency grid is defined (`nfft / 2 + 1` bins, no
/// more than the FFT has points) and zero padding only ever adds samples.
pub proof fn law_fft_covers_segment(
    input_len: usize,
    fs_bits: u64,
    nperseg: usize,
    noverlap: usize,
    nfft: usize,
)
    requires
        plan_outcome(input_len, fs_bits, nperseg, noverlap, nfft) is Ok,
    ensures
        nfft >= nperseg >= 1,
        1 <= plan_outcome(input_len, fs_bits, nperseg, noverlap, nfft)->Ok_0.bins() <= nfft,
{
}

/// A sampling rate is rejected exactly when its double is not above zero:
/// every bit pattern from the smallest positive subnormal up to positive
/// infinity is accepted; zero, every pattern with the sign bit set (negative
/// numbers, negative zero, negative infinity) and every NaN are rejected.
pub proof fn law_rate_rejection(bits: u64)
    ensures
        f64_not_positive(bits) <==> !(0 < bits <= 0x7ff0_0000_0000_0000u64),
        bits >= 0x8000_0000_0000_0000u64 ==> f64_not_positive(bits),
        bits == 0 ==> f64_not_positive(bits),
        f64_is_nan(bits) ==> f64_not_positive(bits),
        0 < bits <= 0x7ff0_0000_0000_0000u64 ==> !f64_not_positive(bits),
{
}

/// Without an explicit length, the FFT is exactly as long as a segment; an
/// explicit length is used as given.
pub proof fn law_default_fft_length(nperseg: usize, n: usize)
    ensures
        resolved_nfft(nperseg, None) == nperseg,
        resolved_nfft(nperseg, Some(n)) == n,
{
}

/// Which parameter sets are accepted, and which error each refused one gets,
/// written out over the inputs: the checks run in the order empty signal,
/// sampling rate (the rate must be a double above zero: bit pattern in
/// `1 ..= 0x7ff0_0000_0000_0000`), FFT length, overlap, whole segments. An
/// accepted plan keeps the given parameters and counts the largest number of
/// segments `k` with `k * (nperseg - noverlap) + noverlap <= input_len`.
pub proof fn law_validation(
    input_len: usize,
    fs_bits: u64,
    nperseg: usize,
    noverlap: usize,
    nfft: usize,
)
    ensures
        (plan_outcome(input_len, fs_bits, nperseg, noverlap, nfft) is Ok) <==> (input_len != 0 && 0
            < fs_bits <= 0x7ff0_0000_0000_0000u64 && nfft >= nperseg && noverlap < nperseg
            && input_len >= nperseg),
        input_len == 0 ==> plan_outcome(input_len, fs_bits, nperseg, noverlap, nfft) == Err::<
            WelchPlanView,
            SpectralError,
        >(SpectralError::ZeroSizedInput),
        input_len != 0 && !(0 < fs_bits <= 0x7ff0_0000_0000_0000u64) ==> plan_outcome(
            input_len,
            fs_bits,
            nperseg,
            noverlap,
            nfft,
        ) == Err::<WelchPlanView, SpectralError>(SpectralError::NegativeSamplingFrequency(fs_bits)),
        input_len != 0 && 0 < fs_bits <= 0x7ff0_0000_0000_0000u64 && nfft < nperseg ==> plan_outcome(
            input_len,
            fs_bits,
            nperseg,
            noverlap,
            nfft,
        ) == Err::<WelchPlanView, SpectralError>(SpectralError::FftSizeIsTooSmall(nfft, nperseg)),
        input_len != 0 && 0 < fs_bits <= 0x7ff0_0000_0000_0000u64 && nfft >= nperseg && noverlap
            >= nperseg ==> plan_outcome(input_len, fs_bits, nperseg, noverlap, nfft) == Err::<
            WelchPlanView,
            SpectralError,
        >(SpectralError::NoOverlappingWindowLength(noverlap, nperseg)),
        input_len != 0 && 0 < fs_bits <= 0x7ff0_0000_0000_0000u64 && nfft >= nperseg && noverlap
            < nperseg && input_len < nperseg ==> plan_outcome(
            input_len,
            fs_bits,
            nperseg,
            noverlap,
            nfft,
        ) == Err::<WelchPlanView, SpectralError>(SpectralError::AmountOfSegmentsIsTooSmall),
        plan_outcome(input_len, fs_bits, nperseg, noverlap, nfft) is Ok ==> {
            let v = plan_outcome(input_len, fs_bits, nperseg, noverlap, nfft)->Ok_0;
            &&& v.input_len == input_len
            &&& v.nperseg == nperseg
            &&& v.noverlap == noverlap
            &&& v.nfft == nfft
            &&& v.num_segments >= 1
            &&& v.num_segments * (nperseg - noverlap) + noverlap <= input_len
            &&& input_len < (v.num_segments + 1) * (nperseg - noverlap) + noverlap
            &&& v.bins() == nfft / 2 + 1
        },
{
    law_rate_rejection(fs_bits);
    if input_len != 0 && 0 < fs_bits <= 0x7ff0_0000_0000_0000u64 && nfft >= nperseg && noverlap
        < nperseg {
        law_too_few_segments_iff_short_signal(input_len, fs_bits, nperseg, noverlap, nfft);
        if input_len >= nperseg {
            let step: int = nperseg - noverlap;
            let rest: int = input_len - noverlap;
            let q: int = rest / step;
            assert(q * step <= rest && rest < (q + 1) * step) by (nonlinear_arith)
                requires
                    step > 0,
                    rest >= 0,
                    q == rest / step,
            ;
        }
    }
}

/// Accepted parameters without an explicit FFT length: the plan's FFT is as
/// long as a segment, and the one-sided spectrum has `nperseg / 2 + 1` bins.
pub proof fn law_default_fft_plan(input_len: usize, fs_bits: u64, nperseg: usize, noverlap: usize)
    requires
        plan_outcome(input_len, fs_bits, nperseg, noverlap, resolved_nfft(nperseg, None)) is Ok,
    ensures
        plan_outcome(input_len, fs_bits, nperseg, noverlap, resolved_nfft(nperseg, None))->Ok_0.nfft
            == nperseg,
        plan_outcome(input_len, fs_bits, nperseg, noverlap, resolved_nfft(nperseg, None))->Ok_0.bins()
            == nperseg / 2 + 1,
{
}

/// The default segment length is the smaller of 256 and the signal length,
/// never more than 256 samples, and the default overlap is half of it.
pub proof fn law_default_segment_length(input_len: usize)
    ensures
        spec_default_nperseg(input_len) <= 256,
        spec_default_nperseg(input_len) <= input_len,
        spec_default_nperseg(input_len) == 256 || spec_default_nperseg(input_len) == input_len,
        input_len >= 256 ==> spec_default_nperseg(input_len) == 256,
        input_len < 256 ==> spec_default_nperseg(input_len) == input_len,
{
}

} // verus!
