use welch::plan::{frequency_bins, WelchPlan};
use welch::{default_segmentation, SpectralError};

fn bits(x: f64) -> u64 {
    x.to_bits()
}

#[test]
fn plan_for_one_full_segment() {
    let plan = WelchPlan::new(128, bits(4.0), 128, 64, None).unwrap();
    assert_eq!(plan.nperseg(), 128);
    assert_eq!(plan.noverlap(), 64);
    assert_eq!(plan.nfft(), 128);
    assert_eq!(plan.num_segments(), 1);
    assert_eq!(plan.bins(), 65);
    assert_eq!(plan.segment_bounds(0), (0, 128));
}

#[test]
fn plan_with_trailing_samples() {
    let plan = WelchPlan::new(131, bits(4.0), 128, 64, None).unwrap();
    assert_eq!(plan.num_segments(), 1);
    assert_eq!(plan.segment_bounds(0), (0, 128));
}

#[test]
fn plan_with_several_segments() {
    // (1000 - 100) / 150 = 6 segments of 250 samples, starting every 150.
    let plan = WelchPlan::new(1000, bits(2.5), 250, 100, Some(512)).unwrap();
    assert_eq!(plan.num_segments(), 6);
    assert_eq!(plan.nfft(), 512);
    assert_eq!(plan.bins(), 257);
    assert_eq!(plan.segment_bounds(0), (0, 250));
    assert_eq!(plan.segment_bounds(1), (150, 400));
    assert_eq!(plan.segment_bounds(5), (750, 1000));
}

#[test]
fn segments_stay_inside_and_are_maximal() {
    for len in 1usize..200 {
        for nperseg in 1usize..=len {
            for noverlap in 0..nperseg {
                let plan = WelchPlan::new(len, bits(1.0), nperseg, noverlap, None).unwrap();
                let n = plan.num_segments();
                assert!(n >= 1);
                let step = nperseg - noverlap;
                for i in 0..n {
                    let (s, e) = plan.segment_bounds(i);
                    assert_eq!(s, i * step);
                    assert_eq!(e - s, nperseg);
                    assert!(e <= len);
                }
                // One more segment would not fit.
                assert!(n * step + nperseg > len);
                if n > 1 {
                    let (_, e0) = plan.segment_bounds(0);
                    let (s1, _) = plan.segment_bounds(1);
                    assert_eq!(e0 - s1, noverlap);
                }
            }
        }
    }
}

#[test]
fn error_zero_sized_input() {
    let r = WelchPlan::new(0, bits(4.0), 128, 64, None);
    assert_eq!(r.err(), Some(SpectralError::ZeroSizedInput));
}

#[test]
fn empty_input_reported_before_bad_rate() {
    let r = WelchPlan::new(0, bits(-4.0), 0, 0, None);
    assert_eq!(r.err(), Some(SpectralError::ZeroSizedInput));
}

#[test]
fn error_negative_sampling_frequency() {
    let r = WelchPlan::new(128, bits(-4.0), 128, 64, None);
    assert_eq!(r.err(), Some(SpectralError::NegativeSamplingFrequency(bits(-4.0))));
    let r = WelchPlan::new(128, bits(0.0), 128, 64, None);
    assert_eq!(r.err(), Some(SpectralError::NegativeSamplingFrequency(bits(0.0))));
}

#[test]
fn error_nan_sampling_frequency() {
    let nan = f64::NAN.to_bits();
    let r = WelchPlan::new(4, nan, 4, 2, None);
    assert_eq!(r.err(), Some(SpectralError::NegativeSamplingFrequency(nan)));
}

#[test]
fn signal_shorter_than_overlap() {
    let r = WelchPlan::new(3, bits(1.0), 8, 4, None);
    assert_eq!(r.err(), Some(SpectralError::AmountOfSegmentsIsTooSmall));
    let r = WelchPlan::new(1, bits(1.0), 256, 255, None);
    assert_eq!(r.err(), Some(SpectralError::AmountOfSegmentsIsTooSmall));
}

#[test]
fn error_fft_size_too_small() {
    let r = WelchPlan::new(128, bits(4.0), 128, 64, Some(100));
    assert_eq!(r.err(), Some(SpectralError::FftSizeIsTooSmall(100, 128)));
}

#[test]
fn error_overlap_not_shorter_than_segment() {
    let r = WelchPlan::new(128, bits(4.0), 64, 64, None);
    assert_eq!(r.err(), Some(SpectralError::NoOverlappingWindowLength(64, 64)));
    let r = WelchPlan::new(128, bits(4.0), 64, 70, Some(64));
    assert_eq!(r.err(), Some(SpectralError::NoOverlappingWindowLength(70, 64)));
}

#[test]
fn error_too_few_segments() {
    let r = WelchPlan::new(100, bits(4.0), 128, 64, None);
    assert_eq!(r.err(), Some(SpectralError::AmountOfSegmentsIsTooSmall));
    // One sample short of a segment is refused, a whole segment is accepted.
    assert_eq!(
        WelchPlan::new(127, bits(4.0), 128, 0, None).err(),
        Some(SpectralError::AmountOfSegmentsIsTooSmall)
    );
    assert!(WelchPlan::new(128, bits(4.0), 128, 0, None).is_ok());
}

#[test]
fn fft_size_check_precedes_overlap_check() {
    let r = WelchPlan::new(128, bits(4.0), 64, 64, Some(32));
    assert_eq!(r.err(), Some(SpectralError::FftSizeIsTooSmall(32, 64)));
}

#[test]
fn doubled_bins_even_fft() {
    let plan = WelchPlan::new(64, bits(1.0), 64, 32, None).unwrap();
    assert_eq!(plan.bins(), 33);
    assert!(!plan.doubles_bin(0));
    for j in 1..32 {
        assert!(plan.doubles_bin(j));
    }
    // Nyquist bin.
    assert!(!plan.doubles_bin(32));
    assert!(!plan.doubles_bin(33));
}

#[test]
fn doubled_bins_odd_fft() {
    let plan = WelchPlan::new(65, bits(1.0), 65, 32, None).unwrap();
    assert_eq!(plan.bins(), 33);
    assert!(!plan.doubles_bin(0));
    for j in 1..33 {
        assert!(plan.doubles_bin(j));
    }
    assert!(!plan.doubles_bin(33));
}

#[test]
fn doubled_bins_have_mirrors() {
    for nfft in 1usize..70 {
        let plan = WelchPlan::new(nfft, bits(1.0), nfft, 0, None).unwrap();
        for j in 0..nfft + 3 {
            assert_eq!(plan.doubles_bin(j), j > 0 && 2 * j < nfft);
        }
    }
}

#[test]
fn frequency_bin_counts() {
    assert_eq!(frequency_bins(0), Err(SpectralError::FrequenciesZeroBaseError));
    assert_eq!(frequency_bins(1), Ok(1));
    assert_eq!(frequency_bins(64), Ok(33));
    assert_eq!(frequency_bins(65), Ok(33));
    assert_eq!(frequency_bins(128), Ok(65));
}

#[test]
fn default_parameters() {
    assert_eq!(default_segmentation(1000), (256, 128));
    assert_eq!(default_segmentation(256), (256, 128));
    assert_eq!(default_segmentation(131), (131, 65));
    assert_eq!(default_segmentation(1), (1, 0));
    assert_eq!(default_segmentation(0), (0, 0));
}

#[test]
fn default_parameters_are_accepted() {
    for len in 1usize..600 {
        let (nperseg, noverlap) = default_segmentation(len);
        let plan = WelchPlan::new(len, bits(1.0), nperseg, noverlap, None).unwrap();
        assert!(plan.num_segments() >= 1);
    }
}
