use welch::segment::{extract_segment, zero_pad};
use welch::ScalingMethod;

#[test]
fn extract_copies_range() {
    let input = [1.0f32, 2.0, 3.0, 4.0, 5.0];
    assert_eq!(extract_segment(&input, 1, 4), vec![2.0, 3.0, 4.0]);
    assert_eq!(extract_segment(&input, 0, 5), input.to_vec());
    assert!(extract_segment(&input, 2, 2).is_empty());
}

#[test]
fn zero_pad_grows_to_length() {
    assert_eq!(zero_pad(vec![1, 2, 3], 6, 0), vec![1, 2, 3, 0, 0, 0]);
    assert_eq!(zero_pad(vec![1.5f64, -2.0], 2, 0.0), vec![1.5, -2.0]);
    assert_eq!(zero_pad(Vec::<u8>::new(), 3, 9), vec![9, 9, 9]);
}

#[test]
fn scaling_by_rate() {
    assert!(ScalingMethod::Spectrum.multiplies_by_rate());
    assert!(!ScalingMethod::Density.multiplies_by_rate());
}
