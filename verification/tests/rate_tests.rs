use welch::rate::rate_is_rejected;

#[test]
fn rejected_rates() {
    for x in [0.0f64, -0.0, -1.0, -4.0, -1e-300, f64::NEG_INFINITY, f64::MIN, -f64::MIN_POSITIVE] {
        assert!(rate_is_rejected(x.to_bits()), "{x}");
    }
}

#[test]
fn accepted_rates() {
    for x in [1.0f64, 4.0, 44100.0, 1e-300, 5e-324, f64::INFINITY, f64::MAX, f64::MIN_POSITIVE] {
        assert!(!rate_is_rejected(x.to_bits()), "{x}");
    }
}

#[test]
fn nan_rates_are_rejected() {
    assert!(rate_is_rejected(f64::NAN.to_bits()));
    assert!(rate_is_rejected((-f64::NAN).to_bits()));
    assert!(rate_is_rejected(0x7ff0_0000_0000_0001));
    assert!(rate_is_rejected(0xfff8_0000_0000_0000));
}

#[test]
fn agrees_with_float_comparison() {
    let samples = [
        0u64,
        1,
        0x3ff0_0000_0000_0000,
        0x7fef_ffff_ffff_ffff,
        0x7ff0_0000_0000_0000,
        0x7ff0_0000_0000_0001,
        0x7fff_ffff_ffff_ffff,
        0x8000_0000_0000_0000,
        0x8000_0000_0000_0001,
        0xbff0_0000_0000_0000,
        0xfff0_0000_0000_0000,
        0xfff0_0000_0000_0001,
        0xffff_ffff_ffff_ffff,
    ];
    for b in samples {
        assert_eq!(rate_is_rejected(b), !(f64::from_bits(b) > 0.0), "{b:#x}");
    }
    let mut b: u64 = 0x0123_4567_89ab_cdef;
    for _ in 0..10000 {
        b = b.wrapping_mul(6364136223846793005).wrapping_add(1442695040888963407);
        assert_eq!(rate_is_rejected(b), !(f64::from_bits(b) > 0.0), "{b:#x}");
    }
}
