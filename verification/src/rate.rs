use vstd::prelude::*;

verus! {

/// The sign bit of an IEEE-754 double.
pub open spec fn f64_sign_bit() -> u64 {
    0x8000_0000_0000_0000u64
}

/// The bit pattern of positive infinity.
pub open spec fn f64_infinity_bits() -> u64 {
    0x7ff0_0000_0000_0000u64
}

/// The bit pattern with the sign bit cleared.
pub open spec fn f64_magnitude(bits: u64) -> u64 {
    (bits % f64_sign_bit()) as u64
}

/// The double is a NaN: all exponent bits set and a non-zero mantissa.
pub open spec fn f64_is_nan(bits: u64) -> bool {
    f64_magnitude(bits) > f64_infinity_bits()
}

/// What `!(x > 0.0)` gives for the double `x` with these bits: true for
/// every NaN, both zeros and every negative number (negative infinity
/// included); false exactly for the positive numbers, infinity included.
pub open spec fn f64_not_positive(bits: u64) -> bool {
    f64_is_nan(bits) || bits >= f64_sign_bit() || f64_magnitude(bits) == 0
}

/// A sampling rate must be above zero: decides `!(fs > 0.0)` for the rate
/// whose bit pattern is `fs_bits`, so that NaN is rejected too.
pub fn rate_is_rejected(fs_bits: u64) -> (rejected: bool)
    ensures
        rejected == f64_not_positive(fs_bits),
        rejected == !(0 < fs_bits <= 0x7ff0_0000_0000_0000u64),
{
    let magnitude: u64 = fs_bits % 0x8000_0000_0000_0000u64;
    if magnitude > 0x7ff0_0000_0000_0000u64 {
        true
    } else {
        fs_bits >= 0x8000_0000_0000_0000u64 || magnitude == 0
    }
}

} // verus!
