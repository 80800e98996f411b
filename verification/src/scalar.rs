//! Real numbers as binary64 bit patterns.
//!
//! A value is carried as the 64 bits of its IEEE 754 double-precision
//! encoding: one sign bit, eleven exponent bits, fifty-two fraction bits.
//! The predicates here classify a pattern without decoding it.

use vstd::prelude::*;

verus! {

/// The pattern with only the sign bit set (negative zero).
pub const SIGN_BIT: u64 = 0x8000_0000_0000_0000;

/// The pattern of positive infinity: all exponent bits set, fraction zero.
pub const INFINITY_BITS: u64 = 0x7ff0_0000_0000_0000;

/// The pattern of positive zero.
pub const ZERO_BITS: u64 = 0;

/// The pattern of 9.81, the magnitude of the downward acceleration.
pub const G_BITS: u64 = 0x4023_9eb8_51eb_851f;

/// The pattern with its sign bit cleared.
pub open spec fn magnitude(bits: u64) -> u64 {
    if bits >= SIGN_BIT {
        (bits - SIGN_BIT) as u64
    } else {
        bits
    }
}

/// The value is a number other than an infinity: its exponent is not all ones.
pub open spec fn is_finite(bits: u64) -> bool {
    magnitude(bits) < INFINITY_BITS
}

/// The value is a NaN: exponent all ones and a nonzero fraction.
pub open spec fn is_nan(bits: u64) -> bool {
    magnitude(bits) > INFINITY_BITS
}

/// The value compares less than or equal to zero. Both zeros do; a NaN
/// compares with nothing and so does not.
pub open spec fn is_at_most_zero(bits: u64) -> bool {
    magnitude(bits) == 0 || (bits >= SIGN_BIT && !is_nan(bits))
}

/// The value is finite and strictly greater than zero.
pub open spec fn is_finite_positive(bits: u64) -> bool {
    is_finite(bits) && !is_at_most_zero(bits)
}

/// Clears the sign bit.
pub fn magnitude_of(bits: u64) -> (m: u64)
    ensures
        m == magnitude(bits),
{
    if bits >= SIGN_BIT {
        bits - SIGN_BIT
    } else {
        bits
    }
}

/// Tells whether the value is neither an infinity nor a NaN.
pub fn finite(bits: u64) -> (r: bool)
    ensures
        r == is_finite(bits),
{
    magnitude_of(bits) < INFINITY_BITS
}

/// Tells whether the value compares less than or equal to zero.
pub fn at_most_zero(bits: u64) -> (r: bool)
    ensures
        r == is_at_most_zero(bits),
{
    let m: u64 = magnitude_of(bits);
    m == 0 || (bits >= SIGN_BIT && m <= INFINITY_BITS)
}

/// A finite value has a clear or set sign bit and an exponent below the
/// maximum, so a positive finite value is exactly a pattern strictly between
/// positive zero and positive infinity.
pub proof fn finite_positive_range(bits: u64)
    ensures
        is_finite_positive(bits) <==> 0 < bits < INFINITY_BITS,
{
}

/// The classification by magnitude agrees with the one by exponent field:
/// a value is finite exactly when its eleven exponent bits are not all set.
pub proof fn finite_by_exponent(bits: u64)
    ensures
        is_finite(bits) <==> (bits & INFINITY_BITS) != INFINITY_BITS,
{
    assert(((if bits >= 0x8000_0000_0000_0000u64 {
        (bits - 0x8000_0000_0000_0000u64) as u64
    } else {
        bits
    }) < 0x7ff0_0000_0000_0000u64) <==> (bits & 0x7ff0_0000_0000_0000u64)
        != 0x7ff0_0000_0000_0000u64) by (bit_vector);
}

} // verus!
