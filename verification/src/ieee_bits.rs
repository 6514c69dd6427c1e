//! Predicates on the IEEE-754 binary64 bit patterns stored in evidence payloads.
//!
//! The codecs store every coordinate as the exact bit pattern of an `f64`. The
//! checks they make on those values depend only on the sign bit and on the
//! magnitude bits, so they are stated here over the raw `u64` patterns: a value
//! is finite when its exponent field is not all ones, and finite non-negative
//! values order exactly as their bit patterns do.
use vstd::prelude::*;

verus! {

pub const F64_SIGN_BIT: u64 = 0x8000_0000_0000_0000;

pub const F64_EXPONENT_ALL_ONES: u64 = 0x7ff0_0000_0000_0000;

/// Bit pattern of the absolute value: the pattern with its sign bit cleared.
pub open spec fn f64_bits_magnitude(bits: u64) -> u64 {
    if bits >= F64_SIGN_BIT {
        (bits - F64_SIGN_BIT) as u64
    } else {
        bits
    }
}

/// The pattern denotes a finite value (neither infinite nor NaN).
pub open spec fn f64_bits_finite(bits: u64) -> bool {
    f64_bits_magnitude(bits) < F64_EXPONENT_ALL_ONES
}

/// The pattern is negative zero: equal to `0.0` but not its canonical encoding.
pub open spec fn f64_bits_negative_zero(bits: u64) -> bool {
    bits == F64_SIGN_BIT
}

/// The pattern denotes a value `<= 0.0` (a zero of either sign, or a negative value).
pub open spec fn f64_bits_not_positive(bits: u64) -> bool {
    bits == 0 || bits >= F64_SIGN_BIT
}

/// For finite patterns: `|a| <= |b|` as real numbers.
pub open spec fn f64_bits_magnitude_le(a: u64, b: u64) -> bool {
    f64_bits_magnitude(a) <= f64_bits_magnitude(b)
}

pub fn f64_magnitude_bits(bits: u64) -> (r: u64)
    ensures
        r == f64_bits_magnitude(bits),
{
    if bits >= F64_SIGN_BIT {
        bits - F64_SIGN_BIT
    } else {
        bits
    }
}

pub fn is_finite_f64_bits(bits: u64) -> (r: bool)
    ensures
        r == f64_bits_finite(bits),
{
    f64_magnitude_bits(bits) < F64_EXPONENT_ALL_ONES
}

pub fn is_not_positive_f64_bits(bits: u64) -> (r: bool)
    ensures
        r == f64_bits_not_positive(bits),
{
    bits == 0 || bits >= F64_SIGN_BIT
}

} // verus!
