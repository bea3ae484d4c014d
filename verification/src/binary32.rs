//! IEEE 754 single-precision numbers, handled by their bit patterns.
//!
//! A feature value travels as the 32 bits of its encoding: that is how it
//! sits in a shared cell and how it is laid out in a datagram. Everything
//! the library decides about such a value (its sign, whether it is a
//! number at all, whether it lies between zero and one) can be read off
//! the pattern with integer comparisons, and that is what this module does.

use vstd::prelude::*;

verus! {

/// The sign bit.
pub const SIGN: u32 = 0x8000_0000;

/// The pattern of positive infinity: every exponent bit set, no fraction bit.
pub const INFINITY: u32 = 0x7F80_0000;

/// The pattern of `1.0`.
pub const ONE: u32 = 0x3F80_0000;

/// The pattern of positive zero.
pub const ZERO: u32 = 0;

/// The pattern with its sign bit cleared.
pub open spec fn magnitude(bits: u32) -> int {
    if bits >= SIGN {
        bits - SIGN
    } else {
        bits as int
    }
}

/// The pattern encodes no number: exponent all ones and a fraction that is not zero.
pub open spec fn is_nan(bits: u32) -> bool {
    magnitude(bits) > INFINITY
}

/// The pattern encodes a number that is neither an infinity nor a NaN.
pub open spec fn is_finite(bits: u32) -> bool {
    magnitude(bits) < INFINITY
}

/// The encoded value compares greater than zero. Zero of either sign, every
/// negative number and every NaN do not.
pub open spec fn is_positive(bits: u32) -> bool {
    0 < bits <= INFINITY
}

/// The encoded value is a number `x` with `0.0 <= x <= 1.0` and a clear
/// sign bit. Among patterns with a clear sign bit the order of the numbers
/// is the order of the patterns.
pub open spec fn in_unit_interval(bits: u32) -> bool {
    bits <= ONE
}

/// The pattern that `clamp_unit` gives back.
pub open spec fn clamped_to_unit(bits: u32) -> u32 {
    if is_nan(bits) || bits >= SIGN {
        ZERO
    } else if bits > ONE {
        ONE
    } else {
        bits
    }
}

/// The pattern that `finite_or_zero` gives back.
pub open spec fn finite_or_zeroed(bits: u32) -> u32 {
    if is_finite(bits) {
        bits
    } else {
        ZERO
    }
}

/// Tells whether the pattern encodes a finite number.
pub fn finite(bits: u32) -> (r: bool)
    ensures
        r == is_finite(bits),
{
    if bits >= SIGN {
        bits - SIGN < INFINITY
    } else {
        bits < INFINITY
    }
}

/// Tells whether the encoded value compares greater than zero.
pub fn positive(bits: u32) -> (r: bool)
    ensures
        r == is_positive(bits),
{
    0 < bits && bits <= INFINITY
}

/// Brings a value into the closed interval from zero to one.
///
/// A value above one, positive infinity included, becomes one. A negative
/// value, negative zero and negative infinity included, becomes positive
/// zero, and so does a NaN. Every other value is given back unchanged.
pub fn clamp_unit(bits: u32) -> (r: u32)
    ensures
        r == clamped_to_unit(bits),
        in_unit_interval(r),
        is_finite(r),
        in_unit_interval(bits) ==> r == bits,
{
    if bits >= SIGN {
        ZERO
    } else if bits > INFINITY {
        ZERO
    } else if bits > ONE {
        ONE
    } else {
        bits
    }
}

/// Replaces an infinity or a NaN by positive zero and leaves every finite
/// value as it is.
pub fn finite_or_zero(bits: u32) -> (r: u32)
    ensures
        r == finite_or_zeroed(bits),
        is_finite(r),
        is_finite(bits) ==> r == bits,
{
    if finite(bits) {
        bits
    } else {
        ZERO
    }
}

} // verus!
