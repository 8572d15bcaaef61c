//! Exact bit-level predicates on IEEE-754 double-precision values.
//!
//! Scalars cross the verified boundary as `u64` bit patterns.  The tests and
//! transformations the optimizer decides by — is a parameter exactly zero,
//! the absolute value of a step, is one magnitude strictly greater than
//! another — have exact, short definitions on the bit pattern, so they are
//! implemented and specified here directly rather than assumed of a library:
//!
//! - a double is zero exactly when all bits but the sign bit are clear
//!   (positive and negative zero compare equal);
//! - the absolute value clears the sign bit and nothing else;
//! - `a > b` is false when either operand is a NaN (all exponent bits set
//!   and a nonzero mantissa), and otherwise follows the sign-magnitude
//!   order: two non-negative doubles compare as their bit patterns, two
//!   negative doubles compare reversed, and a positive double exceeds a
//!   negative one unless both are zeros.

use vstd::prelude::*;

verus! {

/// The sign bit of a double-precision value.
pub const SIGN_MASK: u64 = 0x8000_0000_0000_0000;

/// Every bit but the sign: the magnitude of the value.
pub const MAGNITUDE_MASK: u64 = 0x7fff_ffff_ffff_ffff;

/// All exponent bits set, mantissa clear: the magnitude of an infinity.
/// Magnitudes above it are NaNs.
pub const INFINITY_MAGNITUDE: u64 = 0x7ff0_0000_0000_0000;

/// The magnitude of the double behind the bit pattern `a`.
pub open spec fn magnitude_spec(a: u64) -> u64 {
    a & MAGNITUDE_MASK
}

/// Whether the double behind `a` is a NaN.
pub open spec fn is_nan_spec(a: u64) -> bool {
    magnitude_spec(a) > INFINITY_MAGNITUDE
}

/// Whether the double behind `a` is a zero (of either sign).
pub open spec fn is_zero_spec(a: u64) -> bool {
    magnitude_spec(a) == 0
}

/// Whether the double behind `a` is negative (sign bit set).
pub open spec fn is_negative_spec(a: u64) -> bool {
    a & SIGN_MASK != 0
}

/// The absolute value of the double behind `a`: the sign bit cleared.
pub open spec fn abs_spec(a: u64) -> u64 {
    a & MAGNITUDE_MASK
}

/// `a > b` on the doubles behind the bit patterns: false when either is a
/// NaN, and otherwise the sign-magnitude order with the two zeros equal.
pub open spec fn gt_spec(a: u64, b: u64) -> bool {
    &&& !is_nan_spec(a)
    &&& !is_nan_spec(b)
    &&& if is_negative_spec(a) && is_negative_spec(b) {
        magnitude_spec(b) > magnitude_spec(a)
    } else if !is_negative_spec(a) && !is_negative_spec(b) {
        magnitude_spec(a) > magnitude_spec(b)
    } else if is_negative_spec(a) {
        false
    } else {
        !(is_zero_spec(a) && is_zero_spec(b))
    }
}

/// Whether the double behind `a` is exactly zero, of either sign.
pub fn is_zero_bits(a: u64) -> (r: bool)
    ensures
        r == is_zero_spec(a),
{
    a & MAGNITUDE_MASK == 0
}

/// Whether the double behind `a` is a NaN.
pub fn is_nan_bits(a: u64) -> (r: bool)
    ensures
        r == is_nan_spec(a),
{
    a & MAGNITUDE_MASK > INFINITY_MAGNITUDE
}

/// The absolute value of the double behind `a`.
pub fn abs_bits(a: u64) -> (r: u64)
    ensures
        r == abs_spec(a),
{
    a & MAGNITUDE_MASK
}

/// Whether the double behind `a` is strictly greater than the double
/// behind `b`.
pub fn gt_bits(a: u64, b: u64) -> (r: bool)
    ensures
        r == gt_spec(a, b),
{
    if a & MAGNITUDE_MASK > INFINITY_MAGNITUDE || b & MAGNITUDE_MASK > INFINITY_MAGNITUDE {
        false
    } else if a & SIGN_MASK != 0 && b & SIGN_MASK != 0 {
        b & MAGNITUDE_MASK > a & MAGNITUDE_MASK
    } else if a & SIGN_MASK == 0 && b & SIGN_MASK == 0 {
        a & MAGNITUDE_MASK > b & MAGNITUDE_MASK
    } else if a & SIGN_MASK != 0 {
        false
    } else {
        !(a & MAGNITUDE_MASK == 0 && b & MAGNITUDE_MASK == 0)
    }
}

} // verus!
