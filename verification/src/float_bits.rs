//! Comparisons of 32-bit IEEE 754 floats held as their bit patterns.
//!
//! The decision tables of the library compare scores, moods and
//! thresholds. Those numbers are floats elsewhere in the engine; here they
//! arrive as bit patterns and are compared exactly as IEEE 754 orders
//! floats: NaN is unordered, `-0.0` equals `0.0`, and otherwise the sign
//! and the magnitude bits (exponent, then fraction) decide.

use vstd::prelude::*;

verus! {

/// The sign bit.
pub const SIGN_MASK: u32 = 0x8000_0000u32;

/// The exponent bits.
pub const EXPONENT_MASK: u32 = 0x7F80_0000u32;

/// The fraction bits.
pub const FRACTION_MASK: u32 = 0x007F_FFFFu32;

/// The magnitude bits: everything but the sign.
pub const MAGNITUDE_MASK: u32 = 0x7FFF_FFFFu32;

/// Whether `b` is a NaN: all exponent bits set and a nonzero fraction.
pub open spec fn f32_is_nan(b: u32) -> bool {
    (b & EXPONENT_MASK) == EXPONENT_MASK && (b & FRACTION_MASK) != 0
}

/// The position of a non-NaN float on the number line: its magnitude bits,
/// negated when the sign bit is set. Magnitude bits grow with the absolute
/// value, and both zeros land on 0.
pub open spec fn f32_key(b: u32) -> int {
    if (b & SIGN_MASK) != 0 {
        -((b & MAGNITUDE_MASK) as int)
    } else {
        (b & MAGNITUDE_MASK) as int
    }
}

/// `a < b` on floats.
pub open spec fn f32_lt(a: u32, b: u32) -> bool {
    !f32_is_nan(a) && !f32_is_nan(b) && f32_key(a) < f32_key(b)
}

/// `a >= b` on floats.
pub open spec fn f32_ge(a: u32, b: u32) -> bool {
    !f32_is_nan(a) && !f32_is_nan(b) && f32_key(a) >= f32_key(b)
}

/// `a == b` on floats (so `-0.0 == 0.0`, and a NaN equals nothing).
pub open spec fn f32_eq(a: u32, b: u32) -> bool {
    !f32_is_nan(a) && !f32_is_nan(b) && f32_key(a) == f32_key(b)
}

/// `x.clamp(lo, hi)`: `hi` above it, `lo` below it, `x` itself otherwise
/// (a NaN stays NaN).
pub open spec fn f32_clamp(x: u32, lo: u32, hi: u32) -> u32 {
    if f32_lt(x, lo) {
        lo
    } else if f32_lt(hi, x) {
        hi
    } else {
        x
    }
}

/// The bit pattern of `-x`.
pub open spec fn f32_neg(b: u32) -> u32 {
    b ^ SIGN_MASK
}

/// Whether `b` is a NaN.
pub fn is_nan(b: u32) -> (r: bool)
    ensures
        r == f32_is_nan(b),
{
    (b & EXPONENT_MASK) == EXPONENT_MASK && (b & FRACTION_MASK) != 0
}

/// `a < b` on the floats with these bit patterns.
pub fn less_than(a: u32, b: u32) -> (r: bool)
    ensures
        r == f32_lt(a, b),
{
    if is_nan(a) || is_nan(b) {
        return false;
    }
    let ma = a & MAGNITUDE_MASK;
    let mb = b & MAGNITUDE_MASK;
    let na = (a & SIGN_MASK) != 0;
    let nb = (b & SIGN_MASK) != 0;
    if na && nb {
        mb < ma
    } else if na {
        !(ma == 0 && mb == 0)
    } else if nb {
        false
    } else {
        ma < mb
    }
}

/// `a > b` on the floats with these bit patterns.
pub fn greater_than(a: u32, b: u32) -> (r: bool)
    ensures
        r == f32_lt(b, a),
{
    less_than(b, a)
}

/// `a >= b` on the floats with these bit patterns.
pub fn at_least(a: u32, b: u32) -> (r: bool)
    ensures
        r == f32_ge(a, b),
{
    !is_nan(a) && !is_nan(b) && !less_than(a, b)
}

/// `a == b` on the floats with these bit patterns.
pub fn equal(a: u32, b: u32) -> (r: bool)
    ensures
        r == f32_eq(a, b),
{
    !is_nan(a) && !is_nan(b) && !less_than(a, b) && !less_than(b, a)
}

/// `x.clamp(lo, hi)` on the floats with these bit patterns.
pub fn clamp(x: u32, lo: u32, hi: u32) -> (r: u32)
    ensures
        r == f32_clamp(x, lo, hi),
{
    if less_than(x, lo) {
        lo
    } else if less_than(hi, x) {
        hi
    } else {
        x
    }
}

/// The bit pattern of `-x`.
pub fn negate(b: u32) -> (r: u32)
    ensures
        r == f32_neg(b),
{
    b ^ SIGN_MASK
}

/// A pattern below that of +infinity is a positive (or zero) finite float,
/// placed at its own value.
pub proof fn lemma_nonnegative_finite(b: u32)
    requires
        b < 0x7F80_0000u32,
    ensures
        !f32_is_nan(b),
        f32_key(b) == b as int,
{
    assert(b < 0x7F80_0000u32 ==> (b & 0x8000_0000u32) == 0u32 && (b & 0x7FFF_FFFFu32) == b && (b
        & 0x7F80_0000u32) != 0x7F80_0000u32) by (bit_vector);
}

/// A pattern with the sign bit set and below that of -infinity is a
/// negative (or zero) finite float, placed at minus its magnitude.
pub proof fn lemma_nonpositive_finite(b: u32)
    requires
        0x8000_0000u32 <= b < 0xFF80_0000u32,
    ensures
        !f32_is_nan(b),
        f32_key(b) == -((b - 0x8000_0000u32) as int),
{
    assert(0x8000_0000u32 <= b && b < 0xFF80_0000u32 ==> (b & 0x8000_0000u32) != 0u32 && (b
        & 0x7FFF_FFFFu32) == (b - 0x8000_0000u32) as u32 && (b & 0x7F80_0000u32) != 0x7F80_0000u32)
        by (bit_vector);
}

} // verus!
