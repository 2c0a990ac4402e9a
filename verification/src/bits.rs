//! Classification and ordering of IEEE 754 binary64 values, carried as their
//! raw 64-bit patterns.
//!
//! The solver works entirely on bit patterns: a scalar is a `u64` holding the
//! bits of a binary64 value (sign bit at position 63, an 11-bit exponent at
//! positions 52..=62, a 52-bit significand below). Every decision the solver
//! makes — which endpoint lies higher, whether a residual is within tolerance,
//! whether a value is finite — is a pure function of those bits, defined and
//! verified here.

use vstd::prelude::*;

verus! {

/// Mask selecting the sign bit of a binary64 pattern.
pub const SIGN_MASK: u64 = 0x8000_0000_0000_0000;

/// Mask selecting everything but the sign bit (the magnitude).
pub const MAG_MASK: u64 = 0x7fff_ffff_ffff_ffff;

/// An exponent field of all ones marks an infinity or a NaN.
pub const EXP_ALL_ONES: u64 = 0x7ff;

/// The magnitude of the pattern: its bits with the sign cleared.
pub open spec fn magnitude(b: u64) -> u64 {
    b & MAG_MASK
}

/// The 11-bit exponent field of the pattern.
pub open spec fn exponent_field(b: u64) -> u64 {
    (b >> 52) & EXP_ALL_ONES
}

/// The pattern encodes a finite value: the exponent field is not all ones.
pub open spec fn finite_bits(b: u64) -> bool {
    exponent_field(b) != EXP_ALL_ONES
}

/// The pattern encodes a NaN: exponent all ones with a nonzero significand.
pub open spec fn nan_bits(b: u64) -> bool {
    exponent_field(b) == EXP_ALL_ONES && (b & 0x000f_ffff_ffff_ffff) != 0
}

/// The pattern encodes a zero of either sign.
pub open spec fn zero_bits(b: u64) -> bool {
    magnitude(b) == 0
}

/// The pattern with the sign bit cleared: the absolute value, since binary64
/// is a sign-magnitude encoding.
pub open spec fn abs_bits(b: u64) -> u64 {
    b & MAG_MASK
}

/// The order key of a non-NaN pattern. Binary64 encodes non-NaN values so
/// that, at equal sign, a larger magnitude pattern encodes a value farther
/// from zero; negating the magnitude for negative signs therefore yields an
/// integer key whose order agrees with the numeric order of the encoded
/// values, with the two zeros sharing the key 0.
pub open spec fn order_key(b: u64) -> int {
    if (b >> 63) == 1 {
        -((b & MAG_MASK) as int)
    } else {
        (b & MAG_MASK) as int
    }
}

/// Numeric "less than" on two non-NaN patterns, by their order keys.
pub open spec fn key_lt(a: u64, b: u64) -> bool {
    order_key(a) < order_key(b)
}

/// Numeric equality on two non-NaN patterns: equal keys, so the two zeros
/// are equal to each other and every other value only to itself.
pub open spec fn key_eq(a: u64, b: u64) -> bool {
    order_key(a) == order_key(b)
}

/// Whether the pattern encodes a finite value.
pub fn is_finite_bits(b: u64) -> (r: bool)
    ensures
        r == finite_bits(b),
{
    ((b >> 52) & EXP_ALL_ONES) != EXP_ALL_ONES
}

/// Whether the pattern encodes a NaN.
pub fn is_nan_bits(b: u64) -> (r: bool)
    ensures
        r == nan_bits(b),
{
    ((b >> 52) & EXP_ALL_ONES) == EXP_ALL_ONES && (b & 0x000f_ffff_ffff_ffff) != 0
}

/// Whether the pattern encodes a zero of either sign.
pub fn is_zero_bits(b: u64) -> (r: bool)
    ensures
        r == zero_bits(b),
{
    (b & MAG_MASK) == 0
}

/// The absolute value of the encoded value: the pattern with its sign cleared.
pub fn abs_of_bits(b: u64) -> (r: u64)
    ensures
        r == abs_bits(b),
{
    b & MAG_MASK
}

/// Numeric "less than" on two non-NaN patterns.
pub fn lt_bits(a: u64, b: u64) -> (r: bool)
    ensures
        r == key_lt(a, b),
{
    let sa: u64 = a >> 63;
    let sb: u64 = b >> 63;
    let ma: u64 = a & MAG_MASK;
    let mb: u64 = b & MAG_MASK;
    if sa == 1 && sb == 1 {
        mb < ma
    } else if sa == 1 {
        !(ma == 0 && mb == 0)
    } else if sb == 1 {
        false
    } else {
        ma < mb
    }
}

/// Numeric equality on two non-NaN patterns.
pub fn eq_bits(a: u64, b: u64) -> (r: bool)
    ensures
        r == key_eq(a, b),
{
    let na: bool = (a >> 63) == 1;
    let nb: bool = (b >> 63) == 1;
    let ma: u64 = a & MAG_MASK;
    let mb: u64 = b & MAG_MASK;
    if ma == 0 && mb == 0 {
        true
    } else {
        na == nb && ma == mb
    }
}

/// The order keys are antisymmetric: two patterns cannot each lie below the
/// other, and a pattern below another is not equal to it.
pub proof fn lemma_key_order_antisymmetric(a: u64, b: u64)
    ensures
        !(key_lt(a, b) && key_lt(b, a)),
        key_lt(a, b) ==> !key_eq(a, b),
{
}

/// The order keys are total: two non-NaN patterns are either equal or
/// strictly ordered one way.
pub proof fn lemma_key_order_total(a: u64, b: u64)
    ensures
        key_eq(a, b) || key_lt(a, b) || key_lt(b, a),
{
}

} // verus!
