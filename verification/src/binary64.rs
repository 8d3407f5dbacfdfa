//! Doubles by their bit patterns.
//!
//! A double-precision number is carried as the 64 bits of its IEEE 754
//! binary64 encoding: one sign bit, eleven exponent bits, fifty-two fraction
//! bits. Classification and ordering need no arithmetic on the number itself:
//! among numbers of one sign the encoding grows with the magnitude, and the
//! patterns above that of infinity are the NaNs.

use vstd::prelude::*;

verus! {

/// The sign bit of the encoding.
pub const SIGN_BIT: u64 = 0x8000_0000_0000_0000;

/// The encoding of positive infinity; a larger magnitude encodes a NaN.
pub const INFINITY: u64 = 0x7FF0_0000_0000_0000;

/// The encoding of zero.
pub const ZERO: u64 = 0;

/// The encoding of 0.6, the customary same-identity cutoff.
pub const TOLERANCE: u64 = 0x3FE3_3333_3333_3333;

/// The encoding without its sign bit.
pub open spec fn magnitude(bits: u64) -> int {
    if bits >= SIGN_BIT {
        bits - SIGN_BIT
    } else {
        bits as int
    }
}

/// The pattern encodes no number.
pub open spec fn is_nan(bits: u64) -> bool {
    magnitude(bits) > INFINITY
}

/// An integer that orders the encoded numbers as their values do: for `a`
/// and `b` that are no NaN, `a` is below `b` exactly where
/// `rank(a) < rank(b)`, and both zeros have rank 0.
pub open spec fn rank(bits: u64) -> int {
    if bits >= SIGN_BIT {
        -magnitude(bits)
    } else {
        magnitude(bits)
    }
}

/// Numeric equality: no NaN equals anything, and the two zeros are equal.
pub open spec fn same_value(a: u64, b: u64) -> bool {
    !is_nan(a) && !is_nan(b) && rank(a) == rank(b)
}

/// Numeric `a <= b`: false where either is a NaN.
pub open spec fn at_most(a: u64, b: u64) -> bool {
    !is_nan(a) && !is_nan(b) && rank(a) <= rank(b)
}

/// Whether the pattern encodes a NaN.
pub fn encodes_nan(bits: u64) -> (nan: bool)
    ensures
        nan == is_nan(bits),
{
    if bits >= SIGN_BIT {
        bits - SIGN_BIT > INFINITY
    } else {
        bits > INFINITY
    }
}

/// The rank of a pattern, which always fits in an `i64`.
pub fn rank_of(bits: u64) -> (r: i64)
    ensures
        r == rank(bits),
{
    if bits >= SIGN_BIT {
        let m: u64 = bits - SIGN_BIT;
        0 - (m as i64)
    } else {
        bits as i64
    }
}

/// Numeric equality of two encoded doubles.
pub fn is_same_value(a: u64, b: u64) -> (same: bool)
    ensures
        same == same_value(a, b),
{
    !encodes_nan(a) && !encodes_nan(b) && rank_of(a) == rank_of(b)
}

/// Numeric `a <= b` of two encoded doubles.
pub fn is_at_most(a: u64, b: u64) -> (holds: bool)
    ensures
        holds == at_most(a, b),
{
    !encodes_nan(a) && !encodes_nan(b) && rank_of(a) <= rank_of(b)
}

} // verus!
