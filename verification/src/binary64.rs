//! Ordering of IEEE-754 binary64 values, read off their bit patterns.
//!
//! A pattern is a sign bit followed by a 63-bit magnitude. Magnitudes above
//! that of infinity are NaNs; every other pattern has a place on the extended
//! real line, and the magnitudes grow with the absolute value they encode.

use vstd::prelude::*;

verus! {

/// The sign bit of a binary64 pattern.
pub const SIGN_BIT: u64 = 0x8000_0000_0000_0000;

/// The pattern of positive infinity.
pub const POS_INFINITY: u64 = 0x7FF0_0000_0000_0000;

/// The pattern of the largest finite value.
pub const MAX_FINITE: u64 = 0x7FEF_FFFF_FFFF_FFFF;

/// The pattern of positive zero.
pub const POS_ZERO: u64 = 0;

/// The pattern without its sign bit.
pub open spec fn magnitude(bits: u64) -> int {
    if bits >= SIGN_BIT {
        bits - SIGN_BIT
    } else {
        bits as int
    }
}

/// Whether the sign bit is set.
pub open spec fn is_negative(bits: u64) -> bool {
    bits >= SIGN_BIT
}

/// Whether the pattern encodes a NaN.
pub open spec fn is_nan(bits: u64) -> bool {
    magnitude(bits) > POS_INFINITY
}

/// The place of a non-NaN pattern on the extended real line: an integer that
/// grows exactly as the encoded value does. Both zeros have rank 0.
pub open spec fn rank(bits: u64) -> int {
    if is_negative(bits) {
        -magnitude(bits)
    } else {
        magnitude(bits)
    }
}

/// `a < b` as IEEE-754 defines it: false as soon as one side is a NaN.
pub open spec fn lt(a: u64, b: u64) -> bool {
    !is_nan(a) && !is_nan(b) && rank(a) < rank(b)
}

/// `a >= b` as IEEE-754 defines it: false as soon as one side is a NaN.
pub open spec fn ge(a: u64, b: u64) -> bool {
    !is_nan(a) && !is_nan(b) && rank(a) >= rank(b)
}

/// Strips the sign bit.
pub fn magnitude_of(bits: u64) -> (m: u64)
    ensures
        m == magnitude(bits),
{
    if bits >= SIGN_BIT {
        bits - SIGN_BIT
    } else {
        bits
    }
}

/// Tells whether `bits` encodes a NaN.
pub fn is_nan_pattern(bits: u64) -> (r: bool)
    ensures
        r == is_nan(bits),
{
    magnitude_of(bits) > POS_INFINITY
}

/// Decides `a < b` on two binary64 patterns.
pub fn less_than(a: u64, b: u64) -> (r: bool)
    ensures
        r == lt(a, b),
{
    if is_nan_pattern(a) || is_nan_pattern(b) {
        return false;
    }
    let ma: u64 = magnitude_of(a);
    let mb: u64 = magnitude_of(b);
    let a_neg: bool = a >= SIGN_BIT;
    let b_neg: bool = b >= SIGN_BIT;
    if a_neg {
        if b_neg {
            ma > mb
        } else {
            ma != 0 || mb != 0
        }
    } else {
        if b_neg {
            false
        } else {
            ma < mb
        }
    }
}

/// Decides `a >= b` on two binary64 patterns.
pub fn at_least(a: u64, b: u64) -> (r: bool)
    ensures
        r == ge(a, b),
{
    if is_nan_pattern(a) || is_nan_pattern(b) {
        return false;
    }
    !less_than(a, b)
}

/// Among patterns that are not NaNs, exactly one of `a < b` and `a >= b`
/// holds; with a NaN on either side, neither does.
pub proof fn law_order_is_total(a: u64, b: u64)
    ensures
        !is_nan(a) && !is_nan(b) ==> (lt(a, b) <==> !ge(a, b)),
        is_nan(a) || is_nan(b) ==> !lt(a, b) && !ge(a, b),
{
}

/// `<` is transitive, and `>=` followed by `>=` is `>=`.
pub proof fn law_order_is_transitive(a: u64, b: u64, c: u64)
    ensures
        lt(a, b) && lt(b, c) ==> lt(a, c),
        ge(a, b) && ge(b, c) ==> ge(a, c),
{
}

/// Nothing is above positive infinity, and the two zeros are level.
pub proof fn law_infinity_is_greatest(a: u64)
    ensures
        !lt(POS_INFINITY, a),
        ge(a, POS_INFINITY) ==> a == POS_INFINITY,
        ge(POS_ZERO, SIGN_BIT) && ge(SIGN_BIT, POS_ZERO),
{
}

} // verus!
