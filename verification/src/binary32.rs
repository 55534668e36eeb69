//! Ordering and negation of IEEE-754 binary32 values, read off their bit
//! patterns. Samples, frequencies and gains are binary32.
//!
//! A pattern is a sign bit followed by a 31-bit magnitude. Magnitudes above
//! that of infinity are NaNs; every other pattern has a place on the extended
//! real line, and the magnitudes grow with the absolute value they encode.

use vstd::prelude::*;

verus! {

/// The sign bit of a binary32 pattern.
pub const SIGN_BIT: u32 = 0x8000_0000;

/// The pattern of positive infinity.
pub const POS_INFINITY: u32 = 0x7F80_0000;

/// The pattern without its sign bit.
pub open spec fn magnitude(bits: u32) -> int {
    if bits >= SIGN_BIT {
        bits - SIGN_BIT
    } else {
        bits as int
    }
}

/// Whether the sign bit is set.
pub open spec fn is_negative(bits: u32) -> bool {
    bits >= SIGN_BIT
}

/// Whether the pattern encodes a NaN.
pub open spec fn is_nan(bits: u32) -> bool {
    magnitude(bits) > POS_INFINITY
}

/// The place of a non-NaN pattern on the extended real line: an integer that
/// grows exactly as the encoded value does. Both zeros have rank 0.
pub open spec fn rank(bits: u32) -> int {
    if is_negative(bits) {
        -magnitude(bits)
    } else {
        magnitude(bits)
    }
}

/// `a < b` as IEEE-754 defines it: false as soon as one side is a NaN.
pub open spec fn lt(a: u32, b: u32) -> bool {
    !is_nan(a) && !is_nan(b) && rank(a) < rank(b)
}

/// The pattern with the other sign and the same magnitude.
pub open spec fn negated(bits: u32) -> u32 {
    if bits >= SIGN_BIT {
        (bits - SIGN_BIT) as u32
    } else {
        (bits + SIGN_BIT) as u32
    }
}

/// Strips the sign bit.
pub fn magnitude_of(bits: u32) -> (m: u32)
    ensures
        m == magnitude(bits),
{
    if bits >= SIGN_BIT {
        bits - SIGN_BIT
    } else {
        bits
    }
}

/// Tells whether `bits` encodes a NaN.
pub fn is_nan_pattern(bits: u32) -> (r: bool)
    ensures
        r == is_nan(bits),
{
    magnitude_of(bits) > POS_INFINITY
}

/// Decides `a < b` on two binary32 patterns.
pub fn less_than(a: u32, b: u32) -> (r: bool)
    ensures
        r == lt(a, b),
{
    if is_nan_pattern(a) || is_nan_pattern(b) {
        return false;
    }
    let ma: u32 = magnitude_of(a);
    let mb: u32 = magnitude_of(b);
    let a_neg: bool = a >= SIGN_BIT;
    let b_neg: bool = b >= SIGN_BIT;
    if a_neg {
        if b_neg {
            ma > mb
        } else {
            ma != 0 || mb != 0
        }
    } else {
        if b_neg {
            false
        } else {
            ma < mb
        }
    }
}

/// Flips the sign of a binary32 pattern.
pub fn negate(bits: u32) -> (r: u32)
    ensures
        r == negated(bits),
{
    if bits >= SIGN_BIT {
        bits - SIGN_BIT
    } else {
        bits + SIGN_BIT
    }
}

/// Negation mirrors the real line and undoes itself: it keeps the magnitude,
/// turns the rank around, and applied twice gives the pattern back.
pub proof fn law_negation_mirrors(bits: u32)
    ensures
        negated(negated(bits)) == bits,
        magnitude(negated(bits)) == magnitude(bits),
        is_nan(negated(bits)) == is_nan(bits),
        rank(negated(bits)) == -rank(bits),
{
}

/// `<` is a strict order on the patterns that are not NaNs.
pub proof fn law_order_is_strict(a: u32, b: u32, c: u32)
    ensures
        !lt(a, a),
        lt(a, b) ==> !lt(b, a),
        lt(a, b) && lt(b, c) ==> lt(a, c),
{
}

} // verus!
