//! Real numbers as the engine exchanges them: IEEE 754 binary64 values,
//! carried here by their 64-bit patterns.
//!
//! The library never computes with these numbers. It moves them, fills
//! buffers with zero and, in a few validation rules, compares them. The
//! comparisons below are those of IEEE 754: a NaN is unordered, and the two
//! zeros are equal.

use vstd::prelude::*;

verus! {

/// A binary64 number, given by its bit pattern.
pub type Real = u64;

/// The sign bit of a pattern.
pub const SIGN_BIT: u64 = 0x8000_0000_0000_0000;

/// Positive infinity. Every pattern whose magnitude is larger is a NaN.
pub const INFINITY: Real = 0x7FF0_0000_0000_0000;

/// Positive zero, the value every fresh buffer is filled with.
pub const ZERO: Real = 0;

/// The number one.
pub const ONE: Real = 0x3FF0_0000_0000_0000;

/// The number minus one.
pub const MINUS_ONE: Real = 0xBFF0_0000_0000_0000;

/// The number fifty.
pub const FIFTY: Real = 0x4049_0000_0000_0000;

/// The number one hundred.
pub const HUNDRED: Real = 0x4059_0000_0000_0000;

/// The pattern without its sign bit.
pub open spec fn magnitude(x: Real) -> int {
    if x >= SIGN_BIT {
        x - SIGN_BIT
    } else {
        x as int
    }
}

/// Whether the sign bit is set.
pub open spec fn negative(x: Real) -> bool {
    x >= SIGN_BIT
}

/// Whether the pattern is a NaN.
pub open spec fn nan(x: Real) -> bool {
    magnitude(x) > INFINITY
}

/// An integer that orders the numbers as IEEE 754 does: for `a` and `b` that
/// are not NaN, `a < b` exactly when `order_key(a) < order_key(b)`. Both
/// zeros have key 0.
pub open spec fn order_key(x: Real) -> int {
    if negative(x) {
        -magnitude(x)
    } else {
        magnitude(x)
    }
}

/// `a < b` in IEEE 754.
pub open spec fn lt(a: Real, b: Real) -> bool {
    !nan(a) && !nan(b) && order_key(a) < order_key(b)
}

/// `a <= b` in IEEE 754.
pub open spec fn le(a: Real, b: Real) -> bool {
    !nan(a) && !nan(b) && order_key(a) <= order_key(b)
}

/// `a == b` in IEEE 754.
pub open spec fn eq(a: Real, b: Real) -> bool {
    !nan(a) && !nan(b) && order_key(a) == order_key(b)
}

/// `x > 0`.
pub open spec fn positive(x: Real) -> bool {
    lt(ZERO, x)
}

/// `lo <= x <= hi`.
pub open spec fn within(x: Real, lo: Real, hi: Real) -> bool {
    le(lo, x) && le(x, hi)
}

/// What clamping `x` to `[lo, hi]` gives: `lo` below it, `hi` above it, and
/// `x` itself otherwise, a NaN included.
pub open spec fn clamped(x: Real, lo: Real, hi: Real) -> Real {
    if lt(x, lo) {
        lo
    } else if lt(hi, x) {
        hi
    } else {
        x
    }
}

fn magnitude_of(x: Real) -> (m: u64)
    ensures
        m == magnitude(x),
{
    if x >= SIGN_BIT {
        x - SIGN_BIT
    } else {
        x
    }
}

/// Tells whether `x` is a NaN.
pub fn is_nan(x: Real) -> (r: bool)
    ensures
        r == nan(x),
{
    magnitude_of(x) > INFINITY
}

/// Computes `a < b`.
pub fn less_than(a: Real, b: Real) -> (r: bool)
    ensures
        r == lt(a, b),
{
    let ma: u64 = magnitude_of(a);
    let mb: u64 = magnitude_of(b);
    if ma > INFINITY || mb > INFINITY {
        false
    } else if a >= SIGN_BIT {
        if b >= SIGN_BIT {
            mb < ma
        } else {
            ma > 0 || mb > 0
        }
    } else {
        b < SIGN_BIT && ma < mb
    }
}

/// Computes `a <= b`.
pub fn at_most(a: Real, b: Real) -> (r: bool)
    ensures
        r == le(a, b),
{
    let ma: u64 = magnitude_of(a);
    let mb: u64 = magnitude_of(b);
    if ma > INFINITY || mb > INFINITY {
        false
    } else if a >= SIGN_BIT {
        b < SIGN_BIT || mb <= ma
    } else if b >= SIGN_BIT {
        ma == 0 && mb == 0
    } else {
        ma <= mb
    }
}

/// Computes `a == b`.
pub fn equal(a: Real, b: Real) -> (r: bool)
    ensures
        r == eq(a, b),
{
    let ma: u64 = magnitude_of(a);
    let mb: u64 = magnitude_of(b);
    if ma > INFINITY || mb > INFINITY {
        false
    } else {
        a == b || (ma == 0 && mb == 0)
    }
}

/// Computes `x > 0`.
pub fn is_positive(x: Real) -> (r: bool)
    ensures
        r == positive(x),
        r == (0 < x <= INFINITY),
{
    0 < x && x <= INFINITY
}

/// Computes `lo <= x <= hi`.
pub fn is_within(x: Real, lo: Real, hi: Real) -> (r: bool)
    ensures
        r == within(x, lo, hi),
{
    at_most(lo, x) && at_most(x, hi)
}

/// Restricts `x` to `[lo, hi]`. A number comes to lie within the bounds; a
/// NaN stays as it is.
pub fn clamp(x: Real, lo: Real, hi: Real) -> (r: Real)
    ensures
        r == clamped(x, lo, hi),
        le(lo, hi) && !nan(x) ==> within(r, lo, hi),
        nan(x) ==> r == x,
{
    if less_than(x, lo) {
        lo
    } else if less_than(hi, x) {
        hi
    } else {
        x
    }
}

} // verus!
