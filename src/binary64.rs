//! Order and zero tests on IEEE 754 binary64 values held as bit patterns.
use vstd::prelude::*;

verus! {

/// The bit that holds the sign.
pub const SIGN_BIT: u64 = 0x8000_0000_0000_0000;

/// The pattern of positive infinity; a magnitude above it is a NaN.
pub const INFINITY_BITS: u64 = 0x7ff0_0000_0000_0000;

/// The pattern of positive zero.
pub const ZERO_BITS: u64 = 0;

/// The pattern with the sign bit cleared.
pub open spec fn magnitude(x: u64) -> int {
    x as int % (SIGN_BIT as int)
}

pub open spec fn is_negative(x: u64) -> bool {
    x >= SIGN_BIT
}

pub open spec fn is_nan(x: u64) -> bool {
    magnitude(x) > INFINITY_BITS as int
}

/// Both zeros, `+0.0` and `-0.0`.
pub open spec fn is_zero(x: u64) -> bool {
    magnitude(x) == 0
}

/// For a pattern that is not a NaN, an integer that orders the patterns as
/// their values are ordered: the magnitude patterns of binary64 grow with the
/// value, and the two zeros share the key 0.
pub open spec fn order_key(x: u64) -> int {
    if is_negative(x) {
        -magnitude(x)
    } else {
        magnitude(x)
    }
}

/// `x < y` on the values that the patterns encode: false where either is a
/// NaN, and false between the two zeros.
pub open spec fn less(x: u64, y: u64) -> bool {
    !is_nan(x) && !is_nan(y) && order_key(x) < order_key(y)
}

/// Decides `x < y` on the binary64 values that `x` and `y` encode.
pub fn less_than(x: u64, y: u64) -> (r: bool)
    ensures
        r == less(x, y),
{
    let mx: u64 = x % SIGN_BIT;
    let my: u64 = y % SIGN_BIT;
    if mx > INFINITY_BITS || my > INFINITY_BITS {
        false
    } else if x < SIGN_BIT && y < SIGN_BIT {
        mx < my
    } else if x >= SIGN_BIT && y >= SIGN_BIT {
        mx > my
    } else if x >= SIGN_BIT {
        mx != 0 || my != 0
    } else {
        false
    }
}

/// Decides whether `x` encodes a zero of either sign.
pub fn is_zero_value(x: u64) -> (r: bool)
    ensures
        r == is_zero(x),
{
    x % SIGN_BIT == 0
}

} // verus!
