//! Numbers that cross the host boundary, carried as 64-bit IEEE-754 patterns.

use vstd::prelude::*;

verus! {

/// Pattern with the sign bit cleared.
pub open spec fn magnitude(bits: u64) -> int {
    if bits >= 0x8000_0000_0000_0000 {
        bits - 0x8000_0000_0000_0000
    } else {
        bits as int
    }
}

/// The pattern encodes "not a number": all exponent bits set and a nonzero fraction.
pub open spec fn is_nan(bits: u64) -> bool {
    magnitude(bits) > 0x7FF0_0000_0000_0000
}

/// Numeric equality of two patterns: no operand is a NaN, and either the
/// patterns coincide or both encode a zero of either sign.
pub open spec fn same_number(a: u64, b: u64) -> bool {
    &&& !is_nan(a)
    &&& !is_nan(b)
    &&& (a == b || (magnitude(a) == 0 && magnitude(b) == 0))
}

fn magnitude_of(bits: u64) -> (m: u64)
    ensures
        m == magnitude(bits),
{
    if bits >= 0x8000_0000_0000_0000 {
        bits - 0x8000_0000_0000_0000
    } else {
        bits
    }
}

/// Decides numeric equality of two patterns.
pub fn scalar_eq(a: u64, b: u64) -> (r: bool)
    ensures
        r == same_number(a, b),
{
    let ma: u64 = magnitude_of(a);
    let mb: u64 = magnitude_of(b);
    if ma > 0x7FF0_0000_0000_0000 || mb > 0x7FF0_0000_0000_0000 {
        false
    } else {
        a == b || (ma == 0 && mb == 0)
    }
}

} // verus!
