//! Saturating arithmetic used by the aggregation engines.
//!
//! Recording must never panic, so every accumulator update clips to the
//! representable range instead of overflowing.

use vstd::prelude::*;

verus! {

/// Signed addition clipped to the range of `i64`.
pub open spec fn sat_add_i64(a: int, b: int) -> int {
    if a + b > i64::MAX as int {
        i64::MAX as int
    } else if a + b < i64::MIN as int {
        i64::MIN as int
    } else {
        a + b
    }
}

/// Increment that sticks at `u64::MAX` instead of wrapping.
pub open spec fn sat_inc_u64(c: int) -> int {
    if c + 1 > u64::MAX as int {
        u64::MAX as int
    } else {
        c + 1
    }
}

/// Saturating signed addition.
pub fn add_sat(a: i64, b: i64) -> (r: i64)
    ensures
        r as int == sat_add_i64(a as int, b as int),
{
    if b >= 0 {
        if a <= i64::MAX - b {
            a + b
        } else {
            i64::MAX
        }
    } else {
        if a >= i64::MIN - b {
            a + b
        } else {
            i64::MIN
        }
    }
}

/// Saturating increment of an event counter.
pub fn inc_sat(c: u64) -> (r: u64)
    ensures
        r as int == sat_inc_u64(c as int),
{
    if c < u64::MAX {
        c + 1
    } else {
        c
    }
}

} // verus!
