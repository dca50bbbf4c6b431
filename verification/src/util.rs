//! Small helpers shared across the crate.

use vstd::prelude::*;

verus! {

/// Signed addition clamped to the `i32` range.
pub open spec fn spec_sat_add_i32(a: int, b: int) -> int {
    if a + b > i32::MAX {
        i32::MAX as int
    } else if a + b < i32::MIN {
        i32::MIN as int
    } else {
        a + b
    }
}

/// Adds two `i32` values, clamping the result to the `i32` range.
pub fn sat_add_i32(a: i32, b: i32) -> (r: i32)
    ensures
        r as int == spec_sat_add_i32(a as int, b as int),
{
    let wide: i64 = (a as i64) + (b as i64);
    if wide > i32::MAX as i64 {
        i32::MAX
    } else if wide < i32::MIN as i64 {
        i32::MIN
    } else {
        wide as i32
    }
}

/// True exactly when every bit of `flag` is set in `bitset`.
pub fn has_flag(bitset: u64, flag: u64) -> (r: bool)
    ensures
        r == (bitset & flag == flag),
{
    bitset & flag == flag
}

} // verus!
