//! Fixed-point units and the two range operations the simulation is built on.

use vstd::prelude::*;

verus! {

/// Number of fixed-point units in one pixel. Coordinates, sizes and speeds are
/// whole numbers of units; speeds are units per frame.
pub const UNIT: i32 = 1000;

/// `value` limited to the interval `[low, high]`.
pub open spec fn clamp(value: int, low: int, high: int) -> int {
    if value < low {
        low
    } else if value > high {
        high
    } else {
        value
    }
}

/// `value` limited to what a coordinate can hold.
pub open spec fn saturate(value: int) -> int {
    clamp(value, i32::MIN as int, i32::MAX as int)
}

/// Limits `value` to `[low, high]`.
pub fn clamp_to(value: i64, low: i32, high: i32) -> (limited: i32)
    requires
        low <= high,
    ensures
        limited == clamp(value as int, low as int, high as int),
{
    if value < low as i64 {
        low
    } else if value > high as i64 {
        high
    } else {
        value as i32
    }
}

/// Limits `value` to the coordinate range.
pub fn saturating(value: i64) -> (limited: i32)
    ensures
        limited == saturate(value as int),
{
    clamp_to(value, i32::MIN, i32::MAX)
}

} // verus!
