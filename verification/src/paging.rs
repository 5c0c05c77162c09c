//! Page-size and page-number clamping.

use vstd::prelude::*;

verus! {

/// The value of `i` limited from below by `min`.
pub open spec fn clamped_min(i: int, min: int) -> int {
    if i < min {
        min
    } else {
        i
    }
}

/// The value of `i` limited to `[min, max]`; the upper limit wins when the
/// two limits cross.
pub open spec fn clamped(i: int, min: int, max: int) -> int {
    if i > max {
        max
    } else if i < min {
        min
    } else {
        i
    }
}

/// Raises `i` to `min` when it lies below it.
pub fn clamp_min(i: i32, min: i32) -> (r: i32)
    ensures
        r == clamped_min(i as int, min as int),
{
    if i < min {
        min
    } else {
        i
    }
}

/// Limits `i` to `[min, max]`.
pub fn clamp(i: i32, min: i32, max: i32) -> (r: i32)
    ensures
        r == clamped(i as int, min as int, max as int),
        min <= max ==> min <= r <= max,
{
    if i > max {
        max
    } else if i < min {
        min
    } else {
        i
    }
}

} // verus!
