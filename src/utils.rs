//! Small numeric helpers on binary64 bit patterns.
use vstd::prelude::*;

use crate::float_bits::{float_lt, float_lt_spec, is_nan_spec, ordinal};

verus! {

/// `x` held within `[min, max]`: `min` when `x < min`, `max` when `x > max`, `x`
/// itself otherwise (a NaN `x` comes back unchanged).
pub fn clamp(x: u64, min: u64, max: u64) -> (r: u64)
    ensures
        r == (if float_lt_spec(x, min) {
            min
        } else if float_lt_spec(max, x) {
            max
        } else {
            x
        }),
        !is_nan_spec(x) && !is_nan_spec(min) && !is_nan_spec(max) && ordinal(min) <= ordinal(max)
            ==> ordinal(min) <= ordinal(r) <= ordinal(max),
{
    if float_lt(x, min) {
        return min;
    }
    if float_lt(max, x) {
        return max;
    }
    x
}

} // verus!
