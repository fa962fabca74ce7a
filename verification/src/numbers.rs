//! Small integer helpers.

use vstd::prelude::*;

verus! {

/// Multiplies `x` by five.
pub fn five_times(x: i32) -> (r: i32)
    requires
        i32::MIN <= 5 * x <= i32::MAX,
    ensures
        r == 5 * x,
{
    x * 5
}

} // verus!
