//! The same computation as in `models`, in plain machine arithmetic.
use vstd::prelude::*;

verus! {

fn id(x: i32) -> (r: i32)
    ensures
        r == x,
{
    x
}

/// Computes `1 + x + -id(y + y)` with `x = 1 + 1`; every intermediate must
/// stay in the `i32` range.
pub fn example(y: i32) -> (r: i32)
    requires
        i32::MIN < 2 * y <= i32::MAX,
        3 - 2 * y <= i32::MAX,
    ensures
        r == 3 - 2 * y,
{
    let x: i32 = 1 + 1;
    let z = 1 + x + -id(y + y);
    z
}

} // verus!
