//! The successor of a number.

use vstd::prelude::*;

verus! {

/// `x` plus one. The caller keeps the result within `i32`.
pub fn add_one(x: i32) -> (sum: i32)
    requires
        x < i32::MAX,
    ensures
        sum == x + 1,
{
    x + 1
}

} // verus!
