//! Adds one to the number given.

use vstd::prelude::*;

verus! {

/// Adds one to the number given. The caller keeps the result within `i32`:
/// for `5` the answer is `6`.
pub fn add_one(x: i32) -> (sum: i32)
    requires
        x < i32::MAX,
    ensures
        sum == x + 1,
{
    x + 1
}

} // verus!
