//! Functions that take and give functions.

use vstd::prelude::*;

verus! {

/// `x` plus one. The caller keeps the result within `i32`.
pub fn add_one(x: i32) -> (sum: i32)
    requires
        x < i32::MAX,
    ensures
        sum == x + 1,
{
    x + 1
}

/// Applies `f` to `arg` twice and adds what came back. The caller sees to it
/// that `f` takes `arg` and that no two of its answers add up beyond `i32`.
pub fn do_twice<F: Fn(i32) -> i32>(f: F, arg: i32) -> (sum: i32)
    requires
        call_requires(f, (arg,)),
        forall|first: i32, second: i32|
            call_ensures(f, (arg,), first) && call_ensures(f, (arg,), second) ==> i32::MIN <= first
                + second <= i32::MAX,
    ensures
        exists|first: i32, second: i32|
            call_ensures(f, (arg,), first) && call_ensures(f, (arg,), second) && sum == first
                + second,
{
    let first = f(arg);
    let second = f(arg);
    first + second
}

/// What a step hands on: a value, or the word to stop.
pub enum Status {
    Value(u32),
    Stop,
}

/// A function that adds one to any number below the largest.
pub fn returns_closure() -> (f: impl Fn(i32) -> i32)
    ensures
        forall|x: i32| x < i32::MAX ==> call_requires(f, (x,)),
        forall|x: i32, y: i32| call_ensures(f, (x,), y) ==> y == x + 1,
{
    |x: i32| -> (y: i32)
        requires
            x < i32::MAX,
        ensures
            y == x + 1,
        { x + 1 }
}

} // verus!
