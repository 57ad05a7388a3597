//! Small arithmetic helpers, a rectangle that can hold another, a greeting
//! and a range-checked guess.

use vstd::prelude::*;
use vstd::string::StringExecFns;

verus! {

/// Sum of two unsigned numbers. The caller keeps the sum within `u64`.
pub fn add(left: u64, right: u64) -> (sum: u64)
    requires
        left + right <= u64::MAX,
    ensures
        sum == left + right,
{
    left + right
}

/// A rectangle with sides of whole length.
#[derive(Debug)]
pub struct Rectangle {
    pub width: u32,
    pub height: u32,
}

impl Rectangle {
    /// Whether `other` fits inside this rectangle with room to spare on
    /// both sides, without being turned.
    pub fn can_hold(&self, other: &Rectangle) -> (holds: bool)
        ensures
            holds == (other.width < self.width && other.height < self.height),
    {
        other.width < self.width && other.height < self.height
    }
}

/// `a` plus two. The caller keeps the result within `i32`.
pub fn add_two(a: i32) -> (sum: i32)
    requires
        a + 2 <= i32::MAX,
    ensures
        sum == a + 2,
{
    a + 2
}

/// The characters of the greeting for `name`.
pub open spec fn greeting_text(name: Seq<char>) -> Seq<char> {
    "Hello "@ + name + "!"@
}

/// A greeting that addresses `name`.
pub fn greeting(name: &str) -> (text: String)
    ensures
        text@ == greeting_text(name@),
{
    let mut text = String::from_str("Hello ");
    text.append(name);
    text.append("!");
    text
}

/// A guess that is known to lie between 1 and 100.
pub struct Guess {
    value: i32,
}

impl View for Guess {
    type V = int;

    closed spec fn view(&self) -> int {
        self.value as int
    }
}

impl Guess {
    /// Every guess lies between 1 and 100.
    pub closed spec fn wf(&self) -> bool {
        1 <= self.value <= 100
    }

    /// Wraps `value`, which lies between 1 and 100.
    pub fn new(value: i32) -> (guess: Guess)
        requires
            1 <= value <= 100,
        ensures
            guess.wf(),
            guess@ == value,
    {
        Guess { value }
    }
}

} // verus!
