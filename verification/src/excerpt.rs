//! An excerpt that borrows from the text it was taken from, and the longer
//! of two strings.

use vstd::prelude::*;
use vstd::string::StringSliceAdditionalSpecFns;

verus! {

/// A part of a text, borrowed for as long as the text lives.
pub struct ImportantExcerpt<'a> {
    pub part: &'a str,
}

impl<'a> ImportantExcerpt<'a> {
    /// How important an excerpt is: always 3.
    pub fn level(&self) -> (level: i32)
        ensures
            level == 3,
    {
        3
    }
}

/// The longer of two strings by their length in bytes, and the second where
/// the two are equally long.
pub fn longest<'a>(x: &'a str, y: &'a str) -> (longer: &'a str)
    ensures
        longer@ == (if y.spec_bytes().len() < x.spec_bytes().len() {
            x@
        } else {
            y@
        }),
{
    if y.as_bytes().len() < x.as_bytes().len() {
        x
    } else {
        y
    }
}

} // verus!
