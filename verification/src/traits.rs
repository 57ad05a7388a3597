//! Traits with associated types, operators on the crate's own types, and
//! text forms of values.

use std::ops::Add;
use vstd::prelude::*;
use vstd::std_specs::ops::AddSpecImpl;
use crate::decimal::{i32_text, signed_decimal};
use vstd::string::{StringExecFns, StringSliceAdditionalSpecFns};

verus! {

/// Something that yields items one after the other, of a type that each
/// implementation names.
pub trait Iterator {
    type Item;

    fn next(&mut self) -> Option<Self::Item>;
}

/// A counter that has not learned to count: it yields zero for ever.
pub struct Counter;

impl Iterator for Counter {
    type Item = u32;

    fn next(&mut self) -> (item: Option<u32>)
        ensures
            item == Some(0u32),
    {
        Some(0)
    }
}

/// A point in the plane.
#[derive(Debug, Copy, Clone, PartialEq)]
pub struct Point {
    pub x: i32,
    pub y: i32,
}

impl Add for Point {
    type Output = Point;

    /// The sum of two points, coordinate by coordinate.
    fn add(self, other: Point) -> (sum: Point) {
        Point { x: self.x + other.x, y: self.y + other.y }
    }
}

impl AddSpecImpl for Point {
    open spec fn obeys_add_spec() -> bool {
        true
    }

    /// Both sums of coordinates lie within `i32`.
    open spec fn add_req(self, other: Point) -> bool {
        &&& i32::MIN <= self.x + other.x <= i32::MAX
        &&& i32::MIN <= self.y + other.y <= i32::MAX
    }

    open spec fn add_spec(self, other: Point) -> Point {
        Point { x: (self.x + other.x) as i32, y: (self.y + other.y) as i32 }
    }
}

/// A length in millimetres.
pub struct Millimeters(pub u32);

/// A length in metres.
pub struct Meters(pub u32);

impl Add<Meters> for Millimeters {
    type Output = Millimeters;

    /// The sum of the two lengths, in millimetres.
    fn add(self, other: Meters) -> (sum: Millimeters) {
        Millimeters(self.0 + (other.0 * 1000))
    }
}

impl AddSpecImpl<Meters> for Millimeters {
    open spec fn obeys_add_spec() -> bool {
        true
    }

    /// The sum in millimetres lies within `u32`.
    open spec fn add_req(self, other: Meters) -> bool {
        self.0 + other.0 * 1000 <= u32::MAX
    }

    open spec fn add_spec(self, other: Meters) -> Millimeters {
        Millimeters((self.0 + other.0 * 1000) as u32)
    }
}

/// `unit` written `times` times in a row.
pub open spec fn repeat(unit: Seq<char>, times: nat) -> Seq<char>
    decreases times,
{
    if times == 0 {
        Seq::empty()
    } else {
        repeat(unit, (times - 1) as nat) + unit
    }
}

/// `unit` written `times` times in a row.
pub fn repeated(unit: &str, times: usize) -> (text: String)
    ensures
        text@ == repeat(unit@, times as nat),
{
    let mut text = String::new();
    let mut done: usize = 0;
    while done < times
        invariant
            done <= times,
            text@ == repeat(unit@, done as nat),
        decreases times - done,
    {
        text.append(unit);
        done += 1;
    }
    text
}

/// The five lines of a frame of stars around a text that is `width` wide.
pub open spec fn outline(text: Seq<char>, width: nat) -> Seq<Seq<char>> {
    seq![
        repeat("*"@, width + 4),
        "*"@ + repeat(" "@, width + 2) + "*"@,
        "* "@ + text + " *"@,
        "*"@ + repeat(" "@, width + 2) + "*"@,
        repeat("*"@, width + 4),
    ]
}

/// The lines that put a frame of stars around `text`. The frame is as wide
/// as the text is long in bytes, with a blank and a star on either side.
pub fn outline_lines(text: &str) -> (lines: Vec<String>)
    requires
        text.spec_bytes().len() + 4 <= usize::MAX,
    ensures
        lines@.map_values(|line: String| line@) == outline(text@, text.spec_bytes().len()),
{
    let len = text.as_bytes().len();
    let mut blank = String::from_str("*");
    blank.append(repeated(" ", len + 2).as_str());
    blank.append("*");
    let mut middle = String::from_str("* ");
    middle.append(text);
    middle.append(" *");
    let mut lines: Vec<String> = Vec::new();
    lines.push(repeated("*", len + 4));
    lines.push(blank.clone());
    lines.push(middle);
    lines.push(blank);
    lines.push(repeated("*", len + 4));
    assert(lines@.map_values(|line: String| line@) =~= outline(text@, text.spec_bytes().len()));
    lines
}

impl Point {
    /// The point written out: its two coordinates in decimal, with a comma
    /// and a blank between them, in round brackets.
    pub open spec fn written(self) -> Seq<char> {
        "("@ + signed_decimal(self.x as int) + ", "@ + signed_decimal(self.y as int) + ")"@
    }

    /// The point written out, as in `(1, 3)`.
    pub fn text(&self) -> (text: String)
        ensures
            text@ == self.written(),
    {
        let x = i32_text(self.x);
        let y = i32_text(self.y);
        let mut text = String::from_str("(");
        text.append(x.as_str());
        text.append(", ");
        text.append(y.as_str());
        text.append(")");
        text
    }
}

/// A list of strings with a text form of its own.
pub struct Wrapper(pub Vec<String>);

/// The items of `items` in a row, with `", "` between each two.
pub open spec fn joined(items: Seq<String>) -> Seq<char>
    decreases items.len(),
{
    if items.len() == 0 {
        Seq::empty()
    } else if items.len() == 1 {
        items[0]@
    } else {
        joined(items.drop_last()) + ", "@ + items.last()@
    }
}

impl Wrapper {
    /// The list written out: its items with `", "` between them, in square
    /// brackets.
    pub fn text(&self) -> (text: String)
        ensures
            text@ == "["@ + joined(self.0@) + "]"@,
    {
        let mut text = String::from_str("[");
        let mut at: usize = 0;
        while at < self.0.len()
            invariant
                at <= self.0@.len(),
                text@ == "["@ + joined(self.0@.take(at as int)),
            decreases self.0@.len() - at,
        {
            assert(self.0@.take(at + 1).drop_last() =~= self.0@.take(at as int));
            if at > 0 {
                text.append(", ");
            }
            text.append(self.0[at].as_str());
            at += 1;
        }
        assert(self.0@.take(at as int) =~= self.0@);
        text.append("]");
        text
    }
}

} // verus!
