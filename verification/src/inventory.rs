//! A shirt company's giveaway: a customer gets the colour they like, or
//! else the colour of which the company has most.

use vstd::prelude::*;

verus! {

/// The colours in which the shirts come.
#[derive(Clone, Copy, Debug, PartialEq, Eq, Structural)]
pub enum ShirtColor {
    Red,
    Blue,
}

/// The number of shirts of the colour `color` among `shirts`.
pub open spec fn count(shirts: Seq<ShirtColor>, color: ShirtColor) -> nat
    decreases shirts.len(),
{
    if shirts.len() == 0 {
        0
    } else {
        count(shirts.drop_last(), color) + (if shirts.last() == color {
            1nat
        } else {
            0nat
        })
    }
}

/// The colour of which `shirts` holds most, and blue where there are as
/// many of the one as of the other.
pub open spec fn most_stocked(shirts: Seq<ShirtColor>) -> ShirtColor {
    if count(shirts, ShirtColor::Blue) < count(shirts, ShirtColor::Red) {
        ShirtColor::Red
    } else {
        ShirtColor::Blue
    }
}

/// The shirts in stock.
pub struct Inventory {
    pub shirts: Vec<ShirtColor>,
}

impl Inventory {
    /// The shirt that a customer gets: of the colour they prefer, if they
    /// prefer one, and else of the colour that is stocked most.
    pub fn giveaway(&self, user_preference: Option<ShirtColor>) -> (given: ShirtColor)
        ensures
            given == (match user_preference {
                Some(color) => color,
                None => most_stocked(self.shirts@),
            }),
    {
        match user_preference {
            Some(color) => color,
            None => self.most_stocked(),
        }
    }

    /// The colour of which most shirts are in stock; blue on a tie.
    pub fn most_stocked(&self) -> (color: ShirtColor)
        ensures
            color == most_stocked(self.shirts@),
    {
        let mut num_red: usize = 0;
        let mut num_blue: usize = 0;
        let mut at: usize = 0;
        while at < self.shirts.len()
            invariant
                at <= self.shirts@.len(),
                num_red == count(self.shirts@.take(at as int), ShirtColor::Red),
                num_blue == count(self.shirts@.take(at as int), ShirtColor::Blue),
                num_red <= at,
                num_blue <= at,
            decreases self.shirts@.len() - at,
        {
            assert(self.shirts@.take(at + 1).drop_last() =~= self.shirts@.take(at as int));
            match self.shirts[at] {
                ShirtColor::Red => {
                    num_red += 1;
                },
                ShirtColor::Blue => {
                    num_blue += 1;
                },
            }
            at += 1;
        }
        assert(self.shirts@.take(at as int) =~= self.shirts@);
        if num_blue < num_red {
            ShirtColor::Red
        } else {
            ShirtColor::Blue
        }
    }
}

} // verus!
