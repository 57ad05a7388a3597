//! What the kitchen offers.

use vstd::prelude::*;
use vstd::string::StringExecFns;

verus! {

/// A breakfast: the guest picks the bread, the kitchen picks the fruit.
pub struct Breakfast {
    pub toast: String,
    seasonal_fruit: String,
}

impl Breakfast {
    /// The bread that the guest picked.
    pub closed spec fn bread(&self) -> Seq<char> {
        self.toast@
    }

    /// The fruit that comes with this breakfast.
    pub closed spec fn fruit(&self) -> Seq<char> {
        self.seasonal_fruit@
    }

    /// A summer breakfast with the toast of the guest's choice. In summer
    /// the fruit is peaches.
    pub fn summer(toast: &str) -> (meal: Breakfast)
        ensures
            meal.bread() == toast@,
            meal.fruit() == "peaches"@,
    {
        Breakfast { toast: String::from_str(toast), seasonal_fruit: String::from_str("peaches") }
    }
}

/// What may come before the meal.
#[derive(Clone, Copy, Debug, PartialEq, Eq, Structural)]
pub enum Appetizer {
    Soup,
    Salad,
}

} // verus!
