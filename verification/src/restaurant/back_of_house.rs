//! The kitchen.

use vstd::prelude::*;
use vstd::string::*;

verus! {

/// A breakfast. The guest picks the toast; the fruit is whatever is in season.
pub struct Breakfest {
    pub toast: String,
    seasonal_fruit: String,
}

impl Breakfest {
    /// The toast that was asked for.
    pub closed spec fn bread(&self) -> Seq<char> {
        self.toast@
    }

    /// The fruit that comes with the breakfast.
    pub closed spec fn fruit(&self) -> Seq<char> {
        self.seasonal_fruit@
    }

    /// The summer breakfast: the toast asked for, with peaches.
    pub fn summer(toast: &str) -> (meal: Breakfest)
        ensures
            meal.bread() == toast@,
            meal.fruit() == "peaches"@,
    {
        Breakfest { toast: String::from_str(toast), seasonal_fruit: String::from_str("peaches") }
    }

    /// Changes the toast to `toast`. The fruit stays.
    pub fn change_toast(&mut self, toast: &str)
        ensures
            final(self).bread() == toast@,
            final(self).fruit() == old(self).fruit(),
    {
        self.toast = String::from_str(toast);
    }

    /// The fruit that comes with the breakfast.
    pub fn seasonal_fruit(&self) -> (fruit: &str)
        ensures
            fruit@ == self.fruit(),
    {
        self.seasonal_fruit.as_str()
    }
}

/// Something to start with.
#[derive(Clone, Copy, Debug, PartialEq, Eq, Structural)]
pub enum Appetizer {
    Soup,
    Salad,
}

/// Cooks an order again and has it served.
pub fn fix_incorrect_order() {
    cook_order();
    crate::restaurant::server_order();
}

/// Cooks an order.
pub fn cook_order() {
}

} // verus!
