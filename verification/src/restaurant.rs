//! A restaurant: the front of the house takes guests in, the back of the house cooks.

use vstd::prelude::*;
use crate::restaurant::back_of_house::{Appetizer, Breakfest};
use crate::restaurant::front_of_house::hosting;

pub mod back_of_house;
pub mod front_of_house;

verus! {

/// Puts a party on the waiting list, twice over.
pub fn eat_at_restaraunt() {
    crate::restaurant::front_of_house::hosting::add_to_waitlist();
    front_of_house::hosting::add_to_waitlist();
}

/// Serves an order that is ready.
pub fn server_order() {
}

/// Orders the summer breakfast with a hamburger bun and then asks for wheat toast
/// instead. The fruit is the kitchen's choice and cannot be changed from here.
pub fn eat_at_restaraunt_2() {
    let mut meal = Breakfest::summer("Hamburger");
    meal.change_toast("Wheat");
}

/// Orders a soup and a salad.
pub fn eat_at_restaraunt_3() {
    let _order1 = Appetizer::Soup;
    let _order2 = Appetizer::Salad;
}

/// Puts a party on the waiting list, twice over.
pub fn eat_at_restaraunt_4() {
    front_of_house::hosting::add_to_waitlist();
    hosting::add_to_waitlist();
}

} // verus!
