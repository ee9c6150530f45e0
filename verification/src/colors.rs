//! Colors of the red, yellow and blue model, and a helper that counts one up.

use vstd::prelude::*;

verus! {

/// The primary colors of the red, yellow and blue model.
#[derive(Clone, Copy, Debug, PartialEq, Eq, Structural)]
pub enum PrimaryColor {
    Red,
    Yellow,
    Blue,
}

/// The secondary colors of the red, yellow and blue model.
#[derive(Clone, Copy, Debug, PartialEq, Eq, Structural)]
pub enum SecondaryColor {
    Orange,
    Green,
    Purple,
}

/// One more than `x`, which must not be the largest `i32`.
pub fn add_one(x: i32) -> (next: i32)
    requires
        x < i32::MAX,
    ensures
        next == x + 1,
{
    x + 1
}

/// Mixes two primary colors in equal amounts. So far every mix comes out orange,
/// whatever goes in.
pub fn mix(c1: PrimaryColor, c2: PrimaryColor) -> (mixed: SecondaryColor)
    ensures
        mixed == SecondaryColor::Orange,
{
    SecondaryColor::Orange
}

} // verus!
