//! Rectangles with sides of whole length.

use vstd::prelude::*;

verus! {

/// A rectangle by its width and its height.
#[derive(Clone, Copy, Debug, PartialEq, Eq, Structural)]
pub struct Rectangle {
    pub width: u32,
    pub height: u32,
}

impl Rectangle {
    /// The area, which has to fit in a `u32`.
    pub fn area(&self) -> (area: u32)
        requires
            self.width * self.height <= u32::MAX,
        ensures
            area == self.width * self.height,
    {
        self.width * self.height
    }

    /// Whether `other` fits inside this rectangle with room to spare on every side:
    /// this one is both wider and higher.
    pub fn can_hold(&self, other: &Rectangle) -> (holds: bool)
        ensures
            holds <==> self.width > other.width && self.height > other.height,
    {
        self.width > other.width && self.height > other.height
    }

    /// The square with sides of length `size`.
    pub fn square(size: u32) -> (square: Rectangle)
        ensures
            square.width == size,
            square.height == size,
    {
        Rectangle { width: size, height: size }
    }
}

/// The area of `rect`, which has to fit in a `u32`.
pub fn area(rect: &Rectangle) -> (area: u32)
    requires
        rect.width * rect.height <= u32::MAX,
    ensures
        area == rect.width * rect.height,
{
    rect.width * rect.height
}

/// No rectangle holds itself, and of two rectangles at most one holds the other.
pub proof fn law_holding_is_strict(a: Rectangle, b: Rectangle)
    ensures
        !holds(a, a),
        !(holds(a, b) && holds(b, a)),
{
}

/// Holding carries over: what holds a rectangle holds everything that rectangle holds.
pub proof fn law_holding_is_transitive(a: Rectangle, b: Rectangle, c: Rectangle)
    requires
        holds(a, b),
        holds(b, c),
    ensures
        holds(a, c),
{
}

/// `outer` is wider and higher than `inner`.
pub open spec fn holds(outer: Rectangle, inner: Rectangle) -> bool {
    outer.width > inner.width && outer.height > inner.height
}

} // verus!
