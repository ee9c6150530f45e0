//! A pair of coordinates, each of a type of its own.

use vstd::prelude::*;

verus! {

/// A point with an `x` and a `y` that need not have the same type.
#[derive(Debug, PartialEq)]
pub struct Point<T, U> {
    pub x: T,
    pub y: U,
}

impl<T, U> Point<T, U> {
    /// The point with the given coordinates.
    pub fn new(x: T, y: U) -> (point: Point<T, U>)
        ensures
            point.x == x,
            point.y == y,
    {
        Point { x, y }
    }

    /// The point with the `x` of this point and the `y` of `other`.
    pub fn mixup<V, W>(self, other: Point<V, W>) -> (mixed: Point<T, W>)
        ensures
            mixed.x == self.x,
            mixed.y == other.y,
    {
        Point { x: self.x, y: other.y }
    }
}

impl Point<i32, i32> {
    /// The product of the two coordinates, which has to fit in an `i32`.
    pub fn sub(&self) -> (product: i32)
        requires
            i32::MIN <= self.x * self.y <= i32::MAX,
        ensures
            product == self.x * self.y,
    {
        self.x * self.y
    }
}

} // verus!
