//! Positions in display coordinates.

use vstd::prelude::*;

verus! {

/// A position on the panel: `x` grows to the right, `y` grows downwards.
#[derive(Clone, Copy, Debug, PartialEq, Eq, Structural)]
pub struct Point {
    pub x: i32,
    pub y: i32,
}

impl Point {
    pub fn new(x: i32, y: i32) -> (p: Point)
        ensures
            p == (Point { x, y }),
    {
        Point { x, y }
    }
}

} // verus!
