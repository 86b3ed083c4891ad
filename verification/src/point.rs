//! A board-cell coordinate: an integer pair with value equality.

use vstd::prelude::*;

verus! {

/// A cell on the board, addressed by column `x` and row `y`.
/// Values are immutable: movement and food placement create new points.
#[derive(Clone, Copy, PartialEq, Eq, Structural, Debug)]
pub struct Point {
    pub x: i32,
    pub y: i32,
}

/// Whether `p` lies on a board of the given size, that is in
/// `[0, width) x [0, height)`.
pub open spec fn in_bounds(p: Point, width: i32, height: i32) -> bool {
    0 <= p.x && p.x < width && 0 <= p.y && p.y < height
}

} // verus!
