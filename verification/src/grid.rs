//! The 8×8 grid that the LED matrix shows and the joystick's cursor walks.

use vstd::prelude::*;

verus! {

/// Pixels per row, and rows per frame.
pub const GRID: usize = 8;

/// Whether (x, y) names a place on the grid. (0, 0) is the top left corner.
pub open spec fn in_grid(x: int, y: int) -> bool {
    0 <= x < GRID && 0 <= y < GRID
}

} // verus!
