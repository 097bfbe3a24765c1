//! Units, screen geometry and the small value types shared by the game.

use vstd::prelude::*;

verus! {

/// Number of length units in one pixel: lengths are counted in eighths of a pixel.
pub const SUBPIXELS: i64 = 8;

/// Width of the window (970 pixels).
pub const WINDOW_WIDTH: i64 = 7760;

/// Height of the window (700 pixels).
pub const WINDOW_HEIGHT: i64 = 5600;

/// Number of cells the window is divided into, in each direction.
pub const NUMBER_OF_CELLS: i64 = 16;

/// Width of one grid cell: the window width over the number of cells (60.625 pixels).
pub const CELL_WIDTH: i64 = 485;

/// Height of one grid cell: the window height over the number of cells (43.75 pixels).
pub const CELL_HEIGHT: i64 = 350;

/// Height of a brick and of the platform: four fifths of a cell (35 pixels).
pub const BRICK_HEIGHT: i64 = 280;

/// A point, or a displacement, on the screen.
#[derive(Clone, Copy, PartialEq, Eq, Debug, Structural)]
pub struct Point {
    pub x: i64,
    pub y: i64,
}

/// An axis-aligned rectangle on the screen: its corner and its size.
#[derive(Clone, Copy, PartialEq, Eq, Debug, Structural)]
pub struct Region {
    pub x: i64,
    pub y: i64,
    pub width: i64,
    pub height: i64,
}

/// `v` pinned into the range of `i64`.
pub open spec fn saturate(v: int) -> i64 {
    if v > i64::MAX {
        i64::MAX
    } else if v < i64::MIN {
        i64::MIN
    } else {
        v as i64
    }
}

/// `a + b`, pinned to the nearest end of the range of `i64` where it leaves it.
pub fn saturating_add(a: i64, b: i64) -> (r: i64)
    ensures
        r == saturate(a + b),
        i64::MIN <= a + b <= i64::MAX ==> r == a + b,
        a + b > i64::MAX ==> r == i64::MAX,
        a + b < i64::MIN ==> r == i64::MIN,
{
    if b > 0 && a > i64::MAX - b {
        i64::MAX
    } else if b < 0 && a < i64::MIN - b {
        i64::MIN
    } else {
        a + b
    }
}

/// The cells tile the window: `NUMBER_OF_CELLS` cells span its width and its
/// height, and a brick is four fifths of a cell high.
pub proof fn lemma_cells_tile_window()
    ensures
        CELL_WIDTH * NUMBER_OF_CELLS == WINDOW_WIDTH,
        CELL_HEIGHT * NUMBER_OF_CELLS == WINDOW_HEIGHT,
        BRICK_HEIGHT * 5 == CELL_HEIGHT * 4,
        WINDOW_WIDTH == 970 * SUBPIXELS,
        WINDOW_HEIGHT == 700 * SUBPIXELS,
{
}

/// Pinning a value into the range of `i64` keeps every value already in it
/// and sends the others to the nearer end.
pub proof fn lemma_saturate(v: int)
    ensures
        i64::MIN <= v <= i64::MAX ==> saturate(v) == v,
        v > i64::MAX ==> saturate(v) == i64::MAX,
        v < i64::MIN ==> saturate(v) == i64::MIN,
{
}

} // verus!
