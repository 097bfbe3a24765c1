//! Game logic of a brick-and-coin breakout game: the sprite layout, the
//! platform controls and the per-frame rules of the ball, the bricks and the
//! coins.
//!
//! All lengths are integers counting eighths of a pixel.  The window is
//! 970 x 700 pixels, split into 16 x 16 cells of 60.625 x 43.75 pixels, and
//! the platform and the ball move by whole pixels, so every length the game
//! computes with is a whole number of eighths: the integers stand exactly for
//! the pixel values the game draws with.  Where a position could leave the
//! range of `i64` (a ball flying off for ever) it stays at the end of the
//! range.

pub mod units;
pub mod sprites;
pub mod play;
pub mod game;
