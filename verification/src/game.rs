//! A simpler take on the game: a paddle steered by the arrow keys and a ball
//! drifting across the screen.

use vstd::prelude::*;

use crate::sprites::GPUSprite;
use crate::units::{saturate, saturating_add, Region};

verus! {

/// How far one press of an arrow key moves the paddle (5 pixels).
pub const PADDLE_MOVE_SPEED: i64 = 40;

/// How far the ball drifts in each direction per update (2 pixels).
pub const BALL_DRIFT: i64 = 16;

/// A key of the keyboard, as far as the game cares.
#[derive(Clone, Copy, PartialEq, Eq, Debug, Structural)]
pub enum Key {
    Left,
    Right,
    Other,
}

/// The paddle and the ball.
pub struct Game {
    pub paddle: GPUSprite,
    pub ball: GPUSprite,
}

/// `sprite` moved by `dx` to the right and `dy` up.
pub open spec fn shifted(sprite: GPUSprite, dx: int, dy: int) -> GPUSprite {
    GPUSprite {
        screen_region: Region {
            x: saturate(sprite.screen_region.x + dx),
            y: saturate(sprite.screen_region.y + dy),
            width: sprite.screen_region.width,
            height: sprite.screen_region.height,
        },
        sheet_region: sprite.sheet_region,
    }
}

fn shift(sprite: GPUSprite, dx: i64, dy: i64) -> (r: GPUSprite)
    ensures
        r == shifted(sprite, dx as int, dy as int),
{
    GPUSprite {
        screen_region: Region {
            x: saturating_add(sprite.screen_region.x, dx),
            y: saturating_add(sprite.screen_region.y, dy),
            width: sprite.screen_region.width,
            height: sprite.screen_region.height,
        },
        sheet_region: sprite.sheet_region,
    }
}

impl Game {
    /// A game whose paddle is the first sprite and whose ball is the second.
    pub fn new(sprites: Vec<GPUSprite>) -> (g: Game)
        requires
            sprites.len() >= 2,
        ensures
            g.paddle == sprites@[0],
            g.ball == sprites@[1],
    {
        Game { paddle: sprites[0], ball: sprites[1] }
    }

    /// Moves the ball one step up and to the right; the paddle stays.
    pub fn update(&mut self)
        ensures
            final(self).ball == shifted(old(self).ball, BALL_DRIFT as int, BALL_DRIFT as int),
            final(self).paddle == old(self).paddle,
            old(self).ball.screen_region.x + 16 <= i64::MAX ==> final(self).ball.screen_region.x
                == old(self).ball.screen_region.x + 16,
            old(self).ball.screen_region.y + 16 <= i64::MAX ==> final(self).ball.screen_region.y
                == old(self).ball.screen_region.y + 16,
            final(self).ball.screen_region.width == old(self).ball.screen_region.width,
            final(self).ball.screen_region.height == old(self).ball.screen_region.height,
            final(self).ball.sheet_region == old(self).ball.sheet_region,
    {
        self.ball = shift(self.ball, BALL_DRIFT, BALL_DRIFT);
    }

    /// Moves the paddle one step left for the left arrow key, one step right
    /// for the right arrow key; other keys change nothing.
    pub fn input(&mut self, key: Key)
        ensures
            final(self).ball == old(self).ball,
            key == Key::Left ==> final(self).paddle == shifted(old(self).paddle, -PADDLE_MOVE_SPEED, 0),
            key == Key::Right ==> final(self).paddle == shifted(old(self).paddle, PADDLE_MOVE_SPEED as int, 0),
            key == Key::Other ==> final(self).paddle == old(self).paddle,
            final(self).paddle.screen_region.y == old(self).paddle.screen_region.y,
            final(self).paddle.screen_region.width == old(self).paddle.screen_region.width,
            final(self).paddle.screen_region.height == old(self).paddle.screen_region.height,
            final(self).paddle.sheet_region == old(self).paddle.sheet_region,
            key == Key::Left && old(self).paddle.screen_region.x >= i64::MIN + 40
                ==> final(self).paddle.screen_region.x == old(self).paddle.screen_region.x - 40,
            key == Key::Right && old(self).paddle.screen_region.x <= i64::MAX - 40
                ==> final(self).paddle.screen_region.x == old(self).paddle.screen_region.x + 40,
    {
        match key {
            Key::Left => {
                self.paddle = shift(self.paddle, -PADDLE_MOVE_SPEED, 0);
            },
            Key::Right => {
                self.paddle = shift(self.paddle, PADDLE_MOVE_SPEED, 0);
            },
            Key::Other => {},
        }
    }

    /// Draws the game: this take on the game draws nothing.
    pub fn render(&self) {
    }
}

/// The ball after `n` updates.
pub open spec fn drifted(ball: GPUSprite, n: nat) -> GPUSprite
    decreases n,
{
    if n == 0 {
        ball
    } else {
        shifted(drifted(ball, (n - 1) as nat), BALL_DRIFT as int, BALL_DRIFT as int)
    }
}

/// `n` updates move the ball `n * BALL_DRIFT` up and `n * BALL_DRIFT` to the
/// right, as long as that stays within the range of `i64`; nothing else of
/// the ball changes.
pub proof fn lemma_updates_drift(ball: GPUSprite, n: nat)
    requires
        ball.screen_region.x + n * BALL_DRIFT <= i64::MAX,
        ball.screen_region.y + n * BALL_DRIFT <= i64::MAX,
    ensures
        drifted(ball, n).screen_region == (Region {
            x: (ball.screen_region.x + n * BALL_DRIFT) as i64,
            y: (ball.screen_region.y + n * BALL_DRIFT) as i64,
            width: ball.screen_region.width,
            height: ball.screen_region.height,
        }),
        drifted(ball, n).sheet_region == ball.sheet_region,
    decreases n,
{
    if n > 0 {
        lemma_updates_drift(ball, (n - 1) as nat);
    }
}

/// Shifting a sprite moves its corner by `(dx, dy)`, as far as the range of
/// `i64` allows, and keeps its size and picture: in particular a shift with
/// `dy == 0` leaves its height on the screen where it was.
pub proof fn lemma_shifted_moves_corner(sprite: GPUSprite, dx: int, dy: int)
    ensures
        i64::MIN <= sprite.screen_region.x + dx <= i64::MAX ==> shifted(sprite, dx, dy).screen_region.x
            == sprite.screen_region.x + dx,
        i64::MIN <= sprite.screen_region.y + dy <= i64::MAX ==> shifted(sprite, dx, dy).screen_region.y
            == sprite.screen_region.y + dy,
        shifted(sprite, dx, 0).screen_region.y == sprite.screen_region.y,
        shifted(sprite, 0, dy).screen_region.x == sprite.screen_region.x,
        shifted(sprite, dx, dy).screen_region.width == sprite.screen_region.width,
        shifted(sprite, dx, dy).screen_region.height == sprite.screen_region.height,
        shifted(sprite, dx, dy).sheet_region == sprite.sheet_region,
{
}

} // verus!
