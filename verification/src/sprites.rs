//! The sprites of the game: what they look like, where the bricks and coins
//! are laid out, and how the platform moves.

use rand::Rng;
use vstd::prelude::*;

use crate::units::{
    Point, Region, BRICK_HEIGHT, CELL_HEIGHT, CELL_WIDTH, WINDOW_HEIGHT, WINDOW_WIDTH,
};

verus! {

/// Which picture of the sprite sheet a sprite is drawn with.  The game also
/// keeps one of these per sprite to know what the sprite stands for.
#[derive(Clone, Copy, PartialEq, Eq, Debug, Structural)]
pub enum SpriteKind {
    Brick,
    Ball,
    Coin,
}

/// A sprite: the part of the screen it covers and the picture it shows.
#[derive(Clone, Copy, PartialEq, Eq, Debug, Structural)]
pub struct GPUSprite {
    pub screen_region: Region,
    pub sheet_region: SpriteKind,
}

/// The camera: the corner and the size of the visible part of the world.
#[derive(Clone, Copy, PartialEq, Eq, Debug, Structural)]
pub struct GPUCamera {
    pub screen_pos: Point,
    pub screen_size: Point,
}

/// How the sprites are handed to the vertex shader.
#[derive(Clone, Copy, PartialEq, Eq, Debug, Structural)]
pub enum SpriteOption {
    Storage,
    Uniform,
    VertexBuffer,
}

/// Number of rows of bricks.
pub const BRICK_ROWS: usize = 5;

/// Number of bricks in a row: one more than the number of cells, so that the
/// row reaches past the right edge of the window.
pub const BRICK_COLUMNS: usize = 17;

/// Number of bricks and coins laid out under the top of the window.
pub const BRICK_COUNT: usize = 85;

/// A layout holds at most this many coins.
pub const MAX_COINS: usize = 5;

/// A cell turns into a coin (while fewer than `MAX_COINS` coins are laid out)
/// when its random draw is below this limit.  The draw stands for the uniform
/// float `(draw >> 8) / 2^24` in `[0, 1)`, and the cell is lucky when that
/// float is below `0.1f32`, that is when `draw >> 8 < 1677722`, that is when
/// `draw < 1677722 * 256`: about one cell in ten.
pub const COIN_DRAW_LIMIT: u32 = 429496832;

/// How far the platform moves in one frame while an arrow key is held (5 pixels).
pub const PLATFORM_STEP: i64 = 40;

/// Where the platform starts, and how wide it is.
pub open spec fn paddle_sprite() -> GPUSprite {
    GPUSprite {
        screen_region: Region {
            x: (WINDOW_WIDTH / 2) as i64,
            y: 240,
            width: (CELL_WIDTH * 2) as i64,
            height: BRICK_HEIGHT,
        },
        sheet_region: SpriteKind::Brick,
    }
}

/// Where the ball sprite is first drawn.
pub open spec fn ball_sprite() -> GPUSprite {
    GPUSprite {
        screen_region: Region { x: 1024, y: 4000, width: 624, height: 512 },
        sheet_region: SpriteKind::Ball,
    }
}

/// Whether a random draw makes its cell a coin, coins allowing.
pub open spec fn is_lucky(draw: u32) -> bool {
    draw < COIN_DRAW_LIMIT
}

/// The number of coins among the first `n` cells, given the draws of the cells.
pub open spec fn coins_among(draws: Seq<u32>, n: nat) -> nat
    decreases n,
{
    if n == 0 {
        0
    } else {
        let before = coins_among(draws, (n - 1) as nat);
        if is_lucky(draws[n - 1]) && before < MAX_COINS {
            before + 1
        } else {
            before
        }
    }
}

/// Whether cell `k` (counted row by row from the top left) holds a coin:
/// its draw is lucky and fewer than `MAX_COINS` coins come before it.
pub open spec fn is_coin_cell(draws: Seq<u32>, k: nat) -> bool {
    is_lucky(draws[k as int]) && coins_among(draws, k) < MAX_COINS
}

/// The sprite of cell `k`: the cell at row `k / BRICK_COLUMNS` and column
/// `k % BRICK_COLUMNS`, rows going down from the top of the window.  A coin
/// fills its whole cell; a brick four fifths of its height.
pub open spec fn brick_sprite(k: int, coin: bool) -> GPUSprite {
    let row = k / (BRICK_COLUMNS as int);
    let col = k % (BRICK_COLUMNS as int);
    GPUSprite {
        screen_region: Region {
            x: (col * CELL_WIDTH) as i64,
            y: (WINDOW_HEIGHT - row * CELL_HEIGHT) as i64,
            width: CELL_WIDTH,
            height: if coin {
                CELL_HEIGHT
            } else {
                BRICK_HEIGHT
            },
        },
        sheet_region: if coin {
            SpriteKind::Coin
        } else {
            SpriteKind::Brick
        },
    }
}

/// `sprites` and `kinds` are the layout that the draws `draws` give: the
/// platform, the ball, then one brick or coin per cell, and beside each sprite
/// the picture it shows.
pub open spec fn laid_out(draws: Seq<u32>, sprites: Seq<GPUSprite>, kinds: Seq<SpriteKind>) -> bool {
    &&& sprites.len() == 2 + BRICK_COUNT
    &&& kinds.len() == sprites.len()
    &&& sprites[0] == paddle_sprite()
    &&& sprites[1] == ball_sprite()
    &&& forall|i: int|
        2 <= i < sprites.len() ==> #[trigger] sprites[i] == brick_sprite(
            i - 2,
            is_coin_cell(draws, (i - 2) as nat),
        )
    &&& forall|i: int| 0 <= i < kinds.len() ==> #[trigger] kinds[i] == sprites[i].sheet_region
}

/// The number of coins among the first `n` entries of `kinds`.
pub open spec fn coin_total(kinds: Seq<SpriteKind>, n: nat) -> nat
    decreases n,
{
    if n == 0 {
        0
    } else {
        coin_total(kinds, (n - 1) as nat) + if kinds[n - 1] == SpriteKind::Coin {
            1nat
        } else {
            0nat
        }
    }
}

/// No draws give more than `MAX_COINS` coins.
pub proof fn lemma_coins_among_bounded(draws: Seq<u32>, n: nat)
    ensures
        coins_among(draws, n) <= MAX_COINS,
    decreases n,
{
    if n > 0 {
        lemma_coins_among_bounded(draws, (n - 1) as nat);
    }
}

/// The coins in the first `2 + k` sprites of a layout are the coins among its
/// first `k` cells.
proof fn lemma_coin_total_prefix(draws: Seq<u32>, sprites: Seq<GPUSprite>, kinds: Seq<SpriteKind>, k: nat)
    requires
        laid_out(draws, sprites, kinds),
        k <= BRICK_COUNT,
    ensures
        coin_total(kinds, 2 + k) == coins_among(draws, k),
    decreases k,
{
    if k == 0 {
        assert(kinds[0] == sprites[0].sheet_region);
        assert(kinds[1] == sprites[1].sheet_region);
        assert(coin_total(kinds, 0) == 0);
        assert(coin_total(kinds, 1) == 0);
    } else {
        lemma_coin_total_prefix(draws, sprites, kinds, (k - 1) as nat);
        let i = 2 + k - 1;
        assert(sprites[i] == brick_sprite(i - 2, is_coin_cell(draws, (i - 2) as nat)));
        assert(kinds[i] == sprites[i].sheet_region);
    }
}

/// Every layout holds at most `MAX_COINS` coins, and as many as its draws give.
pub proof fn lemma_layout_coin_count(draws: Seq<u32>, sprites: Seq<GPUSprite>, kinds: Seq<SpriteKind>)
    requires
        laid_out(draws, sprites, kinds),
    ensures
        coin_total(kinds, kinds.len()) == coins_among(draws, BRICK_COUNT as nat),
        coin_total(kinds, kinds.len()) <= MAX_COINS,
{
    lemma_coin_total_prefix(draws, sprites, kinds, BRICK_COUNT as nat);
    lemma_coins_among_bounded(draws, BRICK_COUNT as nat);
}

/// Draws a random `u32` from the thread-local generator of `rand`
/// (`rand::thread_rng().gen::<u32>()`).  Nothing is claimed of the value:
/// any `u32` may come back.
#[verifier::external_body]
fn random_draw() -> u32 {
    rand::thread_rng().gen::<u32>()
}

/// Whether a random draw makes its cell a coin (coins allowing).
pub fn is_lucky_draw(draw: u32) -> (r: bool)
    ensures
        r == is_lucky(draw),
        r == ((draw >> 8u32) < 1677722u32),
{
    proof {
        lemma_lucky_is_below_a_tenth(draw, draw);
    }
    draw < COIN_DRAW_LIMIT
}

/// Lays out the platform, the ball and the grid of bricks and coins, given one
/// random draw per cell.  Also returns, beside each sprite, what it stands for.
pub fn lay_out_sprites(draws: &Vec<u32>) -> (r: (Vec<GPUSprite>, Vec<SpriteKind>))
    requires
        draws.len() == BRICK_COUNT,
    ensures
        laid_out(draws@, r.0@, r.1@),
{
    let mut sprites: Vec<GPUSprite> = Vec::new();
    let mut kinds: Vec<SpriteKind> = Vec::new();
    sprites.push(
        GPUSprite {
            screen_region: Region {
                x: WINDOW_WIDTH / 2,
                y: 240,
                width: CELL_WIDTH * 2,
                height: BRICK_HEIGHT,
            },
            sheet_region: SpriteKind::Brick,
        },
    );
    kinds.push(SpriteKind::Brick);
    sprites.push(
        GPUSprite {
            screen_region: Region { x: 1024, y: 4000, width: 624, height: 512 },
            sheet_region: SpriteKind::Ball,
        },
    );
    kinds.push(SpriteKind::Ball);
    let mut coin_count: usize = 0;
    for k in 0..BRICK_COUNT
        invariant
            draws.len() == BRICK_COUNT,
            sprites.len() == 2 + k,
            kinds.len() == sprites.len(),
            coin_count == coins_among(draws@, k as nat),
            coin_count <= MAX_COINS,
            sprites@[0] == paddle_sprite(),
            sprites@[1] == ball_sprite(),
            forall|i: int|
                2 <= i < sprites.len() ==> #[trigger] sprites@[i] == brick_sprite(
                    i - 2,
                    is_coin_cell(draws@, (i - 2) as nat),
                ),
            forall|i: int| 0 <= i < kinds.len() ==> #[trigger] kinds@[i] == sprites@[i].sheet_region,
    {
        let row = k / BRICK_COLUMNS;
        let col = k % BRICK_COLUMNS;
        let x_position = (col as i64) * CELL_WIDTH;
        let y_position = WINDOW_HEIGHT - (row as i64) * CELL_HEIGHT;
        let lucky = is_lucky_draw(draws[k]);
        let coin = lucky && coin_count < MAX_COINS;
        let sprite = if coin {
            coin_count = coin_count + 1;
            GPUSprite {
                screen_region: Region {
                    x: x_position,
                    y: y_position,
                    width: CELL_WIDTH,
                    height: CELL_HEIGHT,
                },
                sheet_region: SpriteKind::Coin,
            }
        } else {
            GPUSprite {
                screen_region: Region {
                    x: x_position,
                    y: y_position,
                    width: CELL_WIDTH,
                    height: BRICK_HEIGHT,
                },
                sheet_region: SpriteKind::Brick,
            }
        };
        assert(sprite == brick_sprite(k as int, is_coin_cell(draws@, k as nat)));
        sprites.push(sprite);
        kinds.push(sprite.sheet_region);
    }
    (sprites, kinds)
}

/// Lays out the platform, the ball and the grid of bricks and coins, drawing
/// for each cell a fresh random number, as `lay_out_sprites` describes.
pub fn create_sprites() -> (r: (Vec<GPUSprite>, Vec<SpriteKind>))
    ensures
        exists|draws: Seq<u32>| draws.len() == BRICK_COUNT && #[trigger] laid_out(draws, r.0@, r.1@),
{
    let mut draws: Vec<u32> = Vec::new();
    for k in 0..BRICK_COUNT
        invariant
            draws.len() == k,
    {
        draws.push(random_draw());
    }
    lay_out_sprites(&draws)
}

/// Where the platform's left edge ends up after one frame: moved one step to
/// the left while the left arrow is held, one step to the right while the
/// right arrow is held, then pushed back onto the screen.
pub open spec fn platform_x_after(x: int, left_down: bool, right_down: bool) -> int {
    let moved = x - (if left_down {
        PLATFORM_STEP as int
    } else {
        0
    }) + (if right_down {
        PLATFORM_STEP as int
    } else {
        0
    });
    if moved < 0 {
        0
    } else if moved + CELL_WIDTH > WINDOW_WIDTH {
        WINDOW_WIDTH - CELL_WIDTH
    } else {
        moved
    }
}

/// Moves the platform for one frame, given whether the left and the right
/// arrow keys are held, and keeps its left edge on the screen with room for
/// one cell width to its right.
pub fn move_platform(left_down: bool, right_down: bool, platform_position: Point) -> (r: Point)
    ensures
        r.x == platform_x_after(platform_position.x as int, left_down, right_down),
        r.y == platform_position.y,
        0 <= r.x && r.x + CELL_WIDTH <= WINDOW_WIDTH,
        !left_down && !right_down && 0 <= platform_position.x && platform_position.x + CELL_WIDTH
            <= WINDOW_WIDTH ==> r == platform_position,
        left_down == right_down && 0 <= platform_position.x && platform_position.x + CELL_WIDTH
            <= WINDOW_WIDTH ==> r == platform_position,
        !left_down && right_down && 0 <= platform_position.x && platform_position.x + 40 + 485
            <= 7760 ==> r.x == platform_position.x + 40,
        left_down && !right_down && 40 <= platform_position.x && platform_position.x + 485
            <= 7760 ==> r.x == platform_position.x - 40,
        0 <= r.x <= 7275,
{
    let mut x: i128 = platform_position.x as i128;
    if left_down {
        x = x - PLATFORM_STEP as i128;
    }
    if right_down {
        x = x + PLATFORM_STEP as i128;
    }
    if x < 0 {
        x = 0;
    }
    if x + CELL_WIDTH as i128 > WINDOW_WIDTH as i128 {
        x = (WINDOW_WIDTH - CELL_WIDTH) as i128;
    }
    Point { x: x as i64, y: platform_position.y }
}

/// The name of the vertex shader entry point that reads the sprites the way
/// `option` hands them over.
pub fn vertex_entry_point(option: SpriteOption) -> (r: &'static str)
    ensures
        option == SpriteOption::Storage ==> r@ == "vs_storage_main"@,
        option == SpriteOption::Uniform ==> r@ == "vs_uniform_main"@,
        option == SpriteOption::VertexBuffer ==> r@ == "vs_vbuf_main"@,
{
    match option {
        SpriteOption::Storage => "vs_storage_main",
        SpriteOption::Uniform => "vs_uniform_main",
        SpriteOption::VertexBuffer => "vs_vbuf_main",
    }
}

/// Number of sprites a uniform buffer of sprites has room for.
pub const UNIFORM_SPRITE_CAPACITY: u64 = 512;

/// Size in bytes of the buffer that holds the sprites: room for
/// `UNIFORM_SPRITE_CAPACITY` sprites when they are handed over as a uniform
/// buffer, room for exactly the `sprite_count` sprites otherwise.
pub fn sprite_buffer_size(option: SpriteOption, sprite_count: usize, sprite_bytes: u64) -> (r: u64)
    requires
        UNIFORM_SPRITE_CAPACITY * sprite_bytes <= u64::MAX,
        sprite_count * sprite_bytes <= u64::MAX,
    ensures
        option == SpriteOption::Uniform ==> r == UNIFORM_SPRITE_CAPACITY * sprite_bytes,
        option != SpriteOption::Uniform ==> r == sprite_count * sprite_bytes,
        option == SpriteOption::Uniform ==> r == 512 * sprite_bytes,
{
    if option == SpriteOption::Uniform {
        UNIFORM_SPRITE_CAPACITY * sprite_bytes
    } else {
        sprite_count as u64 * sprite_bytes
    }
}

/// A draw is lucky exactly when the float it stands for, `(draw >> 8) / 2^24`,
/// is below `0.1f32`: when `draw >> 8` is below 1677722, the least integer
/// at or above `0.1f32 * 2^24`.  Smaller draws are at least as lucky.
pub proof fn lemma_lucky_is_below_a_tenth(draw: u32, other: u32)
    ensures
        is_lucky(draw) <==> (draw >> 8u32) < 1677722u32,
        other <= draw && is_lucky(draw) ==> is_lucky(other),
        !is_lucky(draw) <==> draw >= 429496832,
{
    assert(draw < 429496832u32 <==> (draw >> 8u32) < 1677722u32) by (bit_vector);
}

/// Where a layout puts its sprites: the platform and the ball first; then
/// the cell of row `r` and column `c` (rows counted down from the top of the
/// window, 17 cells to a row) at sprite `2 + 17 * r + c`, with its top left
/// corner at `(485 * c, 5600 - 350 * r)`, one cell wide, a coin a whole cell
/// high and a brick 280 high.  A cell is a coin exactly when its draw is
/// lucky and fewer than five coins come before it in the layout.
pub proof fn lemma_layout_places_cells(draws: Seq<u32>, sprites: Seq<GPUSprite>, kinds: Seq<SpriteKind>)
    requires
        laid_out(draws, sprites, kinds),
    ensures
        sprites.len() == 87,
        kinds.len() == 87,
        sprites[0] == (GPUSprite {
            screen_region: Region { x: 3880, y: 240, width: 970, height: 280 },
            sheet_region: SpriteKind::Brick,
        }),
        kinds[0] == SpriteKind::Brick,
        sprites[1] == (GPUSprite {
            screen_region: Region { x: 1024, y: 4000, width: 624, height: 512 },
            sheet_region: SpriteKind::Ball,
        }),
        kinds[1] == SpriteKind::Ball,
        forall|i: int| 2 <= i < 87 ==> #[trigger] cell_placed(draws, sprites, kinds, i),
{
    assert(kinds[0] == sprites[0].sheet_region);
    assert(kinds[1] == sprites[1].sheet_region);
    assert forall|i: int| 2 <= i < 87 implies cell_placed(draws, sprites, kinds, i) by {
        lemma_layout_cell(draws, sprites, kinds, i);
    }
}

/// Cell sprite `i` of a layout sits where `lemma_layout_places_cells` says.
pub open spec fn cell_placed(draws: Seq<u32>, sprites: Seq<GPUSprite>, kinds: Seq<SpriteKind>, i: int) -> bool {
    &&& sprites[i].screen_region.x == ((i - 2) % 17) * 485
    &&& sprites[i].screen_region.y == 5600 - ((i - 2) / 17) * 350
    &&& sprites[i].screen_region.width == 485
    &&& sprites[i].sheet_region == kinds[i]
    &&& kinds[i] == SpriteKind::Coin || kinds[i] == SpriteKind::Brick
    &&& kinds[i] == SpriteKind::Coin ==> sprites[i].screen_region.height == 350
    &&& kinds[i] == SpriteKind::Brick ==> sprites[i].screen_region.height == 280
    &&& (kinds[i] == SpriteKind::Coin <==> is_lucky(draws[i - 2]) && coin_total(kinds, i as nat) < 5)
}

proof fn lemma_layout_cell(draws: Seq<u32>, sprites: Seq<GPUSprite>, kinds: Seq<SpriteKind>, i: int)
    requires
        laid_out(draws, sprites, kinds),
        2 <= i < 87,
    ensures
        cell_placed(draws, sprites, kinds, i),
{
    assert(sprites[i] == brick_sprite(i - 2, is_coin_cell(draws, (i - 2) as nat)));
    assert(kinds[i] == sprites[i].sheet_region);
    lemma_coin_total_prefix(draws, sprites, kinds, (i - 2) as nat);
    let k = i - 2;
    assert(0 <= k % 17 < 17);
    assert(0 <= k / 17 < 5);
}

/// How the platform moves in one frame: one step of 40 towards the single
/// arrow key held, none when both or neither are held, and then it is pushed
/// back so that its left edge lies between 0 and 7275.
pub proof fn lemma_platform_steps(x: int, left_down: bool, right_down: bool)
    ensures
        0 <= platform_x_after(x, left_down, right_down) <= 7275,
        !left_down && right_down && 0 <= x <= 7235 ==> platform_x_after(x, left_down, right_down)
            == x + 40,
        left_down && !right_down && 40 <= x <= 7275 ==> platform_x_after(x, left_down, right_down)
            == x - 40,
        left_down == right_down && 0 <= x <= 7275 ==> platform_x_after(x, left_down, right_down)
            == x,
        !left_down && right_down && x > 7235 ==> platform_x_after(x, left_down, right_down) == 7275,
        left_down && !right_down && x < 40 ==> platform_x_after(x, left_down, right_down) == 0,
{
}

} // verus!
