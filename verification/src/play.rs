//! The rules of a game in progress: one call of `GameState::redraw` per
//! frame moves the platform and the ball, bounces the ball off the bricks,
//! the walls and the platform, erases the bricks it hits, collects the coins
//! among them and decides whether the game is lost or won.

use std::collections::HashMap;
use vstd::prelude::*;

use crate::sprites::{
    coin_total, create_sprites, laid_out, lemma_layout_coin_count, lemma_platform_steps, move_platform,
    platform_x_after, GPUSprite, SpriteKind, BRICK_COUNT, MAX_COINS,
};
use crate::units::{
    saturate, saturating_add, Point, Region, BRICK_HEIGHT, CELL_HEIGHT, CELL_WIDTH,
    WINDOW_HEIGHT, WINDOW_WIDTH,
};

verus! {

broadcast use vstd::std_specs::hash::group_hash_axioms;

/// The ball's horizontal speed, per frame, in either direction (3 pixels).
pub const BALL_SPEED_X: i64 = 24;

/// The ball's vertical speed, per frame, in either direction (7 pixels).
pub const BALL_SPEED_Y: i64 = 56;

/// How far the platform's collision zone reaches left of the platform (15 pixels).
pub const PLATFORM_MARGIN: i64 = 120;

/// The game is won once more than this many coins are collected.
pub const COINS_TO_WIN: usize = 4;

/// Where the platform starts.
pub open spec fn start_platform() -> Point {
    Point { x: (WINDOW_WIDTH / 2) as i64, y: 240 }
}

/// Where the ball starts: the middle of the window.
pub open spec fn start_ball() -> Point {
    Point { x: (WINDOW_WIDTH / 2) as i64, y: (WINDOW_HEIGHT / 2) as i64 }
}

/// The ball's starting speed, per frame: 3 pixels right and 7 pixels up.
pub open spec fn start_velocity() -> Point {
    Point { x: 24, y: 56 }
}

/// Something for the player to hear about.
#[derive(Clone, Copy, PartialEq, Eq, Debug, Structural)]
pub enum Notice {
    /// A coin was collected; the payload is the number of coins collected so far.
    CoinGained(usize),
    /// Enough coins are collected: the game is won.
    BricksSmashed,
}

/// How a game ended.
#[derive(Clone, Copy, PartialEq, Eq, Debug, Structural)]
pub enum Ending {
    GameOver,
    YouWon,
}

/// What a frame brings: the ending, when the game had already ended before
/// the frame (then nothing moved), and the notices of the frame, in order.
pub struct FrameReport {
    pub ending: Option<Ending>,
    pub notices: Vec<Notice>,
}

/// The state of a game in progress.
pub struct GameState {
    /// The platform, the ball, then the bricks and coins.
    pub sprites: Vec<GPUSprite>,
    /// What each sprite stands for.
    pub sprite_types: Vec<SpriteKind>,
    /// The coins collected so far, by sprite index.
    pub coin_dict: HashMap<usize, SpriteKind>,
    /// The number of coins collected so far.
    pub coin_gained: usize,
    pub platform_position: Point,
    pub ball_position: Point,
    pub ball_velocity: Point,
    pub game_over: bool,
    pub you_won: bool,
}

/// The ball moves `BALL_SPEED_X` sideways and `BALL_SPEED_Y` up or down per frame.
pub open spec fn speeds_kept(velocity: Point) -> bool {
    &&& velocity.x == BALL_SPEED_X || velocity.x == -BALL_SPEED_X
    &&& velocity.y == BALL_SPEED_Y || velocity.y == -BALL_SPEED_Y
}

/// Whether the ball, at `ball`, hits the brick drawn at `brick`: the ball is
/// level with or above the brick's bottom edge, strictly between its left
/// and right edges.
pub open spec fn collides(ball: Point, brick: Region) -> bool {
    &&& ball.y >= brick.y - CELL_HEIGHT
    &&& ball.x > brick.x
    &&& ball.x < brick.x + CELL_WIDTH
}

/// The number of sprites from index `i` on that the ball at `ball` hits.
pub open spec fn hits_from(ball: Point, sprites: Seq<GPUSprite>, i: int) -> nat
    decreases sprites.len() - i,
{
    if i < 0 || i >= sprites.len() {
        0
    } else {
        (if collides(ball, sprites[i].screen_region) {
            1nat
        } else {
            0nat
        }) + hits_from(ball, sprites, i + 1)
    }
}

/// Whether the ball, at `ball`, touches the platform at `platform`: strictly
/// inside the platform's height, and strictly between a point a little left
/// of the platform and two cell widths further right.
pub open spec fn platform_catches(platform: Point, ball: Point) -> bool {
    let bottom = platform.y;
    let top = bottom + BRICK_HEIGHT;
    let left = platform.x - PLATFORM_MARGIN;
    let right = left + CELL_WIDTH * 2;
    ball.y < top && ball.y > bottom && ball.x > left && ball.x < right
}

/// `v`, negated when `flip` holds.
pub open spec fn flip_if(v: i64, flip: bool) -> i64 {
    if flip {
        (-v) as i64
    } else {
        v
    }
}

/// `sprite` with the corner of its region moved to `p`.
pub open spec fn placed_at(sprite: GPUSprite, p: Point) -> GPUSprite {
    GPUSprite {
        screen_region: Region { x: p.x, y: p.y, ..sprite.screen_region },
        ..sprite
    }
}

/// The empty region a brick is left with once the ball has hit it.
pub open spec fn erased_region() -> Region {
    Region { x: 0, y: 0, width: 0, height: 0 }
}

/// Sprite `i >= 2` after a frame in which the ball is at `ball`: erased when
/// the ball hits it, unchanged otherwise.
pub open spec fn brick_after(ball: Point, sprite: GPUSprite) -> GPUSprite {
    if collides(ball, sprite.screen_region) {
        GPUSprite { screen_region: erased_region(), ..sprite }
    } else {
        sprite
    }
}

/// Whether sprite `k` is a coin that the ball at `ball` collects.
pub open spec fn coin_hit(ball: Point, sprites: Seq<GPUSprite>, kinds: Seq<SpriteKind>, k: usize) -> bool {
    &&& 2 <= k < sprites.len()
    &&& collides(ball, sprites[k as int].screen_region)
    &&& kinds[k as int] == SpriteKind::Coin
}

/// The notices of the coins counted from `from + 1` up to `to`.
pub open spec fn coin_notices(from: nat, to: nat) -> Seq<Notice> {
    Seq::new((to - from) as nat, |j: int| Notice::CoinGained((from + 1 + j) as usize))
}

impl GameState {
    /// The state is consistent: one kind per sprite, the platform and the
    /// ball first, the ball at its fixed speeds, and the coins collected are
    /// coin sprites, counted by `coin_gained`.
    pub open spec fn wf(&self) -> bool {
        &&& self.sprites.len() == self.sprite_types.len()
        &&& self.sprites.len() >= 2
        &&& speeds_kept(self.ball_velocity)
        &&& forall|k: usize| #[trigger]
            self.coin_dict@.contains_key(k) ==> 2 <= k < self.sprites.len()
                && self.sprite_types@[k as int] == SpriteKind::Coin && self.coin_dict@[k]
                == SpriteKind::Coin
        &&& self.coin_gained == self.coin_dict@.len()
    }

    /// A game about to start with the given sprites: the platform and the
    /// ball at their starting points, nothing collected.
    pub fn new(sprites: Vec<GPUSprite>, sprite_types: Vec<SpriteKind>) -> (s: GameState)
        requires
            sprites.len() == sprite_types.len(),
            sprites.len() >= 2,
        ensures
            s.wf(),
            s.sprites@ == sprites@,
            s.sprite_types@ == sprite_types@,
            s.coin_dict@ == Map::<usize, SpriteKind>::empty(),
            s.coin_gained == 0,
            s.platform_position == start_platform(),
            s.ball_position == start_ball(),
            s.ball_velocity == start_velocity(),
            !s.game_over,
            !s.you_won,
            s.platform_position == (Point { x: 3880, y: 240 }),
            s.ball_position == (Point { x: 3880, y: 2800 }),
            s.ball_velocity == (Point { x: 24, y: 56 }),
    {
        GameState {
            sprites,
            sprite_types,
            coin_dict: HashMap::new(),
            coin_gained: 0,
            platform_position: Point { x: WINDOW_WIDTH / 2, y: 240 },
            ball_position: Point { x: WINDOW_WIDTH / 2, y: WINDOW_HEIGHT / 2 },
            ball_velocity: Point { x: 24, y: 56 },
            game_over: false,
            you_won: false,
        }
    }

    /// A game about to start on a fresh random layout (see `create_sprites`).
    pub fn start() -> (s: GameState)
        ensures
            s.wf(),
            exists|draws: Seq<u32>|
                draws.len() == BRICK_COUNT && #[trigger] laid_out(draws, s.sprites@, s.sprite_types@),
            s.coin_dict@ == Map::<usize, SpriteKind>::empty(),
            s.coin_gained == 0,
            s.platform_position == start_platform(),
            s.ball_position == start_ball(),
            s.ball_velocity == start_velocity(),
            !s.game_over,
            !s.you_won,
    {
        let (sprites, sprite_types) = create_sprites();
        GameState::new(sprites, sprite_types)
    }
}


/// A set of indices all below `n` has at most `n` elements.
proof fn lemma_keys_below(keys: Set<usize>, n: nat)
    requires
        keys.finite(),
        n <= usize::MAX,
        forall|k: usize| #[trigger] keys.contains(k) ==> k < n,
    ensures
        keys.len() <= n,
    decreases n,
{
    if n == 0 {
        assert(keys =~= Set::empty());
    } else {
        let top = (n - 1) as usize;
        lemma_keys_below(keys.remove(top), (n - 1) as nat);
    }
}

/// The frame that `redraw` plays on a game still in progress: `s` is the
/// state before the frame, `t` the state after it, `notices` what it reports.
pub open spec fn played(
    s: GameState,
    t: GameState,
    left_down: bool,
    right_down: bool,
    notices: Seq<Notice>,
) -> bool {
    let platform = Point {
        x: platform_x_after(s.platform_position.x as int, left_down, right_down) as i64,
        y: s.platform_position.y,
    };
    let ball = Point {
        x: saturate(s.ball_position.x + s.ball_velocity.x),
        y: saturate(s.ball_position.y + s.ball_velocity.y),
    };
    let vy_bricks = flip_if(s.ball_velocity.y, hits_from(ball, s.sprites@, 2) % 2 == 1);
    let vy_walls = flip_if(vy_bricks, ball.y > WINDOW_HEIGHT);
    &&& t.platform_position == platform
    &&& t.ball_position == ball
    &&& t.ball_velocity == Point {
        x: flip_if(s.ball_velocity.x, ball.x < 0 || ball.x > WINDOW_WIDTH),
        y: flip_if(vy_walls, platform_catches(platform, ball)),
    }
    &&& t.sprites@.len() == s.sprites@.len()
    &&& t.sprites@[0] == placed_at(s.sprites@[0], platform)
    &&& t.sprites@[1] == placed_at(s.sprites@[1], ball)
    &&& forall|i: int|
        2 <= i < s.sprites@.len() ==> #[trigger] t.sprites@[i] == brick_after(ball, s.sprites@[i])
    &&& t.sprite_types@ == s.sprite_types@
    &&& forall|k: usize| #[trigger]
        t.coin_dict@.contains_key(k) <==> s.coin_dict@.contains_key(k) || coin_hit(
            ball,
            s.sprites@,
            s.sprite_types@,
            k,
        )
    &&& notices == coin_notices(s.coin_gained as nat, t.coin_gained as nat) + (if t.coin_gained
        > COINS_TO_WIN {
        seq![Notice::BricksSmashed]
    } else {
        Seq::<Notice>::empty()
    })
    &&& t.game_over == (ball.y < 0)
    &&& t.you_won == (t.coin_gained > COINS_TO_WIN)
}

impl GameState {
    /// Plays one frame, given whether the left and the right arrow keys are
    /// held.  A game that is over, or won, stays as it is and reports how it
    /// ended.  Otherwise the platform moves; the ball moves by its speed; every
    /// brick the ball hits flips the ball's vertical speed and is erased, and a
    /// coin among them is collected if it was not yet; the side walls flip the
    /// horizontal speed, the top wall and the platform the vertical one; the
    /// game is over once the ball is below the bottom of the window and won
    /// once more than `COINS_TO_WIN` coins are collected.
    pub fn redraw(&mut self, left_down: bool, right_down: bool) -> (r: FrameReport)
        requires
            old(self).wf(),
        ensures
            final(self).wf(),
            ball_x_contained(*old(self)) ==> ball_x_contained(*final(self)),
            old(self).game_over ==> r.ending == Some(Ending::GameOver) && r.notices@.len() == 0
                && *final(self) == *old(self),
            !old(self).game_over && old(self).you_won ==> r.ending == Some(Ending::YouWon)
                && r.notices@.len() == 0 && *final(self) == *old(self),
            !old(self).game_over && !old(self).you_won ==> r.ending.is_none() && played(
                *old(self),
                *final(self),
                left_down,
                right_down,
                r.notices@,
            ),
    {
        if self.game_over {
            return FrameReport { ending: Some(Ending::GameOver), notices: Vec::new() };
        }
        if self.you_won {
            return FrameReport { ending: Some(Ending::YouWon), notices: Vec::new() };
        }
        let mut notices: Vec<Notice> = Vec::new();

        // The platform.
        let platform = move_platform(left_down, right_down, self.platform_position);
        self.platform_position = platform;
        let paddle = self.sprites[0];
        self.sprites.set(
            0,
            GPUSprite {
                screen_region: Region {
                    x: platform.x,
                    y: platform.y,
                    width: paddle.screen_region.width,
                    height: paddle.screen_region.height,
                },
                sheet_region: paddle.sheet_region,
            },
        );

        // The ball.
        let ball = Point {
            x: saturating_add(self.ball_position.x, self.ball_velocity.x),
            y: saturating_add(self.ball_position.y, self.ball_velocity.y),
        };
        self.ball_position = ball;

        // The bricks, from the last one down.
        let len = self.sprites.len();
        let mut i = len;
        while i > 2
            invariant
                old(self).wf(),
                2 <= i <= len,
                len == self.sprites.len(),
                len == old(self).sprites.len(),
                self.sprite_types@ == old(self).sprite_types@,
                self.platform_position == platform,
                self.ball_position == ball,
                !self.game_over,
                !self.you_won,
                self.sprites@[0] == placed_at(old(self).sprites@[0], platform),
                self.sprites@[1] == old(self).sprites@[1],
                forall|j: int| 2 <= j < i ==> #[trigger] self.sprites@[j] == old(self).sprites@[j],
                forall|j: int|
                    i <= j < len ==> #[trigger] self.sprites@[j] == brick_after(
                        ball,
                        old(self).sprites@[j],
                    ),
                self.ball_velocity.x == old(self).ball_velocity.x,
                self.ball_velocity.y == flip_if(
                    old(self).ball_velocity.y,
                    hits_from(ball, old(self).sprites@, i as int) % 2 == 1,
                ),
                self.ball_velocity.y == BALL_SPEED_Y || self.ball_velocity.y == -BALL_SPEED_Y,
                forall|k: usize| #[trigger]
                    self.coin_dict@.contains_key(k) <==> old(self).coin_dict@.contains_key(k) || (i
                        <= k && coin_hit(ball, old(self).sprites@, old(self).sprite_types@, k)),
                forall|k: usize| #[trigger]
                    self.coin_dict@.contains_key(k) ==> 2 <= k < len && self.sprite_types@[k as int]
                        == SpriteKind::Coin && self.coin_dict@[k] == SpriteKind::Coin,
                self.coin_gained == self.coin_dict@.len(),
                self.coin_gained >= old(self).coin_gained,
                notices@ == coin_notices(old(self).coin_gained as nat, self.coin_gained as nat),
            decreases i,
        {
            i = i - 1;
            let brick = self.sprites[i];
            let brick_top = brick.screen_region.y as i128;
            let brick_bottom = brick_top - CELL_HEIGHT as i128;
            let brick_left = brick.screen_region.x as i128;
            let brick_right = brick_left + CELL_WIDTH as i128;
            if ball.y as i128 >= brick_bottom && ball.x as i128 > brick_left && (ball.x as i128)
                < brick_right {
                self.ball_velocity.y = -self.ball_velocity.y;
                if self.sprite_types[i] == SpriteKind::Coin {
                    if !self.coin_dict.contains_key(&i) {
                        proof {
                            lemma_keys_below(self.coin_dict@.dom().insert(i), len as nat);
                        }
                        let kind = self.sprite_types[i];
                        self.coin_dict.insert(i, kind);
                        self.coin_gained = self.coin_gained + 1;
                        notices.push(Notice::CoinGained(self.coin_gained));
                        assert(notices@ =~= coin_notices(
                            old(self).coin_gained as nat,
                            self.coin_gained as nat,
                        ));
                    }
                }
                self.sprites.set(
                    i,
                    GPUSprite {
                        screen_region: Region { x: 0, y: 0, width: 0, height: 0 },
                        sheet_region: brick.sheet_region,
                    },
                );
            }
        }

        // The walls.
        if ball.x < 0 || ball.x > WINDOW_WIDTH {
            self.ball_velocity.x = -self.ball_velocity.x;
        }
        if ball.y > WINDOW_HEIGHT {
            self.ball_velocity.y = -self.ball_velocity.y;
        }

        // The platform.
        let platform_bottom = platform.y as i128;
        let platform_top = platform_bottom + BRICK_HEIGHT as i128;
        let platform_left = platform.x as i128 - PLATFORM_MARGIN as i128;
        let platform_right = platform_left + (CELL_WIDTH * 2) as i128;
        let (ball_x, ball_y) = (ball.x as i128, ball.y as i128);
        if ball_y < platform_top && ball_y > platform_bottom && ball_x > platform_left && ball_x
            < platform_right {
            self.ball_velocity.y = -self.ball_velocity.y;
        }

        // Lost or won.
        if ball.y < 0 {
            self.game_over = true;
        }
        if self.coin_gained > COINS_TO_WIN {
            notices.push(Notice::BricksSmashed);
            self.you_won = true;
        }

        let ball_sprite = self.sprites[1];
        self.sprites.set(
            1,
            GPUSprite {
                screen_region: Region {
                    x: ball.x,
                    y: ball.y,
                    width: ball_sprite.screen_region.width,
                    height: ball_sprite.screen_region.height,
                },
                sheet_region: ball_sprite.sheet_region,
            },
        );
        assert(notices@ == coin_notices(old(self).coin_gained as nat, self.coin_gained as nat) + (
            if self.coin_gained > COINS_TO_WIN {
                seq![Notice::BricksSmashed]
            } else {
                Seq::<Notice>::empty()
            }
        ));
        FrameReport { ending: None, notices }
    }
}


/// A set of coin indices below `n` has at most as many elements as there are
/// coins among the first `n` sprites.
proof fn lemma_coin_keys_bounded(keys: Set<usize>, kinds: Seq<SpriteKind>, n: nat)
    requires
        keys.finite(),
        n <= kinds.len(),
        n <= usize::MAX,
        forall|k: usize| #[trigger]
            keys.contains(k) ==> k < n && kinds[k as int] == SpriteKind::Coin,
    ensures
        keys.len() <= coin_total(kinds, n),
    decreases n,
{
    if n == 0 {
        assert(keys =~= Set::empty());
    } else {
        let top = (n - 1) as usize;
        lemma_coin_keys_bounded(keys.remove(top), kinds, (n - 1) as nat);
    }
}

/// A game never counts more coins than there are coin sprites.
pub proof fn lemma_coins_gained_within_layout(s: GameState)
    requires
        s.wf(),
    ensures
        s.coin_gained <= coin_total(s.sprite_types@, s.sprite_types@.len()),
{
    lemma_coin_keys_bounded(s.coin_dict@.dom(), s.sprite_types@, s.sprite_types@.len());
}

/// A game played on a layout that `create_sprites` can make counts at most
/// `MAX_COINS` coins.
pub proof fn lemma_laid_out_game_coins_bounded(
    s: GameState,
    draws: Seq<u32>,
    start_sprites: Seq<GPUSprite>,
)
    requires
        s.wf(),
        laid_out(draws, start_sprites, s.sprite_types@),
    ensures
        s.coin_gained <= MAX_COINS,
{
    lemma_coins_gained_within_layout(s);
    lemma_layout_coin_count(draws, start_sprites, s.sprite_types@);
}

/// A game played on a layout that `create_sprites` can make is won only once
/// every coin of the layout is collected.
pub proof fn lemma_won_game_collected_every_coin(
    s: GameState,
    draws: Seq<u32>,
    start_sprites: Seq<GPUSprite>,
)
    requires
        s.wf(),
        laid_out(draws, start_sprites, s.sprite_types@),
        s.coin_gained > COINS_TO_WIN,
    ensures
        forall|k: usize|
            k < s.sprite_types@.len() && s.sprite_types@[k as int] == SpriteKind::Coin
                ==> #[trigger] s.coin_dict@.contains_key(k),
{
    lemma_layout_coin_count(draws, start_sprites, s.sprite_types@);
    assert forall|k: usize|
        k < s.sprite_types@.len() && s.sprite_types@[k as int] == SpriteKind::Coin
            implies #[trigger] s.coin_dict@.contains_key(k) by {
        if !s.coin_dict@.contains_key(k) {
            lemma_coin_keys_bounded(
                s.coin_dict@.dom().insert(k),
                s.sprite_types@,
                s.sprite_types@.len(),
            );
        }
    }
}

/// A frame never loses a collected coin, never lowers the count of coins,
/// and announces each coin it collects once, plus the win when it wins.
pub proof fn lemma_frame_keeps_coins(
    s: GameState,
    t: GameState,
    left_down: bool,
    right_down: bool,
    notices: Seq<Notice>,
)
    requires
        s.wf(),
        t.wf(),
        played(s, t, left_down, right_down, notices),
    ensures
        forall|k: usize| s.coin_dict@.contains_key(k) ==> #[trigger] t.coin_dict@.contains_key(k),
        t.coin_gained >= s.coin_gained,
        notices.len() == t.coin_gained - s.coin_gained + (if t.you_won {
            1int
        } else {
            0int
        }),
{
    assert(s.coin_dict@.dom().subset_of(t.coin_dict@.dom()));
    vstd::set_lib::lemma_len_subset(s.coin_dict@.dom(), t.coin_dict@.dom());
}

/// A brick, once erased, stays erased.
pub proof fn lemma_frame_keeps_erased_bricks(
    s: GameState,
    t: GameState,
    left_down: bool,
    right_down: bool,
    notices: Seq<Notice>,
)
    requires
        played(s, t, left_down, right_down, notices),
    ensures
        forall|i: int|
            2 <= i < s.sprites@.len() && s.sprites@[i].screen_region == erased_region()
                ==> #[trigger] t.sprites@[i].screen_region == erased_region(),
{
}

/// After a frame the platform's left edge lies on the screen with room for
/// one cell width to its right, and the platform sprite sits there.
pub proof fn lemma_frame_keeps_platform_on_screen(
    s: GameState,
    t: GameState,
    left_down: bool,
    right_down: bool,
    notices: Seq<Notice>,
)
    requires
        played(s, t, left_down, right_down, notices),
    ensures
        0 <= t.platform_position.x && t.platform_position.x + CELL_WIDTH <= WINDOW_WIDTH,
        t.sprites@[0].screen_region.x == t.platform_position.x,
{
}

/// The ball is at most one step outside the side walls, and when it is
/// outside it is heading back in.
pub open spec fn ball_x_contained(s: GameState) -> bool {
    &&& -BALL_SPEED_X <= s.ball_position.x <= WINDOW_WIDTH + BALL_SPEED_X
    &&& s.ball_position.x < 0 ==> s.ball_velocity.x == BALL_SPEED_X
    &&& s.ball_position.x > WINDOW_WIDTH ==> s.ball_velocity.x == -BALL_SPEED_X
}

/// A frame keeps the ball's speeds: only the side walls reverse its
/// horizontal motion, the bricks it hits, the top wall and the platform its
/// vertical motion, and a ball within reach of the side walls stays so and
/// moves sideways by exactly its speed.
pub proof fn lemma_frame_keeps_ball_motion(
    s: GameState,
    t: GameState,
    left_down: bool,
    right_down: bool,
    notices: Seq<Notice>,
)
    requires
        speeds_kept(s.ball_velocity),
        played(s, t, left_down, right_down, notices),
    ensures
        speeds_kept(t.ball_velocity),
        t.ball_velocity.x == (if t.ball_position.x < 0 || t.ball_position.x > WINDOW_WIDTH {
            -s.ball_velocity.x
        } else {
            s.ball_velocity.x as int
        }),
        ball_x_contained(s) ==> ball_x_contained(t),
        ball_x_contained(s) ==> t.ball_position.x == s.ball_position.x + s.ball_velocity.x,
{
}

/// `states` is a run of frames of a game in progress: every state is
/// consistent, each one before the last is neither over nor won, and each
/// comes from the one before by `redraw` with the keys `keys`, reporting
/// `notices`.
pub open spec fn frames_played(
    states: Seq<GameState>,
    keys: Seq<(bool, bool)>,
    notices: Seq<Seq<Notice>>,
) -> bool {
    &&& states.len() == keys.len() + 1
    &&& notices.len() == keys.len()
    &&& forall|k: int| 0 <= k < states.len() ==> #[trigger] states[k].wf()
    &&& forall|k: int|
        #![trigger keys[k]]
        0 <= k < keys.len() ==> !states[k].game_over && !states[k].you_won && played(
            states[k],
            states[k + 1],
            keys[k].0,
            keys[k].1,
            notices[k],
        )
}

/// Over any run of frames from a game whose ball starts at its speeds within
/// the side walls (as every started game does), the ball keeps moving
/// `BALL_SPEED_X` sideways and `BALL_SPEED_Y` up or down per frame, and never
/// gets more than one step past a side wall.
pub proof fn lemma_run_keeps_ball_motion(
    states: Seq<GameState>,
    keys: Seq<(bool, bool)>,
    notices: Seq<Seq<Notice>>,
    k: int,
)
    requires
        frames_played(states, keys, notices),
        speeds_kept(states[0].ball_velocity),
        ball_x_contained(states[0]),
        0 <= k < states.len(),
    ensures
        speeds_kept(states[k].ball_velocity),
        ball_x_contained(states[k]),
    decreases k,
{
    if k > 0 {
        lemma_run_keeps_ball_motion(states, keys, notices, k - 1);
        let _ = keys[k - 1];
        lemma_frame_keeps_ball_motion(
            states[k - 1],
            states[k],
            keys[k - 1].0,
            keys[k - 1].1,
            notices[k - 1],
        );
    }
}

/// A started game has its ball at its speeds within the side walls.
pub proof fn lemma_start_ball_motion(s: GameState)
    requires
        s.ball_position == start_ball(),
        s.ball_velocity == start_velocity(),
    ensures
        speeds_kept(s.ball_velocity),
        ball_x_contained(s),
{
}

/// Over a run of frames whose ball starts far enough from the ends of the
/// range of `i64`, the ball moves by exactly its speed in each frame, both
/// ways, and its vertical speed after a frame is its speed before, flipped
/// once per brick hit, once more above the window and once more on the
/// platform.
pub proof fn lemma_run_ball_steps(
    states: Seq<GameState>,
    keys: Seq<(bool, bool)>,
    notices: Seq<Seq<Notice>>,
    k: int,
)
    requires
        frames_played(states, keys, notices),
        ball_x_contained(states[0]),
        states[0].ball_position.y + BALL_SPEED_Y * keys.len() <= i64::MAX,
        states[0].ball_position.y - BALL_SPEED_Y * keys.len() >= i64::MIN,
        0 <= k < states.len(),
    ensures
        states[0].ball_position.y - BALL_SPEED_Y * k <= states[k].ball_position.y
            <= states[0].ball_position.y + BALL_SPEED_Y * k,
        ball_x_contained(states[k]),
        k < keys.len() ==> states[k + 1].ball_position == (Point {
            x: (states[k].ball_position.x + states[k].ball_velocity.x) as i64,
            y: (states[k].ball_position.y + states[k].ball_velocity.y) as i64,
        }),
        k < keys.len() ==> states[k + 1].ball_velocity.y == flip_if(
            flip_if(
                flip_if(
                    states[k].ball_velocity.y,
                    hits_from(states[k + 1].ball_position, states[k].sprites@, 2) % 2 == 1,
                ),
                states[k + 1].ball_position.y > WINDOW_HEIGHT,
            ),
            platform_catches(states[k + 1].platform_position, states[k + 1].ball_position),
        ),
    decreases k,
{
    assert(states[0].wf());
    if k > 0 {
        lemma_run_ball_steps(states, keys, notices, k - 1);
        let _ = keys[k - 1];
        assert(states[k - 1].wf());
        lemma_frame_keeps_ball_motion(
            states[k - 1],
            states[k],
            keys[k - 1].0,
            keys[k - 1].1,
            notices[k - 1],
        );
    }
    if k < keys.len() {
        let _ = keys[k];
        assert(states[k].wf());
        assert(states[k + 1].wf());
    }
}

/// The coin counts that `notices` announce, in order.
pub open spec fn coin_numbers(notices: Seq<Notice>) -> Seq<usize>
    decreases notices.len(),
{
    if notices.len() == 0 {
        Seq::empty()
    } else {
        let rest = coin_numbers(notices.drop_last());
        match notices.last() {
            Notice::CoinGained(n) => rest.push(n),
            Notice::BricksSmashed => rest,
        }
    }
}

/// The coin counts announced over the first `k` frames of a run, in order.
pub open spec fn run_coin_numbers(notices: Seq<Seq<Notice>>, k: nat) -> Seq<usize>
    decreases k,
{
    if k == 0 {
        Seq::empty()
    } else {
        run_coin_numbers(notices, (k - 1) as nat) + coin_numbers(notices[k - 1])
    }
}

/// The counts `from + 1`, `from + 2`, ..., `to`.
pub open spec fn counted_from(from: nat, to: nat) -> Seq<usize> {
    Seq::new((to - from) as nat, |j: int| (from + 1 + j) as usize)
}

proof fn lemma_coin_numbers_of_notices(from: nat, to: nat, won: bool)
    requires
        from <= to,
    ensures
        coin_numbers(
            coin_notices(from, to) + (if won {
                seq![Notice::BricksSmashed]
            } else {
                Seq::<Notice>::empty()
            }),
        ) == counted_from(from, to),
    decreases to - from, if won {
        1int
    } else {
        0int
    },
{
    let tail = if won {
        seq![Notice::BricksSmashed]
    } else {
        Seq::<Notice>::empty()
    };
    if won {
        assert((coin_notices(from, to) + tail).drop_last() =~= coin_notices(from, to));
        lemma_coin_numbers_of_notices(from, to, false);
        assert(coin_notices(from, to) + Seq::<Notice>::empty() =~= coin_notices(from, to));
    } else {
        assert(coin_notices(from, to) + tail =~= coin_notices(from, to));
        if to == from {
            assert(coin_notices(from, to) =~= Seq::<Notice>::empty());
            assert(counted_from(from, to) =~= Seq::<usize>::empty());
        } else {
            let before = (to - 1) as nat;
            lemma_coin_numbers_of_notices(from, before, false);
            assert(coin_notices(from, before) + Seq::<Notice>::empty() =~= coin_notices(
                from,
                before,
            ));
            assert(coin_notices(from, to).drop_last() =~= coin_notices(from, before));
            assert(counted_from(from, to) =~= counted_from(from, before).push(to as usize));
        }
    }
}

/// Over a run of frames, the coin notices count on from the coins counted
/// at the start, one by one: together they read `c + 1`, `c + 2`, ... up to
/// the coins counted after the run, where `c` is the count at the start
/// (zero for a started game).  The coins counted are distinct coin sprites,
/// so a coin hit again is not announced again.  On a layout that
/// `create_sprites` can make at most `MAX_COINS` coins are ever counted, and
/// the game is won only when the layout holds `MAX_COINS` coins and every
/// one is collected.
pub proof fn lemma_run_announces_coins_in_order(
    states: Seq<GameState>,
    keys: Seq<(bool, bool)>,
    notices: Seq<Seq<Notice>>,
    k: int,
)
    requires
        frames_played(states, keys, notices),
        0 <= k < states.len(),
    ensures
        states[k].coin_gained >= states[0].coin_gained,
        states[k].sprite_types@ == states[0].sprite_types@,
        run_coin_numbers(notices, k as nat) == counted_from(
            states[0].coin_gained as nat,
            states[k].coin_gained as nat,
        ),
        states[k].coin_gained == states[k].coin_dict@.len(),
        forall|draws: Seq<u32>, start_sprites: Seq<GPUSprite>|
            #[trigger] laid_out(draws, start_sprites, states[0].sprite_types@) ==> {
                &&& states[k].coin_gained <= MAX_COINS
                &&& states[k].coin_gained > COINS_TO_WIN ==> coin_total(
                    states[k].sprite_types@,
                    states[k].sprite_types@.len(),
                ) == MAX_COINS
            },
    decreases k,
{
    assert(states[k].wf());
    if k > 0 {
        lemma_run_announces_coins_in_order(states, keys, notices, k - 1);
        let j = k - 1;
        let _ = keys[j];
        assert(states[j].wf());
        let s = states[j];
        let t = states[k];
        lemma_frame_keeps_coins(s, t, keys[j].0, keys[j].1, notices[j]);
        lemma_coin_numbers_of_notices(
            s.coin_gained as nat,
            t.coin_gained as nat,
            t.coin_gained > COINS_TO_WIN,
        );
        assert(counted_from(states[0].coin_gained as nat, s.coin_gained as nat) + counted_from(
            s.coin_gained as nat,
            t.coin_gained as nat,
        ) =~= counted_from(states[0].coin_gained as nat, t.coin_gained as nat));
    }
    assert forall|draws: Seq<u32>, start_sprites: Seq<GPUSprite>|
        #[trigger] laid_out(draws, start_sprites, states[0].sprite_types@) implies {
        &&& states[k].coin_gained <= MAX_COINS
        &&& states[k].coin_gained > COINS_TO_WIN ==> coin_total(
            states[k].sprite_types@,
            states[k].sprite_types@.len(),
        ) == MAX_COINS
    } by {
        lemma_laid_out_game_coins_bounded(states[k], draws, start_sprites);
        lemma_coins_gained_within_layout(states[k]);
        lemma_layout_coin_count(draws, start_sprites, states[k].sprite_types@);
    }
}

/// The rules of a frame, spelled out in plain numbers (eighths of a pixel):
/// - the platform's left edge ends between 0 and 7275, and the platform
///   sprite and the ball sprite are drawn where the platform and the ball are;
/// - the ball moves by its speed;
/// - sprite `i >= 2` is erased (its region zeroed, its picture kept) exactly
///   when the moved ball is level with or above 350 below the sprite's top
///   and strictly between its left edge and 485 to the right of it;
/// - a coin is collected exactly when such a hit sprite is a coin;
/// - the horizontal speed reverses exactly when the ball ends left of 0 or
///   right of 7760;
/// - the vertical speed reverses once per hit sprite, once more when the ball
///   ends above 5600, and once more when it ends strictly inside the
///   platform's height (280 above its bottom) and strictly between 120 left
///   of the platform and 970 further right, the platform's full width;
/// - the game is over exactly when the ball ends below 0, and won exactly
///   when at least five coins are collected.
pub proof fn lemma_frame_rules(
    s: GameState,
    t: GameState,
    left_down: bool,
    right_down: bool,
    notices: Seq<Notice>,
)
    requires
        s.wf(),
        played(s, t, left_down, right_down, notices),
    ensures
        0 <= t.platform_position.x <= 7275,
        t.platform_position.y == s.platform_position.y,
        t.sprites@[0].screen_region == (Region {
            x: t.platform_position.x,
            y: t.platform_position.y,
            width: s.sprites@[0].screen_region.width,
            height: s.sprites@[0].screen_region.height,
        }),
        t.sprites@[1].screen_region == (Region {
            x: t.ball_position.x,
            y: t.ball_position.y,
            width: s.sprites@[1].screen_region.width,
            height: s.sprites@[1].screen_region.height,
        }),
        i64::MIN <= s.ball_position.x + s.ball_velocity.x <= i64::MAX ==> t.ball_position.x
            == s.ball_position.x + s.ball_velocity.x,
        i64::MIN <= s.ball_position.y + s.ball_velocity.y <= i64::MAX ==> t.ball_position.y
            == s.ball_position.y + s.ball_velocity.y,
        forall|i: int|
            2 <= i < s.sprites@.len() ==> #[trigger] t.sprites@[i] == (if t.ball_position.y
                >= s.sprites@[i].screen_region.y - 350 && t.ball_position.x
                > s.sprites@[i].screen_region.x && t.ball_position.x < s.sprites@[i].screen_region.x
                + 485 {
                GPUSprite {
                    screen_region: Region { x: 0, y: 0, width: 0, height: 0 },
                    sheet_region: s.sprites@[i].sheet_region,
                }
            } else {
                s.sprites@[i]
            }),
        forall|k: usize| #[trigger]
            t.coin_dict@.contains_key(k) <==> s.coin_dict@.contains_key(k) || (2 <= k
                < s.sprites@.len() && s.sprite_types@[k as int] == SpriteKind::Coin
                && t.ball_position.y >= s.sprites@[k as int].screen_region.y - 350
                && t.ball_position.x > s.sprites@[k as int].screen_region.x && t.ball_position.x
                < s.sprites@[k as int].screen_region.x + 485),
        t.ball_velocity.x == (if t.ball_position.x < 0 || t.ball_position.x > 7760 {
            -s.ball_velocity.x
        } else {
            s.ball_velocity.x as int
        }),
        ({
            let after_bricks = if hits_from(t.ball_position, s.sprites@, 2) % 2 == 1 {
                -s.ball_velocity.y
            } else {
                s.ball_velocity.y as int
            };
            let after_top = if t.ball_position.y > 5600 {
                -after_bricks
            } else {
                after_bricks
            };
            t.ball_velocity.y == if t.platform_position.y < t.ball_position.y
                < t.platform_position.y + 280 && t.platform_position.x - 120 < t.ball_position.x
                < t.platform_position.x - 120 + 970 {
                -after_top
            } else {
                after_top
            }
        }),
        t.game_over == (t.ball_position.y < 0),
        t.you_won == (t.coin_gained >= 5),
{
    lemma_platform_steps(s.platform_position.x as int, left_down, right_down);
}

/// `hits_from` counts, from index `i` on, the sprites whose region the ball
/// hits: level with or above 350 below the region's top, strictly between
/// its left edge and 485 to the right of it.
pub proof fn lemma_hits_from_counts(ball: Point, sprites: Seq<GPUSprite>, i: int)
    requires
        0 <= i < sprites.len(),
    ensures
        hits_from(ball, sprites, i) == hits_from(ball, sprites, i + 1) + (if ball.y
            >= sprites[i].screen_region.y - 350 && ball.x > sprites[i].screen_region.x && ball.x
            < sprites[i].screen_region.x + 485 {
            1int
        } else {
            0int
        }),
        hits_from(ball, sprites, sprites.len() as int) == 0,
{
}

} // verus!
