use breakout::game::{Game, Key, BALL_DRIFT, PADDLE_MOVE_SPEED};
use breakout::sprites::{lay_out_sprites, GPUSprite, SpriteKind, BRICK_COUNT};
use breakout::units::Region;

fn sprites() -> Vec<GPUSprite> {
    lay_out_sprites(&vec![u32::MAX; BRICK_COUNT]).0
}

#[test]
fn a_game_takes_the_first_two_sprites() {
    let s = sprites();
    let g = Game::new(s.clone());
    assert_eq!(g.paddle, s[0]);
    assert_eq!(g.ball, s[1]);
}

#[test]
fn the_ball_drifts_up_and_right() {
    let mut g = Game::new(sprites());
    g.update();
    assert_eq!(g.ball.screen_region, Region { x: 1040, y: 4016, width: 624, height: 512 });
    assert_eq!(g.ball.sheet_region, SpriteKind::Ball);
    g.update();
    assert_eq!(g.ball.screen_region.x, 1024 + 2 * BALL_DRIFT);
    assert_eq!(g.paddle.screen_region, Region { x: 3880, y: 240, width: 970, height: 280 });
}

#[test]
fn the_arrow_keys_move_the_paddle() {
    let mut g = Game::new(sprites());
    g.input(Key::Left);
    assert_eq!(g.paddle.screen_region.x, 3880 - PADDLE_MOVE_SPEED);
    g.input(Key::Right);
    g.input(Key::Right);
    assert_eq!(g.paddle.screen_region.x, 3920);
    g.input(Key::Other);
    assert_eq!(g.paddle.screen_region.x, 3920);
    assert_eq!(g.ball.screen_region.x, 1024);
    g.render();
}

#[test]
fn the_paddle_stops_at_the_end_of_the_number_line() {
    let mut s = sprites();
    s[0].screen_region.x = i64::MIN + 10;
    let mut g = Game::new(s);
    g.input(Key::Left);
    assert_eq!(g.paddle.screen_region.x, i64::MIN);
}

#[test]
fn many_updates_drift_the_ball_evenly() {
    let mut g = Game::new(sprites());
    for _ in 0..1000 {
        g.update();
    }
    assert_eq!(g.ball.screen_region, Region { x: 1024 + 1000 * BALL_DRIFT, y: 4000 + 1000 * BALL_DRIFT, width: 624, height: 512 });
    assert_eq!(g.ball.sheet_region, SpriteKind::Ball);
}
