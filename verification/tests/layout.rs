use breakout::sprites::{
    create_sprites, is_lucky_draw, lay_out_sprites, move_platform, sprite_buffer_size,
    vertex_entry_point, GPUSprite, SpriteKind, SpriteOption, BRICK_COUNT, COIN_DRAW_LIMIT,
    MAX_COINS,
};
use breakout::units::{
    Point, Region, BRICK_HEIGHT, CELL_HEIGHT, CELL_WIDTH, NUMBER_OF_CELLS, SUBPIXELS,
    WINDOW_HEIGHT, WINDOW_WIDTH,
};

fn draws_lucky_at(cells: &[usize]) -> Vec<u32> {
    let mut draws = vec![u32::MAX; BRICK_COUNT];
    for &c in cells {
        draws[c] = 0;
    }
    draws
}

fn cell_region(k: usize, coin: bool) -> Region {
    let row = (k / 17) as i64;
    let col = (k % 17) as i64;
    Region {
        x: col * 485,
        y: 5600 - row * 350,
        width: 485,
        height: if coin { 350 } else { 280 },
    }
}

fn coins(kinds: &[SpriteKind]) -> Vec<usize> {
    (0..kinds.len()).filter(|&i| kinds[i] == SpriteKind::Coin).collect()
}

#[test]
fn cells_tile_the_window() {
    assert_eq!(CELL_WIDTH * NUMBER_OF_CELLS, WINDOW_WIDTH);
    assert_eq!(CELL_HEIGHT * NUMBER_OF_CELLS, WINDOW_HEIGHT);
    assert_eq!(BRICK_HEIGHT * 5, CELL_HEIGHT * 4);
    assert_eq!(WINDOW_WIDTH, 970 * SUBPIXELS);
    assert_eq!(WINDOW_HEIGHT, 700 * SUBPIXELS);
    // 60.625 and 43.75 pixels
    assert_eq!(CELL_WIDTH as f32 / SUBPIXELS as f32, 970.0f32 / 16.0);
    assert_eq!(CELL_HEIGHT as f32 / SUBPIXELS as f32, 700.0f32 / 16.0);
    assert_eq!(BRICK_HEIGHT as f32 / SUBPIXELS as f32, (700.0f32 / 16.0) * 0.8);
}

#[test]
fn layout_without_luck_holds_only_bricks() {
    let (sprites, kinds) = lay_out_sprites(&draws_lucky_at(&[]));
    assert_eq!(sprites.len(), 87);
    assert_eq!(kinds.len(), 87);
    assert_eq!(
        sprites[0],
        GPUSprite {
            screen_region: Region { x: 3880, y: 240, width: 970, height: 280 },
            sheet_region: SpriteKind::Brick
        }
    );
    assert_eq!(
        sprites[1],
        GPUSprite {
            screen_region: Region { x: 1024, y: 4000, width: 624, height: 512 },
            sheet_region: SpriteKind::Ball
        }
    );
    assert_eq!(kinds[0], SpriteKind::Brick);
    assert_eq!(kinds[1], SpriteKind::Ball);
    for i in 2..87 {
        assert_eq!(kinds[i], SpriteKind::Brick);
        assert_eq!(sprites[i].sheet_region, SpriteKind::Brick);
        assert_eq!(sprites[i].screen_region, cell_region(i - 2, false));
    }
    // the last brick of the first row sticks out past the right edge
    assert_eq!(sprites[18].screen_region.x, 7760);
    // the last row
    assert_eq!(sprites[86].screen_region, Region { x: 7760, y: 4200, width: 485, height: 280 });
}

#[test]
fn first_five_lucky_cells_become_coins() {
    let (sprites, kinds) = lay_out_sprites(&vec![0u32; BRICK_COUNT]);
    assert_eq!(coins(&kinds), vec![2, 3, 4, 5, 6]);
    for i in 2..87 {
        let coin = i < 7;
        assert_eq!(sprites[i].screen_region, cell_region(i - 2, coin));
        assert_eq!(kinds[i], sprites[i].sheet_region);
    }
}

#[test]
fn coins_lie_where_the_draws_are_lucky() {
    let (sprites, kinds) = lay_out_sprites(&draws_lucky_at(&[3, 10, 40]));
    assert_eq!(coins(&kinds), vec![5, 12, 42]);
    assert_eq!(sprites[12].screen_region, Region { x: 4850, y: 5600, width: 485, height: 350 });
    assert_eq!(sprites[42].screen_region, Region { x: 2910, y: 4900, width: 485, height: 350 });
}

#[test]
fn a_sixth_lucky_cell_stays_a_brick() {
    let (_, kinds) = lay_out_sprites(&draws_lucky_at(&[0, 10, 20, 30, 40, 50, 84]));
    assert_eq!(coins(&kinds), vec![2, 12, 22, 32, 42]);
    assert_eq!(coins(&kinds).len(), MAX_COINS);
    assert_eq!(kinds[52], SpriteKind::Brick);
    assert_eq!(kinds[86], SpriteKind::Brick);
}

#[test]
fn lucky_draws_are_those_below_the_limit() {
    assert!(is_lucky_draw(0));
    assert!(is_lucky_draw(COIN_DRAW_LIMIT - 1));
    assert!(!is_lucky_draw(COIN_DRAW_LIMIT));
    assert!(!is_lucky_draw(u32::MAX));
}

#[test]
fn lucky_draws_are_floats_below_a_tenth() {
    // The draw stands for the float (draw >> 8) / 2^24.
    let as_float = |d: u32| (d >> 8) as f32 * (1.0f32 / 16777216.0);
    let samples = [
        0u32,
        1,
        255,
        256,
        COIN_DRAW_LIMIT - 257,
        COIN_DRAW_LIMIT - 256,
        COIN_DRAW_LIMIT - 1,
        COIN_DRAW_LIMIT,
        COIN_DRAW_LIMIT + 1,
        COIN_DRAW_LIMIT + 255,
        COIN_DRAW_LIMIT + 256,
        u32::MAX / 2,
        u32::MAX,
    ];
    for d in samples {
        assert_eq!(is_lucky_draw(d), as_float(d) < 0.1, "draw {}", d);
    }
    let mut d: u32 = COIN_DRAW_LIMIT - 300_000;
    while d < COIN_DRAW_LIMIT + 300_000 {
        assert_eq!(is_lucky_draw(d), as_float(d) < 0.1, "draw {}", d);
        d += 97;
    }
}

#[test]
fn created_sprites_form_a_layout() {
    for _ in 0..20 {
        let (sprites, kinds) = create_sprites();
        assert_eq!(sprites.len(), 2 + BRICK_COUNT);
        assert_eq!(kinds.len(), sprites.len());
        assert_eq!(sprites[0].screen_region, Region { x: 3880, y: 240, width: 970, height: 280 });
        assert_eq!(kinds[1], SpriteKind::Ball);
        assert!(coins(&kinds).len() <= MAX_COINS);
        for i in 0..sprites.len() {
            assert_eq!(kinds[i], sprites[i].sheet_region);
        }
        for i in 2..sprites.len() {
            let coin = kinds[i] == SpriteKind::Coin;
            assert!(coin || kinds[i] == SpriteKind::Brick);
            assert_eq!(sprites[i].screen_region, cell_region(i - 2, coin));
        }
    }
}

#[test]
fn platform_moves_with_the_arrow_keys() {
    let p = Point { x: 3880, y: 240 };
    assert_eq!(move_platform(true, false, p), Point { x: 3840, y: 240 });
    assert_eq!(move_platform(false, true, p), Point { x: 3920, y: 240 });
    assert_eq!(move_platform(false, false, p), p);
    assert_eq!(move_platform(true, true, p), p);
}

#[test]
fn platform_stays_on_the_screen() {
    assert_eq!(move_platform(true, false, Point { x: 10, y: 240 }), Point { x: 0, y: 240 });
    assert_eq!(move_platform(true, false, Point { x: 0, y: 240 }), Point { x: 0, y: 240 });
    assert_eq!(move_platform(false, true, Point { x: 7270, y: 240 }), Point { x: 7275, y: 240 });
    assert_eq!(move_platform(false, true, Point { x: 7275, y: 240 }), Point { x: 7275, y: 240 });
    assert_eq!(move_platform(false, false, Point { x: -500, y: 9 }), Point { x: 0, y: 9 });
    assert_eq!(move_platform(false, false, Point { x: 99999, y: 9 }), Point { x: 7275, y: 9 });
    assert_eq!(move_platform(true, false, Point { x: i64::MIN, y: 1 }), Point { x: 0, y: 1 });
    assert_eq!(move_platform(false, true, Point { x: i64::MAX, y: 1 }), Point { x: 7275, y: 1 });
}

#[test]
fn vertex_entry_points() {
    assert_eq!(vertex_entry_point(SpriteOption::Storage), "vs_storage_main");
    assert_eq!(vertex_entry_point(SpriteOption::Uniform), "vs_uniform_main");
    assert_eq!(vertex_entry_point(SpriteOption::VertexBuffer), "vs_vbuf_main");
}

#[test]
fn sprite_buffer_sizes() {
    assert_eq!(sprite_buffer_size(SpriteOption::Uniform, 87, 32), 16384);
    assert_eq!(sprite_buffer_size(SpriteOption::Storage, 87, 32), 2784);
    assert_eq!(sprite_buffer_size(SpriteOption::VertexBuffer, 87, 32), 2784);
    assert_eq!(sprite_buffer_size(SpriteOption::Storage, 0, 32), 0);
}
