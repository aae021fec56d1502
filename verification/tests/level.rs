use snake_level::color::Rgb;
use snake_level::draw::DrawCmd;
use snake_level::food::{Food, FoodKind};
use snake_level::level::Level;
use snake_level::position::Position;

#[test]
fn new_forces_odd_dimensions() {
    let level = Level::new(10, 8);
    assert_eq!(level.width, 11);
    assert_eq!(level.height, 9);

    let level = Level::new(11, 9);
    assert_eq!(level.width, 11);
    assert_eq!(level.height, 9);

    let level = Level::new(0, 0);
    assert_eq!(level.width, 1);
    assert_eq!(level.height, 1);

    let level = Level::new(65534, 65533);
    assert_eq!(level.width, 65535);
    assert_eq!(level.height, 65533);
}

#[test]
fn new_sets_default_styling() {
    let level = Level::new(10, 8);
    assert_eq!(level.background, ' ');
    assert_eq!(level.border, '\u{2588}');
    assert_eq!(level.border_width, 2);
    assert_eq!(level.border_height, 1);
    assert_eq!(level.fg_color, Rgb { r: 10, g: 100, b: 120 });
    assert_eq!(level.bg_color, Rgb { r: 230, g: 40, b: 130 });
    assert!(level.bg_color_range.is_empty());
    assert!(level.food_vec.is_empty());
    assert_eq!(level.max_food, 4);
}

#[test]
fn totals_add_twice_the_border() {
    let level = Level::new(10, 8);
    assert_eq!(level.width, 11);
    assert_eq!(level.height, 9);
    assert_eq!(level.total_width(), 15);
    assert_eq!(level.total_height(), 11);

    let level = Level::new(1, 1);
    assert_eq!(level.total_width(), 5);
    assert_eq!(level.total_height(), 3);
}

#[test]
fn generate_fills_one_gradient_entry_per_row() {
    let mut level = Level::new(10, 8);
    let total_height = level.total_height() as usize;
    level.generate();
    assert_eq!(level.bg_color_range.len(), total_height);
}

#[test]
fn gradient_green_is_non_decreasing_and_saturates() {
    let mut level = Level::new(21, 21);
    level.generate();
    assert_eq!(level.bg_color_range.len(), 23);
    for pair in level.bg_color_range.windows(2) {
        assert!(pair[0].g <= pair[1].g);
    }
    // Base green 40 and row 22 would give 260: the channel stops at 255.
    assert_eq!(level.bg_color_range[22].g, 255);
    assert_eq!(level.bg_color_range[21].g, 250);
}

#[test]
fn gradient_entry_scenario() {
    // Base background (230, 40, 130): row 3 gains 30 green, no saturation.
    let mut level = Level::new(10, 8);
    assert_eq!(level.bg_color, Rgb { r: 230, g: 40, b: 130 });
    level.generate();
    assert_eq!(level.bg_color_range[3], Rgb { r: 230, g: 70, b: 130 });
    assert_eq!(level.bg_color_range[0], Rgb { r: 230, g: 40, b: 130 });
}

#[test]
fn generate_draws_every_cell_in_row_major_order() {
    let mut level = Level::new(3, 3);
    let cmds = level.generate();
    let total_width = level.total_width() as usize;
    let total_height = level.total_height() as usize;
    assert_eq!(cmds.len(), 1 + 4 * total_width * total_height);
    assert_eq!(cmds[0], DrawCmd::ClearAll);
    for y in 0..total_height {
        for x in 0..total_width {
            let base = 1 + 4 * (y * total_width + x);
            assert_eq!(cmds[base], DrawCmd::MoveTo { x: x as u16, y: y as u16 });
            assert_eq!(cmds[base + 1], DrawCmd::SetForeground { color: level.fg_color });
            assert_eq!(cmds[base + 2], DrawCmd::SetBackground {
                color: level.bg_color_range[y],
            });
            let width = level.width as usize;
            let height = level.height as usize;
            let on_border = x < 2 || x > width + 2 - 1 || y < 1 || y > height + 1 - 1;
            let expected = if on_border { level.border } else { level.background };
            assert_eq!(cmds[base + 3], DrawCmd::Print { glyph: expected });
        }
    }
}

#[test]
fn generate_appends_on_repeat_calls() {
    let mut level = Level::new(10, 8);
    level.generate();
    level.generate();
    assert_eq!(level.bg_color_range.len(), 2 * level.total_height() as usize);
    // The second pass appends the same ramp again.
    assert_eq!(level.bg_color_range[11], Rgb { r: 230, g: 40, b: 130 });
}

#[test]
fn food_new_derives_attributes_from_kind() {
    let food = Food::new(FoodKind::Cherry, Position { x: 3, y: 4 });
    assert_eq!(food.meals, 1);
    assert_eq!(food.symbol, '\u{1F352}');
    assert_eq!(food.color, Rgb { r: 255, g: 0, b: 0 });
    assert_eq!(food.pos, Position { x: 3, y: 4 });

    let food = Food::new(FoodKind::Mouse, Position { x: 0, y: 0 });
    assert_eq!(food.meals, 2);
    assert_eq!(food.symbol, '\u{1F401}');
    assert_eq!(food.color, Rgb { r: 50, g: 60, b: 70 });
}

#[test]
fn food_new_bomb_scenario() {
    let food = Food::new(FoodKind::Bomb, Position { x: 5, y: 5 });
    assert_eq!(food.meals, -10);
    assert_eq!(food.symbol, '\u{1F4A3}');
    assert_eq!(food.color, Rgb { r: 0, g: 0, b: 0 });
    assert_eq!(food.pos, Position { x: 5, y: 5 });
}

#[test]
fn rng_pos_stays_inside_the_inset_interior() {
    let level = Level::new(10, 8);
    // width 11, height 9, border 2 wide and 1 tall.
    for _ in 0..500 {
        let pos = level.rng_pos(None);
        assert!((2..13).contains(&pos.x));
        assert!((1..10).contains(&pos.y));

        let pos = level.rng_pos(Some(0));
        assert!((2..13).contains(&pos.x));
        assert!((1..10).contains(&pos.y));

        let pos = level.rng_pos(Some(3));
        assert!((5..10).contains(&pos.x));
        assert!((4..7).contains(&pos.y));

        let pos = level.rng_pos(Some(4));
        assert!((6..9).contains(&pos.x));
        assert!((5..6).contains(&pos.y));
    }
}

#[test]
fn rng_pos_covers_its_range() {
    let level = Level::new(1, 1);
    // The interior is the single cell (2, 1): every sample lands there.
    for _ in 0..50 {
        let pos = level.rng_pos(None);
        assert_eq!(pos.x, 2);
        assert_eq!(pos.y, 1);
    }
    // A wider level reaches more than one column eventually.
    let level = Level::new(9, 1);
    let mut seen_not_first = false;
    for _ in 0..500 {
        let pos = level.rng_pos(None);
        assert!((2..11).contains(&pos.x));
        if pos.x != 2 {
            seen_not_first = true;
        }
    }
    assert!(seen_not_first);
}

#[test]
fn rng_food_matches_the_kind_table() {
    let mut level = Level::new(10, 8);
    for _ in 0..200 {
        let food = level.rng_food();
        let (meals, symbol, color) = match food.kind {
            FoodKind::Cherry => (1, '\u{1F352}', Rgb { r: 255, g: 0, b: 0 }),
            FoodKind::Mouse => (2, '\u{1F401}', Rgb { r: 50, g: 60, b: 70 }),
            FoodKind::Bomb => (-10, '\u{1F4A3}', Rgb { r: 0, g: 0, b: 0 }),
        };
        assert_eq!(food.meals, meals);
        assert_eq!(food.symbol, symbol);
        assert_eq!(food.color, color);
        assert!((2..13).contains(&food.pos.x));
        assert!((1..10).contains(&food.pos.y));
        assert!(level.food_vec.is_empty());
    }
}

#[test]
fn rng_food_kinds_are_roughly_uniform() {
    let mut level = Level::new(10, 8);
    let mut counts = [0usize; 3];
    let samples = 3000;
    for _ in 0..samples {
        let food = level.rng_food();
        match food.kind {
            FoodKind::Cherry => counts[0] += 1,
            FoodKind::Mouse => counts[1] += 1,
            FoodKind::Bomb => counts[2] += 1,
        }
    }
    for count in counts {
        // Each kind should come up about a third of the time; 1000 +- 200
        // leaves over five standard deviations of slack.
        assert!(count > 800, "kind count {} too low", count);
        assert!(count < 1200, "kind count {} too high", count);
    }
}
