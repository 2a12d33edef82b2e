use snake::components::{BlockCount, GameStep, LastEntity, Position, SnakeDirection};
use snake::constants::{GAME_AREA_HEIGHT, GAME_AREA_STEP, GAME_AREA_WIDTH};
use snake::game::{collide_blocks, Game};
use snake::motion::{follow, pressed_direction, snakehead_step};

fn pos(x: i64, y: i64) -> Position {
    Position { x, y }
}

fn game() -> Game {
    Game::new(400, 400, 5, 0)
}

#[test]
fn new_game_starts_at_origin_heading_up() {
    let g = game();
    assert_eq!(g.head, pos(0, 0));
    assert!(g.segments.is_empty());
    assert_eq!(g.food, None);
    assert_eq!(g.block_count, BlockCount(0));
    assert_eq!(g.last, LastEntity { block: None });
    assert_eq!(g.direction, SnakeDirection::Up);
    assert_eq!(g.step, GameStep(5));
}

#[test]
fn default_step_is_the_configured_step() {
    assert_eq!(GameStep::default(), GameStep(GAME_AREA_STEP));
    let g = Game::new(GAME_AREA_WIDTH, GAME_AREA_HEIGHT, GameStep::default().0, 0);
    assert_eq!(g.step.0, 5);
}

#[test]
fn up_tick_from_origin() {
    let mut g = game();
    let hit = g.tick();
    assert!(!hit);
    assert_eq!(g.head, pos(0, 5));
}

#[test]
fn right_tick_wraps_to_left_edge() {
    let mut g = game();
    g.head = pos(199, 0);
    g.keyboard(false, true, false, false);
    g.tick();
    assert_eq!(g.head, pos(-200, 0));
}

#[test]
fn each_heading_moves_one_axis() {
    assert_eq!(snakehead_step(pos(3, 4), SnakeDirection::Left, 5, 400, 400), pos(-2, 4));
    assert_eq!(snakehead_step(pos(3, 4), SnakeDirection::Right, 5, 400, 400), pos(8, 4));
    assert_eq!(snakehead_step(pos(3, 4), SnakeDirection::Up, 5, 400, 400), pos(3, 9));
    assert_eq!(snakehead_step(pos(3, 4), SnakeDirection::Down, 5, 400, 400), pos(3, -1));
}

#[test]
fn wrap_thresholds() {
    // Horizontal edges sit at half the width.
    assert_eq!(snakehead_step(pos(195, 0), SnakeDirection::Right, 5, 400, 400), pos(200, 0));
    assert_eq!(snakehead_step(pos(196, 0), SnakeDirection::Right, 5, 400, 400), pos(-200, 0));
    assert_eq!(snakehead_step(pos(-195, 0), SnakeDirection::Left, 5, 400, 400), pos(-200, 0));
    assert_eq!(snakehead_step(pos(-196, 0), SnakeDirection::Left, 5, 400, 400), pos(200, 0));
    // Vertical thresholds are shifted by half a block.
    assert_eq!(snakehead_step(pos(0, 185), SnakeDirection::Up, 5, 400, 400), pos(0, 190));
    assert_eq!(snakehead_step(pos(0, 186), SnakeDirection::Up, 5, 400, 400), pos(0, -190));
    assert_eq!(snakehead_step(pos(0, -205), SnakeDirection::Down, 5, 400, 400), pos(0, -210));
    assert_eq!(snakehead_step(pos(0, -206), SnakeDirection::Down, 5, 400, 400), pos(0, 210));
}

#[test]
fn last_key_press_wins() {
    let d = SnakeDirection::Up;
    assert_eq!(pressed_direction(d, false, false, false, false), SnakeDirection::Up);
    assert_eq!(pressed_direction(d, true, false, false, false), SnakeDirection::Left);
    assert_eq!(pressed_direction(d, true, true, false, false), SnakeDirection::Right);
    assert_eq!(pressed_direction(d, true, true, false, true), SnakeDirection::Down);
    assert_eq!(pressed_direction(SnakeDirection::Down, false, false, true, false), SnakeDirection::Up);
    let mut g = game();
    g.keyboard(true, false, false, false);
    assert_eq!(g.direction, SnakeDirection::Left);
    g.keyboard(false, false, false, false);
    assert_eq!(g.direction, SnakeDirection::Left);
}

#[test]
fn overlap_is_strict() {
    assert!(collide_blocks(pos(10, 10), pos(10, 10)));
    assert!(collide_blocks(pos(0, 0), pos(19, -19)));
    assert!(!collide_blocks(pos(0, 0), pos(20, 0)));
    assert!(!collide_blocks(pos(0, 0), pos(0, -20)));
}

#[test]
fn head_on_food_grows_one_segment() {
    let mut g = game();
    g.head = pos(10, 10);
    g.place_food(10, 10);
    assert_eq!(g.block_count, BlockCount(1));
    let hit = g.collide();
    assert!(hit);
    assert_eq!(g.food, None);
    assert_eq!(g.block_count, BlockCount(0));
    assert_eq!(g.segments, vec![pos(10, 30)]);
    assert_eq!(g.last, LastEntity { block: Some(0) });
    assert_eq!(g.step, GameStep(4));
}

#[test]
fn no_food_no_collision() {
    let mut g = game();
    assert!(!g.collide());
    g.place_food(100, 100);
    assert!(!g.collide());
    assert_eq!(g.food, Some(pos(100, 100)));
    assert!(g.segments.is_empty());
    assert_eq!(g.step, GameStep(5));
}

#[test]
fn occupied_slot_keeps_its_food() {
    let mut g = game();
    g.place_food(1, 2);
    g.place_food(3, 4);
    assert_eq!(g.food, Some(pos(1, 2)));
    g.block_spawn();
    assert_eq!(g.food, Some(pos(1, 2)));
    assert_eq!(g.block_count, BlockCount(1));
}

#[test]
fn spawned_food_lies_in_the_inset_area() {
    let mut seen = Vec::new();
    for _ in 0..50 {
        let mut g = game();
        g.block_spawn();
        assert_eq!(g.block_count, BlockCount(1));
        let f = g.food.expect("food after spawn");
        assert!(-190 <= f.x && f.x < 190);
        assert!(-190 <= f.y && f.y < 190);
        seen.push(f);
    }
    assert!(seen.iter().any(|p| *p != seen[0]));
}

#[test]
fn food_slot_tracks_food_across_ticks() {
    let mut g = game();
    for _ in 0..200 {
        g.block_spawn();
        assert_eq!(g.block_count.0 == 1, g.food.is_some());
        g.tick();
        assert_eq!(g.block_count.0 == 1, g.food.is_some());
    }
}

#[test]
fn repeated_hits_stack_segments_above_the_tail() {
    let mut g = game();
    for n in 1..=4usize {
        g.place_food(0, 0);
        assert!(g.collide());
        assert_eq!(g.segments.len(), n);
    }
    assert_eq!(g.segments, vec![pos(0, 20), pos(0, 40), pos(0, 60), pos(0, 80)]);
    assert_eq!(g.step, GameStep(1));
    assert_eq!(g.last, LastEntity { block: Some(3) });
}

#[test]
fn step_stops_at_its_minimum() {
    let mut g = Game::new(400, 400, 2, 1);
    g.place_food(0, 0);
    assert!(g.collide());
    assert_eq!(g.step, GameStep(1));
    g.place_food(0, 0);
    assert!(g.collide());
    assert_eq!(g.step, GameStep(1));
}

#[test]
fn segments_trail_one_tick_behind() {
    let mut g = game();
    g.segments = vec![pos(0, -5), pos(0, -10), pos(0, -15)];
    g.last = LastEntity { block: Some(2) };
    let before = g.segments.clone();
    g.tick();
    assert_eq!(g.head, pos(0, 5));
    assert_eq!(g.segments, vec![pos(0, 5), before[0], before[1]]);
    g.tick();
    assert_eq!(g.segments, vec![pos(0, 10), pos(0, 5), before[0]]);
}

#[test]
fn new_segment_skips_the_follow_of_its_tick() {
    let mut g = game();
    g.segments = vec![pos(0, -20)];
    g.last = LastEntity { block: Some(0) };
    g.place_food(0, 5);
    let hit = g.tick();
    assert!(hit);
    // The old segment follows the head; the new one stays above the old tail.
    assert_eq!(g.segments, vec![pos(0, 5), pos(0, 0)]);
    assert_eq!(g.step, GameStep(4));
    g.tick();
    assert_eq!(g.head, pos(0, 9));
    assert_eq!(g.segments, vec![pos(0, 9), pos(0, 5)]);
}

#[test]
fn follow_of_an_empty_chain_does_nothing() {
    let mut s: Vec<Position> = Vec::new();
    follow(&mut s, pos(1, 1), 0);
    assert!(s.is_empty());
    let mut g = game();
    g.snake_movement();
    assert!(g.segments.is_empty());
}

#[test]
fn follow_moves_a_prefix_only() {
    let mut s = vec![pos(1, 0), pos(2, 0), pos(3, 0)];
    follow(&mut s, pos(0, 0), 2);
    assert_eq!(s, vec![pos(0, 0), pos(1, 0), pos(3, 0)]);
}

#[test]
fn can_grow_checks_the_tail() {
    let mut g = game();
    assert!(g.can_grow());
    g.segments = vec![pos(0, snake::constants::COORD_LIMIT)];
    g.last = LastEntity { block: Some(0) };
    assert!(!g.can_grow());
}
