use meowdy::Direction;
use meowdy::Position;
use meowdy::TickClock;
use meowdy::position_in_bounds;
use meowdy::position_translation;
use meowdy::screen_to_grid;
use meowdy::step;

fn pos(x: i32, y: i32) -> Position {
    Position { x, y }
}

#[test]
fn opposite_is_the_reverse_heading() {
    assert_eq!(Direction::Left.opposite(), Direction::Right);
    assert_eq!(Direction::Right.opposite(), Direction::Left);
    assert_eq!(Direction::Up.opposite(), Direction::Down);
    assert_eq!(Direction::Down.opposite(), Direction::Up);
}

#[test]
fn step_applies_unit_offsets() {
    let origin = pos(0, 0);
    assert_eq!(step(origin, Direction::Left), pos(-1, 0));
    assert_eq!(step(origin, Direction::Right), pos(1, 0));
    assert_eq!(step(origin, Direction::Up), pos(0, 1));
    assert_eq!(step(origin, Direction::Down), pos(0, -1));
}

#[test]
fn bounds_are_inclusive_half_extents() {
    assert!(position_in_bounds(pos(5, 5)));
    assert!(position_in_bounds(pos(-5, -5)));
    assert!(position_in_bounds(pos(0, 0)));
    assert!(!position_in_bounds(pos(6, 0)));
    assert!(!position_in_bounds(pos(-6, 0)));
    assert!(!position_in_bounds(pos(0, 6)));
    assert!(!position_in_bounds(pos(0, -6)));
}

#[test]
fn translation_scales_by_cell_size() {
    assert_eq!(position_translation(pos(3, 2)), (72, 48));
    assert_eq!(position_translation(pos(-5, 5)), (-120, 120));
    assert_eq!(position_translation(pos(0, 0)), (0, 0));
}

#[test]
fn translation_round_trips_every_valid_coordinate() {
    for x in -5..=5 {
        for y in -5..=5 {
            let c = pos(x, y);
            let (sx, sy) = position_translation(c);
            assert_eq!(screen_to_grid(sx, sy), c);
        }
    }
}

#[test]
fn clock_fires_once_per_interval() {
    let mut clock = TickClock::new(200);
    assert!(!clock.tick(100));
    assert_eq!(clock.elapsed_ms, 100);
    assert!(clock.tick(100));
    assert_eq!(clock.elapsed_ms, 0);
}

#[test]
fn clock_keeps_the_overshoot() {
    let mut clock = TickClock::new(200);
    assert!(clock.tick(250));
    assert_eq!(clock.elapsed_ms, 50);
    assert!(!clock.tick(149));
    assert_eq!(clock.elapsed_ms, 199);
    assert!(clock.tick(1));
    assert_eq!(clock.elapsed_ms, 0);
}
