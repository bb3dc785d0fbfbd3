use meowdy::Direction;
use meowdy::GameState;
use meowdy::LastTailPosition;
use meowdy::Meowney;
use meowdy::Position;
use meowdy::SnakeGame;
use meowdy::SnakeGrowth;
use meowdy::HeldKeys;
use meowdy::setup;

fn pos(x: i32, y: i32) -> Position {
    Position { x, y }
}

fn chain_of(game: &SnakeGame) -> Vec<Position> {
    game.segments.0.iter().map(|&id| game.records[id].position).collect()
}

fn head_of(game: &SnakeGame) -> Position {
    game.records[game.segments.0[0]].position
}

fn game_with(cells: &[Position], direction: Direction) -> SnakeGame {
    SnakeGame::with_chain(cells.to_vec(), direction)
}

fn no_keys() -> HeldKeys {
    HeldKeys { left: false, down: false, up: false, right: false }
}

#[test]
fn setup_builds_fresh_arena() {
    let game = setup();
    assert_eq!(game.state, GameState::PostOffice);
    assert_eq!(chain_of(&game), vec![pos(3, 2), pos(3, 2)]);
    assert_eq!(game.head.direction, Direction::Up);
    assert_eq!(game.spawn_food_events.len(), 1);
    assert_eq!(game.growth_events.len(), 0);
    assert_eq!(game.game_over_events.len(), 0);
    assert!(game.food.is_none());
    assert_eq!(game.last_tail_position, LastTailPosition(None));
    assert_eq!(game.move_timer.0.interval_ms, 200);
    assert_eq!(game.move_timer.0.elapsed_ms, 0);
}

#[test]
fn movement_shifts_chain_rigidly() {
    let mut game = game_with(&[pos(0, 0), pos(0, 1), pos(1, 1)], Direction::Right);
    let pre = chain_of(&game);
    let moved = game.move_snake(200);
    assert!(moved);
    let post = chain_of(&game);
    // The head steps one cell right; each body segment inherits the pre-tick
    // cell of the segment ahead of it.
    assert_eq!(post, vec![pos(1, 0), pos(0, 0), pos(0, 1)]);
    // Rigid-chain property on this run: every post-tick coordinate is the new
    // head cell or some pre-tick coordinate.
    for c in &post {
        assert!(*c == pos(1, 0) || pre.contains(c));
    }
    // The tail's previous cell is snapshotted.
    assert_eq!(game.last_tail_position, LastTailPosition(Some(pos(1, 1))));
    assert_eq!(game.game_over_events.len(), 0);
}

#[test]
fn movement_waits_for_the_tick_clock() {
    let mut game = game_with(&[pos(0, 0), pos(0, 1)], Direction::Right);
    let moved = game.move_snake(100);
    assert!(!moved);
    assert_eq!(chain_of(&game), vec![pos(0, 0), pos(0, 1)]);
    assert_eq!(game.move_timer.0.elapsed_ms, 100);
    let moved_now = game.move_snake(100);
    assert!(moved_now);
    assert_eq!(head_of(&game), pos(1, 0));
    assert_eq!(game.move_timer.0.elapsed_ms, 0);
}

#[test]
fn bounds_termination_at_the_east_wall() {
    // Arena half-extents are 5; a head at (5, 0) heading right leaves the
    // arena on the next tick.
    let mut game = game_with(&[pos(5, 0), pos(4, 0)], Direction::Right);
    let moved = game.move_snake(200);
    assert!(moved);
    // The head coordinate after the tick, before teardown, is (6, 0).
    assert_eq!(head_of(&game), pos(6, 0));
    assert_eq!(game.game_over_events.len(), 1);

    let mut meowney = Meowney(7);
    game.game_over(&mut meowney);
    assert_eq!(game.state, GameState::Outside);
    assert_eq!(game.segments.0.len(), 0);
    assert!(game.food.is_none());
    // Two segments at termination bank nothing.
    assert_eq!(meowney.0, 7);
}

#[test]
fn head_moving_into_vacated_body_cell_terminates() {
    // head=(0,1), body1=(0,0), body2=(0,-1), moving down: the new head cell
    // (0,0) was occupied by body1 before the tick, and the self check runs
    // against the pre-tick snapshot, so the run terminates.
    let mut game = game_with(&[pos(0, 1), pos(0, 0), pos(0, -1)], Direction::Down);
    let moved = game.move_snake(200);
    assert!(moved);
    assert_eq!(head_of(&game), pos(0, 0));
    assert_eq!(game.game_over_events.len(), 1);
}

#[test]
fn head_moving_into_mid_body_cell_terminates() {
    // The new head cell (1, 0) is held by a mid-chain segment (not the tail):
    // this must terminate.
    let mut game = game_with(
        &[pos(0, 0), pos(0, 1), pos(1, 1), pos(1, 0), pos(2, 0)],
        Direction::Right,
    );
    let moved = game.move_snake(200);
    assert!(moved);
    assert_eq!(head_of(&game), pos(1, 0));
    assert_eq!(game.game_over_events.len(), 1);
}

#[test]
fn eating_despawns_food_and_signals_growth() {
    let mut game = game_with(&[pos(0, 0), pos(-1, 0)], Direction::Right);
    game.spawn_food_at(pos(1, 0));
    let moved = game.move_snake(200);
    assert!(moved);
    game.snake_eating();
    assert!(game.food.is_none());
    assert_eq!(game.growth_events.len(), 1);
}

#[test]
fn growth_appends_exactly_at_the_vacated_tail_cell() {
    let mut game = game_with(&[pos(0, 0), pos(-1, 0)], Direction::Right);
    game.spawn_food_at(pos(1, 0));
    let mut meowney = Meowney(0);
    let moved = game.tick(200, &mut meowney);
    assert!(moved);
    // One food eaten: the chain grew by exactly one, and the new segment sits
    // exactly where the old tail was before the shift.
    assert_eq!(chain_of(&game), vec![pos(1, 0), pos(0, 0), pos(-1, 0)]);
    assert_eq!(game.segments.0.len(), 3);
    assert_eq!(game.last_tail_position, LastTailPosition(Some(pos(-1, 0))));
    // Growth requested exactly one respawn, and the spawner served it.
    assert_eq!(game.spawn_food_events.len(), 0);
    let food = game.food.expect("food respawned after an eat");
    assert!(food.position.x >= -5 && food.position.x <= 5);
    assert!(food.position.y >= -5 && food.position.y <= 5);
}

#[test]
fn two_growth_events_in_one_tick_grow_once() {
    let mut game = game_with(&[pos(0, 0), pos(-1, 0)], Direction::Right);
    game.last_tail_position = LastTailPosition(Some(pos(-2, 0)));
    game.growth_events.push(SnakeGrowth);
    game.growth_events.push(SnakeGrowth);
    let spawn_before = game.spawn_food_events.len();
    game.snake_growth();
    // Exactly one growth and exactly one respawn request, never two.
    assert_eq!(game.segments.0.len(), 3);
    assert_eq!(chain_of(&game), vec![pos(0, 0), pos(-1, 0), pos(-2, 0)]);
    assert_eq!(game.spawn_food_events.len(), spawn_before + 1);
    assert_eq!(game.growth_events.len(), 0);
}

#[test]
fn food_spawner_places_food_inside_the_arena() {
    let mut game = setup();
    assert_eq!(game.spawn_food_events.len(), 1);
    game.food_spawner();
    assert_eq!(game.spawn_food_events.len(), 0);
    let food = game.food.expect("a pending request spawns food");
    assert!(food.position.x >= -5 && food.position.x <= 5);
    assert!(food.position.y >= -5 && food.position.y <= 5);
}

#[test]
fn food_spawner_without_requests_does_nothing() {
    let mut game = game_with(&[pos(0, 0), pos(-1, 0)], Direction::Right);
    game.food_spawner();
    assert!(game.food.is_none());
}

#[test]
fn scoring_banks_segments_grown_beyond_spawn() {
    // A run that grows from 2 segments to 5 before terminating banks exactly 3.
    let mut game = game_with(&[pos(0, 0), pos(-1, 0)], Direction::Right);
    let mut meowney = Meowney(10);

    // Eat three foods placed directly in the head's path.
    for i in 1..=3 {
        game.spawn_food_at(pos(i, 0));
        let moved = game.tick(200, &mut meowney);
        assert!(moved);
        assert_eq!(game.state, GameState::PostOffice);
        assert_eq!(game.segments.0.len(), 2 + i as usize);
    }
    assert_eq!(game.segments.0.len(), 5);
    assert_eq!(meowney.0, 10);

    // Park the food out of the path, then run into the east wall.
    game.spawn_food_at(pos(-5, -5));
    while game.state == GameState::PostOffice {
        let head = head_of(&game);
        assert!(head.x <= 5);
        let moved = game.tick(200, &mut meowney);
        assert!(moved);
    }
    assert_eq!(game.state, GameState::Outside);
    assert_eq!(game.segments.0.len(), 0);
    // 5 segments at termination, minus the 2 present at spawn.
    assert_eq!(meowney.0, 13);
}

#[test]
fn game_over_without_signal_does_nothing() {
    let mut game = game_with(&[pos(0, 0), pos(-1, 0)], Direction::Right);
    let mut meowney = Meowney(3);
    game.game_over(&mut meowney);
    assert_eq!(game.state, GameState::PostOffice);
    assert_eq!(game.segments.0.len(), 2);
    assert_eq!(meowney.0, 3);
}

#[test]
fn game_over_marks_chain_records_dead() {
    let mut game = game_with(&[pos(5, 0), pos(4, 0)], Direction::Right);
    let ids: Vec<usize> = game.segments.0.clone();
    assert!(game.move_snake(200));
    let mut meowney = Meowney(0);
    game.game_over(&mut meowney);
    for id in ids {
        assert!(!game.records[id].live);
    }
}

#[test]
fn heading_updates_respect_priority_and_reversal_rule() {
    let mut game = game_with(&[pos(0, 0), pos(-1, 0)], Direction::Right);
    // No key held keeps the heading.
    game.update_head_direction(no_keys());
    assert_eq!(game.head.direction, Direction::Right);
    // A direct reversal is rejected and the heading retained.
    game.update_head_direction(HeldKeys { left: true, down: false, up: false, right: false });
    assert_eq!(game.head.direction, Direction::Right);
    // Priority order: left, then down, then up, then right.
    game.update_head_direction(HeldKeys { left: false, down: true, up: true, right: true });
    assert_eq!(game.head.direction, Direction::Down);
    game.update_head_direction(HeldKeys { left: true, down: true, up: false, right: false });
    assert_eq!(game.head.direction, Direction::Left);
}

#[test]
fn heading_never_reverses_over_a_run_of_inputs() {
    let mut game = game_with(&[pos(0, 0), pos(-1, 0)], Direction::Up);
    let mut previous = game.head.direction;
    let frames = [
        HeldKeys { left: false, down: true, up: false, right: false },
        HeldKeys { left: true, down: false, up: false, right: false },
        HeldKeys { left: false, down: false, up: false, right: true },
        HeldKeys { left: false, down: false, up: true, right: false },
        HeldKeys { left: true, down: true, up: true, right: true },
        HeldKeys { left: false, down: false, up: false, right: false },
        HeldKeys { left: false, down: true, up: true, right: false },
        HeldKeys { left: false, down: false, up: true, right: true },
    ];
    for keys in frames {
        game.update_head_direction(keys);
        let current = game.head.direction;
        assert_ne!(current, previous.opposite());
        previous = current;
    }
}

#[test]
fn tick_without_a_full_interval_changes_only_the_clock() {
    let mut game = game_with(&[pos(0, 0), pos(-1, 0)], Direction::Right);
    let mut meowney = Meowney(0);
    let moved = game.tick(150, &mut meowney);
    assert!(!moved);
    assert_eq!(chain_of(&game), vec![pos(0, 0), pos(-1, 0)]);
    assert_eq!(game.move_timer.0.elapsed_ms, 150);
    assert_eq!(meowney.0, 0);
}
