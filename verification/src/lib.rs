//! Core simulation logic for a grid-based snake arena: tick-gated movement of
//! a multi-segment creature, collision rules, growth on food consumption, and
//! scoring on termination — plus the small decision rules of the scenes
//! around it (heading and facing updates, animation planning, scene
//! transitions).
//!
//! The engine shell that would surround this logic — rendering, asset
//! loading, keyboard polling, the physics-driven outdoor walk — is framework
//! I/O with no algorithmic content of its own; it stays outside the library
//! and exchanges plain values (key states, coordinates, scene identifiers)
//! with it. The one outside computation the simulation itself needs, a
//! pseudo-random cell for food placement, is reached through a small trusted
//! boundary in `random`.

pub mod animation;
pub mod clock;
pub mod control;
pub mod grid;
pub mod player;
pub mod post_office;
mod random;

pub use clock::TickClock;
pub use grid::ARENA_HEIGHT;
pub use grid::ARENA_WIDTH;
pub use grid::CELL_SCALE;
pub use grid::Direction;
pub use grid::Position;
pub use grid::in_bounds;
pub use grid::opposite_spec;
pub use grid::position_in_bounds;
pub use grid::position_translation;
pub use grid::screen_to_grid;
pub use grid::step;
pub use grid::step_x;
pub use grid::step_y;
pub use post_office::Food;
pub use post_office::HeldKeys;
pub use post_office::LastTailPosition;
pub use post_office::MoveTimer;
pub use post_office::SnakeGame;
pub use post_office::SnakeGameOver;
pub use post_office::SnakeGrowth;
pub use post_office::SnakeHead;
pub use post_office::SnakeSegment;
pub use post_office::SnakeSegments;
pub use post_office::SpawnFood;
pub use post_office::TICK_INTERVAL_MS;
pub use post_office::setup;

use vstd::prelude::*;

verus! {

/// The scenes the game can be in. The snake arena simulation runs in
/// `PostOffice`; the game-over handler transitions back to `Outside`.
#[derive(Clone, Copy, Debug, PartialEq, Eq, Structural)]
pub enum GameState {
    AssetLoading,
    MainMenu,
    Outside,
    PostOffice,
    End,
}

/// Process-wide running score, incremented only by the game-over handler.
#[derive(Clone, Copy, Debug, PartialEq, Eq, Structural)]
pub struct Meowney(pub u32);

/// How many meowney the end scene costs to enter.
pub const END_SCENE_COST: u32 = 20;

/// The scene after one frame of input in the outdoor scene: space enters the
/// arena; otherwise `e` enters the end scene once at least [`END_SCENE_COST`]
/// meowney has been banked; otherwise the scene is kept.
pub open spec fn scene_transition_spec(
    space_pressed: bool,
    e_pressed: bool,
    banked: u32,
    current: GameState,
) -> GameState {
    if space_pressed {
        GameState::PostOffice
    } else if e_pressed && banked >= END_SCENE_COST {
        GameState::End
    } else {
        current
    }
}

/// Decide the next scene from the outdoor scene's key state and the running
/// score.
pub fn scene_transition(
    space_pressed: bool,
    e_pressed: bool,
    meowney: &Meowney,
    current: GameState,
) -> (next: GameState)
    ensures
        next == scene_transition_spec(space_pressed, e_pressed, meowney.0, current),
{
    if space_pressed {
        GameState::PostOffice
    } else if e_pressed && meowney.0 >= END_SCENE_COST {
        GameState::End
    } else {
        current
    }
}

} // verus!
