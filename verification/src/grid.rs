//! Grid coordinates, arena bounds, headings, and the grid-to-screen
//! translation used by the rendering layer.

use vstd::prelude::*;

verus! {

/// Half-extent of the arena along x: legal x coordinates are `-ARENA_WIDTH ..= ARENA_WIDTH`.
pub const ARENA_WIDTH: i32 = 5;

/// Half-extent of the arena along y: legal y coordinates are `-ARENA_HEIGHT ..= ARENA_HEIGHT`.
pub const ARENA_HEIGHT: i32 = 5;

/// Number of screen units per grid cell.
pub const CELL_SCALE: i32 = 24;

/// A grid cell identifier. Pure value type; equality is structural.
#[derive(Clone, Copy, Debug, PartialEq, Eq, Structural)]
pub struct Position {
    pub x: i32,
    pub y: i32,
}

/// A position is legal exactly when it lies within the arena's half-extents,
/// inclusive on all four sides.
pub open spec fn in_bounds(p: Position) -> bool {
    -ARENA_WIDTH <= p.x <= ARENA_WIDTH && -ARENA_HEIGHT <= p.y <= ARENA_HEIGHT
}

/// Runtime check matching [`in_bounds`].
pub fn position_in_bounds(p: Position) -> (r: bool)
    ensures
        r == in_bounds(p),
{
    -ARENA_WIDTH <= p.x && p.x <= ARENA_WIDTH && -ARENA_HEIGHT <= p.y && p.y <= ARENA_HEIGHT
}

/// The heading applied to the snake's head each tick.
#[derive(Clone, Copy, Debug, PartialEq, Eq, Structural)]
pub enum Direction {
    Left,
    Down,
    Up,
    Right,
}

/// The reverse of each heading.
pub open spec fn opposite_spec(d: Direction) -> Direction {
    match d {
        Direction::Left => Direction::Right,
        Direction::Down => Direction::Up,
        Direction::Up => Direction::Down,
        Direction::Right => Direction::Left,
    }
}

impl Direction {
    /// Total function mapping each heading to its reverse.
    pub fn opposite(self) -> (r: Self)
        ensures
            r == opposite_spec(self),
    {
        match self {
            Direction::Left => Self::Right,
            Direction::Down => Self::Up,
            Direction::Up => Self::Down,
            Direction::Right => Self::Left,
        }
    }
}

/// The x coordinate one cell from `p` along `d`.
pub open spec fn step_x(p: Position, d: Direction) -> int {
    match d {
        Direction::Left => p.x - 1,
        Direction::Right => p.x + 1,
        _ => p.x as int,
    }
}

/// The y coordinate one cell from `p` along `d`.
pub open spec fn step_y(p: Position, d: Direction) -> int {
    match d {
        Direction::Down => p.y - 1,
        Direction::Up => p.y + 1,
        _ => p.y as int,
    }
}

/// The cell one step from `p` along `d`: Left is x-1, Right is x+1,
/// Up is y+1, Down is y-1.
pub fn step(p: Position, d: Direction) -> (r: Position)
    requires
        i32::MIN < p.x < i32::MAX,
        i32::MIN < p.y < i32::MAX,
    ensures
        r.x == step_x(p, d),
        r.y == step_y(p, d),
{
    match d {
        Direction::Left => Position { x: p.x - 1, y: p.y },
        Direction::Down => Position { x: p.x, y: p.y - 1 },
        Direction::Up => Position { x: p.x, y: p.y + 1 },
        Direction::Right => Position { x: p.x + 1, y: p.y },
    }
}

/// Screen coordinates of a grid cell: each axis scaled by [`CELL_SCALE`].
pub open spec fn grid_to_screen_spec(p: Position) -> (int, int) {
    (p.x * CELL_SCALE, p.y * CELL_SCALE)
}

/// Grid cell of a screen coordinate: each axis divided by [`CELL_SCALE`].
pub open spec fn screen_to_grid_spec(sx: int, sy: int) -> Position {
    Position { x: (sx / (CELL_SCALE as int)) as i32, y: (sy / (CELL_SCALE as int)) as i32 }
}

/// Screen-space position of a committed grid coordinate, read once per render
/// frame: `screen = cell * CELL_SCALE` on each axis.
pub fn position_translation(p: Position) -> (r: (i32, i32))
    requires
        in_bounds(p),
    ensures
        (r.0 as int, r.1 as int) == grid_to_screen_spec(p),
{
    (p.x * CELL_SCALE, p.y * CELL_SCALE)
}

/// Inverse of [`position_translation`]: recovers the grid cell from the
/// screen position of a valid cell.
pub fn screen_to_grid(sx: i32, sy: i32) -> (p: Position)
    requires
        exists|c: Position| in_bounds(c) && (sx as int, sy as int) == grid_to_screen_spec(c),
    ensures
        p == screen_to_grid_spec(sx as int, sy as int),
        in_bounds(p),
        grid_to_screen_spec(p) == (sx as int, sy as int),
{
    proof {
        let c = choose|c: Position| in_bounds(c) && (sx as int, sy as int)
            == grid_to_screen_spec(c);
        lemma_screen_divides_back(c);
    }
    let qx: u32 = ((sx + ARENA_WIDTH * CELL_SCALE) as u32) / (CELL_SCALE as u32);
    let qy: u32 = ((sy + ARENA_HEIGHT * CELL_SCALE) as u32) / (CELL_SCALE as u32);
    let p = Position {
        x: (qx as i32) - ARENA_WIDTH,
        y: (qy as i32) - ARENA_HEIGHT,
    };
    p
}

/// Dividing a valid cell's screen coordinate by the scale recovers the cell,
/// both through the euclidean division of the specification and through the
/// shifted unsigned division the executable code uses.
proof fn lemma_screen_divides_back(c: Position)
    requires
        in_bounds(c),
    ensures
        screen_to_grid_spec(c.x * CELL_SCALE, c.y * CELL_SCALE) == c,
        (c.x * CELL_SCALE + ARENA_WIDTH * CELL_SCALE) / (CELL_SCALE as int) == c.x
            + ARENA_WIDTH,
        (c.y * CELL_SCALE + ARENA_HEIGHT * CELL_SCALE) / (CELL_SCALE as int) == c.y
            + ARENA_HEIGHT,
{
    vstd::arithmetic::div_mod::lemma_div_multiples_vanish(c.x as int, CELL_SCALE as int);
    vstd::arithmetic::div_mod::lemma_div_multiples_vanish(c.y as int, CELL_SCALE as int);
    vstd::arithmetic::div_mod::lemma_div_multiples_vanish(
        c.x + ARENA_WIDTH as int,
        CELL_SCALE as int,
    );
    vstd::arithmetic::div_mod::lemma_div_multiples_vanish(
        c.y + ARENA_HEIGHT as int,
        CELL_SCALE as int,
    );
    assert(c.x * CELL_SCALE + ARENA_WIDTH * CELL_SCALE == (c.x + ARENA_WIDTH as int)
        * CELL_SCALE) by (nonlinear_arith);
    assert(c.y * CELL_SCALE + ARENA_HEIGHT * CELL_SCALE == (c.y + ARENA_HEIGHT as int)
        * CELL_SCALE) by (nonlinear_arith);
}

/// Round-trip translation law: for every valid coordinate, translating to
/// screen space and back yields the same coordinate, given the fixed scale.
pub proof fn lemma_translation_round_trip(c: Position)
    requires
        in_bounds(c),
    ensures
        screen_to_grid_spec(grid_to_screen_spec(c).0, grid_to_screen_spec(c).1) == c,
{
    lemma_screen_divides_back(c);
}

} // verus!
