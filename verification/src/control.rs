//! Directional control state for the outdoor free-roam scene: which keys are
//! held, which way the character faces, and the movement axes derived from
//! the held keys.

use vstd::prelude::*;

verus! {

/// One directional input.
#[derive(Clone, Copy, Debug, PartialEq, Eq, Structural)]
pub enum ControlInput {
    Up,
    Left,
    Down,
    Right,
}

/// The set of directional inputs held this frame.
#[derive(Clone, Copy, Debug, PartialEq, Eq, Structural, Default)]
pub struct Controlled {
    pub up: bool,
    pub left: bool,
    pub down: bool,
    pub right: bool,
}

impl Controlled {
    /// Whether the given input is held.
    pub open spec fn holds(self, input: ControlInput) -> bool {
        match input {
            ControlInput::Up => self.up,
            ControlInput::Left => self.left,
            ControlInput::Down => self.down,
            ControlInput::Right => self.right,
        }
    }

    /// Membership test matching [`Controlled::holds`].
    pub fn contains(&self, input: ControlInput) -> (r: bool)
        ensures
            r == self.holds(input),
    {
        match input {
            ControlInput::Up => self.up,
            ControlInput::Left => self.left,
            ControlInput::Down => self.down,
            ControlInput::Right => self.right,
        }
    }
}

/// Rebuild the held-input set from this frame's raw key state.
pub fn read_control_input(up: bool, left: bool, down: bool, right: bool) -> (c: Controlled)
    ensures
        c == (Controlled { up, left, down, right }),
{
    Controlled { up, left, down, right }
}

/// Which way the character faces; only left and right are drawn.
#[derive(Clone, Copy, Debug, PartialEq, Eq, Structural)]
pub enum Facing {
    Right,
    Left,
}

/// The facing after one frame of input: it flips only when exactly one of the
/// horizontal inputs is held.
pub open spec fn facing_after(f: Facing, c: Controlled) -> Facing {
    if c.left && !c.right {
        Facing::Left
    } else if c.right && !c.left {
        Facing::Right
    } else {
        f
    }
}

/// Turn the character toward the single held horizontal input, if any.
pub fn update_facing(facing: &mut Facing, controlled: &Controlled)
    ensures
        *final(facing) == facing_after(*old(facing), *controlled),
{
    let left = controlled.contains(ControlInput::Left);
    let right = controlled.contains(ControlInput::Right);
    if left && !right {
        if *facing != Facing::Left {
            *facing = Facing::Left;
        }
    } else if right && !left {
        if *facing != Facing::Right {
            *facing = Facing::Right;
        }
    }
}

/// Signed contribution of a pair of opposing inputs: the positive one counts
/// +1, the negative one -1.
pub open spec fn axis(neg: bool, pos: bool) -> int {
    (if pos {
        1int
    } else {
        0int
    }) - (if neg {
        1int
    } else {
        0int
    })
}

/// The (x, y) movement axes derived from the held inputs; the velocity the
/// physics layer applies is these axes normalised and scaled.
pub fn movement_axes(c: &Controlled) -> (r: (i8, i8))
    ensures
        r.0 == axis(c.left, c.right),
        r.1 == axis(c.down, c.up),
{
    let x_axis: i8 = (if c.right {
        1i8
    } else {
        0i8
    }) - (if c.left {
        1i8
    } else {
        0i8
    });
    let y_axis: i8 = (if c.up {
        1i8
    } else {
        0i8
    }) - (if c.down {
        1i8
    } else {
        0i8
    });
    (x_axis, y_axis)
}

} // verus!
