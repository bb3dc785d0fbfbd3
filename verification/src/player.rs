//! Movement and facing state for the outdoor player character. The physics
//! velocity itself lives with the physics engine; this is the decision state
//! it is derived from.

use vstd::prelude::*;

verus! {

/// Which way the player sprite faces.
#[derive(Clone, Copy, Debug, PartialEq, Eq, Structural, Hash)]
pub enum PlayerDirection {
    Right,
    Left,
}

/// The player's animation-relevant state: whether they are moving, which way
/// they face, and whether either changed since the animation last looked.
#[derive(Clone, Copy, Debug, PartialEq, Eq, Structural)]
pub struct Player {
    pub moving: bool,
    pub direction: PlayerDirection,
    pub changed: bool,
}

impl Default for Player {
    /// A freshly spawned player stands still, facing right.
    fn default() -> (p: Self)
        ensures
            p == (Player { moving: false, direction: PlayerDirection::Right, changed: false }),
    {
        Player { moving: false, direction: PlayerDirection::Right, changed: false }
    }
}

/// The directional key state sampled this frame, with edge information for
/// the two horizontal keys.
#[derive(Clone, Copy, Debug, PartialEq, Eq, Structural)]
pub struct KeyPresses {
    pub up: bool,
    pub left: bool,
    pub down: bool,
    pub right: bool,
    pub just_pressed_left: bool,
    pub just_pressed_right: bool,
    pub just_released_left: bool,
    pub just_released_right: bool,
}

/// Whether any directional key is held.
pub open spec fn any_direction_held(k: KeyPresses) -> bool {
    k.up || k.left || k.down || k.right
}

/// The player turns right when the right key has just begun being pressed
/// while left is not held, or when right was already held and left was just
/// released.
pub open spec fn turns_right(k: KeyPresses) -> bool {
    (k.just_pressed_right && !k.left) || (k.right && !k.just_pressed_right
        && k.just_released_left)
}

/// The player turns left when the left key has just begun being pressed while
/// right is not held, or when left was already held and right was just
/// released.
pub open spec fn turns_left(k: KeyPresses) -> bool {
    (k.just_pressed_left && !k.right) || (k.left && !k.just_pressed_left
        && k.just_released_right)
}

/// The player state after one frame of key input: `moving` mirrors whether
/// any key is held, the direction follows the turn rules (a simultaneous
/// turn both ways resolves to left, the last rule applied), and `changed` is
/// raised whenever anything moved or turned.
pub open spec fn player_after(p: Player, k: KeyPresses) -> Player {
    Player {
        moving: any_direction_held(k),
        direction: if turns_left(k) {
            PlayerDirection::Left
        } else if turns_right(k) {
            PlayerDirection::Right
        } else {
            p.direction
        },
        changed: p.changed || p.moving != any_direction_held(k) || turns_right(k)
            || turns_left(k),
    }
}

/// Apply one frame of key input to the player's movement state.
pub fn move_player(player: &mut Player, keys: KeyPresses)
    ensures
        *final(player) == player_after(*old(player), keys),
{
    let up = keys.up;
    let left = keys.left;
    let down = keys.down;
    let right = keys.right;

    let turn_right = (keys.just_pressed_right && !left) || (right && !keys.just_pressed_right
        && keys.just_released_left);
    let turn_left = (keys.just_pressed_left && !right) || (left && !keys.just_pressed_left
        && keys.just_released_right);

    if up || left || down || right {
        if !player.moving {
            player.moving = true;
            player.changed = true;
        }
    } else {
        if player.moving {
            player.moving = false;
            player.changed = true;
        }
    }

    if turn_right {
        player.direction = PlayerDirection::Right;
        player.changed = true;
    }

    if turn_left {
        player.direction = PlayerDirection::Left;
        player.changed = true;
    }
}

} // verus!
