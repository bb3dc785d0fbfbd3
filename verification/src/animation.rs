//! Sprite-sheet animation state: a timed frame cycle within a window of the
//! sheet, re-planned whenever the player's movement state changes.

use vstd::prelude::*;

use crate::clock::TickClock;
use crate::player::Player;
use crate::player::PlayerDirection;

verus! {

/// A cycling animation: `frames` frames starting at sheet index
/// `start_frame`, advancing one frame per timer interval.
#[derive(Clone, Copy, Debug, PartialEq, Eq, Structural)]
pub struct Animation {
    pub timer: TickClock,
    pub current_frame: usize,
    pub start_frame: usize,
    pub frames: usize,
}

impl Animation {
    /// A well-formed animation has at least one frame, a current frame inside
    /// the cycle, a window that fits the index type, and a sound timer.
    pub open spec fn wf(self) -> bool {
        &&& self.timer.wf()
        &&& self.frames > 0
        &&& self.current_frame < self.frames
        &&& self.start_frame + self.frames <= usize::MAX
    }

    /// The sheet index currently displayed.
    pub open spec fn sprite_index(self) -> int {
        self.start_frame + self.current_frame
    }
}

/// Advance the animation by `delta_ms` of wall-clock time: each time the
/// timer fires, step to the next frame of the cycle, wrapping at the end.
/// Returns the new sheet index when the frame advanced.
pub fn animate_player(animation: &mut Animation, delta_ms: u64) -> (sprite_index: Option<
    usize,
>)
    requires
        old(animation).wf(),
        old(animation).timer.elapsed_ms + delta_ms <= u64::MAX,
    ensures
        final(animation).wf(),
        final(animation).start_frame == old(animation).start_frame,
        final(animation).frames == old(animation).frames,
        if old(animation).timer.fires(delta_ms) {
            &&& final(animation).current_frame == (old(animation).current_frame + 1) % (
            old(animation).frames as int)
            &&& sprite_index == Some((final(animation).start_frame
                + final(animation).current_frame) as usize)
        } else {
            &&& final(animation).current_frame == old(animation).current_frame
            &&& sprite_index is None
        },
{
    let ready = animation.timer.tick(delta_ms);
    if ready {
        animation.current_frame = (animation.current_frame + 1) % animation.frames;
        Some(animation.start_frame + animation.current_frame)
    } else {
        None
    }
}

/// The frame window (start frame, frame count) for a movement state: walking
/// cycles four frames, standing holds one; right-facing sprites start at 0,
/// left-facing at 4.
pub open spec fn frame_plan(moving: bool, direction: PlayerDirection) -> (int, int) {
    match (moving, direction) {
        (true, PlayerDirection::Right) => (0, 4),
        (true, PlayerDirection::Left) => (4, 4),
        (false, PlayerDirection::Right) => (0, 1),
        (false, PlayerDirection::Left) => (4, 1),
    }
}

/// When the player's movement state changed this frame, restart the animation
/// on the frame window for the new state and lower the change flag.
pub fn update_player_animation(player: &mut Player, animation: &mut Animation)
    ensures
        if old(player).changed {
            &&& *final(player) == (Player { changed: false, ..*old(player) })
            &&& final(animation).current_frame == 0
            &&& final(animation).start_frame == frame_plan(
                old(player).moving,
                old(player).direction,
            ).0
            &&& final(animation).frames == frame_plan(
                old(player).moving,
                old(player).direction,
            ).1
            &&& final(animation).timer == old(animation).timer
        } else {
            &&& *final(player) == *old(player)
            &&& *final(animation) == *old(animation)
        },
        old(animation).wf() ==> final(animation).wf(),
{
    if player.changed {
        player.changed = false;
        match (player.moving, player.direction) {
            (true, PlayerDirection::Right) => {
                animation.current_frame = 0;
                animation.start_frame = 0;
                animation.frames = 4;
            },
            (true, PlayerDirection::Left) => {
                animation.current_frame = 0;
                animation.start_frame = 4;
                animation.frames = 4;
            },
            (false, PlayerDirection::Right) => {
                animation.current_frame = 0;
                animation.start_frame = 0;
                animation.frames = 1;
            },
            (false, PlayerDirection::Left) => {
                animation.current_frame = 0;
                animation.start_frame = 4;
                animation.frames = 1;
            },
        }
    }
}

} // verus!
