//! The animation clock: a bounded frame counter that advances while the
//! player moves and resets to the first frame the moment it stands still.
//! It runs at its own, slower cadence, independent of the movement tick.

use vstd::prelude::*;

use crate::component::Player;
use crate::PLAYER_ANIMATION_FRAMES;

verus! {

/// Whether the player counts as moving: either velocity component has a
/// magnitude above zero.
pub open spec fn spec_is_moving(p: Player) -> bool {
    p.velocity.x != 0 || p.velocity.y != 0
}

/// What one animation tick does to the frame index: while moving it cycles
/// through `0..PLAYER_ANIMATION_FRAMES`, standing still resets it to `0` at
/// once.
pub open spec fn spec_tick_animation(frame: int, moving: bool) -> int {
    if moving {
        (frame + 1) % (PLAYER_ANIMATION_FRAMES as int)
    } else {
        0
    }
}

/// The animation clock. One `run` is one animation tick.
pub struct AnimationSystem {}

impl AnimationSystem {
    /// One animation tick: a moving player advances to the next of the four
    /// walk frames, wrapping around; a resting player snaps back to frame 0.
    /// Nothing else about the player changes.
    pub fn run(&mut self, player: &mut Player)
        requires
            old(player).wf(),
        ensures
            final(player).animation_index == spec_tick_animation(
                old(player).animation_index as int,
                spec_is_moving(*old(player)),
            ),
            final(player).wf(),
            final(player).direction == old(player).direction,
            final(player).velocity == old(player).velocity,
    {
        // Alternate between the walk frames (0 through 3) while moving.
        if player.velocity.x != 0 || player.velocity.y != 0 {
            player.animation_index = (player.animation_index + 1) % PLAYER_ANIMATION_FRAMES;
        } else {
            player.animation_index = 0;
        }
    }
}

/// Animation cycling has period `PLAYER_ANIMATION_FRAMES`: four ticks while
/// moving bring the frame index back to where it started.
pub proof fn lemma_animation_cycles(frame: int)
    requires
        0 <= frame < PLAYER_ANIMATION_FRAMES,
    ensures
        spec_tick_animation(
            spec_tick_animation(
                spec_tick_animation(spec_tick_animation(frame, true), true),
                true,
            ),
            true,
        ) == frame,
{
}

} // verus!
