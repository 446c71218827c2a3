//! The movement integrator: each movement tick burns velocity down with
//! friction, clamps it, and then advances the player position by it.

use vstd::math::abs;
use vstd::prelude::*;

use crate::component::{Player, Position, Velocity, Viewport};
use crate::viewport::CAMERA_POS_LIMIT_SUBPX;

verus! {

/// Velocity kept per tick is one part in this many: an intentionally
/// aggressive drag, nine tenths of the speed are lost every movement tick.
pub const FRICTION_DIVISOR: i64 = 10;

/// Velocity magnitudes below this zero out when clamped: one tenth of a
/// pixel per tick, in subpixel units.
pub const VELOCITY_MIN_SUBPX: i64 = 10;

/// Velocity magnitudes are capped here when clamped: fifty pixels per tick,
/// in subpixel units.
pub const VELOCITY_MAX_SUBPX: i64 = 5000;

/// The unsigned zeroing clamp as a mathematical function: magnitudes under
/// `min` snap to zero, magnitudes over `max` are capped at `max` with the
/// sign kept, anything else passes through.
pub open spec fn spec_unsigned_zeroing_clamp(value: int, min: int, max: int) -> int {
    if abs(value) < min {
        0
    } else if abs(value) > max {
        if value >= 0 {
            max
        } else {
            -max
        }
    } else {
        value
    }
}

/// Keeps `value` inside the range made of `min` and `max`, read as both
/// signed and unsigned: a magnitude below `min` becomes exactly zero (so a
/// decaying velocity stops instead of creeping forever), a magnitude above
/// `max` is capped at `max` while keeping the sign, and anything between
/// passes through unchanged.
pub fn unsigned_zeroing_clamp(value: i64, min: i64, max: i64) -> (clamped: i64)
    requires
        0 <= min <= max,
    ensures
        clamped == spec_unsigned_zeroing_clamp(value as int, min as int, max as int),
{
    if value >= 0 {
        if value < min {
            0
        } else if value > max {
            max
        } else {
            value
        }
    } else {
        if value > -min {
            0
        } else if value < -max {
            -max
        } else {
            value
        }
    }
}

/// Friction applied to one velocity component: the velocity is cut to one
/// tenth, rounding toward zero, so that the decay is symmetric for both
/// movement directions.
pub open spec fn spec_apply_friction(value: int) -> int {
    if value >= 0 {
        value / (FRICTION_DIVISOR as int)
    } else {
        -((-value) / (FRICTION_DIVISOR as int))
    }
}

/// Cuts one velocity component down to one `FRICTION_DIVISOR`-th, rounding
/// toward zero.
pub fn apply_friction(value: i64) -> (damped: i64)
    ensures
        damped == spec_apply_friction(value as int),
{
    value.checked_div(FRICTION_DIVISOR).unwrap()
}

/// What one movement tick does to one velocity component: friction first,
/// then the zeroing clamp with the game's velocity bounds.
pub open spec fn spec_tick_velocity(value: int) -> int {
    spec_unsigned_zeroing_clamp(
        spec_apply_friction(value),
        VELOCITY_MIN_SUBPX as int,
        VELOCITY_MAX_SUBPX as int,
    )
}

/// The movement integrator. One `run` is one fixed movement tick: velocity
/// decays and is clamped, then the position advances by the new velocity,
/// and the viewport is marked dirty whenever the position changed.
pub struct MovementSystem {}

impl MovementSystem {
    /// One movement tick. The order is fixed: friction decay, then the
    /// zeroing clamp on each axis, then the position moves by the clamped
    /// velocity. The viewport cache is marked dirty exactly when the
    /// position changed; everything else about the player is untouched.
    pub fn run(&mut self, position: &mut Position, player: &mut Player, viewport: &mut Viewport)
        requires
            -CAMERA_POS_LIMIT_SUBPX + VELOCITY_MAX_SUBPX <= old(position).x
                <= CAMERA_POS_LIMIT_SUBPX - VELOCITY_MAX_SUBPX,
            -CAMERA_POS_LIMIT_SUBPX + VELOCITY_MAX_SUBPX <= old(position).y
                <= CAMERA_POS_LIMIT_SUBPX - VELOCITY_MAX_SUBPX,
        ensures
            final(player).velocity.x == spec_tick_velocity(old(player).velocity.x as int),
            final(player).velocity.y == spec_tick_velocity(old(player).velocity.y as int),
            -VELOCITY_MAX_SUBPX <= final(player).velocity.x <= VELOCITY_MAX_SUBPX,
            -VELOCITY_MAX_SUBPX <= final(player).velocity.y <= VELOCITY_MAX_SUBPX,
            final(player).direction == old(player).direction,
            final(player).animation_index == old(player).animation_index,
            final(position).x == old(position).x + final(player).velocity.x,
            final(position).y == old(position).y + final(player).velocity.y,
            -CAMERA_POS_LIMIT_SUBPX <= final(position).x <= CAMERA_POS_LIMIT_SUBPX,
            -CAMERA_POS_LIMIT_SUBPX <= final(position).y <= CAMERA_POS_LIMIT_SUBPX,
            final(viewport).tiles@ == old(viewport).tiles@,
            final(viewport).dirty == (old(viewport).dirty || *final(position) != *old(position)),
    {
        // Burn down velocity with friction, then clamp it so that values can
        // neither creep asymptotically toward zero nor grow without bound.
        let vx = unsigned_zeroing_clamp(
            apply_friction(player.velocity.x),
            VELOCITY_MIN_SUBPX,
            VELOCITY_MAX_SUBPX,
        );
        let vy = unsigned_zeroing_clamp(
            apply_friction(player.velocity.y),
            VELOCITY_MIN_SUBPX,
            VELOCITY_MAX_SUBPX,
        );
        player.velocity = Velocity { x: vx, y: vy };

        // Move the player by the clamped velocity, in subpixels per tick.
        position.x = position.x + vx;
        position.y = position.y + vy;

        if vx != 0 || vy != 0 {
            viewport.dirty = true;
        }
    }
}

} // verus!
