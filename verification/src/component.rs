//! The data carried by the one player entity: its world position, velocity,
//! facing direction, animation frame, and the cached viewport.

use vstd::prelude::*;

use crate::Direction;
use crate::PLAYER_ANIMATION_FRAMES;

verus! {

/// A world position in subpixel units (`SUBPX_PER_PX` units per pixel).
/// Mutated only by the movement integrator.
#[derive(Clone, Copy, PartialEq, Eq, Structural, Debug)]
pub struct Position {
    pub x: i64,
    pub y: i64,
}

/// A velocity in subpixel units per movement tick.
#[derive(Clone, Copy, PartialEq, Eq, Structural, Debug)]
pub struct Velocity {
    pub x: i64,
    pub y: i64,
}

/// Marker for entities that are drawn each frame.
#[derive(Clone, Copy, PartialEq, Eq, Structural, Debug)]
pub struct Renderable {}

/// The player's mutable state apart from its position.
#[derive(Clone, Copy, PartialEq, Eq, Structural, Debug)]
pub struct Player {
    pub direction: Direction,
    pub velocity: Velocity,
    pub animation_index: u8,
}

impl Player {
    /// The animation index is a bounded counter: it always stays below the
    /// frame count of the player sprite sheet.
    pub open spec fn wf(&self) -> bool {
        self.animation_index < PLAYER_ANIMATION_FRAMES
    }
}

/// The cached list of visible tiles, regenerated only when `dirty` is set.
///
/// Each entry is `(tile map x, tile map y, tile world pixel x, tile world
/// pixel y, screen pixel x, screen pixel y)`.
#[derive(PartialEq, Eq, Debug)]
pub struct Viewport {
    pub tiles: Vec<(i32, i32, i32, i32, i32, i32)>,
    pub dirty: bool,
}

} // verus!
