//! Core of a small top-down 2D game: a single player entity moves over a
//! grid-based tile map, watched by a scrolling camera and drawn from a sprite
//! atlas.
//!
//! The crate verifies the three pieces with real algorithmic content:
//! the viewport resolver (world position to visible tiles and their screen
//! placement), the sprite-atlas addressing (tile id to an exact sub-rectangle
//! of a shared texture), and the fixed-cadence update loop (velocity with
//! friction and clamping, plus a slower animation clock).
//!
//! World coordinates are held in subpixel units, `SUBPX_PER_PX` units per
//! world pixel, so that positions may be fractional while every computation
//! stays exact integer arithmetic.

use vstd::prelude::*;

pub mod animation_system;
pub mod atlas;
pub mod component;
pub mod game;
pub mod map;
pub mod menu;
pub mod movement_system;
pub mod viewport;

use crate::component::{Player, Position, Velocity, Viewport};
use crate::game::FrameScheduler;
use crate::map::{TileMap, TileSheet};

verus! {

/// Screen width in pixels.
pub const WIDTH_PX: i32 = 960;

/// Screen height in pixels.
pub const HEIGHT_PX: i32 = 540;

/// Side length of one square map tile, in pixels.
pub const TL_PX: i32 = 32;

/// Screen width in whole tiles: `WIDTH_PX` divided by `TL_PX`.
pub const WIDTH_TL: i32 = 30;

/// Screen height in whole tiles: `HEIGHT_PX` divided by `TL_PX`, rounded
/// down.
pub const HEIGHT_TL: i32 = 16;

/// Half the screen width in pixels; the player is drawn at this x.
pub const HALF_WIDTH_PX: i32 = 480;

/// Half the screen height in pixels; the player is drawn at this y.
pub const HALF_HEIGHT_PX: i32 = 270;

/// Subpixel units per world pixel: world coordinates and velocities are held
/// in these units so that fractional pixel values stay exact.
pub const SUBPX_PER_PX: i64 = 100;

/// Number of frames in the player walk animation; the animation index always
/// stays below this.
pub const PLAYER_ANIMATION_FRAMES: u8 = 4;

/// The last direction pressed; selects the animation row of the player
/// sprite sheet.
#[derive(Clone, Copy, PartialEq, Eq, Structural, Hash, Debug)]
pub enum Direction {
    Up,
    Down,
    Left,
    Right,
}

/// Which top-level screen is running: the start menu or the game itself.
#[derive(Clone, Copy, PartialEq, Eq, Structural, Debug)]
pub enum RootState {
    StartMenu,
    InGame,
}

/// Largest world-position magnitude, in subpixel units, at which the update
/// loop accepts a player: one billion pixels out from the origin. Inside
/// this bound every computation of the crate stays exact; the caller checks
/// it before each frame.
pub const WORLD_LIMIT_SUBPX: i64 = 100_000_000_000;

/// The whole game state: which screen runs, the one player entity with its
/// position and cached viewport, the loaded map and tilesheet, and the
/// fixed-cadence scheduler that drives the update loop.
pub struct GameState {
    pub root: RootState,
    pub position: Position,
    pub player: Player,
    pub viewport: Viewport,
    pub map: TileMap,
    pub tilesheet: TileSheet,
    pub scheduler: FrameScheduler,
    pub show_fps: bool,
}

impl GameState {
    /// The state the update loop preserves and relies on: a bounded
    /// animation frame, scheduler residuals below their periods, and a
    /// player position within the world bound.
    pub open spec fn wf(&self) -> bool {
        &&& self.player.wf()
        &&& self.scheduler.wf()
        &&& -WORLD_LIMIT_SUBPX <= self.position.x <= WORLD_LIMIT_SUBPX
        &&& -WORLD_LIMIT_SUBPX <= self.position.y <= WORLD_LIMIT_SUBPX
    }

    /// The initial game state around a loaded map and tilesheet: the start
    /// menu is up, the player rests at the origin facing down on the first
    /// animation frame, and the viewport cache starts out empty and dirty.
    pub fn new(map: TileMap, tilesheet: TileSheet) -> (state: GameState)
        ensures
            state.root == RootState::StartMenu,
            state.position == (Position { x: 0, y: 0 }),
            state.player == (Player {
                direction: Direction::Down,
                velocity: Velocity { x: 0, y: 0 },
                animation_index: 0,
            }),
            state.viewport.tiles@ == Seq::<(i32, i32, i32, i32, i32, i32)>::empty(),
            state.viewport.dirty == true,
            state.map == map,
            state.tilesheet == tilesheet,
            state.scheduler == (FrameScheduler {
                movement_residual_ns: 0,
                animation_residual_ns: 0,
            }),
            state.show_fps == true,
            state.wf(),
    {
        GameState {
            root: RootState::StartMenu,
            position: Position { x: 0, y: 0 },
            player: Player {
                direction: Direction::Down,
                velocity: Velocity { x: 0, y: 0 },
                animation_index: 0,
            },
            viewport: Viewport { tiles: Vec::new(), dirty: true },
            map,
            tilesheet,
            scheduler: FrameScheduler { movement_residual_ns: 0, animation_residual_ns: 0 },
            show_fps: true,
        }
    }

    /// One frame's update: the start menu holds still, while the in-game
    /// path runs every movement and animation step that has come due in the
    /// elapsed `delta_ns` nanoseconds.
    pub fn update(&mut self, delta_ns: u64)
        requires
            old(self).wf(),
            delta_ns <= game::MAX_FRAME_DELTA_NS,
        ensures
            old(self).root == RootState::StartMenu ==> *final(self) == *old(self),
            old(self).root == RootState::InGame ==> game::in_game_update_rel(
                *old(self),
                *final(self),
                delta_ns,
            ),
    {
        match self.root {
            RootState::StartMenu => (),
            RootState::InGame => game::in_game_update(self, delta_ns),
        }
    }
}

} // verus!
