//! The in-game update and draw paths: directional impulses from input, the
//! fixed-cadence scheduler that fires movement and animation ticks, and the
//! functions that turn the game state into the list of draw commands the
//! renderer consumes.

use vstd::arithmetic::div_mod::{lemma_fundamental_div_mod, lemma_mod_bound};
use vstd::prelude::*;

use crate::animation_system::{spec_is_moving, spec_tick_animation, AnimationSystem};
use crate::atlas;
use crate::atlas::{
    spec_direction_row, spec_resolve, NormalizedRect, PLAYER_SHEET_COLS, PLAYER_SHEET_ROWS,
};
use crate::component::{Player, Position, Velocity, Viewport};
use crate::map::{TileMap, TileSheet, MISSING_TILE_ID};
use crate::movement_system::{spec_tick_velocity, MovementSystem};
use crate::viewport::{spec_viewport_tiles_for, ViewportSystem};
use crate::{Direction, GameState, HALF_HEIGHT_PX, HALF_WIDTH_PX, WORLD_LIMIT_SUBPX};

verus! {

/// Movement ticks fire at 60 Hz: one tick per this many nanoseconds.
pub const MOVEMENT_PERIOD_NS: u64 = 16_666_666;

/// Animation ticks fire at 8 Hz: one tick per this many nanoseconds.
pub const ANIMATION_PERIOD_NS: u64 = 125_000_000;

/// Largest elapsed time one update call accepts, in nanoseconds: a little
/// over a quarter hour. It bounds how many catch-up ticks a single frame can
/// owe.
pub const MAX_FRAME_DELTA_NS: u64 = 1_000_000_000_000;

/// One directional impulse adds this much velocity, in subpixel units per
/// tick: one tile length of speed.
pub const IMPULSE_SUBPX: i64 = 3200;

/// What one directional impulse does to the velocity: a tile length of speed
/// toward the pressed direction, on top of what is already there.
pub open spec fn spec_impulse_velocity(v: Velocity, direction: Direction) -> Velocity {
    match direction {
        Direction::Up => Velocity { x: v.x, y: (v.y - IMPULSE_SUBPX) as i64 },
        Direction::Down => Velocity { x: v.x, y: (v.y + IMPULSE_SUBPX) as i64 },
        Direction::Left => Velocity { x: (v.x - IMPULSE_SUBPX) as i64, y: v.y },
        Direction::Right => Velocity { x: (v.x + IMPULSE_SUBPX) as i64, y: v.y },
    }
}

/// Applies a directional impulse to the player: the velocity gains a tile
/// length of speed toward `direction`, the facing direction becomes
/// `direction` (last press wins), and the viewport is marked dirty.
pub fn try_move_player(direction: Direction, player: &mut Player, viewport: &mut Viewport)
    requires
        i64::MIN + IMPULSE_SUBPX <= old(player).velocity.x <= i64::MAX - IMPULSE_SUBPX,
        i64::MIN + IMPULSE_SUBPX <= old(player).velocity.y <= i64::MAX - IMPULSE_SUBPX,
    ensures
        final(player).direction == direction,
        final(player).velocity == spec_impulse_velocity(old(player).velocity, direction),
        final(player).animation_index == old(player).animation_index,
        final(viewport).tiles@ == old(viewport).tiles@,
        final(viewport).dirty == true,
{
    let (dx, dy): (i64, i64) = match direction {
        Direction::Up => (0, -IMPULSE_SUBPX),
        Direction::Left => (-IMPULSE_SUBPX, 0),
        Direction::Down => (0, IMPULSE_SUBPX),
        Direction::Right => (IMPULSE_SUBPX, 0),
    };
    player.direction = direction;
    player.velocity = Velocity { x: player.velocity.x + dx, y: player.velocity.y + dy };
    viewport.dirty = true;
}

/// The compute half of in-game input handling: a pressed direction becomes
/// an impulse on the player, and the frames-per-second overlay can be
/// toggled. Quitting stays with the caller.
pub fn in_game_input(state: &mut GameState, direction: Option<Direction>, toggle_fps: bool)
    requires
        direction.is_some() ==> i64::MIN + IMPULSE_SUBPX <= old(state).player.velocity.x
            <= i64::MAX - IMPULSE_SUBPX,
        direction.is_some() ==> i64::MIN + IMPULSE_SUBPX <= old(state).player.velocity.y
            <= i64::MAX - IMPULSE_SUBPX,
    ensures
        match direction {
            Some(d) => {
                &&& final(state).player.direction == d
                &&& final(state).player.velocity == spec_impulse_velocity(
                    old(state).player.velocity,
                    d,
                )
                &&& final(state).viewport.dirty == true
            },
            None => {
                &&& final(state).player == old(state).player
                &&& final(state).viewport.dirty == old(state).viewport.dirty
            },
        },
        final(state).player.animation_index == old(state).player.animation_index,
        final(state).viewport.tiles@ == old(state).viewport.tiles@,
        final(state).show_fps == (if toggle_fps {
            !old(state).show_fps
        } else {
            old(state).show_fps
        }),
        final(state).position == old(state).position,
        final(state).root == old(state).root,
        final(state).map == old(state).map,
        final(state).tilesheet == old(state).tilesheet,
        final(state).scheduler == old(state).scheduler,
{
    if let Some(dir) = direction {
        try_move_player(dir, &mut state.player, &mut state.viewport);
    }
    if toggle_fps {
        state.show_fps = !state.show_fps;
    }
}

/// One draw command for the renderer: which normalized sub-rectangle of a
/// texture to draw, and the screen pixel to place it at (center origin).
#[derive(Clone, Copy, PartialEq, Eq, Structural, Debug)]
pub struct SpriteDraw {
    pub src: NormalizedRect,
    pub dest_x: i32,
    pub dest_y: i32,
}

/// The tile id a map cell is drawn with: a missing cell falls back to the
/// sentinel tile, and an id below the atlas range falls back to the sentinel
/// too (or, if even the sentinel lies below the range, to the first tile of
/// the sheet), so rendering never halts.
pub open spec fn spec_drawable_tile_id(
    m: Map<(i32, i32), crate::map::MapTile>,
    x: i32,
    y: i32,
    sheet: TileSheet,
) -> u32 {
    let id = if m.contains_key((x, y)) {
        m[(x, y)].tile_id
    } else {
        MISSING_TILE_ID
    };
    if id >= sheet.first_tile_id {
        id
    } else if MISSING_TILE_ID >= sheet.first_tile_id {
        MISSING_TILE_ID
    } else {
        sheet.first_tile_id
    }
}

/// The draw command of one viewport entry: the atlas rectangle of the cell's
/// drawable tile id, placed at the entry's screen pixel coordinates.
pub open spec fn spec_tile_draw(
    entry: (i32, i32, i32, i32, i32, i32),
    m: Map<(i32, i32), crate::map::MapTile>,
    sheet: TileSheet,
) -> SpriteDraw {
    SpriteDraw {
        src: spec_resolve(spec_drawable_tile_id(m, entry.0, entry.1, sheet) as int, sheet),
        dest_x: entry.4,
        dest_y: entry.5,
    }
}

/// Renders the visible map tiles: one draw command per viewport entry, in
/// enumeration order, each placed at its entry's screen pixel coordinates
/// with the atlas rectangle of the tile found at the entry's map coordinates
/// (or of the sentinel, where the map has a gap).
pub fn render_tiles(viewport: &Viewport, map: &TileMap, tilesheet: &TileSheet) -> (draws: Vec<
    SpriteDraw,
>)
    requires
        tilesheet.wf(),
    ensures
        draws@.len() == viewport.tiles@.len(),
        forall|i: int| 0 <= i < draws@.len() ==> draws@[i] == spec_tile_draw(
            viewport.tiles@[i],
            map@,
            *tilesheet,
        ),
{
    let mut draws: Vec<SpriteDraw> = Vec::new();
    let mut i: usize = 0;
    while i < viewport.tiles.len()
        invariant
            i <= viewport.tiles@.len(),
            tilesheet.wf(),
            draws@.len() == i,
            forall|j: int| 0 <= j < i ==> draws@[j] == spec_tile_draw(
                viewport.tiles@[j],
                map@,
                *tilesheet,
            ),
        decreases viewport.tiles@.len() - i,
    {
        let entry = viewport.tiles[i];

        // A gap in the map becomes the sentinel tile rather than an error.
        let tile_id = match map.get(entry.0, entry.1) {
            Some(tile) => tile.tile_id,
            None => MISSING_TILE_ID,
        };

        // An id below the atlas range is a data mismatch: substitute the
        // sentinel (or the sheet's first tile) instead of propagating it.
        let drawable_id = if tile_id >= tilesheet.first_tile_id {
            tile_id
        } else if MISSING_TILE_ID >= tilesheet.first_tile_id {
            MISSING_TILE_ID
        } else {
            tilesheet.first_tile_id
        };
        let rect = atlas::resolve(drawable_id, tilesheet).unwrap();

        draws.push(SpriteDraw { src: rect, dest_x: entry.4, dest_y: entry.5 });
        i = i + 1;
    }
    draws
}

/// The draw command of the player sprite: its sheet cell is picked by the
/// animation frame and facing direction, and it is always placed at the
/// center of the screen.
pub open spec fn spec_player_draw(player: Player) -> SpriteDraw {
    SpriteDraw {
        src: NormalizedRect {
            x_num: player.animation_index as u64,
            y_num: spec_direction_row(player.direction) as u64,
            w_num: 1,
            h_num: 1,
            x_den: PLAYER_SHEET_COLS,
            y_den: PLAYER_SHEET_ROWS,
        },
        dest_x: HALF_WIDTH_PX,
        dest_y: HALF_HEIGHT_PX,
    }
}

/// Renders the player: one draw command, at the center of the screen, with
/// the sprite-sheet cell of the current animation frame and direction.
pub fn render_player(player: &Player) -> (draw: SpriteDraw)
    ensures
        draw == spec_player_draw(*player),
{
    SpriteDraw {
        src: atlas::resolve_player_sprite(player.animation_index, player.direction),
        dest_x: HALF_WIDTH_PX,
        dest_y: HALF_HEIGHT_PX,
    }
}

/// The compute half of the in-game draw path: everything the renderer must
/// draw for one frame, the visible tiles in order and then the player on
/// top.
pub fn in_game_draw(state: &GameState) -> (draws: (Vec<SpriteDraw>, SpriteDraw))
    requires
        state.tilesheet.wf(),
    ensures
        draws.0@.len() == state.viewport.tiles@.len(),
        forall|i: int| 0 <= i < draws.0@.len() ==> draws.0@[i] == spec_tile_draw(
            state.viewport.tiles@[i],
            state.map@,
            state.tilesheet,
        ),
        draws.1 == spec_player_draw(state.player),
{
    let tiles = render_tiles(&state.viewport, &state.map, &state.tilesheet);
    let player = render_player(&state.player);
    (tiles, player)
}

/// The fixed-timestep gate: per cadence it accumulates elapsed real time and
/// fires zero or more ticks per rendered frame (catch-up semantics), keeping
/// the remainder. The two cadences are gated independently, so changing one
/// cannot perturb the other.
#[derive(Clone, Copy, PartialEq, Eq, Structural, Debug)]
pub struct FrameScheduler {
    pub movement_residual_ns: u64,
    pub animation_residual_ns: u64,
}

/// How many ticks a cadence owes after `delta` more nanoseconds: the
/// accumulated time divided by the period.
pub open spec fn spec_scheduler_steps(residual: u64, delta: u64, period: u64) -> int {
    (residual + delta) / (period as int)
}

/// The time a cadence keeps accumulated after firing its owed ticks: the
/// accumulated time modulo the period.
pub open spec fn spec_scheduler_residual(residual: u64, delta: u64, period: u64) -> int {
    (residual + delta) % (period as int)
}

impl FrameScheduler {
    /// Each cadence's accumulated remainder stays below its period.
    pub open spec fn wf(&self) -> bool {
        self.movement_residual_ns < MOVEMENT_PERIOD_NS && self.animation_residual_ns
            < ANIMATION_PERIOD_NS
    }

    /// A fresh scheduler owes nothing.
    pub fn new() -> (scheduler: FrameScheduler)
        ensures
            scheduler == (FrameScheduler { movement_residual_ns: 0, animation_residual_ns: 0 }),
            scheduler.wf(),
    {
        FrameScheduler { movement_residual_ns: 0, animation_residual_ns: 0 }
    }

    /// Accounts `delta_ns` more elapsed nanoseconds and returns how many
    /// movement ticks and how many animation ticks are now due: each cadence
    /// fires once per full period accumulated and keeps the remainder.
    pub fn advance(&mut self, delta_ns: u64) -> (steps: (u64, u64))
        requires
            old(self).wf(),
            delta_ns <= MAX_FRAME_DELTA_NS,
        ensures
            steps.0 == spec_scheduler_steps(
                old(self).movement_residual_ns,
                delta_ns,
                MOVEMENT_PERIOD_NS,
            ),
            steps.1 == spec_scheduler_steps(
                old(self).animation_residual_ns,
                delta_ns,
                ANIMATION_PERIOD_NS,
            ),
            final(self).movement_residual_ns == spec_scheduler_residual(
                old(self).movement_residual_ns,
                delta_ns,
                MOVEMENT_PERIOD_NS,
            ),
            final(self).animation_residual_ns == spec_scheduler_residual(
                old(self).animation_residual_ns,
                delta_ns,
                ANIMATION_PERIOD_NS,
            ),
            final(self).wf(),
            steps.0 <= 60001,
            steps.1 <= 8001,
    {
        let movement_acc = self.movement_residual_ns + delta_ns;
        let animation_acc = self.animation_residual_ns + delta_ns;
        proof {
            lemma_fundamental_div_mod(movement_acc as int, MOVEMENT_PERIOD_NS as int);
            lemma_mod_bound(movement_acc as int, MOVEMENT_PERIOD_NS as int);
            lemma_fundamental_div_mod(animation_acc as int, ANIMATION_PERIOD_NS as int);
            lemma_mod_bound(animation_acc as int, ANIMATION_PERIOD_NS as int);
            assert((MOVEMENT_PERIOD_NS as int) * ((movement_acc as int) / (
            MOVEMENT_PERIOD_NS as int)) == 16_666_666 * ((movement_acc as int) / (
            MOVEMENT_PERIOD_NS as int)));
            assert((ANIMATION_PERIOD_NS as int) * ((animation_acc as int) / (
            ANIMATION_PERIOD_NS as int)) == 125_000_000 * ((animation_acc as int) / (
            ANIMATION_PERIOD_NS as int)));
        }
        let movement_steps = movement_acc / MOVEMENT_PERIOD_NS;
        let animation_steps = animation_acc / ANIMATION_PERIOD_NS;
        self.movement_residual_ns = movement_acc % MOVEMENT_PERIOD_NS;
        self.animation_residual_ns = animation_acc % ANIMATION_PERIOD_NS;
        (movement_steps, animation_steps)
    }
}

/// One full movement step of the update loop, as a mathematical function of
/// the player position, the player, and the viewport cache (its tile list
/// and dirty flag): the movement integrator runs, then the viewport resolver
/// refreshes the cache if anything dirtied it.
pub open spec fn spec_motion_step(
    p: Position,
    pl: Player,
    tiles: Seq<(i32, i32, i32, i32, i32, i32)>,
    dirty: bool,
) -> (Position, Player, Seq<(i32, i32, i32, i32, i32, i32)>, bool) {
    let vx = spec_tick_velocity(pl.velocity.x as int);
    let vy = spec_tick_velocity(pl.velocity.y as int);
    let moved = Position { x: (p.x + vx) as i64, y: (p.y + vy) as i64 };
    let dirtied = dirty || moved != p;
    (
        moved,
        Player {
            direction: pl.direction,
            velocity: Velocity { x: vx as i64, y: vy as i64 },
            animation_index: pl.animation_index,
        },
        if dirtied {
            spec_viewport_tiles_for(moved)
        } else {
            tiles
        },
        false,
    )
}

/// `n` movement steps in a row, starting from the given state.
pub open spec fn spec_motion_iter(
    n: nat,
    p: Position,
    pl: Player,
    tiles: Seq<(i32, i32, i32, i32, i32, i32)>,
    dirty: bool,
) -> (Position, Player, Seq<(i32, i32, i32, i32, i32, i32)>, bool)
    decreases n,
{
    if n == 0 {
        (p, pl, tiles, dirty)
    } else {
        let prev = spec_motion_iter((n - 1) as nat, p, pl, tiles, dirty);
        spec_motion_step(prev.0, prev.1, prev.2, prev.3)
    }
}

/// `n` animation ticks in a row on a frame index, with the moving flag held
/// fixed (the update loop never changes velocity between animation ticks of
/// one frame).
pub open spec fn spec_anim_iter(n: nat, frame: int, moving: bool) -> int
    decreases n,
{
    if n == 0 {
        frame
    } else {
        spec_tick_animation(spec_anim_iter((n - 1) as nat, frame, moving), moving)
    }
}

/// Everything one in-game update does, as a relation between the state
/// before and after: the scheduler accounts the elapsed time; each due
/// movement step integrates movement and refreshes the viewport; each due
/// animation tick advances the frame index; nothing else changes.
pub open spec fn in_game_update_rel(before: GameState, after: GameState, delta_ns: u64) -> bool {
    let m = spec_scheduler_steps(before.scheduler.movement_residual_ns, delta_ns,
    MOVEMENT_PERIOD_NS);
    let a = spec_scheduler_steps(before.scheduler.animation_residual_ns, delta_ns,
    ANIMATION_PERIOD_NS);
    let motion = spec_motion_iter(
        m as nat,
        before.position,
        before.player,
        before.viewport.tiles@,
        before.viewport.dirty,
    );
    &&& after.root == before.root
    &&& after.map == before.map
    &&& after.tilesheet == before.tilesheet
    &&& after.show_fps == before.show_fps
    &&& after.scheduler.movement_residual_ns == spec_scheduler_residual(
        before.scheduler.movement_residual_ns,
        delta_ns,
        MOVEMENT_PERIOD_NS,
    )
    &&& after.scheduler.animation_residual_ns == spec_scheduler_residual(
        before.scheduler.animation_residual_ns,
        delta_ns,
        ANIMATION_PERIOD_NS,
    )
    &&& after.position == motion.0
    &&& after.player.direction == motion.1.direction
    &&& after.player.velocity == motion.1.velocity
    &&& after.viewport.tiles@ == motion.2
    &&& after.viewport.dirty == motion.3
    &&& after.player.animation_index as int == spec_anim_iter(
        a as nat,
        motion.1.animation_index as int,
        spec_is_moving(motion.1),
    )
    &&& after.player.wf()
}

/// Runs every update step that has come due since the last frame: the
/// movement cadence fires at 60 Hz and the animation cadence independently
/// at 8 Hz, each catching up on all steps it owes. Each movement step
/// integrates velocity into the position and refreshes the viewport cache
/// when the position changed.
pub fn in_game_update(state: &mut GameState, delta_ns: u64)
    requires
        old(state).wf(),
        delta_ns <= MAX_FRAME_DELTA_NS,
    ensures
        in_game_update_rel(*old(state), *final(state), delta_ns),
{
    let (movement_steps, animation_steps) = state.scheduler.advance(delta_ns);

    let ghost init_position = state.position;
    let ghost init_player = state.player;
    let ghost init_tiles = state.viewport.tiles@;
    let ghost init_dirty = state.viewport.dirty;
    let ghost sched_after = state.scheduler;

    let mut step: u64 = 0;
    while step < movement_steps
        invariant
            step <= movement_steps,
            movement_steps <= 60001,
            (state.position, state.player, state.viewport.tiles@, state.viewport.dirty)
                == spec_motion_iter(
                step as nat,
                init_position,
                init_player,
                init_tiles,
                init_dirty,
            ),
            -(WORLD_LIMIT_SUBPX + 5000 * step) <= state.position.x <= WORLD_LIMIT_SUBPX + 5000
                * step,
            -(WORLD_LIMIT_SUBPX + 5000 * step) <= state.position.y <= WORLD_LIMIT_SUBPX + 5000
                * step,
            state.player.animation_index == init_player.animation_index,
            state.player.wf(),
            state.root == old(state).root,
            state.map == old(state).map,
            state.tilesheet == old(state).tilesheet,
            state.show_fps == old(state).show_fps,
            state.scheduler == sched_after,
        decreases movement_steps - step,
    {
        let ghost prev = (state.position, state.player, state.viewport.tiles@,
        state.viewport.dirty);
        let mut movement_system = MovementSystem {};
        let mut viewport_system = ViewportSystem {};
        movement_system.run(&mut state.position, &mut state.player, &mut state.viewport);
        viewport_system.run(&state.position, &mut state.viewport);
        proof {
            assert((state.position, state.player, state.viewport.tiles@, state.viewport.dirty)
                == spec_motion_step(prev.0, prev.1, prev.2, prev.3));
            assert(spec_motion_iter(
                (step + 1) as nat,
                init_position,
                init_player,
                init_tiles,
                init_dirty,
            ) == spec_motion_step(prev.0, prev.1, prev.2, prev.3));
        }
        step = step + 1;
    }

    let ghost mid_position = state.position;
    let ghost mid_player = state.player;
    let ghost mid_tiles = state.viewport.tiles@;
    let ghost mid_dirty = state.viewport.dirty;

    let mut anim_step: u64 = 0;
    while anim_step < animation_steps
        invariant
            anim_step <= animation_steps,
            state.player.animation_index as int == spec_anim_iter(
                anim_step as nat,
                mid_player.animation_index as int,
                spec_is_moving(mid_player),
            ),
            state.player.wf(),
            state.player.direction == mid_player.direction,
            state.player.velocity == mid_player.velocity,
            state.position == mid_position,
            state.viewport.tiles@ == mid_tiles,
            state.viewport.dirty == mid_dirty,
            state.root == old(state).root,
            state.map == old(state).map,
            state.tilesheet == old(state).tilesheet,
            state.show_fps == old(state).show_fps,
            state.scheduler == sched_after,
        decreases animation_steps - anim_step,
    {
        let mut animation_system = AnimationSystem {};
        animation_system.run(&mut state.player);
        anim_step = anim_step + 1;
    }
}

} // verus!
