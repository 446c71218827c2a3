//! The viewport resolver: maps the player's continuous world position to the
//! camera origin, and the camera origin to the ordered list of visible tiles
//! with both their map coordinates and their screen placement.

use vstd::prelude::*;
use vstd::arithmetic::div_mod::{
    lemma_fundamental_div_mod, lemma_fundamental_div_mod_converse, lemma_mod_bound,
    lemma_mod_multiples_basic,
};
use vstd::arithmetic::mul::{
    lemma_mul_is_commutative, lemma_mul_is_distributive_add_other_way,
};

use crate::component::{Position, Viewport};
use crate::{
    HALF_HEIGHT_PX, HALF_WIDTH_PX, HEIGHT_PX, HEIGHT_TL, SUBPX_PER_PX, TL_PX, WIDTH_PX, WIDTH_TL,
};

verus! {

/// Extra tile columns and rows computed beyond the minimum, so the screen
/// stays fully covered even when the camera is not tile-aligned.
pub const OVERSCAN_TL: i32 = 2;

/// Columns of tiles the resolver enumerates per row.
pub const VIEW_COLS: i32 = WIDTH_TL + OVERSCAN_TL;

/// Rows of tiles the resolver enumerates.
pub const VIEW_ROWS: i32 = HEIGHT_TL + OVERSCAN_TL;

/// Largest camera-origin magnitude, in pixels, that the resolver accepts:
/// far enough for any reachable position, small enough that every tile
/// coordinate times the tile length still fits in an `i32`.
pub const ORIGIN_LIMIT_PX: i32 = 1_010_000_000;

/// Largest world-position magnitude, in subpixel units, that the camera
/// accepts; it keeps the resulting camera origin within `ORIGIN_LIMIT_PX`.
pub const CAMERA_POS_LIMIT_SUBPX: i64 = 100_400_000_000;

/// The largest multiple of `tile_length` that is at most `origin`, as a
/// mathematical function: true floor division, also for negative origins.
pub open spec fn spec_snap_to_tile_grid(origin: int, tile_length: int) -> int {
    tile_length * (origin / tile_length)
}

/// Snaps a pixel coordinate down to the previous tile boundary: the largest
/// multiple of `tile_length` that is at most `origin`. Uses true floor
/// division, so a negative origin snaps further down, never toward zero.
pub fn snap_to_tile_grid(origin: i32, tile_length: i32) -> (snapped: i32)
    requires
        tile_length > 0,
        i32::MIN + tile_length <= origin,
    ensures
        snapped == spec_snap_to_tile_grid(origin as int, tile_length as int),
        snapped <= origin < snapped + tile_length,
        (snapped as int) % (tile_length as int) == 0,
{
    proof {
        lemma_fundamental_div_mod(origin as int, tile_length as int);
        lemma_mod_bound(origin as int, tile_length as int);
        lemma_mod_multiples_basic(origin as int / tile_length as int, tile_length as int);
    }
    let remainder = origin.checked_rem_euclid(tile_length).unwrap();
    proof {
        lemma_mul_is_commutative(tile_length as int, (origin as int) / (tile_length as int));
    }
    origin - remainder
}

/// The camera origin for a player position: the position floored to whole
/// pixels, shifted so the player sits at the center of the screen.
pub open spec fn spec_calculate_viewport(x: int, y: int) -> (int, int) {
    (x / (SUBPX_PER_PX as int) - HALF_WIDTH_PX, y / (SUBPX_PER_PX as int) - HALF_HEIGHT_PX)
}

/// Calculates the camera origin from the player position, given in subpixel
/// units. The origin is the pixel top-left corner of the screen: the player
/// position floored to whole pixels, minus half a screen on each axis.
pub fn calculate_viewport(player_position: (i64, i64)) -> (viewport: (i32, i32))
    requires
        -CAMERA_POS_LIMIT_SUBPX <= player_position.0 <= CAMERA_POS_LIMIT_SUBPX,
        -CAMERA_POS_LIMIT_SUBPX <= player_position.1 <= CAMERA_POS_LIMIT_SUBPX,
    ensures
        (viewport.0 as int, viewport.1 as int) == spec_calculate_viewport(
            player_position.0 as int,
            player_position.1 as int,
        ),
        -ORIGIN_LIMIT_PX <= viewport.0 <= ORIGIN_LIMIT_PX,
        -ORIGIN_LIMIT_PX <= viewport.1 <= ORIGIN_LIMIT_PX,
{
    proof {
        lemma_fundamental_div_mod(player_position.0 as int, SUBPX_PER_PX as int);
        lemma_mod_bound(player_position.0 as int, SUBPX_PER_PX as int);
        lemma_fundamental_div_mod(player_position.1 as int, SUBPX_PER_PX as int);
        lemma_mod_bound(player_position.1 as int, SUBPX_PER_PX as int);
    }
    let floor_x = player_position.0.checked_div_euclid(SUBPX_PER_PX).unwrap();
    let floor_y = player_position.1.checked_div_euclid(SUBPX_PER_PX).unwrap();
    ((floor_x as i32) - HALF_WIDTH_PX, (floor_y as i32) - HALF_HEIGHT_PX)
}

/// One visible tile for the camera origin `(ox, oy)`, at tile row `r` and
/// tile column `c` of the enumeration: its map coordinates, its world pixel
/// coordinates, and its screen pixel coordinates. Screen coordinates are
/// relative to the unsnapped origin, so tiles keep their sub-tile scroll
/// offset.
pub open spec fn spec_viewport_entry(ox: int, oy: int, r: int, c: int) -> (
    i32,
    i32,
    i32,
    i32,
    i32,
    i32,
) {
    let tl = TL_PX as int;
    let tx = ox / tl + c;
    let ty = oy / tl + r;
    (
        tx as i32,
        ty as i32,
        (tx * tl) as i32,
        (ty * tl) as i32,
        (tx * tl - ox) as i32,
        (ty * tl - oy) as i32,
    )
}

/// The full ordered enumeration of visible tiles for the camera origin
/// `(ox, oy)`: rows top to bottom, columns left to right, starting at the
/// origin snapped down to the tile grid.
pub open spec fn spec_viewport_tiles(ox: int, oy: int) -> Seq<(i32, i32, i32, i32, i32, i32)> {
    Seq::new(
        (VIEW_ROWS * VIEW_COLS) as nat,
        |i: int| spec_viewport_entry(ox, oy, i / (VIEW_COLS as int), i % (VIEW_COLS as int)),
    )
}

/// Decomposes a camera origin into the ordered matrix of visible tiles: rows
/// top to bottom, columns left to right. The first tile is the origin snapped
/// down to the tile grid; each row holds `VIEW_COLS` tiles and there are
/// `VIEW_ROWS` rows, enough to cover the whole screen plus overscan. Screen
/// pixel coordinates are relative to the unsnapped origin, so the map
/// scrolls with subpixel-accurate offsets.
pub fn generate_viewport_tiles(viewport: (i32, i32)) -> (viewport_tiles: Vec<
    (i32, i32, i32, i32, i32, i32),
>)
    requires
        -ORIGIN_LIMIT_PX <= viewport.0 <= ORIGIN_LIMIT_PX,
        -ORIGIN_LIMIT_PX <= viewport.1 <= ORIGIN_LIMIT_PX,
    ensures
        viewport_tiles@ == spec_viewport_tiles(viewport.0 as int, viewport.1 as int),
        viewport_tiles@.len() == VIEW_ROWS * VIEW_COLS,
{
    let ghost ox = viewport.0 as int;
    let ghost oy = viewport.1 as int;

    // Fit the viewport to the next lowest tile boundary.
    let view_px = snap_to_tile_grid(viewport.0, TL_PX);
    let view_py = snap_to_tile_grid(viewport.1, TL_PX);

    proof {
        lemma_mul_is_commutative(TL_PX as int, ox / (TL_PX as int));
        lemma_mul_is_commutative(TL_PX as int, oy / (TL_PX as int));
        lemma_fundamental_div_mod_converse(view_px as int, TL_PX as int, ox / (TL_PX as int), 0);
        lemma_fundamental_div_mod_converse(view_py as int, TL_PX as int, oy / (TL_PX as int), 0);
        assert((ox / (TL_PX as int)) * (TL_PX as int) == (ox / (TL_PX as int)) * 32);
        assert((oy / (TL_PX as int)) * (TL_PX as int) == (oy / (TL_PX as int)) * 32);
    }
    let view_tx = view_px.checked_div_euclid(TL_PX).unwrap();
    let view_ty = view_py.checked_div_euclid(TL_PX).unwrap();

    let mut viewport_tiles: Vec<(i32, i32, i32, i32, i32, i32)> = Vec::new();

    let mut r: i32 = 0;
    while r < VIEW_ROWS
        invariant
            0 <= r <= VIEW_ROWS,
            ox == viewport.0 as int,
            oy == viewport.1 as int,
            -ORIGIN_LIMIT_PX <= viewport.0 <= ORIGIN_LIMIT_PX,
            -ORIGIN_LIMIT_PX <= viewport.1 <= ORIGIN_LIMIT_PX,
            view_tx == ox / (TL_PX as int),
            view_ty == oy / (TL_PX as int),
            -32_000_000 <= view_tx <= 32_000_000,
            -32_000_000 <= view_ty <= 32_000_000,
            viewport_tiles@.len() == r * VIEW_COLS,
            forall|i: int|
                0 <= i < viewport_tiles@.len() ==> viewport_tiles@[i] == spec_viewport_entry(
                    ox,
                    oy,
                    i / (VIEW_COLS as int),
                    i % (VIEW_COLS as int),
                ),
        decreases VIEW_ROWS - r,
    {
        let mut c: i32 = 0;
        while c < VIEW_COLS
            invariant
                0 <= r < VIEW_ROWS,
                0 <= c <= VIEW_COLS,
                ox == viewport.0 as int,
                oy == viewport.1 as int,
                -ORIGIN_LIMIT_PX <= viewport.0 <= ORIGIN_LIMIT_PX,
                -ORIGIN_LIMIT_PX <= viewport.1 <= ORIGIN_LIMIT_PX,
                view_tx == ox / (TL_PX as int),
                view_ty == oy / (TL_PX as int),
                -32_000_000 <= view_tx <= 32_000_000,
                -32_000_000 <= view_ty <= 32_000_000,
                viewport_tiles@.len() == r * VIEW_COLS + c,
                forall|i: int|
                    0 <= i < viewport_tiles@.len() ==> viewport_tiles@[i] == spec_viewport_entry(
                        ox,
                        oy,
                        i / (VIEW_COLS as int),
                        i % (VIEW_COLS as int),
                    ),
            decreases VIEW_COLS - c,
        {
            let tx = view_tx + c;
            let ty = view_ty + r;
            proof {
                assert(tx * TL_PX == tx * 32) by {
                    assert(TL_PX == 32);
                };
                assert(ty * TL_PX == ty * 32) by {
                    assert(TL_PX == 32);
                };
            }
            let entry = (tx, ty, tx * TL_PX, ty * TL_PX, tx * TL_PX - viewport.0, ty * TL_PX
                - viewport.1);
            proof {
                lemma_fundamental_div_mod_converse(
                    r as int * (VIEW_COLS as int) + c as int,
                    VIEW_COLS as int,
                    r as int,
                    c as int,
                );
                assert(entry == spec_viewport_entry(ox, oy, r as int, c as int));
            }
            viewport_tiles.push(entry);
            c = c + 1;
        }
        proof {
            assert(r * VIEW_COLS == r * 32) by {
                assert(VIEW_COLS == 32);
            };
            assert((r + 1) * VIEW_COLS == (r + 1) * 32) by {
                assert(VIEW_COLS == 32);
            };
        }
        r = r + 1;
    }
    proof {
        assert(viewport_tiles@.len() == VIEW_ROWS * VIEW_COLS) by {
            assert(r == VIEW_ROWS);
            assert(r * VIEW_COLS == r * 32);
        };
        assert(viewport_tiles@ =~= spec_viewport_tiles(ox, oy));
    }
    viewport_tiles
}

/// The visible-tile list that belongs to the player position `p`: the
/// enumeration for the camera origin computed from `p`.
pub open spec fn spec_viewport_tiles_for(p: Position) -> Seq<(i32, i32, i32, i32, i32, i32)> {
    spec_viewport_tiles(
        spec_calculate_viewport(p.x as int, p.y as int).0,
        spec_calculate_viewport(p.x as int, p.y as int).1,
    )
}

/// What one pass of `ViewportSystem::run` at position `p` does to the cached
/// viewport: a dirty cache is refilled from `p`, a clean one is left alone,
/// and the dirty flag ends up cleared either way.
pub open spec fn viewport_run_rel(p: Position, before: Viewport, after: Viewport) -> bool {
    &&& after.dirty == false
    &&& after.tiles@ == if before.dirty {
        spec_viewport_tiles_for(p)
    } else {
        before.tiles@
    }
}

/// Recomputes the cached visible-tile list, but only when the cache is
/// dirty: while the player stands still the cached list is served unchanged.
pub struct ViewportSystem {}

impl ViewportSystem {
    /// Refreshes the viewport cache from the player position if and only if
    /// the cache is marked dirty, then clears the mark.
    pub fn run(&mut self, position: &Position, viewport: &mut Viewport)
        requires
            -CAMERA_POS_LIMIT_SUBPX <= position.x <= CAMERA_POS_LIMIT_SUBPX,
            -CAMERA_POS_LIMIT_SUBPX <= position.y <= CAMERA_POS_LIMIT_SUBPX,
        ensures
            viewport_run_rel(*position, *old(viewport), *final(viewport)),
    {
        if viewport.dirty {
            let origin = calculate_viewport((position.x, position.y));
            viewport.tiles = generate_viewport_tiles(origin);
            viewport.dirty = false;
        }
    }
}

/// Cache validity: once the viewport has been brought up to date for a
/// position, running the resolver again with the position unchanged serves
/// the identical tile list and keeps the cache clean.
pub proof fn lemma_viewport_recompute_idempotent(
    p: Position,
    v0: Viewport,
    v1: Viewport,
    v2: Viewport,
)
    requires
        viewport_run_rel(p, v0, v1),
        viewport_run_rel(p, v1, v2),
    ensures
        v2.tiles@ == v1.tiles@,
        !v2.dirty,
{
}

/// Full screen coverage: for any camera origin, every screen pixel in
/// `[0, WIDTH_PX) x [0, HEIGHT_PX)` lies inside the on-screen rectangle of
/// at least one enumerated tile, so the enumeration leaves no gaps.
pub proof fn lemma_viewport_coverage(
    viewport: (i32, i32),
    tiles: Seq<(i32, i32, i32, i32, i32, i32)>,
    px: int,
    py: int,
)
    requires
        -ORIGIN_LIMIT_PX <= viewport.0 <= ORIGIN_LIMIT_PX,
        -ORIGIN_LIMIT_PX <= viewport.1 <= ORIGIN_LIMIT_PX,
        tiles == spec_viewport_tiles(viewport.0 as int, viewport.1 as int),
        0 <= px < WIDTH_PX,
        0 <= py < HEIGHT_PX,
    ensures
        exists|i: int|
            0 <= i < tiles.len() && ((#[trigger] tiles[i]).4 <= px < tiles[i].4 + TL_PX
                && tiles[i].5 <= py < tiles[i].5 + TL_PX),
{
    let ox = viewport.0 as int;
    let oy = viewport.1 as int;
    let tl = TL_PX as int;
    assert(TL_PX == 32);

    // The screen position of the first enumerated column and row: the snap
    // loses less than one tile, so it lies in (-TL_PX, 0].
    lemma_fundamental_div_mod(ox, tl);
    lemma_mod_bound(ox, tl);
    lemma_fundamental_div_mod(oy, tl);
    lemma_mod_bound(oy, tl);
    assert(tl * (ox / tl) == 32 * (ox / tl));
    assert(tl * (oy / tl) == 32 * (oy / tl));
    let sx = 32 * (ox / tl) - ox;
    let sy = 32 * (oy / tl) - oy;
    assert(-32 < sx <= 0);
    assert(-32 < sy <= 0);

    // The column and row whose tile covers the pixel.
    let c = (px - sx) / 32;
    let r = (py - sy) / 32;
    lemma_fundamental_div_mod(px - sx, 32);
    lemma_mod_bound(px - sx, 32);
    lemma_fundamental_div_mod(py - sy, 32);
    lemma_mod_bound(py - sy, 32);
    assert(0 <= c < VIEW_COLS);
    assert(0 <= r < VIEW_ROWS);

    let i = r * 32 + c;
    assert(r * (VIEW_COLS as int) == r * 32) by {
        assert(VIEW_COLS == 32);
    };
    lemma_fundamental_div_mod_converse(i, VIEW_COLS as int, r, c);
    assert(0 <= i < tiles.len()) by {
        assert(VIEW_ROWS * VIEW_COLS == 576);
    };

    let entry = spec_viewport_entry(ox, oy, r, c);
    assert(tiles[i] == entry);
    lemma_mul_is_distributive_add_other_way(tl, ox / tl, c);
    lemma_mul_is_distributive_add_other_way(tl, oy / tl, r);
    assert((ox / tl) * tl == tl * (ox / tl));
    assert((oy / tl) * tl == tl * (oy / tl));
    assert(c * tl == c * 32);
    assert(r * tl == r * 32);
    assert(entry.4 == sx + c * 32);
    assert(entry.5 == sy + r * 32);
    assert(entry.4 <= px < entry.4 + TL_PX);
    assert(entry.5 <= py < entry.5 + TL_PX);
}

} // verus!
