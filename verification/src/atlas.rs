//! Sprite-atlas addressing: converts a tile id or a player animation frame
//! into the exact sub-rectangle of the shared texture that holds its
//! graphic. Rectangles are exact rationals, numerator over denominator, so
//! no precision is lost; the renderer divides when it needs fractions.

use vstd::arithmetic::mul::lemma_mul_upper_bound;
use vstd::prelude::*;

use crate::map::TileSheet;
use crate::Direction;

verus! {

/// Tiles per atlas row: the atlas is laid out as an exact grid this many
/// columns wide. Fixed; callers must guarantee the backing texture matches.
pub const TILES_PER_ROW: u32 = 10;

/// Columns of the player sprite sheet; also the denominator of its
/// horizontal fractions.
pub const PLAYER_SHEET_COLS: u64 = 10;

/// Rows of the player sprite sheet; also the denominator of its vertical
/// fractions.
pub const PLAYER_SHEET_ROWS: u64 = 5;

/// A sub-rectangle of a texture in normalized coordinates, kept as exact
/// fractions: the left edge is `x_num / x_den` of the texture width, the top
/// edge `y_num / y_den` of its height, the width `w_num / x_den`, and the
/// height `h_num / y_den`.
#[derive(Clone, Copy, PartialEq, Eq, Structural, Debug)]
pub struct NormalizedRect {
    pub x_num: u64,
    pub y_num: u64,
    pub w_num: u64,
    pub h_num: u64,
    pub x_den: u64,
    pub y_den: u64,
}

/// The error reported when a tile id lies below the atlas's addressable
/// range: a data/configuration mismatch, not a recoverable runtime
/// condition.
#[derive(Clone, Copy, PartialEq, Eq, Structural, Debug)]
pub struct OutOfRangeError {}

/// The atlas column of a tile id: its index local to the sheet, modulo the
/// tiles per row.
pub open spec fn spec_atlas_col(tile_id: int, first_tile_id: int) -> int {
    (tile_id - first_tile_id) % (TILES_PER_ROW as int)
}

/// The atlas row of a tile id: its index local to the sheet, divided by the
/// tiles per row.
pub open spec fn spec_atlas_row(tile_id: int, first_tile_id: int) -> int {
    (tile_id - first_tile_id) / (TILES_PER_ROW as int)
}

/// The exact sub-rectangle a tile id resolves to: the margin plus one tile
/// width (and one spacing) per column gives the pixel offset, and the sheet
/// is normalized by `TILES_PER_ROW` tile lengths on each axis.
pub open spec fn spec_resolve(tile_id: int, sheet: TileSheet) -> NormalizedRect {
    let col = spec_atlas_col(tile_id, sheet.first_tile_id as int);
    let row = spec_atlas_row(tile_id, sheet.first_tile_id as int);
    let width = sheet.tile_width as int;
    let height = sheet.tile_height as int;
    let spacing = sheet.spacing as int;
    let margin = sheet.margin as int;
    NormalizedRect {
        x_num: (margin + col * width + col * spacing) as u64,
        y_num: (margin + row * height + row * spacing) as u64,
        w_num: sheet.tile_width as u64,
        h_num: sheet.tile_height as u64,
        x_den: (TILES_PER_ROW as int * width) as u64,
        y_den: (TILES_PER_ROW as int * height) as u64,
    }
}

/// Resolves a tile id to the normalized sub-rectangle of the tilesheet
/// texture holding its graphic. Ids below the sheet's first id are reported
/// as an addressing error; every other id resolves.
pub fn resolve(tile_id: u32, sheet: &TileSheet) -> (resolved: Result<
    NormalizedRect,
    OutOfRangeError,
>)
    requires
        sheet.wf(),
    ensures
        match resolved {
            Ok(rect) => tile_id >= sheet.first_tile_id && rect == spec_resolve(
                tile_id as int,
                *sheet,
            ),
            Err(_) => tile_id < sheet.first_tile_id,
        },
{
    if tile_id < sheet.first_tile_id {
        return Err(OutOfRangeError {});
    }

    // The local index of the tile on the sheet, 0-based even though tile ids
    // themselves may start at 1.
    let tile_index = tile_id - sheet.first_tile_id;
    let col = (tile_index % TILES_PER_ROW) as u64;
    let row = (tile_index / TILES_PER_ROW) as u64;
    let width = sheet.tile_width as u64;
    let height = sheet.tile_height as u64;
    let spacing = sheet.spacing as u64;
    let margin = sheet.margin as u64;

    proof {
        lemma_mul_upper_bound(col as int, 9, width as int, u32::MAX as int);
        lemma_mul_upper_bound(col as int, 9, spacing as int, u32::MAX as int);
        lemma_mul_upper_bound(row as int, (u32::MAX / 10) as int, height as int, u32::MAX as int);
        lemma_mul_upper_bound(row as int, (u32::MAX / 10) as int, spacing as int, u32::MAX as int);
        assert(TILES_PER_ROW as int * (width as int) == 10 * (width as int));
        assert(TILES_PER_ROW as int * (height as int) == 10 * (height as int));
    }

    // The margin is always there; tile lengths and spacing accrue once per
    // column (or row) before the addressed one.
    let horizontal_offset = margin + col * width + col * spacing;
    let vertical_offset = margin + row * height + row * spacing;

    Ok(
        NormalizedRect {
            x_num: horizontal_offset,
            y_num: vertical_offset,
            w_num: width,
            h_num: height,
            x_den: (TILES_PER_ROW as u64) * width,
            y_den: (TILES_PER_ROW as u64) * height,
        },
    )
}

/// The animation row of the player sprite sheet for a facing direction.
/// The table is fixed: down 0, left 1, right 2, up 3 — neither alphabetical
/// nor declaration order.
pub open spec fn spec_direction_row(direction: Direction) -> int {
    match direction {
        Direction::Down => 0,
        Direction::Left => 1,
        Direction::Right => 2,
        Direction::Up => 3,
    }
}

/// Maps a facing direction to its row on the player sprite sheet, exactly
/// `spec_direction_row`.
pub fn direction_row(direction: Direction) -> (row: u8)
    ensures
        row == spec_direction_row(direction),
{
    match direction {
        Direction::Down => 0,
        Direction::Left => 1,
        Direction::Right => 2,
        Direction::Up => 3,
    }
}

/// Resolves a player animation frame and facing direction to the normalized
/// sub-rectangle of the player sprite sheet: the frame picks the column, the
/// direction the row, one cell out of a 10 by 5 grid.
pub fn resolve_player_sprite(animation_index: u8, direction: Direction) -> (rect: NormalizedRect)
    ensures
        rect == (NormalizedRect {
            x_num: animation_index as u64,
            y_num: spec_direction_row(direction) as u64,
            w_num: 1,
            h_num: 1,
            x_den: PLAYER_SHEET_COLS,
            y_den: PLAYER_SHEET_ROWS,
        }),
{
    NormalizedRect {
        x_num: animation_index as u64,
        y_num: direction_row(direction) as u64,
        w_num: 1,
        h_num: 1,
        x_den: PLAYER_SHEET_COLS,
        y_den: PLAYER_SHEET_ROWS,
    }
}

} // verus!
