use tiny_topdown::atlas::{
    direction_row, resolve, resolve_player_sprite, NormalizedRect, OutOfRangeError,
};
use tiny_topdown::map::{load_basic_tilesheet, TileSheet};
use tiny_topdown::Direction;

fn plain_sheet() -> TileSheet {
    // first id 1, 16x16 tiles, no spacing, no margin.
    load_basic_tilesheet(1, 16, 16, 0, 0)
}

#[test]
fn atlas_first_id_is_column_zero_row_zero() {
    let rect = resolve(1, &plain_sheet()).unwrap();
    assert_eq!(rect.x_num, 0);
    assert_eq!(rect.y_num, 0);
    assert_eq!(rect.x_den, 160);
    assert_eq!(rect.y_den, 160);
    assert_eq!(rect.w_num, 16);
    assert_eq!(rect.h_num, 16);
}

#[test]
fn atlas_tenth_id_is_last_column_of_first_row() {
    // tileId 10 with firstTileId 1: local index 9 -> column 9, row 0.
    let rect = resolve(10, &plain_sheet()).unwrap();
    assert_eq!(rect.x_num, 9 * 16);
    assert_eq!(rect.y_num, 0);
}

#[test]
fn atlas_eleventh_id_wraps_to_second_row() {
    // tileId 11 with firstTileId 1: local index 10 -> column 0, row 1.
    let rect = resolve(11, &plain_sheet()).unwrap();
    assert_eq!(rect.x_num, 0);
    assert_eq!(rect.y_num, 16);
}

#[test]
fn atlas_margin_and_spacing_accrue_per_index() {
    // local index 11: column 1, row 1; offset = margin + 1 tile + 1 spacing.
    let sheet = load_basic_tilesheet(1, 16, 16, 3, 2);
    let rect = resolve(12, &sheet).unwrap();
    assert_eq!(rect.x_num, 2 + 16 + 3);
    assert_eq!(rect.y_num, 2 + 16 + 3);
}

#[test]
fn atlas_id_below_range_is_an_error() {
    assert_eq!(resolve(0, &plain_sheet()), Err(OutOfRangeError {}));
    let late_sheet = load_basic_tilesheet(17, 16, 16, 0, 0);
    assert_eq!(resolve(16, &late_sheet), Err(OutOfRangeError {}));
}

#[test]
fn direction_rows_are_down_left_right_up() {
    // The fixed table: neither alphabetical nor declaration order.
    assert_eq!(direction_row(Direction::Down), 0);
    assert_eq!(direction_row(Direction::Left), 1);
    assert_eq!(direction_row(Direction::Right), 2);
    assert_eq!(direction_row(Direction::Up), 3);
}

#[test]
fn player_sprite_cell_is_frame_column_direction_row() {
    let rect = resolve_player_sprite(2, Direction::Right);
    assert_eq!(
        rect,
        NormalizedRect { x_num: 2, y_num: 2, w_num: 1, h_num: 1, x_den: 10, y_den: 5 }
    );
    // As fractions: x 0.2, y 0.4, width 0.1, height 0.2.
    let rect = resolve_player_sprite(0, Direction::Up);
    assert_eq!(rect.x_num, 0);
    assert_eq!(rect.y_num, 3);
}
