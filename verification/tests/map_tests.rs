use tiny_topdown::map::{
    load_basic_map, load_basic_map_tmx_finite, load_basic_map_tmx_infinite, to_px, xy_idx,
    MapTile, TileMap, TileType,
};

#[test]
fn tile_map_get_missing_is_none() {
    let map = TileMap::new();
    assert_eq!(map.get(0, 0), None);
}

#[test]
fn tile_map_insert_then_get() {
    let mut map = TileMap::new();
    map.insert(3, -4, MapTile { tile_id: 7, tile_type: TileType::Floor });
    assert_eq!(map.get(3, -4), Some(MapTile { tile_id: 7, tile_type: TileType::Floor }));
    assert_eq!(map.get(-4, 3), None);
}

#[test]
fn tile_map_insert_overwrites() {
    let mut map = TileMap::new();
    map.insert(1, 2, MapTile { tile_id: 5, tile_type: TileType::Floor });
    map.insert(1, 2, MapTile { tile_id: 9, tile_type: TileType::Wall });
    assert_eq!(map.get(1, 2), Some(MapTile { tile_id: 9, tile_type: TileType::Wall }));
}

#[test]
fn basic_map_is_floor_with_four_walls() {
    let map = load_basic_map();
    for (x, y) in [(10, 10), (9, 9), (6, 10), (7, 5)] {
        assert_eq!(map.get(x, y).unwrap().tile_type, TileType::Wall);
    }
    assert_eq!(map.get(0, 0).unwrap().tile_type, TileType::Floor);
    assert_eq!(map.get(-30, -16).unwrap().tile_type, TileType::Floor);
    assert_eq!(map.get(29, 15).unwrap().tile_type, TileType::Floor);
}

#[test]
fn basic_map_ends_at_two_screens() {
    let map = load_basic_map();
    assert_eq!(map.get(30, 0), None);
    assert_eq!(map.get(0, 16), None);
    assert_eq!(map.get(-31, 0), None);
    assert_eq!(map.get(0, -17), None);
}

#[test]
fn finite_layer_loads_row_major() {
    let rows: Vec<Vec<u32>> = vec![vec![1, 2], vec![3]];
    let map = load_basic_map_tmx_finite(&rows);
    assert_eq!(map.get(0, 0).unwrap().tile_id, 1);
    assert_eq!(map.get(1, 0).unwrap().tile_id, 2);
    assert_eq!(map.get(0, 1).unwrap().tile_id, 3);
    assert_eq!(map.get(0, 0).unwrap().tile_type, TileType::Floor);
    // The second row is shorter: its second cell does not exist.
    assert_eq!(map.get(1, 1), None);
    assert_eq!(map.get(0, 2), None);
}

#[test]
fn infinite_layer_loads_empty() {
    let map = load_basic_map_tmx_infinite();
    assert_eq!(map.get(0, 0), None);
}

#[test]
fn tile_to_pixel_conversion() {
    assert_eq!(to_px(0), 0);
    assert_eq!(to_px(3), 96);
    assert_eq!(to_px(-2), -64);
}

#[test]
fn xy_packs_row_major() {
    assert_eq!(xy_idx(0, 0), 0);
    assert_eq!(xy_idx(5, 2), 65);
    assert_eq!(xy_idx(29, 0), 29);
}
