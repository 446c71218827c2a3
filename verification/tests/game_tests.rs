use tiny_topdown::atlas::resolve;
use tiny_topdown::component::{Player, Position, Velocity, Viewport};
use tiny_topdown::game::{
    in_game_draw, in_game_input, in_game_update, render_player, render_tiles, FrameScheduler,
    ANIMATION_PERIOD_NS, IMPULSE_SUBPX, MOVEMENT_PERIOD_NS,
};
use tiny_topdown::map::{load_basic_map, load_basic_tilesheet, MapTile, TileMap, TileType};
use tiny_topdown::viewport::{VIEW_COLS, VIEW_ROWS};
use tiny_topdown::{Direction, GameState, RootState};

fn fresh_game() -> GameState {
    GameState::new(load_basic_map(), load_basic_tilesheet(1, 32, 32, 0, 0))
}

#[test]
fn new_game_starts_at_menu_at_origin() {
    let state = fresh_game();
    assert_eq!(state.root, RootState::StartMenu);
    assert_eq!(state.position, Position { x: 0, y: 0 });
    assert_eq!(state.player.direction, Direction::Down);
    assert_eq!(state.player.velocity, Velocity { x: 0, y: 0 });
    assert_eq!(state.player.animation_index, 0);
    assert!(state.viewport.tiles.is_empty());
    assert!(state.viewport.dirty);
    assert!(state.show_fps);
}

#[test]
fn menu_confirm_enters_the_game() {
    let mut state = fresh_game();
    tiny_topdown::menu::start_menu_input(&mut state, false);
    assert_eq!(state.root, RootState::StartMenu);
    tiny_topdown::menu::start_menu_input(&mut state, true);
    assert_eq!(state.root, RootState::InGame);
}

#[test]
fn menu_update_changes_nothing() {
    let mut state = fresh_game();
    state.update(1_000_000_000);
    assert_eq!(state.position, Position { x: 0, y: 0 });
    assert!(state.viewport.dirty);
    assert_eq!(state.scheduler, FrameScheduler { movement_residual_ns: 0, animation_residual_ns: 0 });
}

#[test]
fn scheduler_fires_once_per_full_period() {
    let mut scheduler = FrameScheduler::new();
    assert_eq!(scheduler.advance(MOVEMENT_PERIOD_NS), (1, 0));
    assert_eq!(scheduler.movement_residual_ns, 0);

    // An eighth of a second owes seven movement ticks and one animation tick.
    let mut scheduler = FrameScheduler::new();
    assert_eq!(scheduler.advance(125_000_000), (7, 1));
    assert_eq!(scheduler.movement_residual_ns, 125_000_000 - 7 * MOVEMENT_PERIOD_NS);
    assert_eq!(scheduler.animation_residual_ns, 0);
}

#[test]
fn scheduler_accumulates_across_short_frames() {
    let mut scheduler = FrameScheduler::new();
    // Two half-periods: the first frame owes nothing, the second one tick.
    assert_eq!(scheduler.advance(MOVEMENT_PERIOD_NS / 2), (0, 0));
    assert_eq!(scheduler.advance(MOVEMENT_PERIOD_NS / 2 + 1), (1, 0));
}

#[test]
fn input_impulse_moves_and_marks_dirty() {
    let mut state = fresh_game();
    state.viewport.dirty = false;
    in_game_input(&mut state, Some(Direction::Right), false);
    assert_eq!(state.player.direction, Direction::Right);
    assert_eq!(state.player.velocity, Velocity { x: IMPULSE_SUBPX, y: 0 });
    assert!(state.viewport.dirty);
}

#[test]
fn input_toggles_fps_overlay() {
    let mut state = fresh_game();
    in_game_input(&mut state, None, true);
    assert!(!state.show_fps);
    in_game_input(&mut state, None, true);
    assert!(state.show_fps);
}

#[test]
fn one_update_tick_integrates_and_refreshes_viewport() {
    let mut state = fresh_game();
    state.root = RootState::InGame;
    in_game_input(&mut state, Some(Direction::Right), false);

    // Exactly one movement period: friction cuts the impulse of 3200 to 320
    // subpixels, within the clamp bounds, and the position advances by it.
    in_game_update(&mut state, MOVEMENT_PERIOD_NS);
    assert_eq!(state.player.velocity, Velocity { x: 320, y: 0 });
    assert_eq!(state.position, Position { x: 320, y: 0 });

    // The movement dirtied the viewport, so it was recomputed and is clean.
    assert!(!state.viewport.dirty);
    assert_eq!(state.viewport.tiles.len(), (VIEW_ROWS * VIEW_COLS) as usize);
    // Position 3.2 pixels: origin (-477, -270), snapped to tile (-15, -9).
    assert_eq!(state.viewport.tiles[0], (-15, -9, -480, -288, -3, -18));

    // No animation tick was due yet.
    assert_eq!(state.player.animation_index, 0);
}

#[test]
fn update_through_dispatch_runs_in_game_path() {
    let mut state = fresh_game();
    state.root = RootState::InGame;
    in_game_input(&mut state, Some(Direction::Down), false);
    state.update(MOVEMENT_PERIOD_NS);
    assert_eq!(state.position, Position { x: 0, y: 320 });
}

#[test]
fn animation_ticks_come_at_their_own_cadence() {
    let mut state = fresh_game();
    state.root = RootState::InGame;
    in_game_input(&mut state, Some(Direction::Right), false);

    // An eighth of a second: seven movement ticks and one animation tick.
    // After seven ticks of friction the velocity has long zeroed out, but the
    // animation tick fired while the update began; it reads the velocity
    // after movement, which is zero, so the frame resets to 0.
    in_game_update(&mut state, 125_000_000);
    assert_eq!(state.player.velocity, Velocity { x: 0, y: 0 });
    assert_eq!(state.player.animation_index, 0);

    // With the animation cadence about to fire and no movement tick due, the
    // animation advances while the velocity is untouched: the two gates are
    // independent.
    let mut state = fresh_game();
    state.root = RootState::InGame;
    state.scheduler.animation_residual_ns = ANIMATION_PERIOD_NS - 1;
    in_game_input(&mut state, Some(Direction::Right), false);
    in_game_update(&mut state, 1);
    assert_eq!(state.player.velocity, Velocity { x: IMPULSE_SUBPX, y: 0 });
    assert_eq!(state.player.animation_index, 1);
}

#[test]
fn render_tiles_substitutes_sentinel_for_gaps() {
    let sheet = load_basic_tilesheet(1, 16, 16, 0, 0);
    let viewport = Viewport { tiles: vec![(5, 5, 160, 160, 64, 48)], dirty: false };
    let empty = TileMap::new();
    let draws = render_tiles(&viewport, &empty, &sheet);
    assert_eq!(draws.len(), 1);
    // The sentinel id 10 resolves to column 9 of the first row.
    assert_eq!(draws[0].src, resolve(10, &sheet).unwrap());
    assert_eq!((draws[0].dest_x, draws[0].dest_y), (64, 48));
}

#[test]
fn render_tiles_uses_the_mapped_tile() {
    let sheet = load_basic_tilesheet(1, 16, 16, 0, 0);
    let viewport = Viewport { tiles: vec![(5, 5, 160, 160, 64, 48)], dirty: false };
    let mut map = TileMap::new();
    map.insert(5, 5, MapTile { tile_id: 3, tile_type: TileType::Floor });
    let draws = render_tiles(&viewport, &map, &sheet);
    assert_eq!(draws[0].src, resolve(3, &sheet).unwrap());
}

#[test]
fn render_tiles_falls_back_when_even_sentinel_is_low() {
    // A sheet whose ids start at 11: the sentinel 10 is below range too, so
    // the sheet's first tile is drawn.
    let sheet = load_basic_tilesheet(11, 16, 16, 0, 0);
    let viewport = Viewport { tiles: vec![(0, 0, 0, 0, 0, 0)], dirty: false };
    let empty = TileMap::new();
    let draws = render_tiles(&viewport, &empty, &sheet);
    assert_eq!(draws[0].src, resolve(11, &sheet).unwrap());
}

#[test]
fn render_player_is_centered() {
    let player = Player {
        direction: Direction::Left,
        velocity: Velocity { x: 0, y: 0 },
        animation_index: 3,
    };
    let draw = render_player(&player);
    assert_eq!((draw.dest_x, draw.dest_y), (480, 270));
    assert_eq!(draw.src.x_num, 3);
    assert_eq!(draw.src.y_num, 1);
}

#[test]
fn draw_path_lists_tiles_then_player() {
    let mut state = fresh_game();
    state.root = RootState::InGame;
    in_game_update(&mut state, MOVEMENT_PERIOD_NS);
    let (tiles, player) = in_game_draw(&state);
    assert_eq!(tiles.len(), state.viewport.tiles.len());
    assert_eq!((player.dest_x, player.dest_y), (480, 270));
}
