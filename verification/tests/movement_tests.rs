use tiny_topdown::component::{Player, Position, Velocity, Viewport};
use tiny_topdown::game::{try_move_player, IMPULSE_SUBPX};
use tiny_topdown::movement_system::{
    apply_friction, unsigned_zeroing_clamp, MovementSystem, VELOCITY_MAX_SUBPX,
    VELOCITY_MIN_SUBPX,
};
use tiny_topdown::Direction;

fn resting_player() -> Player {
    Player {
        direction: Direction::Down,
        velocity: Velocity { x: 0, y: 0 },
        animation_index: 0,
    }
}

#[test]
fn clamp_zeroes_below_minimum() {
    // 0.05 pixels is below the 0.1 pixel threshold.
    assert_eq!(unsigned_zeroing_clamp(5, VELOCITY_MIN_SUBPX, VELOCITY_MAX_SUBPX), 0);
}

#[test]
fn clamp_caps_above_maximum() {
    // 60 pixels caps at 50, keeping the sign.
    assert_eq!(unsigned_zeroing_clamp(6000, VELOCITY_MIN_SUBPX, VELOCITY_MAX_SUBPX), 5000);
    assert_eq!(unsigned_zeroing_clamp(-6000, VELOCITY_MIN_SUBPX, VELOCITY_MAX_SUBPX), -5000);
}

#[test]
fn clamp_passes_in_range_values() {
    // 5 pixels lies inside the range and passes through.
    assert_eq!(unsigned_zeroing_clamp(500, VELOCITY_MIN_SUBPX, VELOCITY_MAX_SUBPX), 500);
}

#[test]
fn clamp_boundaries_are_inclusive() {
    assert_eq!(unsigned_zeroing_clamp(10, 10, 5000), 10);
    assert_eq!(unsigned_zeroing_clamp(9, 10, 5000), 0);
    assert_eq!(unsigned_zeroing_clamp(5000, 10, 5000), 5000);
    assert_eq!(unsigned_zeroing_clamp(5001, 10, 5000), 5000);
    assert_eq!(unsigned_zeroing_clamp(-10, 10, 5000), -10);
}

#[test]
fn friction_keeps_one_tenth_toward_zero() {
    assert_eq!(apply_friction(1000), 100);
    assert_eq!(apply_friction(-1000), -100);
    assert_eq!(apply_friction(15), 1);
    assert_eq!(apply_friction(-15), -1);
    assert_eq!(apply_friction(0), 0);
}

#[test]
fn tick_composes_friction_clamp_then_integration() {
    // Velocity of 10 pixels: friction leaves 1 pixel, within bounds, so the
    // position advances by exactly 1 pixel (100 subpixels).
    let mut position = Position { x: 0, y: 0 };
    let mut player = resting_player();
    player.velocity = Velocity { x: 1000, y: 0 };
    let mut viewport = Viewport { tiles: Vec::new(), dirty: false };

    let mut system = MovementSystem {};
    system.run(&mut position, &mut player, &mut viewport);

    assert_eq!(player.velocity, Velocity { x: 100, y: 0 });
    assert_eq!(position, Position { x: 100, y: 0 });
    assert!(viewport.dirty);
}

#[test]
fn tick_zeroes_tiny_velocity_and_keeps_viewport_clean() {
    // Half a pixel of velocity decays to 0.05 pixels, which zeroes out: the
    // position does not change and the viewport stays clean.
    let mut position = Position { x: 7, y: 8 };
    let mut player = resting_player();
    player.velocity = Velocity { x: 50, y: -50 };
    let mut viewport = Viewport { tiles: Vec::new(), dirty: false };

    let mut system = MovementSystem {};
    system.run(&mut position, &mut player, &mut viewport);

    assert_eq!(player.velocity, Velocity { x: 0, y: 0 });
    assert_eq!(position, Position { x: 7, y: 8 });
    assert!(!viewport.dirty);
}

#[test]
fn tick_caps_runaway_velocity() {
    // 600 pixels of velocity decays to 60 and is capped at 50.
    let mut position = Position { x: 0, y: 0 };
    let mut player = resting_player();
    player.velocity = Velocity { x: 60_000, y: -60_000 };
    let mut viewport = Viewport { tiles: Vec::new(), dirty: false };

    let mut system = MovementSystem {};
    system.run(&mut position, &mut player, &mut viewport);

    assert_eq!(player.velocity, Velocity { x: 5000, y: -5000 });
    assert_eq!(position, Position { x: 5000, y: -5000 });
}

#[test]
fn impulse_adds_velocity_and_sets_direction() {
    let mut player = resting_player();
    let mut viewport = Viewport { tiles: Vec::new(), dirty: false };

    try_move_player(Direction::Right, &mut player, &mut viewport);
    assert_eq!(player.direction, Direction::Right);
    assert_eq!(player.velocity, Velocity { x: IMPULSE_SUBPX, y: 0 });
    assert!(viewport.dirty);

    try_move_player(Direction::Up, &mut player, &mut viewport);
    assert_eq!(player.direction, Direction::Up);
    assert_eq!(player.velocity, Velocity { x: IMPULSE_SUBPX, y: -IMPULSE_SUBPX });
}

#[test]
fn impulses_accumulate_on_one_axis() {
    let mut player = resting_player();
    let mut viewport = Viewport { tiles: Vec::new(), dirty: false };
    try_move_player(Direction::Left, &mut player, &mut viewport);
    try_move_player(Direction::Left, &mut player, &mut viewport);
    assert_eq!(player.velocity, Velocity { x: -2 * IMPULSE_SUBPX, y: 0 });
}
