use tiny_topdown::animation_system::AnimationSystem;
use tiny_topdown::component::{Player, Velocity};
use tiny_topdown::Direction;

fn moving_player() -> Player {
    Player {
        direction: Direction::Down,
        velocity: Velocity { x: 100, y: 0 },
        animation_index: 0,
    }
}

#[test]
fn animation_cycles_one_two_three_zero() {
    let mut player = moving_player();
    let mut system = AnimationSystem {};
    let mut seen = Vec::new();
    for _ in 0..4 {
        system.run(&mut player);
        seen.push(player.animation_index);
    }
    assert_eq!(seen, vec![1, 2, 3, 0]);
}

#[test]
fn animation_resets_when_standing_still() {
    let mut player = moving_player();
    let mut system = AnimationSystem {};
    system.run(&mut player);
    system.run(&mut player);
    assert_eq!(player.animation_index, 2);

    // The moment the player stops, the frame snaps back to 0.
    player.velocity = Velocity { x: 0, y: 0 };
    system.run(&mut player);
    assert_eq!(player.animation_index, 0);

    // And it stays there while at rest.
    system.run(&mut player);
    assert_eq!(player.animation_index, 0);
}

#[test]
fn animation_counts_vertical_movement_too() {
    let mut player = moving_player();
    player.velocity = Velocity { x: 0, y: -5 };
    let mut system = AnimationSystem {};
    system.run(&mut player);
    assert_eq!(player.animation_index, 1);
}
