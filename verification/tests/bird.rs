use delirious_descent::bird::{Bird, BirdState, BIRD_JITTER};
use delirious_descent::geometry::{Rect, Vec2};
use delirious_descent::player::Player;
use delirious_descent::HDirection;

const SCREEN: i64 = 400_000;

fn player_at(x: i64, y: i64) -> Player {
    Player::new(Vec2::new(x, y))
}

#[test]
fn birds_spawn_beyond_the_far_edge() {
    let left = Bird::spawn(100_000, HDirection::Left, SCREEN);
    assert_eq!(left.state, BirdState::Arrival);
    assert_eq!(left.position, Vec2 { x: 425_000, y: 100_000 });
    assert_eq!(left.velocity, Vec2 { x: -120_000, y: 0 });
    assert_eq!(left.hitbox, Rect { x: 425_000, y: 100_000, w: 30_000, h: 30_000 });
    assert_eq!(left.move_dir, HDirection::Left);
    let right = Bird::spawn(-5, HDirection::Right, SCREEN);
    assert_eq!(right.position, Vec2 { x: -25_000, y: -5 });
    assert_eq!(right.velocity, Vec2 { x: 120_000, y: 0 });
    assert_eq!(right.pause_timer, 0);
    assert_eq!(right.animation_timer, 0);
}

#[test]
fn arriving_bird_flies_in_unchanged() {
    // not yet on the screen, and below the player
    let mut bird = Bird::spawn(100_000, HDirection::Left, SCREEN);
    bird.update_with(&player_at(200_000, 50_000), 100, SCREEN, 0);
    assert_eq!(bird.state, BirdState::Arrival);
    assert_eq!(bird.velocity, Vec2 { x: -120_000, y: 0 });
    assert_eq!(bird.position, Vec2 { x: 413_000, y: 100_000 });
    assert_eq!(bird.hitbox, Rect { x: 420_500, y: 107_500, w: 30_000, h: 30_000 });
    assert_eq!(bird.animation_timer, 100);
}

#[test]
fn arriving_bird_above_player_stops_drifting() {
    let mut bird = Bird::spawn(100_000, HDirection::Right, SCREEN);
    bird.velocity.y = 7_000;
    bird.update_with(&player_at(200_000, 500_000), 100, SCREEN, 0);
    assert_eq!(bird.state, BirdState::Arrival);
    assert_eq!(bird.velocity, Vec2 { x: 120_000, y: 0 });
    assert_eq!(bird.position, Vec2 { x: -13_000, y: 100_000 });
}

#[test]
fn arriving_bird_below_player_climbs() {
    let mut bird = Bird::spawn(100_000, HDirection::Left, SCREEN);
    bird.position.x = 369_999;
    bird.update_with(&player_at(200_000, 100_000), 100, SCREEN, 0);
    assert_eq!(bird.state, BirdState::Arrival);
    assert_eq!(bird.velocity, Vec2 { x: 0, y: -120_000 });
    assert_eq!(bird.position, Vec2 { x: 369_999, y: 88_000 });
}

#[test]
fn horizontal_gate_is_exclusive() {
    let mut left = Bird::spawn(100_000, HDirection::Left, SCREEN);
    left.position.x = 370_000;
    left.update_with(&player_at(0, 0), 0, SCREEN, 0);
    assert_eq!(left.velocity, Vec2 { x: -120_000, y: 0 });
    let mut right = Bird::spawn(100_000, HDirection::Right, SCREEN);
    right.position.x = 30_000;
    right.update_with(&player_at(0, 0), 0, SCREEN, 0);
    assert_eq!(right.velocity, Vec2 { x: 120_000, y: 0 });
    right.position.x = 30_001;
    right.update_with(&player_at(0, 0), 0, SCREEN, 0);
    assert_eq!(right.velocity, Vec2 { x: 0, y: -120_000 });
}

#[test]
fn bird_in_place_takes_aim() {
    let mut bird = Bird::spawn(100_000, HDirection::Left, SCREEN);
    bird.position.x = 300_000;
    let mut player = player_at(180_000, 500_000);
    player.velocity = Vec2::new(0, 20_000);
    bird.update_with(&player, 100, SCREEN, 0);
    assert_eq!(bird.state, BirdState::Target);
    // where the player will be in five seconds
    assert_eq!(bird.target_pos, Vec2 { x: 180_000, y: 600_000 });
    assert_eq!(bird.velocity, Vec2 { x: 0, y: 120_000 });
    // five seconds less the second it takes to cover 120 pixels
    assert_eq!(bird.pause_timer, 4_000);
    assert_eq!(bird.position, Vec2 { x: 300_000, y: 112_000 });
}

#[test]
fn aim_varies_by_the_jitter() {
    let player = player_at(180_000, 500_000);
    let mut early = Bird::spawn(100_000, HDirection::Right, SCREEN);
    early.position.x = 60_000;
    let mut late = early;
    early.update_with(&player, 0, SCREEN, -250);
    late.update_with(&player, 0, SCREEN, 250);
    assert_eq!(early.pause_timer, 3_750);
    assert_eq!(late.pause_timer, 4_250);
    assert_eq!(early.target_pos, late.target_pos);
}

#[test]
fn random_jitter_stays_in_range() {
    let player = player_at(180_000, 500_000);
    for _ in 0..100 {
        let mut bird = Bird::spawn(100_000, HDirection::Right, SCREEN);
        bird.position.x = 60_000;
        bird.update(&player, 0, SCREEN);
        assert_eq!(bird.state, BirdState::Target);
        assert!(bird.pause_timer >= 4_000 - BIRD_JITTER);
        assert!(bird.pause_timer <= 4_000 + BIRD_JITTER);
    }
}

#[test]
fn update_without_aim_is_exact() {
    let player = player_at(200_000, 50_000);
    let mut a = Bird::spawn(100_000, HDirection::Left, SCREEN);
    let mut b = a;
    a.update(&player, 16, SCREEN);
    b.update_with(&player, 16, SCREEN, 0);
    assert_eq!(a, b);
}

#[test]
fn targeting_bird_holds_altitude_then_leaves() {
    let player = player_at(0, 0);
    let mut bird = Bird::spawn(100_000, HDirection::Right, SCREEN);
    bird.state = BirdState::Target;
    bird.position = Vec2::new(100_000, 190_000);
    bird.velocity = Vec2::new(0, 120_000);
    bird.target_pos = Vec2::new(100_000, 200_000);
    bird.pause_timer = 250;
    bird.update_with(&player, 100, SCREEN, 0);
    assert_eq!(bird.velocity, Vec2 { x: 0, y: 120_000 });
    assert_eq!(bird.position.y, 202_000);
    assert_eq!(bird.pause_timer, 150);
    bird.update_with(&player, 100, SCREEN, 0);
    assert_eq!(bird.velocity, Vec2 { x: 0, y: 0 });
    assert_eq!(bird.position.y, 202_000);
    assert_eq!(bird.pause_timer, 50);
    assert_eq!(bird.state, BirdState::Target);
    bird.update_with(&player, 50, SCREEN, 0);
    assert_eq!(bird.pause_timer, 0);
    assert_eq!(bird.state, BirdState::Target);
    bird.update_with(&player, 1, SCREEN, 0);
    assert_eq!(bird.state, BirdState::Flight);
    assert_eq!(bird.velocity, Vec2 { x: 120_000, y: 0 });
    bird.update_with(&player, 1_000, SCREEN, 0);
    assert_eq!(bird.state, BirdState::Flight);
    assert_eq!(bird.position, Vec2 { x: 220_120, y: 202_000 });
}

#[test]
fn collision_turns_the_bird_round() {
    let mut bird = Bird::spawn(100_000, HDirection::Left, SCREEN);
    bird.collision();
    assert_eq!(bird.state, BirdState::Flight);
    assert_eq!(bird.move_dir, HDirection::Right);
    assert_eq!(bird.velocity, Vec2 { x: 120_000, y: -120_000 });
    bird.collision();
    assert_eq!(bird.move_dir, HDirection::Left);
    assert_eq!(bird.velocity, Vec2 { x: -120_000, y: -120_000 });
    assert_eq!(bird.state, BirdState::Flight);
}

#[test]
fn wings_alternate_ten_times_a_second() {
    let mut bird = Bird::spawn(0, HDirection::Left, SCREEN);
    assert_eq!(bird.wing_frame(), 0);
    bird.animation_timer = 99;
    assert_eq!(bird.wing_frame(), 0);
    bird.animation_timer = 100;
    assert_eq!(bird.wing_frame(), 1);
    bird.animation_timer = 250;
    assert_eq!(bird.wing_frame(), 0);
    bird.animation_timer = -100;
    assert_eq!(bird.wing_frame(), 0);
}
