use delirious_descent::bird::{Bird, BirdState};
use delirious_descent::cleanup::{sweep_birds, sweep_things};
use delirious_descent::collision::{
    collide_birds_player, collide_lightning_player, collide_things_birds, collide_things_player,
    first_bird_over,
};
use delirious_descent::cursor::Pointer;
use delirious_descent::fling::{FlingKind, FlingState, FlingThing};
use delirious_descent::geometry::{Rect, Vec2};
use delirious_descent::level_gen::Difficulty;
use delirious_descent::lightning::{Lightning, LightningState};
use delirious_descent::player::{Player, PlayerState};
use delirious_descent::scene::{Scene, SceneAction};
use delirious_descent::scenes::game_scene::{
    any_held, format_time, GameScene, Input, Inputs, Sound, Sounds,
};
use delirious_descent::HDirection;

const SCREEN: Vec2 = Vec2 { x: 400_000, y: 640_000 };

fn millis(seconds: f64) -> u64 {
    (seconds * 1000.0).round() as u64
}

fn idle() -> Pointer {
    Pointer { position: Vec2::new(0, 0), pressed: false, down: false }
}

fn game() -> GameScene {
    let mut scene = GameScene::new(Difficulty::Normal, SCREEN, Vec2::new(0, 0));
    scene.fling_things.clear();
    scene
}

fn bird_at(x: i64, y: i64, dir: HDirection) -> Bird {
    let mut bird = Bird::spawn(y, dir, SCREEN.x);
    bird.position = Vec2::new(x, y);
    bird.hitbox = Rect::new(x + 7_500, y + 7_500, 30_000, 30_000);
    bird
}

#[test]
fn time_is_written_as_minutes_seconds_hundredths() {
    assert_eq!(format_time(millis(125.3)), "02:05.30");
    assert_eq!(format_time(millis(5.0)), "00:05.00");
    assert_eq!(format_time(0), "00:00.00");
    assert_eq!(format_time(9), "00:00.01");
    assert_eq!(format_time(4), "00:00.00");
    assert_eq!(format_time(59_994), "00:59.99");
    assert_eq!(format_time(60_000), "01:00.00");
    assert_eq!(format_time(millis(600.0)), "10:00.00");
    assert_eq!(format_time(millis(6000.0) + 10), "100:00.01");
    assert_eq!(format_time(754_321), "12:34.32");
}

#[test]
fn seconds_are_rounded_after_the_minutes() {
    assert_eq!(format_time(59_995), "00:60.00");
    assert_eq!(format_time(119_999), "01:60.00");
}

#[test]
fn a_control_is_held_while_any_key_is_down() {
    assert!(!any_held(&vec![]));
    assert!(!any_held(&vec![false, false]));
    assert!(any_held(&vec![false, true]));
    assert!(any_held(&vec![true, false, false]));
}

#[test]
fn new_game_starts_at_the_top() {
    let scene = GameScene::new(Difficulty::Hard, SCREEN, Vec2::new(7, 8));
    assert_eq!(scene.player, Player::new(Vec2::new(200_000, 10_000)));
    assert_eq!(scene.cursor.position, Vec2 { x: 7, y: 8 });
    assert!(!scene.cursor.has_selected());
    assert_eq!(scene.generator.bird_timer, 3_000);
    assert!(scene.birds.is_empty());
    assert!(scene.lightning.is_none());
    assert_eq!(scene.time, 0);
    assert_eq!(scene.ground_position, 2_000_000);
    assert!(scene.mouse_captured);
    assert_eq!(scene.end_timer, 0);
    assert_eq!(scene.sounds, Sounds::new());
    assert_eq!(scene.camera.target, Vec2 { x: 200_000, y: 320_000 });
    assert_eq!(scene.inputs, Inputs::new());
    assert!(!scene.fling_things.is_empty());
    assert!(scene.fling_things.iter().all(|t| t.state == FlingState::Normal));
}

#[test]
fn input_sets_controls_and_capture() {
    let mut scene = game();
    let mut down = Inputs::new();
    down.set(Input::Down, true);
    scene.handle_input(down, false, true);
    assert_eq!(scene.inputs, down);
    assert!(!scene.mouse_captured);
    scene.handle_input(Inputs::new(), false, false);
    assert!(!scene.mouse_captured);
    assert_eq!(scene.inputs, Inputs::new());
    scene.handle_input(Inputs::new(), true, false);
    assert!(scene.mouse_captured);
    scene.handle_input(Inputs::new(), true, true);
    assert!(!scene.mouse_captured);
}

#[test]
fn frame_moves_the_player_and_runs_the_clock() {
    let mut scene = game();
    scene.sounds.fire(Sound::Hit);
    let action = scene.update(&idle(), 100);
    assert!(matches!(action, SceneAction::Continue));
    assert_eq!(scene.player.position, Vec2 { x: 200_000, y: 12_000 });
    assert_eq!(scene.time, 100);
    assert_eq!(scene.sounds, Sounds::new());
    // a third of the screen below the player
    assert_eq!(scene.camera.target, Vec2 { x: 200_000, y: 225_333 });
    assert_eq!(scene.generator.bird_timer, 5_900);
    assert_eq!(scene.generator.lightning_timer, 11_900);
    // the cursor acts before the camera moves
    assert_eq!(scene.cursor.position, Vec2 { x: 0, y: 0 });
    scene.update(&idle(), 0);
    assert_eq!(scene.cursor.position, Vec2 { x: 0, y: -94_667 });
}

#[test]
fn camera_stops_once_the_ground_is_in_view() {
    let mut scene = game();
    scene.camera.target.y = 1_740_000;
    scene.player.position.y = 1_500_000;
    scene.update(&idle(), 0);
    assert_eq!(scene.camera.target.y, 1_740_000);
    scene.camera.target.y = 1_739_999;
    scene.update(&idle(), 0);
    assert_eq!(scene.camera.target.y, 1_713_333);
}

#[test]
fn landing_ends_the_flight() {
    let mut scene = game();
    scene.player.position.y = 1_949_000;
    scene.time = 42_000;
    let action = scene.update(&idle(), 50);
    assert!(matches!(action, SceneAction::Continue));
    assert_eq!(scene.player.position.y, 1_950_000);
    assert_eq!(scene.player.state, PlayerState::Landed);
    assert!(scene.sounds.get(Sound::End));
    assert_eq!(scene.end_timer, 2_000);
    assert_eq!(scene.time, 42_000);

    let action = scene.update(&idle(), 1_500);
    assert!(matches!(action, SceneAction::Continue));
    assert_eq!(scene.end_timer, 500);
    assert_eq!(scene.sounds, Sounds::new());
    assert_eq!(scene.player.position.y, 1_950_000);
    assert_eq!(scene.generator.bird_timer, 5_950);

    let action = scene.update(&idle(), 500);
    match action {
        SceneAction::Replace(Scene::End(end)) => {
            assert_eq!(end.time, 42_000);
            assert_eq!(end.words, "Float like a rock");
        },
        _ => panic!("the result screen should take over"),
    }
    assert_eq!(scene.end_timer, 0);
}

#[test]
fn flight_goes_on_just_above_the_ground() {
    let mut scene = game();
    scene.player.position.y = 1_949_999;
    scene.update(&idle(), 0);
    assert_eq!(scene.player.state, PlayerState::Normal);
    assert_eq!(scene.end_timer, 0);
    scene.player.position.y = 1_950_000;
    scene.update(&idle(), 0);
    assert_eq!(scene.player.state, PlayerState::Landed);
}

#[test]
fn frame_moves_flung_clouds_and_birds() {
    let mut scene = game();
    let mut cloud = FlingThing::new(FlingKind::Cloud, Vec2::new(0, 400_000));
    cloud.fling(Vec2::new(100_000, 0));
    scene.fling_things.push(cloud);
    scene.fling_things.push(FlingThing::new(FlingKind::Cloud, Vec2::new(300_000, 400_000)));
    scene.birds.push(Bird::spawn(300_000, HDirection::Left, SCREEN.x));
    scene.update(&idle(), 100);
    assert_eq!(scene.fling_things[0].position, Vec2 { x: 10_000, y: 400_000 });
    assert_eq!(scene.fling_things[1].position, Vec2 { x: 300_000, y: 400_000 });
    assert_eq!(scene.birds.len(), 1);
    assert_eq!(scene.birds[0].position, Vec2 { x: 413_000, y: 300_000 });
    assert_eq!(scene.birds[0].state, BirdState::Arrival);
}

#[test]
fn thunder_cloud_is_spawned_and_moved_in_one_frame() {
    let mut scene = game();
    scene.generator.lightning_timer = 50;
    scene.update(&idle(), 100);
    let cloud = scene.lightning.unwrap();
    // the camera has moved to a third of the screen below the player by then
    assert_eq!(scene.camera.target.y, 225_333);
    // one screen's height above the top of that view, and then one frame down
    assert_eq!(cloud.position, Vec2 { x: 136_000, y: -94_667 - 640_000 + 12_000 });
    assert_eq!(cloud.timer, 4_900);
    assert!(scene.generator.lightning_timer >= 10_000 && scene.generator.lightning_timer <= 14_000);
}

#[test]
fn clouds_touch_the_player_and_are_destroyed() {
    let mut player = Player::new(Vec2::new(200_000, 10_000));
    player.fuel = 0;
    let mut flung = FlingThing::new(FlingKind::Cloud, Vec2::new(210_000, 20_000));
    flung.fling(Vec2::new(100_000, -60_000));
    let far = FlingThing::new(FlingKind::GoldCloud, Vec2::new(0, 500_000));
    let gold = FlingThing::new(FlingKind::GoldCloud, Vec2::new(220_000, 40_000));
    let resting = FlingThing::new(FlingKind::Cloud, Vec2::new(230_000, 30_000));
    let mut things = vec![flung, far, gold, resting];
    collide_things_player(&mut player, &mut things);
    assert_eq!(player.velocity, Vec2 { x: 100_000, y: -60_000 });
    assert_eq!(player.state, PlayerState::Bounced { timer: 500 });
    assert_eq!(player.fuel, 3);
    assert_eq!(things[0].state, FlingState::Destroyed);
    assert_eq!(things[0].hitbox, Rect::empty());
    assert_eq!(things[1], far);
    assert_eq!(things[2].state, FlingState::Destroyed);
    assert_eq!(things[3].state, FlingState::Destroyed);
}

#[test]
fn destroyed_clouds_take_no_part() {
    // the player's hitbox holds the origin, where an emptied hitbox lies
    let mut player = Player::new(Vec2::new(-30_000, -30_000));
    player.fuel = 1;
    let before = player;
    let mut gold = FlingThing::new(FlingKind::GoldCloud, Vec2::new(500_000, 500_000));
    gold.collision();
    assert!(gold.hitbox.overlaps(&player.hitbox));
    let mut things = vec![gold];
    collide_things_player(&mut player, &mut things);
    assert_eq!(player, before);
    assert_eq!(things, vec![gold]);
}

#[test]
fn birds_hit_the_player_once_a_frame() {
    let mut player = Player::new(Vec2::new(200_000, 10_000));
    let mut birds = vec![
        bird_at(210_000, 20_000, HDirection::Left),
        bird_at(0, 500_000, HDirection::Left),
        bird_at(190_000, 0, HDirection::Right),
    ];
    let away = birds[1];
    let mut sounds = Sounds::new();
    collide_birds_player(&mut player, &mut birds, &mut sounds);
    assert_eq!(player.balloons, 2);
    assert!(sounds.get(Sound::Hit));
    assert_eq!(birds[0].move_dir, HDirection::Right);
    assert_eq!(birds[0].state, BirdState::Flight);
    assert_eq!(birds[0].velocity, Vec2 { x: 120_000, y: -120_000 });
    assert_eq!(birds[1], away);
    assert_eq!(birds[2].move_dir, HDirection::Left);
    assert_eq!(birds[2].velocity, Vec2 { x: -120_000, y: -120_000 });

    // the immunity keeps the balloons, but the birds are bumped again
    let mut quiet = Sounds::new();
    collide_birds_player(&mut player, &mut birds, &mut quiet);
    assert_eq!(player.balloons, 2);
    assert!(!quiet.get(Sound::Hit));
    assert_eq!(birds[0].move_dir, HDirection::Left);
}

#[test]
fn flung_cloud_bumps_the_first_bird_it_overlaps() {
    let mut flung = FlingThing::new(FlingKind::Cloud, Vec2::new(100_000, 100_000));
    flung.fling(Vec2::new(100_000, 0));
    let resting = FlingThing::new(FlingKind::Cloud, Vec2::new(100_000, 100_000));
    let mut second = FlingThing::new(FlingKind::Cloud, Vec2::new(110_000, 100_000));
    second.fling(Vec2::new(0, 100_000));
    let mut things = vec![resting, flung, second];
    let mut birds = vec![
        bird_at(300_000, 300_000, HDirection::Left),
        bird_at(100_000, 90_000, HDirection::Left),
        bird_at(110_000, 95_000, HDirection::Right),
    ];
    let away = birds[0];
    let third = birds[2];
    assert_eq!(first_bird_over(&birds, &flung.hitbox), 1);
    assert_eq!(first_bird_over(&birds, &Rect::new(0, 0, 1, 1)), 3);
    collide_things_birds(&mut things, &mut birds);
    assert_eq!(things[0], resting);
    assert_eq!(things[1].state, FlingState::Destroyed);
    assert_eq!(things[2].state, FlingState::Destroyed);
    assert_eq!(birds[0], away);
    // both clouds strike the second bird, which turns round twice
    assert_eq!(birds[1].move_dir, HDirection::Left);
    assert_eq!(birds[1].velocity, Vec2 { x: -120_000, y: -120_000 });
    assert_eq!(birds[1].state, BirdState::Flight);
    assert_eq!(birds[2], third);
}

#[test]
fn thunder_cloud_hits_the_player() {
    let mut player = Player::new(Vec2::new(200_000, 400_000));
    let mut cloud = Lightning::new(Vec2::new(136_000, 0));
    let mut sounds = Sounds::new();
    collide_lightning_player(&mut player, &Some(cloud), &mut sounds);
    assert_eq!(player.balloons, 3);
    assert!(!sounds.get(Sound::Hit));
    cloud.state = LightningState::Striking { bolt_hitbox: Rect::new(207_000, 0, 50_000, 1_280_000) };
    collide_lightning_player(&mut player, &Some(cloud), &mut sounds);
    assert_eq!(player.balloons, 2);
    assert!(sounds.get(Sound::Hit));
    collide_lightning_player(&mut player, &None, &mut sounds);
    assert_eq!(player.balloons, 2);
}

#[test]
fn ended_strike_spares_the_player() {
    // the player stands over the centre of the thunder cloud's sprite
    let mut scene = game();
    scene.player = Player::new(Vec2::new(70_000, 20_000));
    let mut cloud = Lightning::new(Vec2::new(0, 0));
    cloud.state = LightningState::Destroyed;
    cloud.cloud_hitbox = Rect::new(96_000, 48_000, 0, 0);
    assert!(cloud.cloud_hitbox.overlaps(&scene.player.hitbox));
    scene.lightning = Some(cloud);
    scene.check_collisions();
    assert_eq!(scene.player.balloons, 3);
    assert_eq!(scene.player.invincible, 0);
    assert!(!scene.sounds.get(Sound::Hit));

    let mut player = Player::new(Vec2::new(70_000, 20_000));
    let mut sounds = Sounds::new();
    collide_lightning_player(&mut player, &Some(cloud), &mut sounds);
    assert_eq!(player.balloons, 3);
    assert!(!sounds.get(Sound::Hit));
}

#[test]
fn frame_that_ends_the_strike_does_no_damage() {
    let mut scene = game();
    scene.camera.target.y = 1_740_000;
    scene.player = Player::new(Vec2::new(70_000, 1_500_000));
    let mut cloud = Lightning::new(Vec2::new(0, 1_480_000));
    cloud.state = LightningState::Striking {
        bolt_hitbox: Rect::new(71_000, 1_480_000, 50_000, 1_280_000),
    };
    cloud.timer = -1;
    scene.lightning = Some(cloud);
    scene.update(&idle(), 0);
    assert!(scene.lightning.is_none());
    assert_eq!(scene.player.balloons, 3);
    assert!(!scene.sounds.get(Sound::Hit));
}

#[test]
fn sweep_keeps_each_bird_as_often_as_it_was_there() {
    let zone = Rect::new(-200_000, -320_000, 800_000, 1_280_000);
    let gone = bird_at(-300_000, 0, HDirection::Left);
    let stays = bird_at(0, 0, HDirection::Left);
    let other = bird_at(100_000, 100_000, HDirection::Right);
    let mut birds = vec![stays, gone, stays, gone, other, stays, gone];
    sweep_birds(&mut birds, &zone);
    assert_eq!(birds.len(), 4);
    assert_eq!(birds.iter().filter(|b| **b == stays).count(), 3);
    assert_eq!(birds.iter().filter(|b| **b == other).count(), 1);
    assert_eq!(birds.iter().filter(|b| **b == gone).count(), 0);
}

#[test]
fn collision_pass_runs_in_order() {
    let mut scene = game();
    let mut flung = FlingThing::new(FlingKind::Cloud, Vec2::new(210_000, 20_000));
    flung.fling(Vec2::new(100_000, 0));
    scene.fling_things.push(flung);
    scene.birds.push(bird_at(210_000, 20_000, HDirection::Left));
    scene.check_collisions();
    // the player destroys the cloud before it can strike the bird
    assert_eq!(scene.fling_things[0].state, FlingState::Destroyed);
    assert_eq!(scene.player.state, PlayerState::Bounced { timer: 500 });
    assert_eq!(scene.player.balloons, 2);
    assert_eq!(scene.birds[0].move_dir, HDirection::Right);
    assert!(scene.sounds.get(Sound::Hit));
}

#[test]
fn lost_birds_are_removed_from_the_back() {
    let zone = Rect::new(-200_000, -320_000, 800_000, 1_280_000);
    let a = bird_at(-300_000, 0, HDirection::Left);
    let b = bird_at(0, 0, HDirection::Left);
    let c = bird_at(0, 2_000_000, HDirection::Left);
    let d = bird_at(100_000, 100_000, HDirection::Right);
    let mut birds = vec![a, b, c, d];
    sweep_birds(&mut birds, &zone);
    assert_eq!(birds, vec![d, b]);
    let mut all = vec![a, c];
    sweep_birds(&mut all, &zone);
    assert!(all.is_empty());
}

#[test]
fn lost_clouds_are_removed() {
    let mut scene = game();
    scene.camera.target.y = 1_000_000;
    let above = FlingThing::new(FlingKind::Cloud, Vec2::new(100_000, 100_000));
    let inside = FlingThing::new(FlingKind::Cloud, Vec2::new(100_000, 900_000));
    let below = FlingThing::new(FlingKind::Cloud, Vec2::new(100_000, 1_900_000));
    let mut destroyed = FlingThing::new(FlingKind::GoldCloud, Vec2::new(100_000, 950_000));
    destroyed.collision();
    let mut things = vec![above, inside, below, destroyed];
    sweep_things(&mut things, &scene.camera);
    // clouds beyond the play zone stay while they are below the target
    assert_eq!(things, vec![below, inside]);
}

#[test]
fn held_cloud_keeps_every_cloud() {
    let mut scene = game();
    scene.camera.target.y = 1_000_000;
    let above = FlingThing::new(FlingKind::Cloud, Vec2::new(100_000, 100_000));
    let mut destroyed = FlingThing::new(FlingKind::Cloud, Vec2::new(100_000, 950_000));
    destroyed.collision();
    scene.fling_things = vec![above, destroyed];
    scene.cursor.selected_index = Some(0);
    scene.birds.push(bird_at(0, 0, HDirection::Left));
    scene.lightning = Some(Lightning::new(Vec2::new(0, 0)));
    scene.clean_up();
    assert_eq!(scene.fling_things, vec![above, destroyed]);
    assert!(scene.birds.is_empty());
    assert!(scene.lightning.is_some());
    scene.cursor.selected_index = None;
    let mut gone = Lightning::new(Vec2::new(0, 0));
    gone.state = LightningState::Destroyed;
    scene.lightning = Some(gone);
    scene.clean_up();
    assert!(scene.fling_things.is_empty());
    assert!(scene.lightning.is_none());
}
