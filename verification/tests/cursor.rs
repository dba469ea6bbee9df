use delirious_descent::camera::Camera;
use delirious_descent::cursor::{calc_trajectory, find_under, Cursor, Pointer};
use delirious_descent::fling::{FlingKind, FlingState, FlingThing};
use delirious_descent::geometry::Vec2;
use delirious_descent::scenes::game_scene::{Sound, Sounds};

fn camera() -> Camera {
    Camera::from_screen(Vec2::new(400_000, 640_000))
}

fn px(x: f64, y: f64) -> Vec2 {
    Vec2::new((x * 1000.0).round() as i64, (y * 1000.0).round() as i64)
}

fn press(at: Vec2) -> Pointer {
    Pointer { position: at, pressed: true, down: true }
}

fn hold(at: Vec2) -> Pointer {
    Pointer { position: at, pressed: false, down: true }
}

fn release(at: Vec2) -> Pointer {
    Pointer { position: at, pressed: false, down: false }
}

fn clouds() -> Vec<FlingThing> {
    vec![
        FlingThing::new(FlingKind::Cloud, px(300.0, 300.0)),
        FlingThing::new(FlingKind::Cloud, px(90.0, 95.0)),
        FlingThing::new(FlingKind::GoldCloud, px(80.0, 90.0)),
    ]
}

#[test]
fn press_grabs_the_first_cloud_under_the_pointer() {
    let things = clouds();
    // both the second and the third cloud hold the point
    assert!(things[1].hitbox.contains(px(100.0, 100.0)));
    assert!(things[2].hitbox.contains(px(100.0, 100.0)));
    assert_eq!(find_under(&things, px(100.0, 100.0)), Some(1));
    assert_eq!(find_under(&things, px(310.0, 310.0)), Some(0));
    assert_eq!(find_under(&things, px(0.0, 0.0)), None);
    assert_eq!(find_under(&Vec::new(), px(0.0, 0.0)), None);
}

#[test]
fn slingshot_vector_is_press_minus_release() {
    let camera = camera();
    let mut things = clouds();
    let before = things.clone();
    let mut sounds = Sounds::new();
    let mut cursor = Cursor::new(px(0.0, 0.0));
    cursor.update(&press(px(100.0, 100.0)), &camera, &mut things, &mut sounds);
    assert_eq!(cursor.selected_index, Some(1));
    assert_eq!(cursor.click_position, Some(px(100.0, 100.0)));
    assert!(cursor.has_selected());
    cursor.update(&hold(px(150.0, 100.0)), &camera, &mut things, &mut sounds);
    assert_eq!(cursor.position, px(150.0, 100.0));
    assert_eq!(cursor.selected_index, Some(1));
    assert_eq!(cursor.aim(), Some(px(-50.0, 0.0)));
    assert_eq!(things, before);
    assert!(!sounds.get(Sound::Fling));
    cursor.update(&release(px(150.0, 100.0)), &camera, &mut things, &mut sounds);
    // fifty pixels do not exceed the threshold: the cloud stays at rest
    assert_eq!(things, before);
    assert!(sounds.get(Sound::Fling));
    assert_eq!(cursor.selected_index, None);
    assert_eq!(cursor.click_position, None);
    assert!(!cursor.has_selected());
    assert_eq!(cursor.aim(), None);
}

#[test]
fn release_flings_the_grabbed_cloud() {
    let camera = camera();
    let mut things = clouds();
    let before = things.clone();
    let mut sounds = Sounds::new();
    let mut cursor = Cursor::new(px(0.0, 0.0));
    cursor.update(&press(px(100.0, 100.0)), &camera, &mut things, &mut sounds);
    cursor.update(&hold(px(200.0, 130.0)), &camera, &mut things, &mut sounds);
    cursor.update(&release(px(200.0, 400.0)), &camera, &mut things, &mut sounds);
    assert_eq!(things[1].state, FlingState::Flung);
    assert_eq!(things[1].velocity, px(-100.0, -250.0));
    assert_eq!(things[0], before[0]);
    assert_eq!(things[2], before[2]);
    assert!(sounds.get(Sound::Fling));
    assert!(!cursor.has_selected());
}

#[test]
fn release_without_a_cloud_does_nothing() {
    let camera = camera();
    let mut things = clouds();
    let before = things.clone();
    let mut sounds = Sounds::new();
    let mut cursor = Cursor::new(px(0.0, 0.0));
    cursor.update(&press(px(5.0, 5.0)), &camera, &mut things, &mut sounds);
    assert_eq!(cursor.selected_index, None);
    assert_eq!(cursor.click_position, Some(px(5.0, 5.0)));
    cursor.update(&release(px(300.0, 300.0)), &camera, &mut things, &mut sounds);
    assert_eq!(things, before);
    assert!(!sounds.get(Sound::Fling));
    assert_eq!(cursor.click_position, None);
}

#[test]
fn pointer_is_taken_into_the_world() {
    let mut camera = camera();
    camera.follow(500_000);
    let mut things = vec![FlingThing::new(FlingKind::Cloud, Vec2::new(90_000, 490_000))];
    let mut cursor = Cursor::new(px(0.0, 0.0));
    cursor.update(&press(px(100.0, 100.0)), &camera, &mut things, &mut Sounds::new());
    assert_eq!(cursor.position, Vec2 { x: 100_000, y: 493_333 });
    assert_eq!(cursor.selected_index, Some(0));
    let mut plain = Cursor::new(px(0.0, 0.0));
    plain.basic_update(&hold(px(7.0, 8.0)));
    assert_eq!(plain.position, px(7.0, 8.0));
    assert!(!plain.has_selected());
}

#[test]
fn trajectory_has_twenty_points_a_quarter_second_apart() {
    let points = calc_trajectory(px(100.0, 100.0), px(-100.0, 60.0));
    assert_eq!(points.len(), 20);
    assert_eq!(points[0], px(75.0, 115.0));
    assert_eq!(points[1], px(50.0, 130.0));
    assert_eq!(points[19], px(-400.0, 400.0));
    for k in 0..20 {
        let t = 0.25 * (k as f64 + 1.0);
        assert_eq!(points[k], px(100.0 - 100.0 * t, 100.0 + 60.0 * t));
    }
}
