use orbit_camera::camera::{
    look_along, orbit_angles, orbit_mouse, orbit_offset, spawn_camera, sync_camera_with_player,
    update, zoom_camera, CameraPose, FrameInput, MouseButton, OrbitCamera, Orientation,
};
use orbit_camera::fixed::{Rotor, Vec3, ONE};

const UNIT: i64 = 1_000_000;

fn camera(radius: i64, min: i64, max: i64, scroll_sensitivity: u32) -> OrbitCamera {
    OrbitCamera {
        radius,
        target: Vec3::new(0, 0, 0),
        orbit_button: MouseButton::Left,
        orbit_sensitivity: 300,
        scroll_sensitivity,
        max_scroll: max,
        min_scroll: min,
    }
}

fn level_pose() -> CameraPose {
    CameraPose { orientation: Orientation::level(), position: Vec3::new(0, 0, 10 * UNIT) }
}

#[test]
fn scroll_past_the_bound_clamps() {
    let mut cam = camera(10 * UNIT, 5 * UNIT, 20 * UNIT, 1);
    // 50 lines in, for one second: 10 - 50 clamps to the nearer bound.
    zoom_camera(&mut cam, &vec![50_000], 1_000_000);
    assert_eq!(cam.radius, 5 * UNIT);
    assert_ne!(cam.radius, 10 * UNIT - 50 * UNIT);
}

#[test]
fn scroll_out_clamps_to_the_far_bound() {
    let mut cam = camera(10 * UNIT, 5 * UNIT, 20 * UNIT, 1);
    zoom_camera(&mut cam, &vec![-50_000], 1_000_000);
    assert_eq!(cam.radius, 20 * UNIT);
}

#[test]
fn scroll_within_bounds_moves_exactly() {
    let mut cam = camera(10 * UNIT, 5 * UNIT, 20 * UNIT, 20);
    // one line in, 16 ms at 20 units per line-second: 0.32 units.
    zoom_camera(&mut cam, &vec![1_000], 16_000);
    assert_eq!(cam.radius, 10 * UNIT - 320_000);
}

#[test]
fn scroll_events_are_summed_before_clamping() {
    let mut cam = camera(10 * UNIT, 5 * UNIT, 20 * UNIT, 1);
    // Alone the first would clamp at 5; summed, the frame moves out by one unit.
    zoom_camera(&mut cam, &vec![8_000, -9_000], 1_000_000);
    assert_eq!(cam.radius, 11 * UNIT);
}

#[test]
fn scroll_sequences_stay_in_bounds() {
    let mut cam = camera(10 * UNIT, 5 * UNIT, 20 * UNIT, 20);
    let frames: Vec<Vec<i32>> = vec![
        vec![i32::MAX, i32::MAX],
        vec![],
        vec![i32::MIN; 5],
        vec![3_000, -1_000, 250],
        vec![-700],
    ];
    for scrolls in frames.iter() {
        zoom_camera(&mut cam, scrolls, u32::MAX);
        assert!(cam.radius >= cam.min_scroll && cam.radius <= cam.max_scroll);
    }
    zoom_camera(&mut cam, &vec![i32::MAX; 3], u32::MAX);
    assert_eq!(cam.radius, 5 * UNIT);
    zoom_camera(&mut cam, &vec![i32::MIN; 3], u32::MAX);
    assert_eq!(cam.radius, 20 * UNIT);
}

#[test]
fn no_scroll_or_no_time_keeps_the_radius() {
    let mut cam = camera(12 * UNIT, 5 * UNIT, 20 * UNIT, 20);
    zoom_camera(&mut cam, &vec![], 16_000);
    assert_eq!(cam.radius, 12 * UNIT);
    zoom_camera(&mut cam, &vec![i32::MAX; 4], 0);
    assert_eq!(cam.radius, 12 * UNIT);
}

#[test]
fn pitch_past_the_pole_is_dropped_and_yaw_kept() {
    let start = Orientation::level();
    let yaw = Rotor { cos: 0, sin: ONE };
    // A pitch step of more than a quarter turn would tip the up vector over.
    let pitch = Rotor { cos: -ONE / 2, sin: ONE / 2 };
    let r = start.orbit(&yaw, &pitch);
    assert_eq!(r.pitch, start.pitch);
    assert_eq!(r.yaw, yaw);
    assert!(r.pitch.cos > 0);
    // Exactly a quarter turn puts the up vector on the horizon: dropped too.
    let r = start.orbit(&yaw, &Rotor { cos: 0, sin: -ONE });
    assert_eq!(r.pitch, start.pitch);
    assert_eq!(r.yaw, yaw);
}

#[test]
fn small_pitch_is_applied() {
    let start = Orientation::level();
    let pitch = Rotor { cos: ONE / 2, sin: ONE / 2 };
    let r = start.orbit(&Rotor::identity(), &pitch);
    assert_eq!(r.pitch, pitch);
    assert_eq!(r.yaw, Rotor::identity());
}

#[test]
fn orbit_mouse_without_turn_is_a_no_op() {
    let mut pose = level_pose();
    let before = pose;
    orbit_mouse(&mut pose, &Rotor::identity(), &Rotor::identity());
    assert_eq!(pose, before);
    orbit_mouse(&mut pose, &Rotor { cos: 0, sin: ONE }, &Rotor::identity());
    assert_eq!(pose.orientation.yaw, Rotor { cos: 0, sin: ONE });
    assert_eq!(pose.position, before.position);
}

#[test]
fn pointer_motion_becomes_angles() {
    let cam = camera(10 * UNIT, 5 * UNIT, 20 * UNIT, 20);
    // 100 px at 300 per second over 10 ms on a 1000 px wide view: 0.3 half-turns.
    let (yaw, pitch) = orbit_angles(&cam, true, 100, -50, 10_000, 1000, 500);
    assert_eq!(yaw, -300_000_000);
    assert_eq!(pitch, 300_000_000);
    assert_eq!(orbit_angles(&cam, false, 100, -50, 10_000, 1000, 500), (0, 0));
    assert_eq!(orbit_angles(&cam, true, 100, -50, 10_000, 0, 500), (0, 0));
    assert_eq!(orbit_angles(&cam, true, 1, 0, 1, 3, 500), (-100_000, 0));
    assert_eq!(orbit_angles(&cam, true, -1, 0, 1, 7, 500), (42_857, 0));
}

#[test]
fn offset_lies_along_the_view_axis() {
    let o = Orientation::level();
    assert_eq!(orbit_offset(&o, 10 * UNIT), Vec3::new(0, 0, 10 * UNIT));
    let side = Orientation { yaw: Rotor { cos: 0, sin: ONE }, pitch: Rotor::identity() };
    assert_eq!(orbit_offset(&side, 10 * UNIT), Vec3::new(10 * UNIT, 0, 0));
    let below = Orientation { yaw: Rotor::identity(), pitch: Rotor { cos: ONE / 2, sin: ONE / 2 } };
    assert_eq!(orbit_offset(&below, 10 * UNIT), Vec3::new(0, -5 * UNIT, 5 * UNIT));
}

#[test]
fn following_the_target_shifts_the_camera() {
    let mut cam = camera(10 * UNIT, 5 * UNIT, 20 * UNIT, 20);
    let mut pose = level_pose();
    let p = Vec3::new(UNIT, 2 * UNIT, -3 * UNIT);
    sync_camera_with_player(&mut cam, &mut pose, &p);
    assert_eq!(cam.target, p);
    let first = pose.position;
    assert_eq!(first, Vec3::new(UNIT, 2 * UNIT, 7 * UNIT));
    let q = Vec3::new(-4 * UNIT, 2 * UNIT, 9 * UNIT);
    sync_camera_with_player(&mut cam, &mut pose, &q);
    let second = pose.position;
    assert_eq!(
        (second.x - first.x, second.y - first.y, second.z - first.z),
        (q.x - p.x, q.y - p.y, q.z - p.z)
    );
}

#[test]
fn idle_frame_changes_nothing() {
    let (mut cam, mut pose) = spawn_camera();
    let target = cam.target;
    sync_camera_with_player(&mut cam, &mut pose, &target);
    let (cam_before, pose_before) = (cam, pose);
    let input = FrameInput {
        yaw: Rotor::identity(),
        pitch: Rotor::identity(),
        scrolls: vec![],
        dt_micros: 16_000,
        target,
    };
    update(&mut cam, &mut pose, &input);
    assert_eq!(cam, cam_before);
    assert_eq!(pose, pose_before);
}

#[test]
fn frame_turns_zooms_and_follows() {
    let mut cam = camera(10 * UNIT, 5 * UNIT, 20 * UNIT, 1);
    let mut pose = level_pose();
    let input = FrameInput {
        yaw: Rotor { cos: 0, sin: ONE },
        pitch: Rotor::identity(),
        scrolls: vec![2_000],
        dt_micros: 1_000_000,
        target: Vec3::new(0, UNIT, 0),
    };
    update(&mut cam, &mut pose, &input);
    assert_eq!(cam.radius, 8 * UNIT);
    assert_eq!(cam.target, Vec3::new(0, UNIT, 0));
    assert_eq!(pose.orientation.yaw, Rotor { cos: 0, sin: ONE });
    assert_eq!(pose.position, Vec3::new(8 * UNIT, UNIT, 0));
}

#[test]
fn spawned_camera_looks_at_the_origin() {
    let (cam, pose) = spawn_camera();
    assert_eq!(cam.radius, 10 * UNIT);
    assert_eq!(cam.target, Vec3::new(0, 2_500_000, 0));
    assert_eq!((cam.min_scroll, cam.max_scroll), (5 * UNIT, 20 * UNIT));
    assert_eq!((cam.orbit_sensitivity, cam.scroll_sensitivity), (300, 20));
    assert_eq!(cam.orbit_button, MouseButton::Left);
    assert_eq!(pose.position, Vec3::new(-2 * UNIT, 2_500_000, 5 * UNIT));
    assert_eq!(pose.orientation.yaw, Rotor { cos: 996944219, sin: -398777687 });
    assert_eq!(pose.orientation.pitch, Rotor { cos: 973910780, sin: -452126797 });
    assert!(pose.orientation.is_valid());
    assert_eq!(
        orbit_offset(&pose.orientation, cam.radius),
        Vec3::new(-3368606, 4210758, 8421516)
    );
}

#[test]
fn straight_down_has_no_level_view() {
    assert_eq!(look_along(&Vec3::new(0, 5 * UNIT, 0)), None);
    let o = look_along(&Vec3::new(0, 0, 7)).unwrap();
    assert!(o.is_valid());
    assert_eq!(o.yaw.sin, 0);
    assert_eq!(o.pitch.sin, 0);
}

#[test]
fn camera_validity() {
    assert!(camera(10 * UNIT, 5 * UNIT, 20 * UNIT, 1).is_valid());
    assert!(!camera(30 * UNIT, 5 * UNIT, 20 * UNIT, 1).is_valid());
    assert!(!camera(10 * UNIT, 15 * UNIT, 20 * UNIT, 1).is_valid());
}
