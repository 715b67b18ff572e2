//! Tests of the dice-demo logic: the ray-sphere hit test, the roll state
//! machine with its decelerating speed, the continuous spin, and the face
//! layout.

use dice_demo::faces::{face_normal, face_quad_center, face_value, opposite_face, FACE_COUNT};
use dice_demo::geom::{ray_hits_sphere, Vec3Milli};
use dice_demo::input::{apply_click, BOUNDING_RADIUS_MILLI};
use dice_demo::roll::{speed_millirad, RollState, BASE_SPEED_MILLIRAD, DEFAULT_DURATION_MS};
use dice_demo::scene::{
    camera_offset, directional_light_euler_millirad, initial_roll_state, DIE_HALF_EXTENT_MILLI,
    FACE_QUAD_EPSILON_MILLI,
};
use dice_demo::spin::spin_delta;

fn v(x: i64, y: i64, z: i64) -> Vec3Milli {
    Vec3Milli { x, y, z }
}

#[test]
fn initial_state_is_idle() {
    let s = initial_roll_state();
    assert!(!s.is_rolling);
    assert_eq!(s.elapsed_ms, 0);
    assert_eq!(s.duration_ms, DEFAULT_DURATION_MS);
}

#[test]
fn ray_hits_centered_sphere() {
    // Ray from (0, 0, 5) straight down the -Z axis at a sphere of radius 1.3
    // centered on the origin: discriminant 1.3^2 - 0 >= 0, a hit.
    let hit = ray_hits_sphere(v(0, 0, 5000), v(0, 0, -1000), v(0, 0, 0), 1300);
    assert!(hit);
}

#[test]
fn ray_misses_offset_sphere() {
    // The same ray against a sphere centered at (5, 5, 0): a miss.
    let hit = ray_hits_sphere(v(0, 0, 5000), v(0, 0, -1000), v(5000, 5000, 0), 1300);
    assert!(!hit);
}

#[test]
fn ray_grazing_boundary_counts_as_hit() {
    // Ray parallel to -Z passing at exactly the sphere radius in X:
    // discriminant is zero, still a hit.
    let hit = ray_hits_sphere(v(1300, 0, 5000), v(0, 0, -1000), v(0, 0, 0), 1300);
    assert!(hit);
    // One milli-unit further out it becomes a miss.
    let miss = ray_hits_sphere(v(1301, 0, 5000), v(0, 0, -1000), v(0, 0, 0), 1300);
    assert!(!miss);
}

#[test]
fn hit_starts_roll_from_idle() {
    let mut s = RollState::new(DEFAULT_DURATION_MS);
    let started = s.register_hit();
    assert!(started);
    assert!(s.is_rolling);
    assert_eq!(s.elapsed_ms, 0);
}

#[test]
fn hit_while_rolling_keeps_elapsed() {
    let mut s = RollState::new(DEFAULT_DURATION_MS);
    s.register_hit();
    let delta = s.advance(700);
    assert!(delta.is_some());
    assert_eq!(s.elapsed_ms, 700);
    // A second hit while the die is rolling is ignored: the elapsed time is
    // not reset.
    let started = s.register_hit();
    assert!(!started);
    assert!(s.is_rolling);
    assert_eq!(s.elapsed_ms, 700);
}

#[test]
fn click_on_rolling_die_is_ignored() {
    let mut s = RollState::new(DEFAULT_DURATION_MS);
    s.register_hit();
    s.advance(400);
    let started = apply_click(
        &mut s,
        v(0, 0, 5000),
        v(0, 0, -1000),
        v(0, 0, 0),
        BOUNDING_RADIUS_MILLI,
    );
    assert!(!started);
    assert!(s.is_rolling);
    assert_eq!(s.elapsed_ms, 400);
}

#[test]
fn click_hit_starts_roll() {
    let mut s = RollState::new(DEFAULT_DURATION_MS);
    let started = apply_click(
        &mut s,
        v(0, 0, 5000),
        v(0, 0, -1000),
        v(0, 0, 0),
        BOUNDING_RADIUS_MILLI,
    );
    assert!(started);
    assert!(s.is_rolling);
    assert_eq!(s.elapsed_ms, 0);
}

#[test]
fn click_miss_leaves_die_idle() {
    let mut s = RollState::new(DEFAULT_DURATION_MS);
    let started = apply_click(
        &mut s,
        v(0, 0, 5000),
        v(0, 0, -1000),
        v(5000, 5000, 0),
        BOUNDING_RADIUS_MILLI,
    );
    assert!(!started);
    assert!(!s.is_rolling);
    assert_eq!(s.elapsed_ms, 0);
}

#[test]
fn overshoot_clamps_to_idle() {
    // Starting a roll (elapsed 0, duration 1.5 s) and advancing 1.6 s in one
    // step ends the roll cleanly: idle again, elapsed reset, no rotation.
    let mut s = RollState::new(1500);
    s.register_hit();
    let delta = s.advance(1600);
    assert!(delta.is_none());
    assert!(!s.is_rolling);
    assert_eq!(s.elapsed_ms, 0);
}

#[test]
fn exact_end_of_duration_stops_roll() {
    let mut s = RollState::new(1500);
    s.register_hit();
    let delta = s.advance(1500);
    assert!(delta.is_none());
    assert!(!s.is_rolling);
    assert_eq!(s.elapsed_ms, 0);
}

#[test]
fn idle_die_is_not_animated() {
    let mut s = RollState::new(DEFAULT_DURATION_MS);
    let delta = s.advance(100);
    assert!(delta.is_none());
    assert!(!s.is_rolling);
    assert_eq!(s.elapsed_ms, 0);
}

#[test]
fn idle_always_means_zero_elapsed() {
    // Drive a die through a whole roll in uneven steps; at every frame
    // boundary an idle die must show zero elapsed time.
    let mut s = RollState::new(DEFAULT_DURATION_MS);
    s.register_hit();
    for dt in [300u64, 450, 250, 400, 200, 100] {
        s.advance(dt);
        if !s.is_rolling {
            assert_eq!(s.elapsed_ms, 0);
        }
    }
    assert!(!s.is_rolling);
    assert_eq!(s.elapsed_ms, 0);
}

#[test]
fn speed_endpoints() {
    // 15 rad/s at the start of the roll, 15 * 0.15 = 2.25 rad/s at the end.
    assert_eq!(speed_millirad(0, 1500), 15_000);
    assert_eq!(speed_millirad(1500, 1500), 2_250);
    assert_eq!(BASE_SPEED_MILLIRAD, 15_000);
}

#[test]
fn speed_decreases_over_the_roll() {
    let mut last = speed_millirad(0, 1500);
    for elapsed in [1u64, 375, 750, 1125, 1499, 1500] {
        let s = speed_millirad(elapsed, 1500);
        assert!(s < last);
        last = s;
    }
}

#[test]
fn speed_at_one_third() {
    // progress = 1/3: 15 * (1 - 0.85 / 3) = 10.75 rad/s.
    assert_eq!(speed_millirad(500, 1500), 10_750);
}

#[test]
fn roll_delta_first_half_second() {
    // One 500 ms frame from a fresh roll: speed 10.75 rad/s, so rotations of
    // 5.375 rad about X, 3.7625 rad about Y, 1.6125 rad about Z, exactly, in
    // ten-millionths of a radian.
    let mut s = RollState::new(1500);
    s.register_hit();
    let delta = s.advance(500).unwrap();
    assert_eq!(delta.x_units, 53_750_000);
    assert_eq!(delta.y_units, 37_625_000);
    assert_eq!(delta.z_units, 16_125_000);
    assert_eq!(s.elapsed_ms, 500);
    assert!(s.is_rolling);
}

#[test]
fn roll_delta_y_and_z_are_fractions_of_x() {
    let mut s = RollState::new(1500);
    s.register_hit();
    let delta = s.advance(900).unwrap();
    // Y is 0.7 and Z is 0.3 of the X rotation.
    assert_eq!(delta.y_units * 10, delta.x_units * 7);
    assert_eq!(delta.z_units * 10, delta.x_units * 3);
}

#[test]
fn spin_one_second_is_exact() {
    // After one second of the continuous spin the die has turned exactly
    // 1 radian about Y and 0.3 radian about X, whatever the click state.
    let delta = spin_delta(1000);
    assert_eq!(delta.y_units, 10_000_000);
    assert_eq!(delta.x_units, 3_000_000);
    assert_eq!(delta.z_units, 0);
    assert_eq!(delta.y_units as f64 / 10_000_000.0, 1.0);
    assert_eq!(delta.x_units as f64 / 10_000_000.0, 0.3);
}

#[test]
fn spin_is_stateless_and_additive() {
    let one = spin_delta(400);
    let two = spin_delta(600);
    let whole = spin_delta(1000);
    assert_eq!(one.y_units + two.y_units, whole.y_units);
    assert_eq!(one.x_units + two.x_units, whole.x_units);
}

#[test]
fn opposite_faces_sum_to_seven() {
    for face in 0..FACE_COUNT {
        let o = opposite_face(face);
        assert_ne!(o, face);
        assert_eq!(face_value(face) + face_value(o), 7);
        assert_eq!(opposite_face(o), face);
    }
}

#[test]
fn face_values_cover_one_to_six() {
    let mut seen = [false; 7];
    for face in 0..FACE_COUNT {
        let val = face_value(face);
        assert!((1..=6).contains(&val));
        assert!(!seen[val as usize]);
        seen[val as usize] = true;
    }
}

#[test]
fn face_normals_are_unit_axes() {
    for face in 0..FACE_COUNT {
        let n = face_normal(face);
        let squares = n.x * n.x + n.y * n.y + n.z * n.z;
        assert_eq!(squares, 1000 * 1000);
    }
}

#[test]
fn face_quads_sit_just_off_the_cube() {
    let p = face_quad_center(0, DIE_HALF_EXTENT_MILLI, FACE_QUAD_EPSILON_MILLI);
    assert_eq!((p.x, p.y, p.z), (760, 0, 0));
    let q = face_quad_center(3, DIE_HALF_EXTENT_MILLI, FACE_QUAD_EPSILON_MILLI);
    assert_eq!((q.x, q.y, q.z), (0, -760, 0));
}

#[test]
fn scene_camera_and_light() {
    let cam = camera_offset();
    assert_eq!((cam.x, cam.y, cam.z), (0, 3000, 6000));
    let euler = directional_light_euler_millirad();
    assert_eq!((euler.x, euler.y, euler.z), (-700, 500, 0));
}
