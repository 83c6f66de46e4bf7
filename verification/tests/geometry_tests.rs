use flight_dynamics::geometry::{global_to_local, local_to_global, Quat, Vec3};

fn fx(v: f64) -> i64 {
    (v * 1e6).round() as i64
}

fn fl(v: i64) -> f64 {
    v as f64 / 1e6
}

fn v3(x: f64, y: f64, z: f64) -> Vec3 {
    Vec3::new(fx(x), fx(y), fx(z))
}

fn within_a_millionth(a: Vec3, b: Vec3) -> bool {
    (a.x - b.x).abs() <= 1 && (a.y - b.y).abs() <= 1 && (a.z - b.z).abs() <= 1
}

fn close(a: Vec3, b: Vec3, tolerance: f64) -> bool {
    (fl(a.x) - fl(b.x)).abs() <= tolerance
        && (fl(a.y) - fl(b.y)).abs() <= tolerance
        && (fl(a.z) - fl(b.z)).abs() <= tolerance
}

#[test]
fn vector_sums_and_products() {
    let a = v3(1.0, 2.0, 3.0);
    let b = v3(-4.0, 0.5, 2.0);
    assert_eq!(a.plus(b), v3(-3.0, 2.5, 5.0));
    assert_eq!(a.minus(b), v3(5.0, 1.5, 1.0));
    assert_eq!(a.negated(), v3(-1.0, -2.0, -3.0));
    assert_eq!(a.scaled(fx(0.5)), v3(0.5, 1.0, 1.5));
    assert_eq!(a.divided(fx(4.0)), v3(0.25, 0.5, 0.75));
    assert_eq!(a.dot(b), fx(3.0));
    assert_eq!(a.length_squared(), fx(14.0));
    assert_eq!(Vec3::zero(), v3(0.0, 0.0, 0.0));
}

#[test]
fn cross_product_is_right_handed() {
    let x = v3(1.0, 0.0, 0.0);
    let y = v3(0.0, 1.0, 0.0);
    let z = v3(0.0, 0.0, 1.0);
    assert_eq!(x.cross(y), z);
    assert_eq!(y.cross(z), x);
    assert_eq!(z.cross(x), y);
    assert_eq!(y.cross(x), z.negated());
    assert_eq!(v3(1.0, 2.0, 3.0).cross(v3(-4.0, 0.5, 2.0)), v3(2.5, -14.0, 8.5));
}

#[test]
fn length_is_the_rounded_down_norm() {
    assert_eq!(v3(3.0, 4.0, 0.0).length(), fx(5.0));
    assert_eq!(v3(0.0, 0.0, -200.0).length(), fx(200.0));
    assert_eq!(Vec3::new(1, 1, 1).length(), 1);
    assert_eq!(Vec3::zero().length(), 0);
    assert_eq!(Vec3::new(i64::MIN, i64::MIN, i64::MIN).length(), i64::MAX);
}

#[test]
fn normalized_vectors_have_unit_length() {
    assert_eq!(v3(0.0, -9.0, 0.0).normalized(), v3(0.0, -1.0, 0.0));
    assert_eq!(v3(3.0, 4.0, 0.0).normalized(), v3(0.6, 0.8, 0.0));
    assert_eq!(Vec3::zero().normalized(), Vec3::zero());
    let n = v3(0.3, 0.5, -0.2).normalized();
    assert!((fl(n.length()) - 1.0).abs() < 3e-6);
}

#[test]
fn quaternion_norm_and_normalization() {
    assert_eq!(Quat::identity().length(), 1_000_000);
    assert_eq!(Quat::new(0, 0, 0, 0).normalized(), Quat::identity());
    assert_eq!(Quat::new(0, fx(3.0), 0, fx(4.0)).normalized(), Quat::new(0, 600_000, 0, 800_000));
    assert_eq!(Quat::new(i64::MIN, i64::MIN, i64::MIN, i64::MIN).length(), i64::MAX);
    assert_eq!(Quat::new(i64::MAX, i64::MAX, i64::MAX, i64::MAX).length(), i64::MAX);
}

#[test]
fn quaternion_product_follows_hamilton() {
    let i = Quat::new(1_000_000, 0, 0, 0);
    let j = Quat::new(0, 1_000_000, 0, 0);
    let k = Quat::new(0, 0, 1_000_000, 0);
    assert_eq!(i.times(j), k);
    assert_eq!(j.times(k), i);
    assert_eq!(k.times(i), j);
    assert_eq!(j.times(i), Quat::new(0, 0, -1_000_000, 0));
    assert_eq!(i.times(i), Quat::new(0, 0, 0, -1_000_000));
    assert_eq!(Quat::identity().times(k), k);
    assert_eq!(i.conjugate(), Quat::new(-1_000_000, 0, 0, 0));
}

#[test]
fn identity_orientation_converts_nothing() {
    let v = v3(12.5, -300.0, 0.000001);
    assert_eq!(local_to_global(v, Quat::identity()), v);
    assert_eq!(global_to_local(v, Quat::identity()), v);
}

#[test]
fn quarter_turn_about_the_vertical_swings_forward_to_the_side() {
    let q = Quat::from_rotation_y(1_570_796);
    let forward = v3(0.0, 0.0, -1.0);
    assert!(close(q.rotate(forward), v3(-1.0, 0.0, 0.0), 3e-6));
    let up = v3(0.0, 1.0, 0.0);
    assert!(close(q.rotate(up), up, 3e-6));
}

#[test]
fn rotation_about_x_pitches_forward_up() {
    let q = Quat::from_rotation_x(fx(10.0f64.to_radians()));
    assert!((fl(q.x) - 5.0f64.to_radians().sin()).abs() < 3e-6);
    assert!((fl(q.w) - 5.0f64.to_radians().cos()).abs() < 3e-6);
    assert_eq!(q.y, 0);
    assert_eq!(q.z, 0);
    let nose = q.rotate(v3(0.0, 0.0, -1.0));
    assert!(close(nose, v3(0.0, 10.0f64.to_radians().sin(), -(10.0f64.to_radians().cos())), 5e-6));
}

#[test]
fn axis_angle_matches_the_axis_rotations() {
    let angle = fx(0.7);
    let about_x = Quat::from_axis_angle(v3(1.0, 0.0, 0.0), angle);
    assert_eq!(about_x, Quat::from_rotation_x(angle));
    let about_y = Quat::from_axis_angle(v3(0.0, 1.0, 0.0), angle);
    assert_eq!(about_y, Quat::from_rotation_y(angle));
}

#[test]
fn frame_conversion_round_trips() {
    let orientations = [
        Quat::identity(),
        Quat::from_rotation_x(fx(0.3)),
        Quat::from_rotation_y(fx(-2.0)),
        Quat::from_axis_angle(v3(0.6, 0.0, 0.8), fx(1.1)),
        Quat::from_rotation_y(fx(0.4)).times(Quat::from_rotation_x(fx(-0.9))),
        Quat::new(fx(0.2), fx(-0.4), fx(0.1), fx(1.3)),
    ];
    let vectors = [
        v3(1.0, 0.0, 0.0),
        v3(0.0, -9.81, 0.0),
        v3(0.3, -0.7, 0.2),
        v3(-0.001, 0.002, 0.5),
    ];
    for q in orientations {
        for v in vectors {
            let back = local_to_global(global_to_local(v, q), q);
            assert!(within_a_millionth(back, v), "{:?} {:?} {:?}", q, v, back);
            let forth = global_to_local(local_to_global(v, q), q);
            assert!(within_a_millionth(forth, v), "{:?} {:?} {:?}", q, v, forth);
        }
    }
}

#[test]
fn frame_conversion_round_trips_at_flight_speeds() {
    let q = Quat::from_rotation_y(fx(0.4)).times(Quat::from_rotation_x(fx(-0.9)));
    let v = v3(30.0, -12.0, -200.0);
    let back = local_to_global(global_to_local(v, q), q);
    assert!(within_a_millionth(back, v), "{:?}", back);
}

#[test]
fn conversion_preserves_length() {
    let q = Quat::from_axis_angle(v3(0.6, 0.0, 0.8), fx(1.1));
    let v = v3(3.0, 4.0, 12.0);
    let w = local_to_global(v, q);
    assert!((fl(w.length()) - 13.0).abs() < 1e-4);
}

#[test]
fn euler_angles_of_the_axis_rotations() {
    let e = Quat::identity().to_euler();
    assert_eq!((e.heading, e.pitch, e.roll), (0, 0, 0));

    let e = Quat::from_rotation_x(fx(0.5)).to_euler();
    assert!((fl(e.roll) - 0.5).abs() < 1e-5);
    assert!(fl(e.pitch).abs() < 1e-5);
    assert!(fl(e.heading).abs() < 1e-5);

    let e = Quat::from_rotation_y(fx(-0.8)).to_euler();
    assert!((fl(e.pitch) + 0.8).abs() < 1e-4);
    assert!(fl(e.roll).abs() < 1e-5);
    assert!(fl(e.heading).abs() < 1e-5);

    let e = Quat::from_axis_angle(v3(0.0, 0.0, 1.0), fx(1.2)).to_euler();
    assert!((fl(e.heading) - 1.2).abs() < 1e-5);
    assert!(fl(e.pitch).abs() < 1e-5);
    assert!(fl(e.roll).abs() < 1e-5);
}

#[test]
fn euler_angles_of_a_compound_rotation() {
    let (yaw, pitch, roll) = (0.7f64, -0.4f64, 0.25f64);
    let q = Quat::from_axis_angle(v3(0.0, 0.0, 1.0), fx(yaw))
        .times(Quat::from_rotation_y(fx(pitch)))
        .times(Quat::from_rotation_x(fx(roll)));
    let e = q.to_euler();
    assert!((fl(e.heading) - yaw).abs() < 5e-5, "{}", fl(e.heading));
    assert!((fl(e.pitch) - pitch).abs() < 5e-5, "{}", fl(e.pitch));
    assert!((fl(e.roll) - roll).abs() < 5e-5, "{}", fl(e.roll));
}

#[test]
fn normalized_quaternions_have_unit_length_unless_tiny() {
    let cases = [
        Quat::new(fx(0.01), 0, 0, fx(0.005)),
        Quat::new(fx(0.3), fx(-0.4), fx(0.1), fx(0.9)),
        Quat::new(fx(1234.5), fx(-4321.0), fx(77.0), fx(-9999.0)),
        Quat::new(10_000, 0, 0, 0),
        Quat::new(5_000, 5_000, 5_000, 5_001),
    ];
    for q in cases {
        assert!(q.length() >= 10_000);
        let unit = q.normalized().length();
        assert!(999_997 <= unit && unit <= 1_000_100, "{:?} {}", q, unit);
    }
    // A quaternion of a few millionths has its length rounded too coarsely.
    assert_eq!(Quat::new(1, 1, 0, 0).normalized(), Quat::new(1_000_000, 1_000_000, 0, 0));
}

#[test]
fn round_trip_of_a_small_vector_by_a_quarter_turn() {
    let q = Quat::new(707_107, 0, 0, 707_107);
    let v = Vec3::new(300_000, -400_000, 500_000);
    let there = global_to_local(v, q);
    assert_eq!(there, Vec3::new(300_000, 500_000, 400_000));
    assert_eq!(local_to_global(there, q), v);
}

#[test]
fn round_trip_by_orientations_of_any_length() {
    let orientations = [
        Quat::new(1, 0, 0, 1),
        Quat::new(3, -4, 12, 84),
        Quat::new(123_456_789_012, -7, 55_555_555, 999_999_999_999),
        Quat::new(i64::MAX, i64::MIN, 12_345, -1),
        Quat::new(0, 0, 0, -5),
        Quat::new(0, 0, 0, 0),
        Quat::new(17, 0, 0, 0),
    ];
    let vectors = [
        Vec3::new(1, -1, 0),
        Vec3::new(300_000, -400_000, 500_000),
        Vec3::new(-200_000_000, 12_345_678, 987_654_321),
        Vec3::new(1 << 61, -(1 << 61), (1 << 61) - 12_345),
    ];
    for q in orientations {
        for v in vectors {
            let back = local_to_global(global_to_local(v, q), q);
            assert!(within_a_millionth(back, v), "{:?} {:?} {:?}", q, v, back);
            let forth = global_to_local(local_to_global(v, q), q);
            assert!(within_a_millionth(forth, v), "{:?} {:?} {:?}", q, v, forth);
        }
    }
}

#[test]
fn nose_straight_up_sees_gravity_from_behind() {
    let q = Quat::from_rotation_x(1_570_796);
    assert_eq!(q, Quat::new(707_107, 0, 0, 707_107));
    let gravity = Vec3::new(0, -9_810_000, 0);
    assert_eq!(global_to_local(gravity, q), Vec3::new(0, 0, 9_810_000));
    assert_eq!(local_to_global(gravity, q), Vec3::new(0, 0, -9_810_000));
    assert_eq!(global_to_local(gravity, q).length(), 9_810_000);
}

#[test]
fn turning_does_not_depend_on_the_length_of_the_quaternion() {
    let v = v3(3.0, -4.0, 12.0);
    let q = Quat::new(fx(0.2), fx(-0.4), fx(0.1), fx(1.3));
    let doubled = Quat::new(fx(0.4), fx(-0.8), fx(0.2), fx(2.6));
    let huge = Quat::new(fx(0.2) << 33, fx(-0.4) << 33, fx(0.1) << 33, fx(1.3) << 33);
    assert_eq!(q.rotate(v), doubled.rotate(v));
    assert!(within_a_millionth(q.rotate(v), huge.rotate(v)));
    assert_eq!(q.rotate_back(v), doubled.rotate_back(v));
    assert!((fl(q.rotate(v).length()) - 13.0).abs() < 3e-6);
    assert_eq!(Quat::new(0, 0, 0, 0).rotate(v), v);
}
