use flight_dynamics::geometry::{global_to_local, Quat, Transform, Vec3};
use flight_dynamics::plane::flight_model::FlightModel;
use flight_dynamics::plane::flight_physics::{
    aileron_force, air_density, coefficients, command_step, dynamic_pressure, elevator_force,
    pitch_ramp, power_readout, prepare, ramp, roll_rate_limiter, roll_yaw_moment, rudder_force,
    sec_order_sim, shake, shake_excess, speed_limiter, surface, switch_target, tail_force, thrust,
    throttle_output, wing_force, wing_station, yaw_rate_limiter, WHEEL_DAMPING, WHEEL_RADIUS,
    WHEEL_SPRING,
};
use flight_dynamics::plane::plane_config::{
    Aerodynamics, AeroTables, Basic, Engine, EngineTables, PlaneConfig, Structure, Unit,
};

fn fx(v: f64) -> i64 {
    (v * 1e6).round() as i64
}

fn fl(v: i64) -> f64 {
    v as f64 / 1e6
}

fn v3(x: f64, y: f64, z: f64) -> Vec3 {
    Vec3::new(fx(x), fx(y), fx(z))
}

fn sample_config() -> PlaneConfig {
    let built = PlaneConfig::new(
        Unit { name: String::from("su-25t") },
        Basic {
            wing_area: fx(30.1),
            wingspan: fx(14.36),
            length: fx(15.53),
            height: fx(4.8),
            mach_max: fx(0.82),
            center_of_mass: [0, 0, 0],
            moment_of_inertia: [fx(20000.0), fx(60000.0), fx(50000.0), fx(1000.0)],
            empty_mass: fx(9500.0),
            gross_mass: fx(14500.0),
            number_of_engines: 2,
        },
        Aerodynamics {
            Cy0: fx(0.05),
            Czbe: fx(-0.016),
            cx_gear: fx(0.02),
            cx_brk: fx(0.06),
            cx_flap: fx(0.05),
            cy_flap: fx(0.4),
            tables: AeroTables {
                mach: vec![0, 200_000, 400_000, 600_000, 800_000, 1_000_000],
                cx0: vec![20_000, 20_000, 21_000, 23_000, 30_000, 55_000],
                Cya: vec![70_000, 71_000, 73_000, 77_000, 85_000, 80_000],
                OmxMax: vec![1_000_000, 1_500_000, 2_200_000, 2_600_000, 2_400_000, 2_000_000],
                Aldop: vec![18_000_000, 18_000_000, 17_000_000, 16_000_000, 14_000_000, 12_000_000],
                CyMax: vec![1_200_000, 1_200_000, 1_150_000, 1_100_000, 1_000_000, 900_000],
            },
        },
        Engine {
            idle_rpm: fx(50.0),
            fuel_consumption: fx(0.9),
            engine_start_time: fx(40.0),
            tables: EngineTables {
                mach: vec![0, 500_000, 1_000_000],
                max_thrust: vec![fx(88000.0), fx(80000.0), fx(72000.0)],
                throttle_input: vec![0, 500_000, 1_000_000],
                engine_power: vec![0, 500_000, 1_000_000],
                engine_power_readout: vec![0, 500_000, 1_000_000],
            },
        },
        Structure {
            front_wheel: v3(0.0, -1.5, -4.0),
            back_left_wheel: v3(-1.3, -1.5, 1.0),
            back_right_wheel: v3(1.3, -1.5, 1.0),
            left_wing_pos: v3(-3.5, 0.0, 0.7),
            right_wing_pos: v3(3.5, 0.0, 0.7),
            tail_pos: v3(0.0, 1.5, 6.5),
            elevator_pos: v3(0.0, 0.5, 6.5),
            left_aileron_pos: v3(-5.5, 0.0, 1.0),
            right_aileron_pos: v3(5.5, 0.0, 1.0),
            rudder_pos: v3(0.0, 2.0, 6.8),
            left_engine_pos: v3(-1.0, 0.0, 1.5),
            right_engine_pos: v3(1.0, 0.0, 1.5),
        },
    );
    match built {
        Ok(config) => config,
        Err(e) => panic!("the sample record was rejected: {:?}", e),
    }
}

fn level() -> Transform {
    Transform { translation: v3(0.0, 3000.0, 0.0), rotation: Quat::identity() }
}

#[test]
fn new_model_is_at_rest_with_the_properties_of_its_type() {
    let model = FlightModel::new(sample_config());
    let s = &model.state;
    assert_eq!(s.velocity, Vec3::zero());
    assert_eq!(s.angular_velocity, Vec3::zero());
    assert_eq!(s.common_force, Vec3::zero());
    assert_eq!(s.current_mass, fx(14500.0));
    assert_eq!(s.internal_fuel, fx(5000.0));
    assert_eq!(s.moment_of_inertia, v3(20000.0, 60000.0, 50000.0));
    assert_eq!(s.wingspan, fx(14.36));
    assert_eq!(s.speed_of_sound, fx(340.0));
    assert_eq!(s.engine_alt_effect, fx(1.0));
    assert_eq!(s.rudder_pos, v3(0.0, 2.0, 6.8));
    assert_eq!(s.left_engine_pos, v3(-1.0, 0.0, 1.5));
    assert!(!s.left_engine_switch && !s.right_engine_switch && !s.gear_switch);
    assert_eq!(s.left_throttle_input, 0);
    assert!(model.draw_vecs.is_empty());
}

#[test]
fn hot_start_sets_the_baseline() {
    let mut model = FlightModel::new(sample_config());
    model.state.gear_switch = true;
    model.state.gear_pos = fx(1.0);
    model.state.pitch_input = fx(0.3);
    model.state.flaps_pos = fx(0.25);
    model.start_hot();
    let s = &model.state;
    assert!(!s.gear_switch);
    assert_eq!(s.gear_pos, 0);
    assert_eq!(s.carrier_pos, 0);
    assert!(s.left_engine_switch && s.right_engine_switch);
    assert_eq!(s.left_throttle_input, fx(0.5));
    assert_eq!(s.left_throttle_output, fx(0.5));
    assert_eq!(s.left_engine_power_readout, fx(0.5));
    assert_eq!(s.right_throttle_input, fx(0.5));
    assert_eq!(s.right_throttle_output, fx(0.5));
    assert_eq!(s.right_engine_power_readout, fx(0.5));
    assert_eq!(s.pitch_input, 0);
    assert_eq!(s.velocity, v3(0.0, 0.0, -200.0));
    assert_eq!(s.flaps_pos, fx(0.25));
}

#[test]
fn hot_start_survives_a_tick_of_no_time() {
    let mut model = FlightModel::new(sample_config());
    model.start_hot();
    let mut t = level();
    model.update_variables(&t);
    model.simulate(0, &t);
    model.transform(0, &mut t);
    model.update_variables(&t);
    let s = &model.state;
    assert_eq!(s.left_throttle_input, fx(0.5));
    assert_eq!(s.right_throttle_input, fx(0.5));
    assert_eq!(s.left_throttle_output, fx(0.5));
    assert_eq!(s.right_throttle_output, fx(0.5));
    assert_eq!(s.left_engine_power_readout, fx(0.5));
    assert_eq!(s.right_engine_power_readout, fx(0.5));
    assert!(s.left_engine_switch && s.right_engine_switch);
    assert!(!s.gear_switch);
    assert_eq!(s.gear_pos, 0);
    assert_eq!(s.velocity, v3(0.0, 0.0, -200.0));
    assert_eq!(t, level());
}

#[test]
fn force_adds_its_moment_about_the_centre_of_mass() {
    let mut model = FlightModel::new(sample_config());
    model.state.center_of_mass = v3(0.0, 0.0, 1.0);
    model.add_local_force(v3(0.0, 10.0, 0.0), v3(2.0, 0.0, 4.0));
    assert_eq!(model.state.common_force, v3(0.0, 10.0, 0.0));
    // (2, 0, 3) x (0, 10, 0) = (-30, 0, 20)
    assert_eq!(model.state.common_moment, v3(-30.0, 0.0, 20.0));
    model.add_local_moment(v3(1.0, 2.0, 3.0));
    assert_eq!(model.state.common_moment, v3(-29.0, 2.0, 23.0));
    model.add_local_force(v3(0.0, 0.0, -5.0), v3(0.0, 0.0, 1.0));
    assert_eq!(model.state.common_force, v3(0.0, 10.0, -5.0));
    assert_eq!(model.state.common_moment, v3(-29.0, 2.0, 23.0));
}

#[test]
fn drawn_force_is_recorded_in_the_world_frame() {
    let mut model = FlightModel::new(sample_config());
    let t = Transform { translation: v3(10.0, 20.0, 30.0), rotation: Quat::identity() };
    model.add_local_force_draw(v3(0.0, 5.0, 0.0), v3(1.0, 0.0, 0.0), &t);
    assert_eq!(model.draw_vecs, vec![(v3(0.0, 5.0, 0.0), v3(11.0, 20.0, 30.0))]);
    assert_eq!(model.state.common_force, v3(0.0, 5.0, 0.0));
    assert_eq!(model.state.common_moment, v3(0.0, 0.0, 5.0));
}

#[test]
fn wheel_below_ground_pushes_up() {
    let mut model = FlightModel::new(sample_config());
    let wheel = v3(0.0, -1.5, -4.0);
    let world = Vec3::new(0, WHEEL_RADIUS - fx(0.1), 0);
    model.check_wheel(world, wheel, 0, WHEEL_RADIUS, Quat::identity(), fx(1.0));
    assert!(model.state.on_ground);
    assert!(model.state.common_force.y > 0);
    assert_eq!(model.state.common_force, v3(0.0, 400_000.0, 0.0));
    // (0, -1.5, -4) x (0, 400000, 0) = (1600000, 0, 0)
    assert_eq!(model.state.common_moment, v3(1_600_000.0, 0.0, 0.0));
}

#[test]
fn wheel_above_ground_feels_nothing() {
    let mut model = FlightModel::new(sample_config());
    model.state.on_ground = true;
    let wheel = v3(0.0, -1.5, -4.0);
    let world = Vec3::new(0, WHEEL_RADIUS + fx(0.1), 0);
    model.check_wheel(world, wheel, 0, WHEEL_RADIUS, Quat::identity(), fx(1.0));
    assert!(!model.state.on_ground);
    assert_eq!(model.state.common_force, Vec3::zero());
    assert_eq!(model.state.common_moment, Vec3::zero());
}

#[test]
fn wheel_touching_the_ground_feels_nothing() {
    let mut model = FlightModel::new(sample_config());
    let wheel = v3(0.0, -1.5, -4.0);
    let world = Vec3::new(0, WHEEL_RADIUS, 0);
    model.check_wheel(world, wheel, 0, WHEEL_RADIUS, Quat::identity(), fx(1.0));
    assert!(!model.state.on_ground);
    assert_eq!(model.state.common_force, Vec3::zero());
}

#[test]
fn sinking_wheel_is_damped() {
    let mut model = FlightModel::new(sample_config());
    model.state.velocity = v3(0.0, -2.0, 0.0);
    let world = Vec3::new(0, WHEEL_RADIUS - fx(0.1), 0);
    model.check_wheel(world, v3(0.0, 0.0, 0.0), 0, WHEEL_RADIUS, Quat::identity(), fx(1.0));
    assert_eq!(model.state.common_force, v3(0.0, 800_000.0, 0.0));
}

#[test]
fn strut_force_formula() {
    assert_eq!(sec_order_sim(fx(0.1), 0, WHEEL_SPRING, WHEEL_DAMPING), fx(400_000.0));
    assert_eq!(sec_order_sim(fx(0.1), fx(1.0), WHEEL_SPRING, WHEEL_DAMPING), fx(200_000.0));
    assert_eq!(sec_order_sim(fx(0.1), fx(10.0), WHEEL_SPRING, WHEEL_DAMPING), fx(-1_600_000.0));
    assert_eq!(sec_order_sim(fx(2.0), fx(-3.0), fx(5.0), fx(7.0)), fx(31.0));
}

#[test]
fn on_ground_flag_follows_the_last_wheel_checked() {
    let mut model = FlightModel::new(sample_config());
    // Nose down far enough that only the front wheel is under the ground.
    let pitch_down = Quat::from_rotation_x(fx(-0.3));
    let t = Transform { translation: v3(0.0, 2.0, 0.0), rotation: pitch_down };
    model.wheel_on_ground(t.rotation, &t);
    assert!(!model.state.on_ground);
    assert!(model.state.common_force.length() > 0);

    let mut model = FlightModel::new(sample_config());
    let t = Transform { translation: v3(0.0, 1.7, 0.0), rotation: Quat::identity() };
    model.wheel_on_ground(t.rotation, &t);
    assert!(model.state.on_ground);
    // Three wheels, each 0.1 under the ground.
    assert_eq!(model.state.common_force, v3(0.0, 1_200_000.0, 0.0));

    let mut model = FlightModel::new(sample_config());
    let t = Transform { translation: v3(0.0, 3000.0, 0.0), rotation: Quat::identity() };
    model.wheel_on_ground(t.rotation, &t);
    assert!(!model.state.on_ground);
    assert_eq!(model.state.common_force, Vec3::zero());
}

#[test]
fn free_fall_gains_the_acceleration_of_gravity_each_second() {
    let mut model = FlightModel::new(sample_config());
    model.state.velocity = v3(30.0, 0.0, -50.0);
    let mut t = level();
    let dt = fx(1.0 / 60.0);
    for _ in 0..60 {
        model.state.common_force = Vec3::zero();
        model.state.common_moment = Vec3::zero();
        let weight = v3(0.0, -9.81, 0.0).scaled(model.state.current_mass);
        let center = model.state.center_of_mass;
        model.add_local_force(weight, center);
        model.transform(dt, &mut t);
    }
    assert!((fl(model.state.velocity.y) + 9.81).abs() < 1e-3);
    assert_eq!(model.state.velocity.x, fx(30.0));
    assert_eq!(model.state.velocity.z, fx(-50.0));
    assert_eq!(model.state.angular_velocity, Vec3::zero());
    assert_eq!(t.rotation, Quat::identity());
    // Started at 3000 m: fallen about 4.99 m, flown 30 m and 50 m.
    assert!((fl(t.translation.y) - (3000.0 - 0.5 * 9.81 * 61.0 / 60.0)).abs() < 1e-2);
    assert!((fl(t.translation.x) - 30.0).abs() < 1e-3);
    assert!((fl(t.translation.z) + 50.0).abs() < 1e-3);
}

#[test]
fn free_fall_in_any_attitude_of_any_sane_mass() {
    let attitudes = [
        Quat::identity(),
        Quat::from_rotation_x(1_570_796),
        Quat::from_rotation_x(fx(0.3)).times(Quat::from_rotation_y(fx(-1.1))),
        Quat::new(3, -4, 12, 84),
        Quat::new(0, 0, 0, 0),
    ];
    for rotation in attitudes {
        for mass in [fx(1.0), fx(14500.0), fx(1.0e9)] {
            let mut model = FlightModel::new(sample_config());
            model.state.current_mass = mass;
            model.state.velocity = v3(30.0, 2.0, -50.0);
            let mut t = Transform { translation: v3(0.0, 3000.0, 0.0), rotation };
            for _ in 0..60 {
                model.state.common_force =
                    global_to_local(Vec3::new(0, -9_810_000, 0), t.rotation).scaled(mass);
                model.state.common_moment = Vec3::zero();
                model.state.angular_velocity = Vec3::zero();
                model.transform(16_667, &mut t);
            }
            // Sixty times 0.163503 down: 9.81 to within a thousandth.
            assert_eq!(model.state.velocity, Vec3::new(fx(30.0), fx(2.0) - 9_810_180, fx(-50.0)));
            assert_eq!(t.rotation, rotation);
        }
    }
}

#[test]
fn orientation_stays_of_unit_length_over_ten_thousand_ticks() {
    let mut model = FlightModel::new(sample_config());
    model.state.angular_velocity = v3(0.3, 0.5, -0.2);
    let mut t = level();
    let dt = fx(1.0 / 60.0);
    for _ in 0..10_000 {
        model.transform(dt, &mut t);
        assert!((fl(t.rotation.length()) - 1.0).abs() < 1e-4);
    }
    assert_ne!(t.rotation, Quat::identity());
}

#[test]
fn orientation_stays_of_unit_length_whatever_the_spin() {
    let spins = [
        v3(0.0, 0.0, 0.0006),
        v3(40.0, -90.0, 15.0),
        v3(0.0, 1.0e6, 0.0),
        Vec3::new(i64::MAX, i64::MIN, 1),
        Vec3::new(1, 0, 0),
    ];
    let steps = [fx(1.0 / 60.0), fx(1.0), fx(1000.0), i64::MAX, 1];
    for spin in spins {
        for dt in steps {
            let mut model = FlightModel::new(sample_config());
            model.state.angular_velocity = spin;
            let mut t = Transform {
                translation: Vec3::zero(),
                rotation: Quat::from_rotation_x(fx(0.3)),
            };
            for _ in 0..50 {
                model.transform(dt, &mut t);
                let length = t.rotation.length();
                assert!(999_997 <= length && length <= 1_000_100, "{:?} {} {}", spin, dt, length);
            }
        }
    }
}

#[test]
fn slow_turn_leaves_the_orientation_alone() {
    let mut model = FlightModel::new(sample_config());
    model.state.angular_velocity = v3(0.0005, 0.0, 0.0);
    let mut t = level();
    // 0.0005 rad/s for a sixtieth of a second is 8 millionths of a radian.
    model.transform(fx(1.0 / 60.0), &mut t);
    assert_eq!(t.rotation, Quat::identity());
    // 0.0006 rad/s comes to the least turn of 10 millionths exactly.
    model.state.angular_velocity = v3(0.0006, 0.0, 0.0);
    model.transform(fx(1.0 / 60.0), &mut t);
    assert_eq!(t.rotation, Quat::new(5, 0, 0, 1_000_000));
}

#[test]
fn integrator_applies_force_and_moment() {
    let mut model = FlightModel::new(sample_config());
    model.state.common_force = v3(0.0, 0.0, -29000.0);
    model.state.common_moment = v3(20000.0, 0.0, -100000.0);
    let mut t = level();
    model.transform(fx(0.5), &mut t);
    assert_eq!(model.state.velocity, v3(0.0, 0.0, -1.0));
    assert_eq!(model.state.angular_velocity, v3(0.5, 0.0, -1.0));
    assert_eq!(t.translation, v3(0.0, 3000.0, -0.5));
    // Turned by |(0.5, 0, -1)| / 2 radians about that axis.
    let angle = (0.25f64 + 1.0).sqrt() * 0.5;
    let expected_w = (angle / 2.0).cos();
    assert!((fl(t.rotation.w) - expected_w).abs() < 1e-5);
    assert_eq!(t.rotation.y, 0);
    assert!(t.rotation.x > 0 && t.rotation.z < 0);
}

#[test]
fn readings_follow_the_motion() {
    let mut model = FlightModel::new(sample_config());
    model.state.velocity = v3(0.0, -10.0, -200.0);
    model.state.angular_velocity = v3(0.1, 0.2, 0.3);
    model.state.common_force = v3(0.0, 14500.0 * 9.81, 0.0);
    let t = level();
    model.update_variables(&t);
    let s = &model.state;
    assert_eq!(s.velocity_local, v3(0.0, -10.0, -200.0));
    assert!((fl(s.alpha) - (10.0f64).atan2(200.0).to_degrees()).abs() < 1e-3);
    assert_eq!(s.beta, 0);
    assert_eq!((s.heading, s.pitch, s.roll), (0, 0, 0));
    assert_eq!(s.pitch_rate, fx(0.1));
    assert_eq!(s.yaw_rate, fx(0.2));
    assert_eq!(s.roll_rate, fx(-0.3));
    assert_eq!(s.g, fx(2.0));
    assert_eq!(s.altitude_asl, fx(3000.0));
    assert!((fl(s.mach) - (40100.0f64).sqrt() / 340.0).abs() < 2e-6);
    assert_eq!(s.shake_amplitude, 0);
}

#[test]
fn shaking_is_read_in_flight_only() {
    let mut model = FlightModel::new(sample_config());
    model.state.velocity = v3(0.0, 0.0, -170.0);
    model.state.airbrake_pos = fx(1.0);
    model.update_variables(&level());
    assert_eq!(model.state.mach, fx(0.5));
    // (0.06 + 1) * 1 * 0.5 / 6
    assert_eq!(model.state.shake_amplitude, fx(0.53 / 6.0));
    model.state.on_ground = true;
    model.update_variables(&level());
    assert_eq!(model.state.shake_amplitude, 0);
}

#[test]
fn steep_descent_shakes() {
    let mut model = FlightModel::new(sample_config());
    // Falling as fast as flying: 45 degrees of angle of attack.
    model.state.velocity = v3(0.0, -100.0, -100.0);
    model.update_variables(&level());
    assert!((fl(model.state.alpha) - 45.0).abs() < 1e-3);
    assert!((fl(model.state.shake_amplitude) - 0.35).abs() < 1e-4);
}

#[test]
fn sideslip_reads_positive_to_the_right() {
    let mut model = FlightModel::new(sample_config());
    model.state.velocity = v3(20.0, 0.0, -200.0);
    model.update_variables(&level());
    assert!((fl(model.state.beta) - (20.0f64).atan2(200.0).to_degrees()).abs() < 1e-3);
    assert_eq!(model.state.alpha, 0);
}

#[test]
fn angles_read_zero_at_low_speed() {
    let mut model = FlightModel::new(sample_config());
    model.state.velocity = v3(1.0, -3.0, -5.0);
    model.update_variables(&level());
    assert_eq!(model.state.alpha, 0);
    assert_eq!(model.state.beta, 0);
    model.state.velocity = v3(0.0, -6.0, -7.9);
    model.update_variables(&level());
    assert_eq!(model.state.alpha, 0);
    // At ten metres per second the angles are read.
    model.state.velocity = v3(0.0, -6.0, -8.0);
    model.update_variables(&level());
    assert!((fl(model.state.alpha) - (6.0f64).atan2(8.0).to_degrees()).abs() < 1e-3);
}

#[test]
fn attitude_reads_in_degrees() {
    let mut model = FlightModel::new(sample_config());
    let t = Transform {
        translation: v3(0.0, 100.0, 0.0),
        rotation: Quat::from_rotation_x(fx(10.0f64.to_radians())),
    };
    model.update_variables(&t);
    assert!((fl(model.state.roll) - 10.0).abs() < 1e-3);
    assert!(fl(model.state.pitch).abs() < 1e-3);
    assert!(fl(model.state.heading).abs() < 1e-3);
}

#[test]
fn engines_give_half_the_dry_thrust_each() {
    let mut model = FlightModel::new(sample_config());
    model.start_hot();
    let t = level();
    model.sim_engine(&0, &fx(0.02), &t);
    let s = &model.state;
    assert_eq!(s.left_thrust_force, fx(22000.0));
    assert_eq!(s.right_thrust_force, fx(22000.0));
    assert_eq!(s.common_force, v3(0.0, 0.0, -44000.0));
    assert_eq!(s.common_moment, Vec3::zero());
    assert!(s.left_engine_switch && s.right_engine_switch);
    assert_eq!(thrust(fx(0.5), fx(88000.0), fx(1.0)), fx(22000.0));
    assert_eq!(thrust(fx(1.0), fx(80000.0), fx(0.5)), fx(20000.0));
}

#[test]
fn throttle_is_held_to_its_range_and_output_to_idle() {
    let mut model = FlightModel::new(sample_config());
    model.start_hot();
    model.state.left_throttle_input = fx(1.7);
    model.state.right_throttle_input = fx(-0.2);
    model.sim_engine(&fx(0.5), &fx(0.02), &level());
    let s = &model.state;
    assert_eq!(s.left_throttle_input, fx(1.0));
    assert_eq!(s.right_throttle_input, 0);
    assert_eq!(s.left_throttle_output, fx(1.0));
    assert_eq!(s.right_throttle_output, fx(0.1));
    assert_eq!(s.left_engine_power_readout, fx(1.0));
    assert_eq!(s.right_engine_power_readout, 0);
    assert_eq!(s.left_thrust_force, fx(40000.0));
    assert_eq!(s.right_thrust_force, fx(4000.0));
    // Unequal thrust a metre to either side of the centre line yaws.
    assert_eq!(s.common_moment, v3(0.0, -36000.0, 0.0));
}

#[test]
fn engines_cut_out_without_fuel() {
    let mut model = FlightModel::new(sample_config());
    model.start_hot();
    model.state.internal_fuel = 0;
    model.sim_engine(&0, &fx(0.02), &level());
    let s = &model.state;
    assert!(!s.left_engine_switch && !s.right_engine_switch);
    assert_eq!(s.left_thrust_force, 0);
    assert_eq!(s.right_thrust_force, 0);
    assert_eq!(s.common_force, Vec3::zero());
    assert_eq!(s.left_engine_power_readout, fx(0.498));
    assert_eq!(s.right_engine_power_readout, fx(0.498));
    assert_eq!(s.left_throttle_input, fx(0.5));
}

#[test]
fn cut_out_readout_decays_to_zero_and_stays() {
    let mut model = FlightModel::new(sample_config());
    model.start_hot();
    model.state.internal_fuel = 0;
    model.state.left_throttle_input = fx(1.0);
    model.state.left_engine_power_readout = fx(0.005);
    model.state.right_engine_power_readout = 0;
    let dt = fx(1.0 / 60.0);
    model.sim_engine(&0, &dt, &level());
    // The table reads 1.0 at full throttle; the readout falls from where it stood.
    assert_eq!(model.state.left_engine_power_readout, fx(0.005) - 1_666);
    assert_eq!(model.state.right_engine_power_readout, 0);
    let mut before = model.state.left_engine_power_readout;
    for _ in 0..10 {
        model.sim_engine(&0, &dt, &level());
        let now = model.state.left_engine_power_readout;
        assert!(0 <= now && now <= before && before - now <= 1_666);
        before = now;
    }
    assert_eq!(model.state.left_engine_power_readout, 0);
    assert_eq!(model.state.right_engine_power_readout, 0);
}

#[test]
fn engines_cut_out_above_the_ceiling() {
    let mut model = FlightModel::new(sample_config());
    model.start_hot();
    model.state.altitude_asl = fx(20000.0);
    model.sim_engine(&0, &fx(0.02), &level());
    assert!(model.state.left_engine_switch);
    assert_eq!(model.state.left_thrust_force, fx(22000.0));
    model.state.altitude_asl = fx(20000.000001);
    model.sim_engine(&0, &fx(0.02), &level());
    assert!(!model.state.left_engine_switch);
    assert_eq!(model.state.left_thrust_force, 0);
}

#[test]
fn pitch_input_ramps_and_eases_outside_the_deadband() {
    assert_eq!(pitch_ramp(0, 1), fx(0.0035));
    assert_eq!(pitch_ramp(fx(0.999), 1), fx(1.0));
    assert_eq!(pitch_ramp(0, -1), fx(-0.0035));
    assert_eq!(pitch_ramp(fx(-0.999), -1), fx(-1.0));
    assert_eq!(pitch_ramp(fx(0.8), 0), fx(0.784));
    assert_eq!(pitch_ramp(fx(0.7), 0), fx(0.7));
    assert_eq!(pitch_ramp(fx(0.6), 0), fx(0.6));
    assert_eq!(pitch_ramp(fx(-0.6), 0), fx(-0.588));
    assert_eq!(pitch_ramp(fx(-0.5), 0), fx(-0.5));
    assert_eq!(pitch_ramp(fx(-0.4), 0), fx(-0.4));
}

#[test]
fn roll_and_yaw_inputs_ramp_and_decay() {
    assert_eq!(ramp(0, 1, fx(0.004), fx(0.9)), fx(0.004));
    assert_eq!(ramp(fx(0.998), 1, fx(0.004), fx(0.9)), fx(1.0));
    assert_eq!(ramp(fx(-0.998), -1, fx(0.004), fx(0.9)), fx(-1.0));
    assert_eq!(ramp(fx(0.5), 0, fx(0.004), fx(0.9)), fx(0.45));
    assert_eq!(ramp(fx(-0.5), 0, fx(0.0035), fx(0.9)), fx(-0.45));
}

#[test]
fn command_tracks_input_plus_trim_at_its_rate() {
    assert_eq!(command_step(0, fx(0.5), fx(0.1), fx(0.0125)), fx(0.0125));
    assert_eq!(command_step(fx(0.595), fx(0.5), fx(0.1), fx(0.0125)), fx(0.6));
    assert_eq!(command_step(fx(0.7), fx(0.5), fx(0.1), fx(0.0125)), fx(0.6875));
    assert_eq!(command_step(fx(0.995), fx(1.0), fx(0.3), fx(0.02)), fx(1.0));
    assert_eq!(command_step(fx(-0.995), fx(-1.0), fx(-0.3), fx(0.02)), fx(-1.0));
}

#[test]
fn pitch_channel_updates_input_trim_and_command() {
    let mut model = FlightModel::new(sample_config());
    model.state.pitch_discrete = 1;
    model.state.pitch_trim = fx(0.5);
    model.update_elevator(0, 0, &0, &level());
    let s = &model.state;
    assert_eq!(s.pitch_input, fx(0.0035));
    assert_eq!(s.pitch_trim, fx(0.3));
    assert_eq!(s.elevator_command, fx(0.0125));
    assert_eq!(s.common_force, Vec3::zero());

    model.state.pitch_analog = true;
    model.state.pitch_input = fx(-3.0);
    model.update_elevator(0, 0, &0, &level());
    assert_eq!(model.state.pitch_input, fx(-1.0));
    assert_eq!(model.state.elevator_command, 0);
}

#[test]
fn elevator_force_matches_the_formula() {
    let mut model = FlightModel::new(sample_config());
    model.state.elevator_command = fx(0.4);
    model.state.pitch_analog = true;
    model.state.pitch_input = fx(0.4);
    model.state.pitch_rate = fx(0.05);
    let (aoa, q, mach) = (0.06f64, 20000.0f64, 0.5f64);
    model.update_elevator(fx(aoa), fx(q), &fx(mach), &level());
    assert_eq!(model.state.elevator_command, fx(0.4));
    let deflection = -((0.4 + 0.15) * 35.0f64.to_radians()) * 14.0 * (aoa / 2.0).cos();
    let stability = (aoa + (aoa / 2.0).sin() / 2.0) + 0.05 * 2.0;
    let authority = (1.0 - ((mach + 0.82 * 0.4) / 3.0).sqrt()).clamp(0.001, 1.0);
    let expected = (deflection * authority + stability * (mach / 2.0 + 1.0)) * q / 2.0;
    let got = fl(model.state.common_force.y);
    assert!((got - expected).abs() < 0.5, "{got} {expected}");
    assert_eq!(model.state.common_force.x, 0);
    assert_eq!(model.state.common_force.z, 0);
}

#[test]
fn roll_channel_pushes_the_ailerons_apart() {
    let mut model = FlightModel::new(sample_config());
    model.state.roll_analog = true;
    model.state.roll_input = fx(0.5);
    model.state.aileron_command = fx(0.5);
    model.state.roll_rate = fx(0.2);
    model.state.roll = fx(15.0);
    let (aos, aoa, q) = (0.02f64, 0.05f64, 1000.0f64);
    model.update_roll(fx(aos), fx(aoa), fx(q), &level());
    let s = &model.state;
    assert_eq!(s.aileron_command, fx(0.5));
    // Equal and opposite forces: no net force, a pure rolling moment.
    assert_eq!(s.common_force, Vec3::zero());
    let deflection = 0.5 * 30.0f64.to_radians() * 4.0;
    let stability = -0.2 * (((aoa + 0.5).abs() * (aos + 0.5).abs()) + 1.0) * (5.0 / 14.36)
        + ((15.0f64).sin() / 2.0) * (aoa / 2.0).abs();
    let force = (deflection + stability) * q;
    // (-5.5, 0, 1) x (0, f, 0) + (5.5, 0, 1) x (0, -f, 0): x = -f + f, z = -11 f
    assert!((fl(s.common_moment.z) + 11.0 * force).abs() < 0.05, "{}", fl(s.common_moment.z));
    assert_eq!(s.common_moment.x, 0);
    assert_eq!(s.common_moment.y, 0);
}

#[test]
fn yaw_channel_applies_the_rudder_force_twice() {
    let mut model = FlightModel::new(sample_config());
    model.state.yaw_analog = true;
    model.state.yaw_input = fx(-0.25);
    model.state.rudder_command = fx(-0.25);
    model.state.yaw_rate = fx(0.1);
    model.state.yaw_trim = fx(-0.9);
    let (aos, q) = (0.03f64, 1000.0f64);
    model.update_yaw(fx(aos), fx(q), &level());
    let s = &model.state;
    assert_eq!(s.yaw_trim, fx(-0.2));
    assert_eq!(s.rudder_command, fx(-0.262));
    let deflection = -0.262 * 30.0f64.to_radians() * 1.5;
    let stability = -(aos * 2.0 + 0.1);
    let force = (deflection + stability) * q;
    assert!((fl(s.common_force.x) - 2.0 * force).abs() < 0.01, "{}", fl(s.common_force.x));
    assert_eq!(s.common_force.y, 0);
    assert_eq!(s.common_force.z, 0);
}

#[test]
fn wings_lift_and_drag() {
    let mut model = FlightModel::new(sample_config());
    model.state.alpha = fx(2.0);
    let (lift, drag, q, s) = (0.3f64, 0.03f64, 20000.0f64, 14.36f64);
    model.update_wings(fx(18.0), fx(lift), fx(drag), fx(q), fx(s), 0, fx(0.035), &level(), 0);
    let state = &model.state;
    assert_eq!(state.left_wing_pos.z, fx(0.7));
    assert_eq!(state.right_wing_pos.z, fx(0.7));
    assert_eq!(state.common_force.x, 0);
    assert!((fl(state.common_force.y) - 2.0 * lift * q * s / 2.0).abs() < 0.5);
    assert!((fl(state.common_force.z) - 2.0 * drag * q * s / 2.0).abs() < 0.5);
}

#[test]
fn wings_slide_aft_near_the_stall() {
    let mut model = FlightModel::new(sample_config());
    model.state.alpha = fx(-16.0);
    model.update_wings(fx(18.0), 0, 0, 0, fx(14.36), fx(0.05), 0, &level(), 0);
    let shift = (16.0f64 / (18.0 * 1.1)).powi(3) / 2000.0;
    // Sideslip to the right moves the right wing's point half a metre more.
    assert!((fl(model.state.left_wing_pos.z) - (0.7 + shift)).abs() < 1e-5);
    assert!((fl(model.state.right_wing_pos.z) - (0.7 + shift + 0.5)).abs() < 1e-5);
    assert_eq!(model.state.left_wing_pos.x, fx(-3.5));
    assert_eq!(model.state.right_wing_pos.x, fx(3.5));

    model.state.alpha = fx(13.0);
    model.update_wings(fx(18.0), 0, 0, 0, fx(14.36), fx(0.05), 0, &level(), 0);
    assert_eq!(model.state.left_wing_pos.z, fx(0.7));
    assert_eq!(model.state.right_wing_pos.z, fx(0.7));
}

#[test]
fn limiters_oppose_the_rates() {
    let mut model = FlightModel::new(sample_config());
    model.state.roll_rate = fx(1.0);
    model.state.yaw_rate = fx(0.2);
    let (q, omx_max, mach, aos) = (10000.0f64, 1.9f64, 0.41f64, 0.05f64);
    model.update_other(fx(q), fx(omx_max), fx(mach), fx(aos));
    let s = &model.state;
    let roll_yaw = -(1.0 / 2.0) * (q + 5e4);
    let yaw_limiter = -(0.2 + aos) * (q + 5e4);
    let roll_limiter = -1.0 * ((1.0f64 / (omx_max + 0.1)).powi(6) * (q + q + 3e4));
    let speed = (mach / 0.82).powi(5) * (q + 5e4);
    assert!((fl(s.common_moment.y) - (roll_yaw + yaw_limiter)).abs() < 0.05);
    assert!((fl(s.common_moment.x) - roll_limiter).abs() < 0.5, "{}", fl(s.common_moment.x));
    assert_eq!(s.common_moment.z, 0);
    assert!((fl(s.common_force.z) - speed).abs() < 0.5, "{}", fl(s.common_force.z));
}

#[test]
fn shaking_adds_up_in_flight_only() {
    let grounded = shake(fx(0.06), fx(0.82), fx(1.0), true, fx(20.0), fx(-30.0), fx(9.0), fx(0.9));
    assert_eq!(grounded, 0);
    // Airbrake out at Mach 0.5: (0.06 + 1) * 1 * 0.5 / 6.
    let brake = shake(fx(0.06), fx(0.82), fx(1.0), false, 0, 0, fx(1.0), fx(0.5));
    assert_eq!(brake, fx(0.53 / 6.0));
    let calm = shake(fx(0.06), fx(0.82), 0, false, fx(10.0), fx(-10.0), fx(5.0), fx(0.656));
    assert_eq!(calm, 0);
    let rough = shake(fx(0.06), fx(0.82), 0, false, fx(20.0), fx(-30.0), fx(-9.0), fx(0.856));
    // 0.1 + 0.2 + 0.04 + (0.856 - 0.656) / 2
    assert_eq!(rough, fx(0.44));
}

#[test]
fn air_thins_with_altitude() {
    assert_eq!(air_density(0), fx(1.225));
    assert_eq!(air_density(fx(-100.0)), fx(1.225));
    assert_eq!(air_density(fx(250.0)), fx(1.196));
    assert_eq!(air_density(fx(5500.0)), fx(0.698));
    assert_eq!(air_density(fx(10000.0)), fx(0.414));
    assert_eq!(air_density(fx(15000.0)), fx(0.414));
}

#[test]
fn tick_gathers_weight_in_level_flight_at_rest() {
    let mut model = FlightModel::new(sample_config());
    let t = level();
    model.update_variables(&t);
    model.simulate(fx(1.0 / 60.0), &t);
    let s = &model.state;
    // At rest there is no dynamic pressure: only the engines at idle and
    // the weight act.
    assert_eq!(s.mach, 0);
    assert_eq!(s.common_force.y, fx(-9.81 * 14500.0));
    assert_eq!(s.left_throttle_output, fx(0.1));
    assert_eq!(s.common_force.z, fx(-8800.0));
    assert_eq!(s.common_force.x, 0);
    assert!(!s.on_ground);
    assert!(model.draw_vecs.is_empty());
}

#[test]
fn tick_moves_the_surfaces_toward_their_switches() {
    let mut model = FlightModel::new(sample_config());
    model.state.gear_switch = true;
    model.state.flaps_switch = true;
    model.state.airbrake_switch = true;
    model.state.alpha = fx(12.0);
    let t = level();
    model.draw_vecs.push((Vec3::zero(), Vec3::zero()));
    model.simulate(fx(1.0 / 60.0), &t);
    assert_eq!(model.state.gear_pos, fx(0.001));
    assert_eq!(model.state.flaps_pos, fx(0.002));
    assert_eq!(model.state.airbrake_pos, fx(0.004));
    assert_eq!(model.state.slats_pos, fx(0.003));
    assert!(model.draw_vecs.is_empty());

    model.state.gear_switch = false;
    model.state.airbrake_switch = false;
    model.state.airbrake_pos = fx(0.5);
    model.state.alpha = 0;
    model.simulate(fx(1.0 / 60.0), &t);
    assert_eq!(model.state.gear_pos, 0);
    assert_eq!(model.state.airbrake_pos, fx(0.497));
    assert_eq!(model.state.flaps_pos, fx(0.004));
    assert_eq!(model.state.slats_pos, 0);
}

#[test]
fn tick_takes_the_mach_number_from_the_airspeed() {
    let mut model = FlightModel::new(sample_config());
    model.start_hot();
    let t = level();
    model.update_variables(&t);
    model.simulate(fx(1.0 / 60.0), &t);
    assert_eq!(model.state.airspeed, v3(0.0, 0.0, -200.0));
    // 200 / 340 = 0.588235294..., rounded toward zero.
    assert_eq!(model.state.mach, 588_235);
}

#[test]
fn dynamic_pressure_at_sea_level() {
    // 0.5 * 1.225 * 200^2
    assert_eq!(dynamic_pressure(0, v3(0.0, 0.0, -200.0)), fx(24500.0));
    assert_eq!(dynamic_pressure(fx(10000.0), v3(30.0, 0.0, -40.0)), fx(0.5 * 0.414 * 2500.0));
    assert_eq!(dynamic_pressure(0, Vec3::zero()), 0);
}

#[test]
fn coefficients_between_two_mach_samples() {
    let config = sample_config();
    let mut model = FlightModel::new(sample_config());
    model.state.alpha = fx(2.0);
    model.state.beta = fx(1.0);
    model.state.slats_pos = fx(0.5);
    model.state.flaps_pos = fx(0.25);
    model.state.airbrake_pos = fx(0.5);
    model.state.gear_pos = fx(1.0);
    let c = coefficients(&config, &model.state, fx(0.5));
    // Lift slope 0.075 per degree, held within 1.125 + 0.4 * 0.4 * 0.5.
    assert_eq!(c.lift, fx(0.15 + 0.05 + 0.1));
    assert_eq!(c.drag, fx(0.022 + 0.03 + 0.0125 + 0.02));
    assert_eq!(c.cy_tail, fx(0.0215));
    assert_eq!(c.alpha_max, fx(16.5));
    assert_eq!(c.omx_max, fx(2.4));
}

#[test]
fn lift_coefficient_is_held_within_the_greatest() {
    let config = sample_config();
    let mut model = FlightModel::new(sample_config());
    model.state.alpha = fx(30.0);
    model.state.beta = fx(-90.0);
    let c = coefficients(&config, &model.state, 0);
    // 0.07 * 30 = 2.1 is held to 1.2; the tail's 0.019 * -90 to -1.2.
    assert_eq!(c.lift, fx(1.2 + 0.05));
    assert_eq!(c.cy_tail, fx(-1.2));
    model.state.alpha = fx(-30.0);
    let c = coefficients(&config, &model.state, 0);
    assert_eq!(c.lift, fx(-1.2 + 0.05));
}

#[test]
fn wing_and_tail_forces_at_no_sideslip() {
    assert_eq!(wing_force(fx(0.3), fx(0.03), fx(100.0), fx(10.0), 0), v3(0.0, 150.0, 15.0));
    assert_eq!(tail_force(fx(0.5), fx(100.0), fx(10.0), 0), v3(250.0, 0.0, 0.0));
    assert_eq!(tail_force(0, fx(100.0), fx(10.0), fx(0.3)), Vec3::zero());
}

#[test]
fn tail_force_aft_component_goes_with_the_cube() {
    let f = tail_force(fx(0.5), fx(100.0), fx(10.0), fx(0.3));
    let expected = 0.125 * (0.3f64).sin() * 5.0 * 100.0;
    assert!((fl(f.z) - expected).abs() < 1e-3, "{}", fl(f.z));
    let g = tail_force(fx(-0.5), fx(100.0), fx(10.0), fx(0.3));
    assert_eq!(g.z, -f.z);
}

#[test]
fn wing_station_below_and_beyond_the_stall_onset() {
    assert_eq!(wing_station(fx(1.0), fx(13.0), fx(18.0), fx(15.0), fx(0.05)), fx(1.7));
    // 13.5 / 18 = 0.75 is the onset: (13.5 / 19.8)^3 / 2000 aft, and 0.5 for the slip.
    let at_onset = wing_station(fx(1.0), fx(13.5), fx(18.0), fx(15.0), fx(0.05));
    let shift = (13.5f64 / 19.8).powi(3) / 2000.0;
    assert!((fl(at_onset) - (1.7 + shift + 0.5)).abs() < 2e-6);
    // The slide aft is held to a third of the length, the slip's share to one.
    let far = wing_station(fx(1.0), fx(-1800.0), fx(18.0), fx(15.0), fx(7.0));
    assert_eq!(far, fx(1.7 + 5.0 + 1.0));
    // Slip away from the wing adds nothing.
    let away = wing_station(fx(1.0), fx(-1800.0), fx(18.0), fx(15.0), fx(-7.0));
    assert_eq!(away, fx(1.7 + 5.0));
}

#[test]
fn limiter_formulas() {
    assert_eq!(roll_yaw_moment(fx(1.0), fx(10000.0)), fx(-30000.0));
    assert_eq!(yaw_rate_limiter(fx(0.2), fx(0.05), fx(10000.0)), fx(-15000.0));
    // (0.41 / 0.82)^5 * 60000
    assert_eq!(speed_limiter(fx(0.41), fx(0.82), fx(10000.0)), fx(1875.0));
    assert_eq!(speed_limiter(fx(-0.41), fx(0.82), fx(10000.0)), fx(1875.0));
    // -(1 / (1.9 + 0.1))^6 * (2 * 10000 + 30000)
    assert_eq!(roll_rate_limiter(fx(1.0), fx(1.9), fx(10000.0)), fx(-781.25));
    assert_eq!(roll_rate_limiter(fx(-1.0), fx(1.9), fx(10000.0)), fx(781.25));
    // The ratio is held to two: -5 * min(2^6 * 50000, 10^7).
    assert_eq!(roll_rate_limiter(fx(5.0), fx(1.9), fx(10000.0)), fx(-16_000_000.0));
    assert_eq!(speed_limiter(fx(8.2), fx(0.82), fx(10000.0)), fx(10_000_000.0));
}

#[test]
fn elevator_force_exact() {
    // Full deflection of 35 degrees, gain 14, authority 1 - sqrt(0.75 / 3).
    let force = elevator_force(fx(0.85), 0, 0, fx(2.0), fx(0.45), fx(0.75));
    assert_eq!(force, -4_276_055);
    // A nose-down command scales by the 25 degrees of downward travel.
    let force = elevator_force(fx(-1.15), 0, 0, fx(2.0), fx(0.45), fx(0.75));
    assert_eq!(force, 3_054_324);
    // Damping alone: (aoa + sin(aoa / 2) / 2 + 2 * rate) * (mach / 2 + 1) * q / 2.
    let force = elevator_force(fx(-0.15), fx(0.25), 0, fx(4.0), 0, 0);
    assert_eq!(force, fx(1.0));
}

#[test]
fn aileron_and_rudder_forces_exact() {
    // 0.5 * 30 degrees * 4 * q
    assert_eq!(aileron_force(fx(0.5), 0, 0, fx(14.36), 0, 0, fx(2.0)), 2_094_392);
    assert_eq!(aileron_force(fx(-0.5), 0, 0, fx(14.36), 0, 0, fx(2.0)), -2_094_392);
    // Roll damping alone: -rate * (0.5 * 0.5 + 1) * (5 / span) * q
    assert_eq!(aileron_force(0, fx(0.8), 0, fx(5.0), 0, 0, fx(2.0)), fx(-2.0));
    // (30 degrees * 1.5 - (2 * 0.1 + 0.05)) * q
    assert_eq!(rudder_force(fx(1.0), fx(0.05), fx(0.1), fx(2.0)), 1_070_794);
    assert_eq!(rudder_force(0, fx(0.05), fx(0.1), fx(2.0)), fx(-0.5));
}

#[test]
fn engine_tables_are_read_at_the_throttle() {
    let config = sample_config();
    let tables = &config.engine().tables;
    assert_eq!(throttle_output(tables, fx(0.75)), fx(0.75));
    assert_eq!(throttle_output(tables, fx(0.05)), fx(0.1));
    assert_eq!(throttle_output(tables, 0), fx(0.1));
    assert_eq!(power_readout(tables, fx(0.05)), fx(0.05));
    assert_eq!(power_readout(tables, fx(0.25)), fx(0.25));
    assert_eq!(power_readout(tables, fx(3.0)), fx(1.0));
}

#[test]
fn surfaces_follow_their_switches_within_their_travel() {
    assert_eq!(switch_target(true), fx(1.0));
    assert_eq!(switch_target(false), 0);
    assert_eq!(surface(fx(0.9995), fx(1.0), fx(-0.001), fx(0.001)), fx(1.0));
    assert_eq!(surface(fx(0.5), fx(1.0), fx(-0.003), fx(0.004)), fx(0.504));
    assert_eq!(surface(fx(0.5), 0, fx(-0.003), fx(0.004)), fx(0.497));
    assert_eq!(surface(fx(0.5), fx(-2.0), fx(-0.7), fx(0.7)), 0);
    assert_eq!(surface(fx(0.5), fx(2.0), fx(-0.7), fx(0.7)), fx(1.0));
}

#[test]
fn slats_follow_the_angle_of_attack() {
    let mut model = FlightModel::new(sample_config());
    model.state.alpha = fx(12.0);
    model.state.slats_pos = fx(0.499);
    model.state.velocity_local = v3(0.0, 0.0, -170.0);
    model.state.common_force = v3(1.0, 2.0, 3.0);
    let start = prepare(model.state);
    // (12 - 6) / 12 = 0.5 is in reach of one step.
    assert_eq!(start.slats_pos, fx(0.5));
    assert_eq!(start.airspeed, v3(0.0, 0.0, -170.0));
    assert_eq!(start.mach, fx(0.5));
    assert_eq!(start.common_force, Vec3::zero());
    assert_eq!(start.common_moment, Vec3::zero());
}

#[test]
fn shake_excess_is_a_hundredth_of_the_overshoot() {
    assert_eq!(shake_excess(fx(12.0), fx(10.0)), fx(0.02));
    assert_eq!(shake_excess(fx(-12.0), fx(10.0)), fx(0.02));
    assert_eq!(shake_excess(fx(10.0), fx(10.0)), 0);
    assert_eq!(shake_excess(fx(-3.0), fx(10.0)), 0);
}
