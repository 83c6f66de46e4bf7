use flight_dynamics::geometry::{Quat, Transform, Vec3};
use flight_dynamics::plane::plane::{discrete, throttle, trim, KeyboardInput, Plane};
use flight_dynamics::plane::plane_config::{
    Aerodynamics, AeroTables, Basic, Engine, EngineTables, PlaneConfig, Structure, Unit,
};
use flight_dynamics::systems::aircraft::{simulate_plane, spawn_plane, update_plane_readings};
use flight_dynamics::systems::enemy::spawn_enemy_plane;

fn fx(v: f64) -> i64 {
    (v * 1e6).round() as i64
}

fn fl(v: i64) -> f64 {
    v as f64 / 1e6
}

fn v3(x: f64, y: f64, z: f64) -> Vec3 {
    Vec3::new(fx(x), fx(y), fx(z))
}

fn sample_config() -> PlaneConfig {
    let built = PlaneConfig::new(
        Unit { name: String::from("su-25t") },
        Basic {
            wing_area: fx(30.1),
            wingspan: fx(14.36),
            length: fx(15.53),
            height: fx(4.8),
            mach_max: fx(0.82),
            center_of_mass: [0, 0, 0],
            moment_of_inertia: [fx(20000.0), fx(60000.0), fx(50000.0), fx(1000.0)],
            empty_mass: fx(9500.0),
            gross_mass: fx(14500.0),
            number_of_engines: 2,
        },
        Aerodynamics {
            Cy0: fx(0.05),
            Czbe: fx(-0.016),
            cx_gear: fx(0.02),
            cx_brk: fx(0.06),
            cx_flap: fx(0.05),
            cy_flap: fx(0.4),
            tables: AeroTables {
                mach: vec![0, 200_000, 400_000, 600_000, 800_000, 1_000_000],
                cx0: vec![20_000, 20_000, 21_000, 23_000, 30_000, 55_000],
                Cya: vec![70_000, 71_000, 73_000, 77_000, 85_000, 80_000],
                OmxMax: vec![1_000_000, 1_500_000, 2_200_000, 2_600_000, 2_400_000, 2_000_000],
                Aldop: vec![18_000_000, 18_000_000, 17_000_000, 16_000_000, 14_000_000, 12_000_000],
                CyMax: vec![1_200_000, 1_200_000, 1_150_000, 1_100_000, 1_000_000, 900_000],
            },
        },
        Engine {
            idle_rpm: fx(50.0),
            fuel_consumption: fx(0.9),
            engine_start_time: fx(40.0),
            tables: EngineTables {
                mach: vec![0, 500_000, 1_000_000],
                max_thrust: vec![fx(88000.0), fx(80000.0), fx(72000.0)],
                throttle_input: vec![0, 500_000, 1_000_000],
                engine_power: vec![0, 500_000, 1_000_000],
                engine_power_readout: vec![0, 500_000, 1_000_000],
            },
        },
        Structure {
            front_wheel: v3(0.0, -1.5, -4.0),
            back_left_wheel: v3(-1.3, -1.5, 1.0),
            back_right_wheel: v3(1.3, -1.5, 1.0),
            left_wing_pos: v3(-3.5, 0.0, 0.7),
            right_wing_pos: v3(3.5, 0.0, 0.7),
            tail_pos: v3(0.0, 1.5, 6.5),
            elevator_pos: v3(0.0, 0.5, 6.5),
            left_aileron_pos: v3(-5.5, 0.0, 1.0),
            right_aileron_pos: v3(5.5, 0.0, 1.0),
            rudder_pos: v3(0.0, 2.0, 6.8),
            left_engine_pos: v3(-1.0, 0.0, 1.5),
            right_engine_pos: v3(1.0, 0.0, 1.5),
        },
    );
    match built {
        Ok(config) => config,
        Err(e) => panic!("the sample record was rejected: {:?}", e),
    }
}

fn no_keys() -> KeyboardInput {
    KeyboardInput {
        pitch_up: false,
        pitch_down: false,
        trim_pitch_up: false,
        trim_pitch_down: false,
        roll_left: false,
        roll_right: false,
        trim_roll_left: false,
        trim_roll_right: false,
        yaw_plus: false,
        yaw_minus: false,
        trim_yaw_plus: false,
        trim_yaw_minus: false,
        trim_reset: false,
        throttle_up: false,
        throttle_down: false,
        toggle_left_engine: false,
        toggle_right_engine: false,
        toggle_airbrake: false,
        toggle_flaps: false,
        toggle_gear: false,
        wheel_brake: false,
    }
}

#[test]
fn new_plane_is_hot_started() {
    let plane = Plane::new(sample_config());
    let s = &plane.flight_model.state;
    assert!(s.left_engine_switch && s.right_engine_switch);
    assert_eq!(s.left_throttle_input, fx(0.5));
    assert_eq!(s.velocity, v3(0.0, 0.0, -200.0));
    assert_eq!(s.current_mass, fx(14500.0));
    assert_eq!(plane.flight_model.plane_config.unit().name, "su-25t");
}

#[test]
fn no_keys_leave_the_controls_neutral() {
    let mut plane = Plane::new(sample_config());
    plane.flight_model.state.pitch_discrete = 1;
    plane.flight_model.state.roll_discrete = -1;
    plane.flight_model.state.yaw_discrete = 1;
    plane.flight_model.state.pitch_analog = true;
    plane.flight_model.state.pitch_trim = fx(0.1);
    plane.flight_model.state.wheel_brake = fx(1.0);
    plane.input(&no_keys());
    let s = &plane.flight_model.state;
    assert_eq!((s.pitch_discrete, s.roll_discrete, s.yaw_discrete), (0, 0, 0));
    assert!(s.pitch_analog);
    assert_eq!(s.pitch_trim, fx(0.1));
    assert_eq!(s.wheel_brake, 0);
    assert_eq!(s.left_throttle_input, fx(0.5));
    assert!(s.left_engine_switch && s.right_engine_switch && !s.gear_switch);
}

#[test]
fn steering_keys_set_the_discrete_state_and_leave_analog_mode() {
    let mut plane = Plane::new(sample_config());
    plane.flight_model.state.pitch_analog = true;
    plane.flight_model.state.roll_analog = true;
    plane.flight_model.state.yaw_analog = true;
    let keys = KeyboardInput { pitch_down: true, roll_right: true, yaw_plus: true, ..no_keys() };
    plane.input(&keys);
    let s = &plane.flight_model.state;
    assert_eq!((s.pitch_discrete, s.roll_discrete, s.yaw_discrete), (-1, 1, 1));
    assert!(!s.pitch_analog && !s.roll_analog && !s.yaw_analog);

    let keys = KeyboardInput { pitch_up: true, roll_left: true, yaw_minus: true, ..no_keys() };
    plane.input(&keys);
    let s = &plane.flight_model.state;
    assert_eq!((s.pitch_discrete, s.roll_discrete, s.yaw_discrete), (1, -1, -1));
}

#[test]
fn opposed_keys_resolve_to_the_first() {
    let mut plane = Plane::new(sample_config());
    let keys = KeyboardInput {
        pitch_up: true,
        pitch_down: true,
        roll_left: true,
        roll_right: true,
        yaw_plus: true,
        yaw_minus: true,
        trim_pitch_up: true,
        trim_pitch_down: true,
        trim_roll_left: true,
        trim_roll_right: true,
        trim_yaw_plus: true,
        trim_yaw_minus: true,
        throttle_up: true,
        throttle_down: true,
        ..no_keys()
    };
    plane.input(&keys);
    let s = &plane.flight_model.state;
    assert_eq!((s.pitch_discrete, s.roll_discrete, s.yaw_discrete), (1, -1, 1));
    assert_eq!(s.pitch_trim, fx(0.0015));
    assert_eq!(s.roll_trim, fx(-0.001));
    assert_eq!(s.yaw_trim, fx(0.001));
    assert_eq!(s.left_throttle_input, fx(0.5075));
    assert_eq!(s.right_throttle_input, fx(0.5075));
    assert_eq!(discrete(true, true), 1);
    assert_eq!(discrete(false, true), -1);
    assert_eq!(discrete(false, false), 0);
}

#[test]
fn trim_keys_step_and_reset() {
    let mut plane = Plane::new(sample_config());
    let keys = KeyboardInput {
        trim_pitch_down: true,
        trim_roll_right: true,
        trim_yaw_minus: true,
        ..no_keys()
    };
    plane.input(&keys);
    plane.input(&keys);
    let s = &plane.flight_model.state;
    assert_eq!(s.pitch_trim, fx(-0.003));
    assert_eq!(s.roll_trim, fx(0.002));
    assert_eq!(s.yaw_trim, fx(-0.002));
    let keys = KeyboardInput { trim_reset: true, trim_pitch_down: true, ..no_keys() };
    plane.input(&keys);
    let s = &plane.flight_model.state;
    assert_eq!((s.pitch_trim, s.roll_trim, s.yaw_trim), (0, 0, 0));
    assert_eq!(trim(fx(0.1), false, true, false, fx(0.0015)), fx(0.1015));
    assert_eq!(trim(fx(0.1), false, false, true, fx(0.0015)), fx(0.0985));
    assert_eq!(trim(fx(0.1), true, true, false, fx(0.0015)), 0);
    assert_eq!(trim(fx(0.1), false, false, false, fx(0.0015)), fx(0.1));
}

#[test]
fn throttle_keys_move_both_throttles_within_their_range() {
    let mut plane = Plane::new(sample_config());
    plane.flight_model.state.left_throttle_input = fx(0.995);
    plane.flight_model.state.right_throttle_input = fx(0.2);
    plane.input(&KeyboardInput { throttle_up: true, ..no_keys() });
    assert_eq!(plane.flight_model.state.left_throttle_input, fx(1.0));
    assert_eq!(plane.flight_model.state.right_throttle_input, fx(0.2075));
    plane.flight_model.state.right_throttle_input = fx(0.005);
    plane.input(&KeyboardInput { throttle_down: true, ..no_keys() });
    assert_eq!(plane.flight_model.state.left_throttle_input, fx(0.9925));
    assert_eq!(plane.flight_model.state.right_throttle_input, 0);
    assert_eq!(throttle(fx(0.5), false, false), fx(0.5));
    assert_eq!(throttle(fx(1.5), false, false), fx(1.5));
}

#[test]
fn toggles_flip_their_switches() {
    let mut plane = Plane::new(sample_config());
    let keys = KeyboardInput {
        toggle_left_engine: true,
        toggle_airbrake: true,
        toggle_flaps: true,
        toggle_gear: true,
        wheel_brake: true,
        ..no_keys()
    };
    plane.input(&keys);
    let s = &plane.flight_model.state;
    assert!(!s.left_engine_switch && s.right_engine_switch);
    assert!(s.airbrake_switch && s.flaps_switch && s.gear_switch);
    assert_eq!(s.wheel_brake, fx(1.0));
    plane.input(&KeyboardInput { toggle_right_engine: true, toggle_gear: true, ..no_keys() });
    let s = &plane.flight_model.state;
    assert!(!s.left_engine_switch && !s.right_engine_switch);
    assert!(s.airbrake_switch && s.flaps_switch && !s.gear_switch);
    assert_eq!(s.wheel_brake, 0);
}

#[test]
fn start_hot_again_restores_the_baseline() {
    let mut plane = Plane::new(sample_config());
    plane.input(&KeyboardInput { toggle_gear: true, throttle_up: true, ..no_keys() });
    plane.start_hot();
    let s = &plane.flight_model.state;
    assert!(!s.gear_switch);
    assert_eq!(s.left_throttle_input, fx(0.5));
}

#[test]
fn player_spawns_high_nose_up_and_hot() {
    let (plane, transform) = spawn_plane(sample_config());
    assert_eq!(transform.translation, v3(0.0, 3000.0, 2000.0));
    let half = 5.0f64.to_radians();
    assert!((fl(transform.rotation.x) - half.sin()).abs() < 3e-6);
    assert!((fl(transform.rotation.w) - half.cos()).abs() < 3e-6);
    assert_eq!((transform.rotation.y, transform.rotation.z), (0, 0));
    assert_eq!(transform.rotation, Quat::new(87_155, 0, 0, 996_194));
    assert_eq!(transform.rotation.length(), 999_999);
    let s = &plane.flight_model.state;
    assert_eq!(s.velocity, v3(0.0, 0.0, -200.0));
    assert!(s.left_engine_switch && s.right_engine_switch && !s.gear_switch);
    assert_eq!(s.left_throttle_input, fx(0.5));
}

#[test]
fn enemy_spawns_facing_the_player() {
    let (plane, transform) = spawn_enemy_plane(sample_config());
    assert_eq!(transform.translation, v3(0.0, 3000.0, -1000.0));
    assert!(fl(transform.rotation.w).abs() < 3e-6);
    assert!((fl(transform.rotation.y) - 1.0).abs() < 3e-6);
    assert_eq!((transform.rotation.x, transform.rotation.z), (0, 0));
    assert_eq!(transform.rotation, Quat::new(0, 1_000_000, 0, 0));
    assert_eq!(transform.rotation.length(), 1_000_000);
    assert_eq!(plane.flight_model.state.velocity, v3(0.0, 0.0, 200.0));
    assert!(plane.flight_model.state.left_engine_switch);
    // Its nose, forward in the body frame, points back at the player.
    let nose = transform.rotation.rotate(v3(0.0, 0.0, -1.0));
    assert!((fl(nose.z) - 1.0).abs() < 1e-5);
}

#[test]
fn instruments_convert_units() {
    let (mut plane, transform) = spawn_plane(sample_config());
    plane.flight_model.state.alpha = fx(3.5);
    plane.flight_model.state.g = fx(1.2);
    plane.flight_model.state.mach = fx(0.59);
    plane.flight_model.state.left_throttle_input = fx(0.75);
    plane.flight_model.state.left_engine_power_readout = fx(0.7);
    plane.flight_model.state.pitch_input = fx(0.1);
    plane.flight_model.state.roll_input = fx(-0.2);
    plane.flight_model.state.yaw_input = fx(0.3);
    plane.flight_model.state.gear_pos = fx(0.4);
    plane.flight_model.state.flaps_pos = fx(0.5);
    plane.flight_model.state.airbrake_pos = fx(0.6);
    plane.flight_model.state.slats_pos = fx(0.7);
    let r = update_plane_readings(&transform, &plane);
    assert_eq!(r.speed_knots, fx(388.768));
    assert_eq!(r.altitude_feet, fx(9842.52));
    assert_eq!(r.mach, fx(0.59));
    assert_eq!(r.throttle_in_percent, fx(75.0));
    assert_eq!(r.throttle_out_percent, fx(70.0));
    assert_eq!(r.alpha, fx(3.5));
    assert_eq!(r.g, fx(1.2));
    assert_eq!((r.pitch_input, r.roll_input, r.yaw_input), (fx(0.1), fx(-0.2), fx(0.3)));
    assert_eq!(
        (r.gear_pos, r.flaps_pos, r.airbrake_pos, r.slats_pos),
        (fx(0.4), fx(0.5), fx(0.6), fx(0.7))
    );
}

#[test]
fn full_tick_equals_its_three_steps() {
    let (mut plane, mut transform) = spawn_plane(sample_config());
    let (mut stepped, mut stepped_transform) = spawn_plane(sample_config());
    let dt = fx(1.0 / 60.0);
    for _ in 0..30 {
        plane.simulate(dt, &mut transform);
        stepped.flight_model.simulate(dt, &stepped_transform);
        stepped.flight_model.transform(dt, &mut stepped_transform);
        stepped.flight_model.update_variables(&stepped_transform);
    }
    assert_eq!(transform, stepped_transform);
    assert_eq!(plane.flight_model.state.velocity, stepped.flight_model.state.velocity);
    assert_eq!(plane.flight_model.state.alpha, stepped.flight_model.state.alpha);
    assert_eq!(plane.flight_model.state.common_force, stepped.flight_model.state.common_force);
}

#[test]
fn tick_with_keys_reads_them_first() {
    let (mut plane, mut transform) = spawn_plane(sample_config());
    let keys = KeyboardInput { toggle_gear: true, pitch_up: true, ..no_keys() };
    simulate_plane(&mut plane, &mut transform, Some(&keys), fx(1.0 / 60.0));
    let s = &plane.flight_model.state;
    assert!(s.gear_switch);
    assert_eq!(s.gear_pos, fx(0.001));
    assert_eq!(s.pitch_discrete, 1);
    assert_eq!(s.pitch_input, fx(0.0035));

    let (mut other, mut other_transform) = spawn_plane(sample_config());
    simulate_plane(&mut other, &mut other_transform, None, fx(1.0 / 60.0));
    assert!(!other.flight_model.state.gear_switch);
    assert_eq!(other.flight_model.state.gear_pos, 0);
    assert_eq!(other.flight_model.state.pitch_input, 0);
}

#[test]
fn ten_seconds_of_flight_stay_within_reason() {
    let (mut plane, mut transform) = spawn_plane(sample_config());
    let dt = fx(1.0 / 60.0);
    plane.flight_model.update_variables(&transform);
    for _ in 0..600 {
        plane.simulate(dt, &mut transform);
        let s = &plane.flight_model.state;
        assert!((fl(transform.rotation.length()) - 1.0).abs() < 1e-4);
        assert!(0 <= s.gear_pos && s.gear_pos <= fx(1.0));
        assert!(0 <= s.slats_pos && s.slats_pos <= fx(1.0));
        assert!(s.elevator_command.abs() <= fx(1.0));
        assert!(fl(s.velocity.length()) < 1000.0);
        assert!(fl(s.g).abs() < 100.0);
    }
    assert!(plane.flight_model.state.left_engine_switch);
    assert_eq!(plane.flight_model.state.left_throttle_input, fx(0.5));
    assert!(fl(transform.translation.y) > 0.0);
}

#[test]
fn tick_of_no_time_moves_nothing() {
    let (mut plane, mut transform) = spawn_plane(sample_config());
    let before = transform;
    plane.simulate(0, &mut transform);
    assert_eq!(transform, before);
    let s = &plane.flight_model.state;
    assert_eq!(s.velocity, v3(0.0, 0.0, -200.0));
    assert_eq!(s.left_throttle_input, fx(0.5));
    assert_eq!(s.right_throttle_input, fx(0.5));
    assert_eq!(s.left_throttle_output, fx(0.5));
    assert_eq!(s.right_throttle_output, fx(0.5));
    assert_eq!(s.left_engine_power_readout, fx(0.5));
    assert!(s.left_engine_switch && s.right_engine_switch);
    assert!(!s.gear_switch);
    assert_eq!(s.gear_pos, 0);
    assert_eq!(transform.rotation, Quat::from_rotation_x(fx(10.0f64.to_radians())));
    assert_eq!(
        transform,
        Transform { translation: v3(0.0, 3000.0, 2000.0), rotation: before.rotation }
    );
}
