//! The mutable state of one simulated aircraft.

use vstd::prelude::*;
use crate::fixed::{fsub, fx_sub, SCALE};
use crate::geometry::{vzero, Vec3};
use crate::plane::plane_config::PlaneConfig;

verus! {

/// The speed of sound used for the Mach number, in metres per second.
pub const SPEED_OF_SOUND: i64 = 340_000_000;

/// Everything about one aircraft that changes from tick to tick, together
/// with the mass properties and attachment points that the physics reads.
///
/// Angles of attack and sideslip, heading, pitch and roll are in degrees;
/// control inputs, trims, commands and surface positions are fractions of
/// full travel.
#[derive(Clone, Copy, Debug)]
pub struct FlightState {
    /// World-frame velocity.
    pub velocity: Vec3,
    /// Velocity in the body frame.
    pub velocity_local: Vec3,
    /// Body-frame airspeed vector.
    pub airspeed: Vec3,
    /// Angular velocity about the body axes.
    pub angular_velocity: Vec3,
    pub altitude_asl: i64,
    pub alpha: i64,
    pub beta: i64,
    pub mach: i64,
    pub g: i64,
    pub heading: i64,
    pub pitch: i64,
    pub roll: i64,
    pub pitch_rate: i64,
    pub roll_rate: i64,
    pub yaw_rate: i64,
    pub shake_amplitude: i64,
    pub on_ground: bool,
    pub pitch_input: i64,
    pub pitch_discrete: i8,
    pub pitch_analog: bool,
    pub pitch_trim: i64,
    pub roll_input: i64,
    pub roll_discrete: i8,
    pub roll_analog: bool,
    pub roll_trim: i64,
    pub yaw_input: i64,
    pub yaw_discrete: i8,
    pub yaw_analog: bool,
    pub yaw_trim: i64,
    pub gear_switch: bool,
    pub flaps_switch: bool,
    pub airbrake_switch: bool,
    pub left_engine_switch: bool,
    pub right_engine_switch: bool,
    pub wheel_brake: i64,
    pub elevator_command: i64,
    pub aileron_command: i64,
    pub rudder_command: i64,
    pub gear_pos: i64,
    pub flaps_pos: i64,
    pub airbrake_pos: i64,
    pub slats_pos: i64,
    pub carrier_pos: i32,
    pub left_throttle_input: i64,
    pub right_throttle_input: i64,
    pub left_throttle_output: i64,
    pub right_throttle_output: i64,
    pub left_engine_power_readout: i64,
    pub right_engine_power_readout: i64,
    pub left_thrust_force: i64,
    pub right_thrust_force: i64,
    pub internal_fuel: i64,
    pub engine_alt_effect: i64,
    /// Force accumulated during the current tick, in the body frame.
    pub common_force: Vec3,
    /// Moment accumulated during the current tick, in the body frame.
    pub common_moment: Vec3,
    pub current_mass: i64,
    /// Moments of inertia about the body x, y and z axes.
    pub moment_of_inertia: Vec3,
    pub wingspan: i64,
    pub speed_of_sound: i64,
    pub center_of_mass: Vec3,
    pub left_wing_pos: Vec3,
    pub right_wing_pos: Vec3,
    pub tail_pos: Vec3,
    pub elevator_pos: Vec3,
    pub left_aileron_pos: Vec3,
    pub right_aileron_pos: Vec3,
    pub rudder_pos: Vec3,
    pub left_engine_pos: Vec3,
    pub right_engine_pos: Vec3,
}

/// One aircraft: its state, its read-only configuration and the forces
/// recorded for display during the last tick, each as a world-frame
/// direction and the world-frame point where it acts.
pub struct FlightModel {
    pub state: FlightState,
    pub plane_config: PlaneConfig,
    pub draw_vecs: Vec<(Vec3, Vec3)>,
}

impl FlightState {
    /// The state of an aircraft of the given configuration at rest: all
    /// motion, controls and readings zero, engines off, at gross mass with
    /// the difference to the empty mass as fuel.
    pub open spec fn initial(config: PlaneConfig) -> FlightState {
        FlightState {
            velocity: vzero(),
            velocity_local: vzero(),
            airspeed: vzero(),
            angular_velocity: vzero(),
            altitude_asl: 0,
            alpha: 0,
            beta: 0,
            mach: 0,
            g: 0,
            heading: 0,
            pitch: 0,
            roll: 0,
            pitch_rate: 0,
            roll_rate: 0,
            yaw_rate: 0,
            shake_amplitude: 0,
            on_ground: false,
            pitch_input: 0,
            pitch_discrete: 0,
            pitch_analog: false,
            pitch_trim: 0,
            roll_input: 0,
            roll_discrete: 0,
            roll_analog: false,
            roll_trim: 0,
            yaw_input: 0,
            yaw_discrete: 0,
            yaw_analog: false,
            yaw_trim: 0,
            gear_switch: false,
            flaps_switch: false,
            airbrake_switch: false,
            left_engine_switch: false,
            right_engine_switch: false,
            wheel_brake: 0,
            elevator_command: 0,
            aileron_command: 0,
            rudder_command: 0,
            gear_pos: 0,
            flaps_pos: 0,
            airbrake_pos: 0,
            slats_pos: 0,
            carrier_pos: 0,
            left_throttle_input: 0,
            right_throttle_input: 0,
            left_throttle_output: 0,
            right_throttle_output: 0,
            left_engine_power_readout: 0,
            right_engine_power_readout: 0,
            left_thrust_force: 0,
            right_thrust_force: 0,
            internal_fuel: fsub(config.basic().gross_mass, config.basic().empty_mass),
            engine_alt_effect: SCALE,
            common_force: vzero(),
            common_moment: vzero(),
            current_mass: config.basic().gross_mass,
            moment_of_inertia: Vec3 {
                x: config.basic().moment_of_inertia[0],
                y: config.basic().moment_of_inertia[1],
                z: config.basic().moment_of_inertia[2],
            },
            wingspan: config.basic().wingspan,
            speed_of_sound: SPEED_OF_SOUND,
            center_of_mass: Vec3 {
                x: config.basic().center_of_mass[0],
                y: config.basic().center_of_mass[1],
                z: config.basic().center_of_mass[2],
            },
            left_wing_pos: config.structure().left_wing_pos,
            right_wing_pos: config.structure().right_wing_pos,
            tail_pos: config.structure().tail_pos,
            elevator_pos: config.structure().elevator_pos,
            left_aileron_pos: config.structure().left_aileron_pos,
            right_aileron_pos: config.structure().right_aileron_pos,
            rudder_pos: config.structure().rudder_pos,
            left_engine_pos: config.structure().left_engine_pos,
            right_engine_pos: config.structure().right_engine_pos,
        }
    }
}

impl FlightModel {
    /// An aircraft of the given configuration at rest.
    pub fn new(plane_config: PlaneConfig) -> (model: FlightModel)
        ensures
            model.state == FlightState::initial(plane_config),
            model.plane_config == plane_config,
            model.draw_vecs@.len() == 0,
    {
        let zero: Vec3 = Vec3::zero();
        let state: FlightState = FlightState {
            velocity: zero,
            velocity_local: zero,
            airspeed: zero,
            angular_velocity: zero,
            altitude_asl: 0,
            alpha: 0,
            beta: 0,
            mach: 0,
            g: 0,
            heading: 0,
            pitch: 0,
            roll: 0,
            pitch_rate: 0,
            roll_rate: 0,
            yaw_rate: 0,
            shake_amplitude: 0,
            on_ground: false,
            pitch_input: 0,
            pitch_discrete: 0,
            pitch_analog: false,
            pitch_trim: 0,
            roll_input: 0,
            roll_discrete: 0,
            roll_analog: false,
            roll_trim: 0,
            yaw_input: 0,
            yaw_discrete: 0,
            yaw_analog: false,
            yaw_trim: 0,
            gear_switch: false,
            flaps_switch: false,
            airbrake_switch: false,
            left_engine_switch: false,
            right_engine_switch: false,
            wheel_brake: 0,
            elevator_command: 0,
            aileron_command: 0,
            rudder_command: 0,
            gear_pos: 0,
            flaps_pos: 0,
            airbrake_pos: 0,
            slats_pos: 0,
            carrier_pos: 0,
            left_throttle_input: 0,
            right_throttle_input: 0,
            left_throttle_output: 0,
            right_throttle_output: 0,
            left_engine_power_readout: 0,
            right_engine_power_readout: 0,
            left_thrust_force: 0,
            right_thrust_force: 0,
            internal_fuel: fx_sub(plane_config.basic().gross_mass, plane_config.basic().empty_mass),
            engine_alt_effect: SCALE,
            common_force: zero,
            common_moment: zero,
            current_mass: plane_config.basic().gross_mass,
            moment_of_inertia: Vec3 {
                x: plane_config.basic().moment_of_inertia[0],
                y: plane_config.basic().moment_of_inertia[1],
                z: plane_config.basic().moment_of_inertia[2],
            },
            wingspan: plane_config.basic().wingspan,
            speed_of_sound: SPEED_OF_SOUND,
            center_of_mass: Vec3 {
                x: plane_config.basic().center_of_mass[0],
                y: plane_config.basic().center_of_mass[1],
                z: plane_config.basic().center_of_mass[2],
            },
            left_wing_pos: plane_config.structure().left_wing_pos,
            right_wing_pos: plane_config.structure().right_wing_pos,
            tail_pos: plane_config.structure().tail_pos,
            elevator_pos: plane_config.structure().elevator_pos,
            left_aileron_pos: plane_config.structure().left_aileron_pos,
            right_aileron_pos: plane_config.structure().right_aileron_pos,
            rudder_pos: plane_config.structure().rudder_pos,
            left_engine_pos: plane_config.structure().left_engine_pos,
            right_engine_pos: plane_config.structure().right_engine_pos,
        };
        FlightModel { state, plane_config, draw_vecs: Vec::new() }
    }
}

} // verus!
