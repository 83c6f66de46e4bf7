//! An aircraft under the pilot's hands: control inputs and the full tick.

use vstd::prelude::*;
use crate::fixed::{fadd, fsub, fx_add, fx_sub, SCALE};
use crate::geometry::Transform;
use crate::plane::flight_model::{FlightModel, FlightState};
use crate::plane::plane_config::PlaneConfig;
use crate::util::{limit, limit_spec};

verus! {

/// How far one press of a pitch trim key moves the pitch trim.
pub const TRIM_PITCH_STEP: i64 = 1_500;

/// How far one press of a roll trim key moves the roll trim.
pub const TRIM_ROLL_STEP: i64 = 1_000;

/// How far one press of a yaw trim key moves the yaw trim.
pub const TRIM_YAW_STEP: i64 = 1_000;

/// How far a held throttle key moves both throttles in one tick.
pub const THROTTLE_STEP: i64 = 7_500;

pub const THROTTLE_MIN: i64 = 0;

pub const THROTTLE_MAX: i64 = 1_000_000;

pub struct Plane {
    pub flight_model: FlightModel,
}

/// The pilot's keys during one tick. The steering, throttle and wheel
/// brake keys tell whether they are held; the trim keys and the toggles
/// tell whether they went down during this tick.
#[derive(Clone, Copy, Debug, PartialEq, Eq, Structural)]
pub struct KeyboardInput {
    pub pitch_up: bool,
    pub pitch_down: bool,
    pub trim_pitch_up: bool,
    pub trim_pitch_down: bool,
    pub roll_left: bool,
    pub roll_right: bool,
    pub trim_roll_left: bool,
    pub trim_roll_right: bool,
    pub yaw_plus: bool,
    pub yaw_minus: bool,
    pub trim_yaw_plus: bool,
    pub trim_yaw_minus: bool,
    pub trim_reset: bool,
    pub throttle_up: bool,
    pub throttle_down: bool,
    pub toggle_left_engine: bool,
    pub toggle_right_engine: bool,
    pub toggle_airbrake: bool,
    pub toggle_flaps: bool,
    pub toggle_gear: bool,
    pub wheel_brake: bool,
}

/// The discrete state of a steering channel: the first key wins, and no
/// key is neutral.
pub open spec fn discrete_spec(plus: bool, minus: bool) -> i8 {
    if plus {
        1
    } else if minus {
        (-1) as i8
    } else {
        0
    }
}

/// A trim after its keys have been read: a reset clears it, else one key
/// press moves it by `step`, the raising key first.
pub open spec fn trim_spec(trim: i64, reset: bool, raise: bool, lower: bool, step: i64) -> i64 {
    if reset {
        0
    } else if raise {
        fadd(trim, step)
    } else if lower {
        fsub(trim, step)
    } else {
        trim
    }
}

/// A throttle after its keys have been read: a held key moves it by one
/// step within its range, the raising key first.
pub open spec fn throttle_spec(throttle: i64, raise: bool, lower: bool) -> i64 {
    if raise {
        limit_spec(fadd(throttle, THROTTLE_STEP), THROTTLE_MIN, THROTTLE_MAX)
    } else if lower {
        limit_spec(fsub(throttle, THROTTLE_STEP), THROTTLE_MIN, THROTTLE_MAX)
    } else {
        throttle
    }
}

impl FlightState {
    /// The state after the pilot's keys have been read. A held steering
    /// key sets its channel's discrete state and takes the channel out of
    /// analog mode; toggles flip their switches.
    pub open spec fn after_input(self, keyboard: KeyboardInput) -> FlightState {
        FlightState {
            pitch_discrete: discrete_spec(keyboard.pitch_up, keyboard.pitch_down),
            pitch_analog: self.pitch_analog && !keyboard.pitch_up && !keyboard.pitch_down,
            pitch_trim: trim_spec(
                self.pitch_trim,
                keyboard.trim_reset,
                keyboard.trim_pitch_up,
                keyboard.trim_pitch_down,
                TRIM_PITCH_STEP,
            ),
            roll_discrete: discrete_spec(
                keyboard.roll_right && !keyboard.roll_left,
                keyboard.roll_left,
            ),
            roll_analog: self.roll_analog && !keyboard.roll_left && !keyboard.roll_right,
            roll_trim: trim_spec(
                self.roll_trim,
                keyboard.trim_reset,
                keyboard.trim_roll_right && !keyboard.trim_roll_left,
                keyboard.trim_roll_left,
                TRIM_ROLL_STEP,
            ),
            yaw_discrete: discrete_spec(keyboard.yaw_plus, keyboard.yaw_minus),
            yaw_analog: self.yaw_analog && !keyboard.yaw_plus && !keyboard.yaw_minus,
            yaw_trim: trim_spec(
                self.yaw_trim,
                keyboard.trim_reset,
                keyboard.trim_yaw_plus,
                keyboard.trim_yaw_minus,
                TRIM_YAW_STEP,
            ),
            left_throttle_input: throttle_spec(
                self.left_throttle_input,
                keyboard.throttle_up,
                keyboard.throttle_down,
            ),
            right_throttle_input: throttle_spec(
                self.right_throttle_input,
                keyboard.throttle_up,
                keyboard.throttle_down,
            ),
            left_engine_switch: self.left_engine_switch != keyboard.toggle_left_engine,
            right_engine_switch: self.right_engine_switch != keyboard.toggle_right_engine,
            airbrake_switch: self.airbrake_switch != keyboard.toggle_airbrake,
            flaps_switch: self.flaps_switch != keyboard.toggle_flaps,
            gear_switch: self.gear_switch != keyboard.toggle_gear,
            wheel_brake: if keyboard.wheel_brake {
                SCALE
            } else {
                0
            },
            ..self
        }
    }

    /// The state after one full tick for an aircraft placed at `t`: forces
    /// gathered, motion integrated, readings taken at the new placement.
    pub open spec fn after_tick(self, config: PlaneConfig, dt: i64, t: Transform) -> FlightState {
        let gathered = self.after_simulate(config, dt, t);
        gathered.integrated(dt, t.rotation).after_variables(config, gathered.moved(dt, t))
    }
}

pub fn discrete(plus: bool, minus: bool) -> (r: i8)
    ensures
        r == discrete_spec(plus, minus),
{
    if plus {
        1
    } else if minus {
        -1
    } else {
        0
    }
}

pub fn trim(value: i64, reset: bool, raise: bool, lower: bool, step: i64) -> (r: i64)
    ensures
        r == trim_spec(value, reset, raise, lower, step),
{
    if reset {
        0
    } else if raise {
        fx_add(value, step)
    } else if lower {
        fx_sub(value, step)
    } else {
        value
    }
}

pub fn throttle(value: i64, raise: bool, lower: bool) -> (r: i64)
    ensures
        r == throttle_spec(value, raise, lower),
{
    if raise {
        limit(fx_add(value, THROTTLE_STEP), THROTTLE_MIN, THROTTLE_MAX)
    } else if lower {
        limit(fx_sub(value, THROTTLE_STEP), THROTTLE_MIN, THROTTLE_MAX)
    } else {
        value
    }
}

impl Plane {
    /// An aircraft of the given configuration, hot-started.
    pub fn new(plane_config: PlaneConfig) -> (plane: Plane)
        ensures
            plane.flight_model.state == FlightState::initial(plane_config).hot(),
            plane.flight_model.plane_config == plane_config,
            plane.flight_model.draw_vecs@.len() == 0,
    {
        let mut flight_model: FlightModel = FlightModel::new(plane_config);
        flight_model.start_hot();
        Plane { flight_model }
    }

    /// Advances the aircraft by one tick of `dt` seconds and moves its
    /// placement accordingly.
    pub fn simulate(&mut self, dt: i64, transform: &mut Transform)
        ensures
            final(self).flight_model.state == old(self).flight_model.state.after_tick(
                old(self).flight_model.plane_config,
                dt,
                *old(transform),
            ),
            *final(transform) == old(self).flight_model.state.after_simulate(
                old(self).flight_model.plane_config,
                dt,
                *old(transform),
            ).moved(dt, *old(transform)),
            final(self).flight_model.plane_config == old(self).flight_model.plane_config,
            final(self).flight_model.draw_vecs@.len() == 0,
    {
        self.flight_model.simulate(dt, transform);
        self.flight_model.transform(dt, transform);
        self.flight_model.update_variables(transform);
    }

    /// Reads the pilot's keys into the control state.
    pub fn input(&mut self, keyboard: &KeyboardInput)
        ensures
            final(self).flight_model.state == old(self).flight_model.state.after_input(*keyboard),
            final(self).flight_model.plane_config == old(self).flight_model.plane_config,
            final(self).flight_model.draw_vecs == old(self).flight_model.draw_vecs,
    {
        let controls: FlightState = self.flight_model.state;
        self.flight_model.state = FlightState {
            pitch_discrete: discrete(keyboard.pitch_up, keyboard.pitch_down),
            pitch_analog: controls.pitch_analog && !keyboard.pitch_up && !keyboard.pitch_down,
            pitch_trim: trim(
                controls.pitch_trim,
                keyboard.trim_reset,
                keyboard.trim_pitch_up,
                keyboard.trim_pitch_down,
                TRIM_PITCH_STEP,
            ),
            roll_discrete: discrete(
                keyboard.roll_right && !keyboard.roll_left,
                keyboard.roll_left,
            ),
            roll_analog: controls.roll_analog && !keyboard.roll_left && !keyboard.roll_right,
            roll_trim: trim(
                controls.roll_trim,
                keyboard.trim_reset,
                keyboard.trim_roll_right && !keyboard.trim_roll_left,
                keyboard.trim_roll_left,
                TRIM_ROLL_STEP,
            ),
            yaw_discrete: discrete(keyboard.yaw_plus, keyboard.yaw_minus),
            yaw_analog: controls.yaw_analog && !keyboard.yaw_plus && !keyboard.yaw_minus,
            yaw_trim: trim(
                controls.yaw_trim,
                keyboard.trim_reset,
                keyboard.trim_yaw_plus,
                keyboard.trim_yaw_minus,
                TRIM_YAW_STEP,
            ),
            left_throttle_input: throttle(
                controls.left_throttle_input,
                keyboard.throttle_up,
                keyboard.throttle_down,
            ),
            right_throttle_input: throttle(
                controls.right_throttle_input,
                keyboard.throttle_up,
                keyboard.throttle_down,
            ),
            left_engine_switch: controls.left_engine_switch != keyboard.toggle_left_engine,
            right_engine_switch: controls.right_engine_switch != keyboard.toggle_right_engine,
            airbrake_switch: controls.airbrake_switch != keyboard.toggle_airbrake,
            flaps_switch: controls.flaps_switch != keyboard.toggle_flaps,
            gear_switch: controls.gear_switch != keyboard.toggle_gear,
            wheel_brake: if keyboard.wheel_brake {
                SCALE
            } else {
                0
            },
            ..controls
        };
    }

    /// Puts the aircraft in flight with its engines running.
    pub fn start_hot(&mut self)
        ensures
            final(self).flight_model.state == old(self).flight_model.state.hot(),
            final(self).flight_model.plane_config == old(self).flight_model.plane_config,
            final(self).flight_model.draw_vecs == old(self).flight_model.draw_vecs,
    {
        self.flight_model.start_hot();
    }
}

} // verus!
