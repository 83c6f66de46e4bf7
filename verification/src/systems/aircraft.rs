//! The player's aircraft: where it starts, how it is advanced and what its
//! instruments show.

use vstd::prelude::*;
use crate::fixed::{fmul, fneg, fx_mul, fx_neg, is_floor_sqrt, lemma_floor_sqrt_is, HALF, SCALE};
use crate::geometry::{qlen, qrotation_x, vec3, vlen, Quat, Transform, Vec3};
use crate::trig::{cos_spec, fold_angle, sin_series, sin_spec, wrap_angle};
use crate::plane::flight_model::FlightState;
use crate::plane::flight_physics::{HOT_START_SPEED, HUNDRED};
use crate::plane::plane::{KeyboardInput, Plane};
use crate::plane::plane_config::PlaneConfig;
use crate::util::{rad, rad_spec};

verus! {

/// The altitude, in metres, at which aircraft start.
pub const SPAWN_ALTITUDE: i64 = 3_000_000_000;

/// How far behind the origin along the z axis, in metres, the player's
/// aircraft starts.
pub const PLANE_SPAWN_BEHIND: i64 = 2_000_000_000;

/// Where the player's aircraft starts.
pub open spec fn plane_spawn_pos() -> Vec3 {
    vec3(0, SPAWN_ALTITUDE, PLANE_SPAWN_BEHIND)
}

/// The velocity with which the player's aircraft starts.
pub open spec fn plane_spawn_vel() -> Vec3 {
    vec3(0, 0, fneg(HOT_START_SPEED))
}

/// The nose-up attitude, in degrees, with which the player's aircraft
/// starts.
pub const PLANE_SPAWN_PITCH_DEGREES: i64 = 10_000_000;

/// Knots per metre per second.
pub const KNOTS_PER_MPS: i64 = 1_943_840;

/// Feet per metre.
pub const FEET_PER_METRE: i64 = 3_280_840;

/// What the pilot's instruments show.
#[derive(Clone, Copy, Debug, PartialEq, Eq, Structural)]
pub struct PlaneReadings {
    pub speed_knots: i64,
    pub altitude_feet: i64,
    pub mach: i64,
    pub throttle_in_percent: i64,
    pub throttle_out_percent: i64,
    pub alpha: i64,
    pub g: i64,
    pub pitch_input: i64,
    pub roll_input: i64,
    pub yaw_input: i64,
    pub gear_pos: i64,
    pub flaps_pos: i64,
    pub airbrake_pos: i64,
    pub slats_pos: i64,
}

/// The readings of an aircraft in `state` placed at `transform`.
pub open spec fn readings_spec(transform: Transform, state: FlightState) -> PlaneReadings {
    PlaneReadings {
        speed_knots: fmul(vlen(state.velocity), KNOTS_PER_MPS),
        altitude_feet: fmul(transform.translation.y, FEET_PER_METRE),
        mach: state.mach,
        throttle_in_percent: fmul(state.left_throttle_input, HUNDRED),
        throttle_out_percent: fmul(state.left_engine_power_readout, HUNDRED),
        alpha: state.alpha,
        g: state.g,
        pitch_input: state.pitch_input,
        roll_input: state.roll_input,
        yaw_input: state.yaw_input,
        gear_pos: state.gear_pos,
        flaps_pos: state.flaps_pos,
        airbrake_pos: state.airbrake_pos,
        slats_pos: state.slats_pos,
    }
}

/// The placement with which the player's aircraft starts.
pub open spec fn plane_spawn_transform() -> Transform {
    Transform {
        translation: plane_spawn_pos(),
        rotation: qrotation_x(rad_spec(PLANE_SPAWN_PITCH_DEGREES)),
    }
}

/// The sine and the cosine of half the starting pitch.
proof fn lemma_spawn_pitch_halved()
    ensures
        sin_spec(87_266) == 87_155,
        cos_spec(87_266) == 996_194,
{
    reveal(fmul);
    assert(wrap_angle(87_266) == 87_266);
    assert(fold_angle(87_266) == 87_266);
    assert(fmul(87_266, 87_266) == 7_615);
    assert(fmul(7_615, 9_091) == 69);
    assert(fmul(7_615, 13_889) == 105);
    assert(fmul(105, 999_931) == 104);
    assert(fmul(7_615, 23_810) == 181);
    assert(fmul(181, 999_896) == 180);
    assert(fmul(7_615, 50_000) == 380);
    assert(fmul(380, 999_820) == 379);
    assert(fmul(7_615, 166_667) == 1_269);
    assert(fmul(1_269, 999_621) == 1_268);
    assert(fmul(87_266, 998_732) == 87_155);
    assert(sin_series(87_266) == 87_155);
    assert(fmul(1_483_530, 1_483_530) == 2_200_861);
    assert(fmul(2_200_861, 9_091) == 20_008);
    assert(fmul(2_200_861, 13_889) == 30_567);
    assert(fmul(30_567, 979_992) == 29_955);
    assert(fmul(2_200_861, 23_810) == 52_402);
    assert(fmul(52_402, 970_045) == 50_832);
    assert(fmul(2_200_861, 50_000) == 110_043);
    assert(fmul(110_043, 949_168) == 104_449);
    assert(fmul(2_200_861, 166_667) == 366_810);
    assert(fmul(366_810, 895_551) == 328_497);
    assert(fmul(1_483_530, 671_503) == 996_194);
    assert(sin_series(1_483_530) == 996_194);
}

/// The player's aircraft starts pitched up by ten degrees, in an
/// orientation whose length is within a millionth of one.
pub proof fn lemma_plane_spawn_orientation()
    ensures
        plane_spawn_transform().rotation == (Quat { x: 87_155, y: 0, z: 0, w: 996_194 }),
        qlen(plane_spawn_transform().rotation) == SCALE - 1,
{
    lemma_spawn_pitch_halved();
    assert(rad_spec(PLANE_SPAWN_PITCH_DEGREES) == 174_532);
    assert(fmul(174_532, HALF) == 87_266) by {
        reveal(fmul);
    }
    let q = plane_spawn_transform().rotation;
    assert(q == (Quat { x: 87_155, y: 0, z: 0, w: 996_194 }));
    assert(q.x * q.x + q.y * q.y + q.z * q.z + q.w * q.w == 999_998_479_661)
        by (nonlinear_arith)
        requires
            q.x == 87_155,
            q.y == 0,
            q.z == 0,
            q.w == 996_194,
    ;
    assert(is_floor_sqrt(999_998_479_661, 999_999)) by (nonlinear_arith);
    lemma_floor_sqrt_is(999_998_479_661, 999_999);
}

/// The player's aircraft and its placement: hot-started at the spawn
/// position, flying at the spawn velocity, nose up.
pub fn spawn_plane(plane_config: PlaneConfig) -> (spawned: (Plane, Transform))
    ensures
        spawned.0.flight_model.state == (FlightState {
            velocity: plane_spawn_vel(),
            ..FlightState::initial(plane_config).hot()
        }),
        spawned.0.flight_model.plane_config == plane_config,
        spawned.0.flight_model.draw_vecs@.len() == 0,
        spawned.1 == plane_spawn_transform(),
{
    let mut plane: Plane = Plane::new(plane_config);
    plane.flight_model.state.velocity = Vec3::new(0, 0, fx_neg(HOT_START_SPEED));
    let transform: Transform = Transform {
        translation: Vec3::new(0, SPAWN_ALTITUDE, PLANE_SPAWN_BEHIND),
        rotation: Quat::from_rotation_x(rad(PLANE_SPAWN_PITCH_DEGREES)),
    };
    (plane, transform)
}

/// Takes the readings of the pilot's instruments.
pub fn update_plane_readings(transform: &Transform, plane: &Plane) -> (readings: PlaneReadings)
    ensures
        readings == readings_spec(*transform, plane.flight_model.state),
{
    let fm: &FlightState = &plane.flight_model.state;
    PlaneReadings {
        speed_knots: fx_mul(fm.velocity.length(), KNOTS_PER_MPS),
        altitude_feet: fx_mul(transform.translation.y, FEET_PER_METRE),
        mach: fm.mach,
        throttle_in_percent: fx_mul(fm.left_throttle_input, HUNDRED),
        throttle_out_percent: fx_mul(fm.left_engine_power_readout, HUNDRED),
        alpha: fm.alpha,
        g: fm.g,
        pitch_input: fm.pitch_input,
        roll_input: fm.roll_input,
        yaw_input: fm.yaw_input,
        gear_pos: fm.gear_pos,
        flaps_pos: fm.flaps_pos,
        airbrake_pos: fm.airbrake_pos,
        slats_pos: fm.slats_pos,
    }
}

/// Advances one aircraft by one tick. The player's aircraft, for which
/// the pilot's keys are given, reads them first.
pub fn simulate_plane(
    plane: &mut Plane,
    transform: &mut Transform,
    keyboard: Option<&KeyboardInput>,
    dt: i64,
)
    ensures
        final(plane).flight_model.state == steered(old(plane).flight_model.state, keyboard)
            .after_tick(old(plane).flight_model.plane_config, dt, *old(transform)),
        *final(transform) == steered(old(plane).flight_model.state, keyboard).after_simulate(
            old(plane).flight_model.plane_config,
            dt,
            *old(transform),
        ).moved(dt, *old(transform)),
        final(plane).flight_model.plane_config == old(plane).flight_model.plane_config,
        final(plane).flight_model.draw_vecs@.len() == 0,
{
    if let Some(keys) = keyboard {
        plane.input(keys);
    }
    plane.simulate(dt, transform);
}

/// The state after the pilot's keys, if any, have been read.
pub open spec fn steered(state: FlightState, keyboard: Option<&KeyboardInput>) -> FlightState {
    match keyboard {
        Some(keys) => state.after_input(*keys),
        None => state,
    }
}

} // verus!
