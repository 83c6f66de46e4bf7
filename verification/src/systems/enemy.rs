//! The opposing aircraft: where it starts.

use vstd::prelude::*;
use crate::fixed::{fmul, fneg, fx_neg, is_floor_sqrt, lemma_floor_sqrt_is, HALF, SCALE};
use crate::geometry::{qlen, qrotation_y, vec3, Quat, Transform, Vec3};
use crate::trig::{cos_spec, fold_angle, sin_series, sin_spec, wrap_angle};
use crate::plane::flight_model::FlightState;
use crate::plane::flight_physics::HOT_START_SPEED;
use crate::plane::plane::Plane;
use crate::plane::plane_config::PlaneConfig;
use crate::systems::aircraft::SPAWN_ALTITUDE;
use crate::util::PI;

verus! {

/// How far ahead of the origin along the z axis, in metres, the opposing
/// aircraft starts.
pub const ENEMY_SPAWN_AHEAD: i64 = 1_000_000_000;

/// Where the opposing aircraft starts.
pub open spec fn enemy_spawn_pos() -> Vec3 {
    vec3(0, SPAWN_ALTITUDE, fneg(ENEMY_SPAWN_AHEAD))
}

/// The velocity with which the opposing aircraft starts.
pub open spec fn enemy_spawn_vel() -> Vec3 {
    vec3(0, 0, HOT_START_SPEED)
}

/// The placement with which the opposing aircraft starts: turned half
/// a turn about the vertical, to face the player.
pub open spec fn enemy_spawn_transform() -> Transform {
    Transform { translation: enemy_spawn_pos(), rotation: qrotation_y(PI) }
}

/// The sine and the cosine of a quarter turn.
proof fn lemma_quarter_turn_halved()
    ensures
        sin_spec(1_570_796) == 1_000_000,
        cos_spec(1_570_796) == 0,
{
    reveal(fmul);
    assert(wrap_angle(1_570_796) == 1_570_796);
    assert(fold_angle(1_570_796) == 1_570_796);
    assert(fmul(1_570_796, 1_570_796) == 2_467_400);
    assert(fmul(2_467_400, 9_091) == 22_431);
    assert(fmul(2_467_400, 13_889) == 34_269);
    assert(fmul(34_269, 977_569) == 33_500);
    assert(fmul(2_467_400, 23_810) == 58_748);
    assert(fmul(58_748, 966_500) == 56_779);
    assert(fmul(2_467_400, 50_000) == 123_370);
    assert(fmul(123_370, 943_221) == 116_365);
    assert(fmul(2_467_400, 166_667) == 411_234);
    assert(fmul(411_234, 883_635) == 363_380);
    assert(fmul(1_570_796, 636_620) == 1_000_000);
    assert(sin_series(1_570_796) == 1_000_000);
    assert(fmul(0, 0) == 0);
    assert(fmul(0, 9_091) == 0);
    assert(fmul(0, 13_889) == 0);
    assert(fmul(0, 1_000_000) == 0);
    assert(fmul(0, 23_810) == 0);
    assert(fmul(0, 50_000) == 0);
    assert(fmul(0, 166_667) == 0);
    assert(sin_series(0) == 0);
}

/// The opposing aircraft starts turned half a turn about the vertical, in
/// an orientation of unit length.
pub proof fn lemma_enemy_spawn_orientation()
    ensures
        enemy_spawn_transform().rotation == (Quat { x: 0, y: 1_000_000, z: 0, w: 0 }),
        qlen(enemy_spawn_transform().rotation) == SCALE,
{
    lemma_quarter_turn_halved();
    assert(fmul(PI, HALF) == 1_570_796) by {
        reveal(fmul);
    }
    let q = enemy_spawn_transform().rotation;
    assert(q == (Quat { x: 0, y: 1_000_000, z: 0, w: 0 }));
    assert(q.x * q.x + q.y * q.y + q.z * q.z + q.w * q.w == 1_000_000_000_000)
        by (nonlinear_arith)
        requires
            q.x == 0,
            q.y == 1_000_000,
            q.z == 0,
            q.w == 0,
    ;
    assert(is_floor_sqrt(1_000_000_000_000, 1_000_000)) by (nonlinear_arith);
    lemma_floor_sqrt_is(1_000_000_000_000, 1_000_000);
}

/// The opposing aircraft and its placement: hot-started at its spawn
/// position, flying at its spawn velocity toward the player.
pub fn spawn_enemy_plane(plane_config: PlaneConfig) -> (spawned: (Plane, Transform))
    ensures
        spawned.0.flight_model.state == (FlightState {
            velocity: enemy_spawn_vel(),
            ..FlightState::initial(plane_config).hot()
        }),
        spawned.0.flight_model.plane_config == plane_config,
        spawned.0.flight_model.draw_vecs@.len() == 0,
        spawned.1 == enemy_spawn_transform(),
{
    let mut plane: Plane = Plane::new(plane_config);
    plane.flight_model.state.velocity = Vec3::new(0, 0, HOT_START_SPEED);
    let transform: Transform = Transform {
        translation: Vec3::new(0, SPAWN_ALTITUDE, fx_neg(ENEMY_SPAWN_AHEAD)),
        rotation: Quat::from_rotation_y(PI),
    };
    (plane, transform)
}

} // verus!
