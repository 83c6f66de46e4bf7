//! What holds of the flight model on every input.

use vstd::prelude::*;
use crate::fixed::{
    fadd, fdiv, fmul, fneg, is_floor_sqrt, lemma_bounded_product, lemma_fdiv_of_zero,
    lemma_floor_sqrt_exists, lemma_floor_sqrt_is, lemma_fmul_by_zero, lemma_square_nonneg, quot,
    HALF, SCALE,
};
use crate::frames::{
    lemma_frame_bound, lemma_frame_of_zero, lemma_frame_round_trip_near,
    lemma_identity_orientation_converts_nothing,
};
use crate::orientation::{
    lemma_axis_component, lemma_delta_component, lemma_normalized_is_unit,
    lemma_product_not_small,
};
use crate::geometry::{
    global_to_local_spec, local_to_global_spec, qaxis_angle, qidentity, qlen, qmul, vadd, vdiv,
    vec3, vlen, vnormalize, vscale, vsub, vzero, Quat, Transform, Vec3,
};
use crate::plane::flight_model::FlightState;
use crate::plane::flight_physics::{
    coefficients_spec, dynamic_pressure_spec, GEAR_RATE, GRAVITY, GROUND_HEIGHT, IDLE_OUTPUT,
    penetration_spec, WHEEL_RADIUS,
    PITCH_TRIM_LIMIT, power_readout_spec, ROLL_TRIM_LIMIT, sec_order_sim_spec, surface_spec,
    switch_target_spec, throttle_output_spec, turned_spec, LEAST_TURN, TEN, WHEEL_DAMPING,
    WHEEL_SPRING, YAW_TRIM_LIMIT,
};
use crate::plane::plane_config::PlaneConfig;
use crate::util::{lemma_actuator_step, limit_spec, rad_spec};

verus! {

/// A wheel whose bottom is at or above the ground adds no force and no
/// moment, and marks the aircraft as off the ground.
pub proof fn lemma_wheel_clear_of_ground(
    state: FlightState,
    wheel_pos: Vec3,
    local_pos: Vec3,
    ground_height: i64,
    wheel_radius: i64,
    rotation: Quat,
    multi: i64,
)
    requires
        penetration_spec(wheel_pos.y, ground_height, wheel_radius) <= 0,
    ensures
        !state.after_wheel(
            wheel_pos,
            local_pos,
            ground_height,
            wheel_radius,
            rotation,
            multi,
        ).on_ground,
        state.after_wheel(
            wheel_pos,
            local_pos,
            ground_height,
            wheel_radius,
            rotation,
            multi,
        ).common_force == state.common_force,
        state.after_wheel(
            wheel_pos,
            local_pos,
            ground_height,
            wheel_radius,
            rotation,
            multi,
        ).common_moment == state.common_moment,
{
    reveal(FlightState::after_wheel);
}

/// A wheel whose bottom is below the ground marks the aircraft as on the
/// ground, and while the aircraft is not rising its strut pushes strictly
/// upward.
pub proof fn lemma_wheel_below_ground(
    state: FlightState,
    wheel_pos: Vec3,
    local_pos: Vec3,
    ground_height: i64,
    wheel_radius: i64,
    rotation: Quat,
    multi: i64,
)
    requires
        penetration_spec(wheel_pos.y, ground_height, wheel_radius) > 0,
    ensures
        state.after_wheel(
            wheel_pos,
            local_pos,
            ground_height,
            wheel_radius,
            rotation,
            multi,
        ).on_ground,
        state.velocity.y <= 0 ==> sec_order_sim_spec(
            penetration_spec(wheel_pos.y, ground_height, wheel_radius),
            state.velocity.y,
            WHEEL_SPRING,
            WHEEL_DAMPING,
        ) > 0,
{
    reveal(FlightState::after_wheel);
    if state.velocity.y <= 0 {
        lemma_strut_pushes_up(
            penetration_spec(wheel_pos.y, ground_height, wheel_radius),
            state.velocity.y,
        );
    }
}

/// The force of a compressed strut on an aircraft that is not rising is
/// strictly positive.
pub proof fn lemma_strut_pushes_up(penetration: i64, climb: i64)
    requires
        penetration > 0,
        climb <= 0,
    ensures
        sec_order_sim_spec(penetration, climb, WHEEL_SPRING, WHEEL_DAMPING) > 0,
{
    reveal(fmul);
    let sink = fneg(climb);
    assert(sink >= 0);
    let damping = sink * WHEEL_DAMPING;
    assert(damping >= 0);
    assert(quot(damping, SCALE as int) >= 0);
    let spring = penetration * WHEEL_SPRING;
    assert(spring >= 4_000_000_000_000);
    assert(quot(spring, SCALE as int) >= 1);
}

/// The acceleration that its own weight gives a mass between a kilogram
/// and a million tonnes is the acceleration of free fall, to within two
/// millionths.
pub proof fn lemma_weight_over_mass(mass: i64)
    requires
        SCALE <= mass <= 1_000_000_000_000_000,
    ensures
        -GRAVITY <= fdiv(fmul(fneg(GRAVITY), mass), mass) <= -GRAVITY + 2,
{
    reveal(fmul);
    reveal(fdiv);
    let product = GRAVITY * mass;
    let weight = product / (SCALE as int);
    assert(9_810_000 * 1_000_000 <= product <= 9_810_000 * 1_000_000_000_000_000);
    assert(fneg(GRAVITY) * mass == -product) by (nonlinear_arith)
        requires
            product == GRAVITY * mass,
            fneg(GRAVITY) == -GRAVITY,
    ;
    assert(fmul(fneg(GRAVITY), mass) == -weight);
    let scaled = weight * SCALE;
    assert(product - SCALE < scaled <= product);
    assert((-weight) * SCALE == -scaled) by (nonlinear_arith)
        requires
            scaled == weight * SCALE,
    ;
    let fall = scaled / (mass as int);
    assert(9_810_000 - 2 <= fall <= 9_810_000) by (nonlinear_arith)
        requires
            fall == scaled / (mass as int),
            product == 9_810_000 * mass,
            product - 1_000_000 < scaled <= product,
            mass >= 1_000_000,
            scaled >= 0,
    ;
}

/// An aircraft in the identity orientation on which only its weight acts
/// keeps its horizontal velocity exactly and gains downward velocity at
/// the acceleration of free fall, to within two millionths.
pub proof fn lemma_free_fall(state: FlightState, dt: i64)
    requires
        SCALE <= state.current_mass <= 1_000_000_000_000_000,
        state.common_force == vec3(0, fmul(fneg(GRAVITY), state.current_mass), 0),
    ensures
        ({
            let after = state.integrated(dt, qidentity());
            let fall = fdiv(state.common_force.y, state.current_mass);
            &&& after.velocity.x == state.velocity.x
            &&& after.velocity.z == state.velocity.z
            &&& after.velocity.y == fadd(state.velocity.y, fmul(fall, dt))
            &&& -GRAVITY <= fall <= -GRAVITY + 2
        }),
{
    reveal(FlightState::integrated);
    lemma_weight_over_mass(state.current_mass);
    let acceleration = vdiv(state.common_force, state.current_mass);
    lemma_fdiv_of_zero(state.current_mass);
    lemma_identity_orientation_converts_nothing(acceleration);
    lemma_fmul_by_zero(dt);
}

/// A quantity of at most a hundred in magnitude, multiplied by a mass
/// between a kilogram and a million tonnes and divided by it again, comes
/// back to within two millionths.
pub proof fn lemma_mass_round_trip(c: i64, mass: i64)
    requires
        SCALE <= mass <= 1_000_000_000_000_000,
        -100_000_000 <= c <= 100_000_000,
    ensures
        -2 <= fdiv(fmul(c, mass), mass) - c <= 2,
{
    reveal(fmul);
    reveal(fdiv);
    let m: int = if c >= 0 {
        c as int
    } else {
        -c
    };
    let product = m * mass;
    assert(0 <= product <= 100_000_000 * 1_000_000_000_000_000) by (nonlinear_arith)
        requires
            product == m * mass,
            0 <= m <= 100_000_000,
            0 < mass <= 1_000_000_000_000_000,
    ;
    assert(c * mass == (if c >= 0 {
        product
    } else {
        -product
    })) by (nonlinear_arith)
        requires
            product == m * mass,
            m == c || m == -c,
            c >= 0 ==> m == c,
            c < 0 ==> m == -c,
    ;
    let weight = product / (SCALE as int);
    let scaled = weight * SCALE;
    assert(product - SCALE < scaled <= product);
    assert((-weight) * SCALE == -scaled) by (nonlinear_arith)
        requires
            scaled == weight * SCALE,
    ;
    let back = scaled / (mass as int);
    assert(m - 2 <= back <= m) by (nonlinear_arith)
        requires
            back == scaled / (mass as int),
            product == m * mass,
            product - 1_000_000 < scaled <= product,
            mass >= 1_000_000,
            scaled >= 0,
    ;
}

/// The state of an aircraft on which only its weight acts: no other
/// force, no moment and no spin.
pub open spec fn falling(state: FlightState, rotation: Quat) -> FlightState {
    FlightState {
        common_force: vscale(
            global_to_local_spec(vec3(0, fneg(GRAVITY), 0), rotation),
            state.current_mass,
        ),
        common_moment: vzero(),
        angular_velocity: vzero(),
        ..state
    }
}

/// The state after `n` ticks of `dt` in free fall, in a fixed orientation.
pub open spec fn free_fall(state: FlightState, rotation: Quat, dt: i64, n: nat) -> FlightState
    decreases n,
{
    if n == 0 {
        state
    } else {
        falling(free_fall(state, rotation, dt, (n - 1) as nat), rotation).integrated(dt, rotation)
    }
}

/// One tick of free fall, in any orientation, of an aircraft of between a
/// kilogram and a million tonnes, over a time step of at most a tenth of
/// a second: the horizontal velocity stays exactly as it is, the aircraft
/// neither spins nor turns, and the downward velocity grows at the
/// acceleration of free fall to within five millionths. Over a sixtieth
/// of a second it grows by 0.163503 exactly.
pub proof fn lemma_free_fall_tick(state: FlightState, t: Transform, dt: i64)
    requires
        SCALE <= state.current_mass <= 1_000_000_000_000_000,
        0 <= dt <= 100_000,
    ensures
        ({
            let before = falling(state, t.rotation);
            let after = before.integrated(dt, t.rotation);
            let fall = local_to_global_spec(
                vdiv(before.common_force, state.current_mass),
                t.rotation,
            ).y;
            &&& after.velocity.x == state.velocity.x
            &&& after.velocity.z == state.velocity.z
            &&& after.velocity.y == fadd(state.velocity.y, fmul(fall, dt))
            &&& -GRAVITY - 5 <= fall <= -GRAVITY + 5
            &&& dt == 16_667 ==> fmul(fall, dt) == -163_503
            &&& after.angular_velocity == vzero()
            &&& after.current_mass == state.current_mass
            &&& before.moved(dt, t).rotation == t.rotation
        }),
{
    reveal(FlightState::integrated);
    let q = t.rotation;
    let mass = state.current_mass;
    let gravity = vec3(0, fneg(GRAVITY), 0);
    let local = global_to_local_spec(gravity, q);
    lemma_frame_bound(gravity, q, GRAVITY as int);
    lemma_mass_round_trip(local.x, mass);
    lemma_mass_round_trip(local.y, mass);
    lemma_mass_round_trip(local.z, mass);
    let before = falling(state, q);
    let acceleration = vdiv(before.common_force, mass);
    lemma_frame_round_trip_near(gravity, acceleration, q);
    let global = local_to_global_spec(acceleration, q);
    assert(-5 <= global.x <= 5 && -5 <= global.z <= 5);
    assert(-GRAVITY - 5 <= global.y <= -GRAVITY + 5);
    assert(fmul(global.x, dt) == 0 && fmul(global.z, dt) == 0) by {
        reveal(fmul);
        lemma_bounded_product(global.x as int, dt as int, 5, 100_000);
        lemma_bounded_product(global.z as int, dt as int, 5, 100_000);
    }
    if dt == 16_667 {
        assert(fmul(global.y, dt) == -163_503) by {
            reveal(fmul);
        }
    }
    // No moment, no spin: no turn.
    lemma_fdiv_of_zero(state.moment_of_inertia.x);
    lemma_fdiv_of_zero(state.moment_of_inertia.y);
    lemma_fdiv_of_zero(state.moment_of_inertia.z);
    lemma_fmul_by_zero(dt);
    let after = before.integrated(dt, q);
    assert(after.angular_velocity == vzero());
    lemma_frame_of_zero(q);
    assert(is_floor_sqrt(0, 0));
    lemma_floor_sqrt_is(0, 0);
    assert(vlen(vzero()) == 0) by {
        assert(0int * 0int + 0int * 0int + 0int * 0int == 0) by (nonlinear_arith);
    }
}

/// Free fall over any number of ticks of a sixtieth of a second, in any
/// orientation: the horizontal velocity stays exactly as it is and the
/// downward velocity grows by 0.163503 with each tick. After sixty ticks
/// it has grown by 9.81018: the acceleration of free fall over one second,
/// to within a thousandth.
pub proof fn lemma_free_fall_ticks(state: FlightState, rotation: Quat, n: nat)
    requires
        SCALE <= state.current_mass <= 1_000_000_000_000_000,
        -0x2000_0000_0000_0000 <= state.velocity.y <= 0x2000_0000_0000_0000,
        n <= 1_000_000,
    ensures
        ({
            let after = free_fall(state, rotation, 16_667, n);
            &&& after.velocity.x == state.velocity.x
            &&& after.velocity.z == state.velocity.z
            &&& after.velocity.y == state.velocity.y - n * 163_503
            &&& after.current_mass == state.current_mass
            &&& n == 60 ==> -1_000 <= after.velocity.y - (state.velocity.y - GRAVITY) <= 1_000
        }),
    decreases n,
{
    if n > 0 {
        let m = (n - 1) as nat;
        lemma_free_fall_ticks(state, rotation, m);
        let previous = free_fall(state, rotation, 16_667, m);
        lemma_free_fall_tick(
            previous,
            Transform { translation: vzero(), rotation: rotation },
            16_667,
        );
        assert(n * 163_503 == m * 163_503 + 163_503) by (nonlinear_arith)
            requires
                n == m + 1,
        ;
        assert(0 <= m * 163_503 <= 1_000_000 * 163_503) by (nonlinear_arith)
            requires
                0 <= m <= 1_000_000,
        ;
    } else {
        assert(0 * 163_503 == 0) by (nonlinear_arith);
    }
}

/// Turning keeps an orientation of nearly unit length of nearly unit
/// length: whatever the spin and the time step, an orientation whose
/// length is within a ten-thousandth of one is followed by such an
/// orientation.
pub proof fn lemma_turn_keeps_unit_length(rotation: Quat, spin: Vec3, dt: i64)
    requires
        SCALE - 3 <= qlen(rotation) <= SCALE + 100,
    ensures
        SCALE - 3 <= qlen(turned_spec(rotation, spin, dt)) <= SCALE + 100,
{
    let angle = fmul(vlen(spin), dt);
    if angle >= LEAST_TURN {
        lemma_fmul_by_zero(dt);
        assert(vlen(spin) > 0) by {
            lemma_square_nonneg(spin.x as int);
            lemma_square_nonneg(spin.y as int);
            lemma_square_nonneg(spin.z as int);
            lemma_floor_sqrt_exists(spin.x * spin.x + spin.y * spin.y + spin.z * spin.z);
        }
        lemma_axis_component(spin);
        let axis = vnormalize(spin);
        lemma_delta_component(axis, angle);
        let delta = qaxis_angle(axis, angle);
        lemma_product_not_small(delta, rotation);
        lemma_normalized_is_unit(qmul(delta, rotation));
    }
}

/// A tick keeps the orientation of nearly unit length: whatever the state,
/// the configuration and the time step, an aircraft whose orientation has
/// a length within a ten-thousandth of one before a tick has such an
/// orientation after it.
pub proof fn lemma_tick_keeps_unit_length(
    state: FlightState,
    config: PlaneConfig,
    dt: i64,
    t: Transform,
)
    requires
        SCALE - 3 <= qlen(t.rotation) <= SCALE + 100,
    ensures
        SCALE - 3 <= qlen(state.after_simulate(config, dt, t).moved(dt, t).rotation) <= SCALE
            + 100,
{
    let gathered = state.after_simulate(config, dt, t);
    let next = gathered.integrated(dt, t.rotation);
    lemma_turn_keeps_unit_length(
        t.rotation,
        local_to_global_spec(next.angular_velocity, t.rotation),
        dt,
    );
}

/// Engines that cut out are switched off, give no thrust, and add neither
/// force nor moment.
pub proof fn lemma_engines_cut_out(state: FlightState, config: PlaneConfig, mach: i64, dt: i64)
    requires
        state.engines_cut_out(),
    ensures
        ({
            let after = state.after_engine(config, mach, dt);
            &&& after.left_thrust_force == 0
            &&& after.right_thrust_force == 0
            &&& !after.left_engine_switch
            &&& !after.right_engine_switch
            &&& after.common_force == state.common_force
            &&& after.common_moment == state.common_moment
        }),
{
    reveal(FlightState::after_engine);
    let left = vsub(state.left_engine_pos, state.center_of_mass);
    let right = vsub(state.right_engine_pos, state.center_of_mass);
    lemma_fmul_by_zero(left.x);
    lemma_fmul_by_zero(left.y);
    lemma_fmul_by_zero(left.z);
    lemma_fmul_by_zero(right.x);
    lemma_fmul_by_zero(right.y);
    lemma_fmul_by_zero(right.z);
}

/// While the engines are cut out, each tick of a time step that is not
/// negative lowers a readout that is not negative by a tenth of the time
/// step, or to zero where it is nearer: the readout decays to zero over
/// successive ticks and never steps there at once.
pub proof fn lemma_cut_out_readout_decays(
    state: FlightState,
    config: PlaneConfig,
    mach: i64,
    dt: i64,
)
    requires
        state.engines_cut_out(),
        dt >= 0,
        state.left_engine_power_readout >= 0,
        state.right_engine_power_readout >= 0,
    ensures
        ({
            let after = state.after_engine(config, mach, dt);
            let step = fdiv(dt, TEN);
            &&& step >= 0
            &&& after.left_engine_power_readout == (if state.left_engine_power_readout > step {
                state.left_engine_power_readout - step
            } else {
                0
            })
            &&& after.right_engine_power_readout == (if state.right_engine_power_readout > step {
                state.right_engine_power_readout - step
            } else {
                0
            })
        }),
{
    reveal(FlightState::after_engine);
    reveal(fdiv);
    let step = fdiv(dt, TEN);
    let down = fdiv(fneg(dt), TEN);
    assert(step >= 0 && down == -step) by {
        let p = dt * SCALE;
        assert(fneg(dt) * SCALE == -p) by (nonlinear_arith)
            requires
                p == dt * SCALE,
                fneg(dt) == -dt,
        ;
    }
    lemma_actuator_step(state.left_engine_power_readout, 0, down, step);
    lemma_actuator_step(state.right_engine_power_readout, 0, down, step);
}

/// The surfaces, commands, trims, throttles and engine readings of an
/// aircraft, and the switches of its gear and engines.
pub struct Settings {
    pub gear_switch: bool,
    pub left_engine_switch: bool,
    pub right_engine_switch: bool,
    pub left_engine_power_readout: i64,
    pub right_engine_power_readout: i64,
    pub gear_pos: i64,
    pub flaps_pos: i64,
    pub airbrake_pos: i64,
    pub slats_pos: i64,
    pub elevator_command: i64,
    pub aileron_command: i64,
    pub rudder_command: i64,
    pub pitch_trim: i64,
    pub roll_trim: i64,
    pub yaw_trim: i64,
    pub left_throttle_input: i64,
    pub right_throttle_input: i64,
    pub left_throttle_output: i64,
    pub right_throttle_output: i64,
}

/// The settings of a state.
pub open spec fn settings(state: FlightState) -> Settings {
    Settings {
        gear_switch: state.gear_switch,
        left_engine_switch: state.left_engine_switch,
        right_engine_switch: state.right_engine_switch,
        left_engine_power_readout: state.left_engine_power_readout,
        right_engine_power_readout: state.right_engine_power_readout,
        gear_pos: state.gear_pos,
        flaps_pos: state.flaps_pos,
        airbrake_pos: state.airbrake_pos,
        slats_pos: state.slats_pos,
        elevator_command: state.elevator_command,
        aileron_command: state.aileron_command,
        rudder_command: state.rudder_command,
        pitch_trim: state.pitch_trim,
        roll_trim: state.roll_trim,
        yaw_trim: state.yaw_trim,
        left_throttle_input: state.left_throttle_input,
        right_throttle_input: state.right_throttle_input,
        left_throttle_output: state.left_throttle_output,
        right_throttle_output: state.right_throttle_output,
    }
}

/// Every setting lies within its range.
pub open spec fn in_range(s: Settings) -> bool {
    &&& 0 <= s.gear_pos <= SCALE
    &&& 0 <= s.flaps_pos <= SCALE
    &&& 0 <= s.airbrake_pos <= SCALE
    &&& 0 <= s.slats_pos <= SCALE
    &&& -SCALE <= s.elevator_command <= SCALE
    &&& -SCALE <= s.aileron_command <= SCALE
    &&& -SCALE <= s.rudder_command <= SCALE
    &&& -PITCH_TRIM_LIMIT <= s.pitch_trim <= PITCH_TRIM_LIMIT
    &&& -ROLL_TRIM_LIMIT <= s.roll_trim <= ROLL_TRIM_LIMIT
    &&& -YAW_TRIM_LIMIT <= s.yaw_trim <= YAW_TRIM_LIMIT
    &&& 0 <= s.left_throttle_input <= SCALE
    &&& 0 <= s.right_throttle_input <= SCALE
    &&& IDLE_OUTPUT <= s.left_throttle_output <= SCALE
    &&& IDLE_OUTPUT <= s.right_throttle_output <= SCALE
}

/// The start of a tick brings the four surfaces into range and leaves the
/// other settings alone.
pub proof fn lemma_prepared_settings(state: FlightState)
    ensures
        ({
            let after = state.prepared();
            &&& 0 <= after.gear_pos <= SCALE
            &&& 0 <= after.flaps_pos <= SCALE
            &&& 0 <= after.airbrake_pos <= SCALE
            &&& 0 <= after.slats_pos <= SCALE
            &&& after.gear_pos == surface_spec(
                state.gear_pos,
                switch_target_spec(state.gear_switch),
                -GEAR_RATE as i64,
                GEAR_RATE,
            )
            &&& after.internal_fuel == state.internal_fuel
            &&& after.altitude_asl == state.altitude_asl
            &&& settings(after) == (Settings {
                gear_pos: after.gear_pos,
                flaps_pos: after.flaps_pos,
                airbrake_pos: after.airbrake_pos,
                slats_pos: after.slats_pos,
                ..settings(state)
            })
        }),
{
    reveal(FlightState::prepared);
}

/// The wings and the tail leave the settings alone.
pub proof fn lemma_wings_keep_settings(
    state: FlightState,
    config: PlaneConfig,
    alpha_max: i64,
    lift: i64,
    drag: i64,
    q: i64,
    s: i64,
    aos: i64,
    aoa: i64,
    cy_tail: i64,
)
    ensures
        settings(state.after_wings(config, alpha_max, lift, drag, q, s, aos, aoa, cy_tail))
            == settings(state),
        state.after_wings(config, alpha_max, lift, drag, q, s, aos, aoa, cy_tail).internal_fuel
            == state.internal_fuel,
        state.after_wings(config, alpha_max, lift, drag, q, s, aos, aoa, cy_tail).altitude_asl
            == state.altitude_asl,
{
    reveal(FlightState::after_wings);
}

/// Each control channel brings its command and its trim into range and
/// leaves the other settings alone.
pub proof fn lemma_channels_settings(
    state: FlightState,
    config: PlaneConfig,
    aos: i64,
    aoa: i64,
    q: i64,
    mach: i64,
)
    ensures
        ({
            let after = state.after_elevator(config, aoa, q, mach);
            &&& -SCALE <= after.elevator_command <= SCALE
            &&& -PITCH_TRIM_LIMIT <= after.pitch_trim <= PITCH_TRIM_LIMIT
            &&& after.internal_fuel == state.internal_fuel
            &&& after.altitude_asl == state.altitude_asl
            &&& settings(after) == (Settings {
                elevator_command: after.elevator_command,
                pitch_trim: after.pitch_trim,
                ..settings(state)
            })
        }),
        ({
            let after = state.after_roll(aos, aoa, q);
            &&& -SCALE <= after.aileron_command <= SCALE
            &&& -ROLL_TRIM_LIMIT <= after.roll_trim <= ROLL_TRIM_LIMIT
            &&& after.internal_fuel == state.internal_fuel
            &&& after.altitude_asl == state.altitude_asl
            &&& settings(after) == (Settings {
                aileron_command: after.aileron_command,
                roll_trim: after.roll_trim,
                ..settings(state)
            })
        }),
        ({
            let after = state.after_yaw(aos, q);
            &&& -SCALE <= after.rudder_command <= SCALE
            &&& -YAW_TRIM_LIMIT <= after.yaw_trim <= YAW_TRIM_LIMIT
            &&& after.internal_fuel == state.internal_fuel
            &&& after.altitude_asl == state.altitude_asl
            &&& settings(after) == (Settings {
                rudder_command: after.rudder_command,
                yaw_trim: after.yaw_trim,
                ..settings(state)
            })
        }),
{
    reveal(FlightState::after_elevator);
    reveal(FlightState::after_roll);
    reveal(FlightState::after_yaw);
}

/// The limiters leave the settings alone.
pub proof fn lemma_limiters_keep_settings(
    state: FlightState,
    config: PlaneConfig,
    q: i64,
    omx_max: i64,
    mach: i64,
    aos: i64,
)
    ensures
        settings(state.after_other(config, q, omx_max, mach, aos)) == settings(state),
        state.after_other(config, q, omx_max, mach, aos).internal_fuel == state.internal_fuel,
        state.after_other(config, q, omx_max, mach, aos).altitude_asl == state.altitude_asl,
{
    reveal(FlightState::after_other);
}

/// The engines bring the throttles into range, and leave the settings of
/// the surfaces, commands and trims alone. Running engines stay switched
/// as they are and read what the tables give.
pub proof fn lemma_engine_settings(state: FlightState, config: PlaneConfig, mach: i64, dt: i64)
    ensures
        ({
            let after = state.after_engine(config, mach, dt);
            &&& 0 <= after.left_throttle_input <= SCALE
            &&& 0 <= after.right_throttle_input <= SCALE
            &&& IDLE_OUTPUT <= after.left_throttle_output <= SCALE
            &&& IDLE_OUTPUT <= after.right_throttle_output <= SCALE
            &&& after.left_throttle_input == limit_spec(state.left_throttle_input, 0, SCALE)
            &&& after.right_throttle_input == limit_spec(state.right_throttle_input, 0, SCALE)
            &&& after.left_throttle_output == throttle_output_spec(
                config.engine().tables,
                after.left_throttle_input,
            )
            &&& after.right_throttle_output == throttle_output_spec(
                config.engine().tables,
                after.right_throttle_input,
            )
            &&& !state.engines_cut_out() ==> {
                &&& after.left_engine_switch == state.left_engine_switch
                &&& after.right_engine_switch == state.right_engine_switch
                &&& after.left_engine_power_readout == power_readout_spec(
                    config.engine().tables,
                    after.left_throttle_input,
                )
                &&& after.right_engine_power_readout == power_readout_spec(
                    config.engine().tables,
                    after.right_throttle_input,
                )
            }
            &&& settings(after) == (Settings {
                left_throttle_input: after.left_throttle_input,
                right_throttle_input: after.right_throttle_input,
                left_throttle_output: after.left_throttle_output,
                right_throttle_output: after.right_throttle_output,
                left_engine_switch: after.left_engine_switch,
                right_engine_switch: after.right_engine_switch,
                left_engine_power_readout: after.left_engine_power_readout,
                right_engine_power_readout: after.right_engine_power_readout,
                ..settings(state)
            })
        }),
{
    reveal(FlightState::after_engine);
}

/// A force leaves the settings alone.
pub proof fn lemma_force_keeps_settings(state: FlightState, force: Vec3, force_pos: Vec3)
    ensures
        settings(state.with_force(force, force_pos)) == settings(state),
{
}

/// A wheel leaves the settings alone.
pub proof fn lemma_wheel_keeps_settings(
    state: FlightState,
    wheel_pos: Vec3,
    local_pos: Vec3,
    ground_height: i64,
    wheel_radius: i64,
    rotation: Quat,
    multi: i64,
)
    ensures
        settings(
            state.after_wheel(wheel_pos, local_pos, ground_height, wheel_radius, rotation, multi),
        ) == settings(state),
{
    reveal(FlightState::after_wheel);
}

/// The three wheels leave the settings alone.
pub proof fn lemma_wheels_keep_settings(state: FlightState, config: PlaneConfig, t: Transform)
    ensures
        settings(state.after_wheels(config, t.rotation, t)) == settings(state),
{
    reveal(FlightState::after_wheels);
    let wheels = config.structure();
    let gr = t.rotation;
    let front = vadd(local_to_global_spec(wheels.front_wheel, gr), t.translation);
    let left = vadd(local_to_global_spec(wheels.back_left_wheel, gr), t.translation);
    let right = vadd(local_to_global_spec(wheels.back_right_wheel, gr), t.translation);
    let s1 = state.after_wheel(front, wheels.front_wheel, GROUND_HEIGHT, WHEEL_RADIUS, gr, SCALE);
    lemma_wheel_keeps_settings(
        state,
        front,
        wheels.front_wheel,
        GROUND_HEIGHT,
        WHEEL_RADIUS,
        gr,
        SCALE,
    );
    let s2 = s1.after_wheel(left, wheels.back_left_wheel, GROUND_HEIGHT, WHEEL_RADIUS, gr, SCALE);
    lemma_wheel_keeps_settings(
        s1,
        left,
        wheels.back_left_wheel,
        GROUND_HEIGHT,
        WHEEL_RADIUS,
        gr,
        SCALE,
    );
    lemma_wheel_keeps_settings(
        s2,
        right,
        wheels.back_right_wheel,
        GROUND_HEIGHT,
        WHEEL_RADIUS,
        gr,
        SCALE,
    );
}

/// Integrating the motion and taking the readings leave the settings
/// alone.
pub proof fn lemma_motion_keeps_settings(
    state: FlightState,
    config: PlaneConfig,
    dt: i64,
    t: Transform,
)
    ensures
        settings(state.integrated(dt, t.rotation).after_variables(config, state.moved(dt, t)))
            == settings(state),
{
    reveal(FlightState::integrated);
    reveal(FlightState::after_variables);
}

/// What a tick does to the settings, step by step: the start of the tick
/// moves the surfaces, each channel its command and trim, the engines the
/// throttles and engine readings; nothing else touches them.
pub proof fn lemma_tick_settings(state: FlightState, config: PlaneConfig, dt: i64, t: Transform)
    ensures
        ({
            let start = state.prepared();
            let mach = start.mach;
            let c = coefficients_spec(config, start, mach);
            let q = dynamic_pressure_spec(start.altitude_asl, start.airspeed);
            let aos = rad_spec(start.beta);
            let aoa = rad_spec(start.alpha);
            let flown = start.after_wings(
                config,
                c.alpha_max,
                c.lift,
                c.drag,
                q,
                start.wingspan,
                aos,
                aoa,
                c.cy_tail,
            ).after_elevator(config, aoa, q, mach).after_roll(aos, aoa, q).after_yaw(aos, q)
                .after_other(config, q, c.omx_max, mach, aos);
            let after = state.after_simulate(config, dt, t);
            &&& settings(after) == settings(flown.after_engine(config, mach, dt))
            &&& settings(state.after_tick(config, dt, t)) == settings(after)
            &&& in_range(settings(after))
            &&& flown.gear_switch == state.gear_switch
            &&& flown.gear_pos == start.gear_pos
            &&& flown.left_throttle_input == state.left_throttle_input
            &&& flown.right_throttle_input == state.right_throttle_input
            &&& flown.left_engine_switch == state.left_engine_switch
            &&& flown.right_engine_switch == state.right_engine_switch
            &&& flown.engines_cut_out() == state.engines_cut_out()
        }),
{
    let start = state.prepared();
    let mach = start.mach;
    let c = coefficients_spec(config, start, mach);
    let q = dynamic_pressure_spec(start.altitude_asl, start.airspeed);
    let aos = rad_spec(start.beta);
    let aoa = rad_spec(start.alpha);
    lemma_prepared_settings(state);
    let s1 = start.after_wings(
        config,
        c.alpha_max,
        c.lift,
        c.drag,
        q,
        start.wingspan,
        aos,
        aoa,
        c.cy_tail,
    );
    lemma_wings_keep_settings(
        start,
        config,
        c.alpha_max,
        c.lift,
        c.drag,
        q,
        start.wingspan,
        aos,
        aoa,
        c.cy_tail,
    );
    let s2 = s1.after_elevator(config, aoa, q, mach);
    lemma_channels_settings(s1, config, aos, aoa, q, mach);
    let s3 = s2.after_roll(aos, aoa, q);
    lemma_channels_settings(s2, config, aos, aoa, q, mach);
    let s4 = s3.after_yaw(aos, q);
    lemma_channels_settings(s3, config, aos, aoa, q, mach);
    let s5 = s4.after_other(config, q, c.omx_max, mach, aos);
    lemma_limiters_keep_settings(s4, config, q, c.omx_max, mach, aos);
    let s6 = s5.after_engine(config, mach, dt);
    lemma_engine_settings(s5, config, mach, dt);
    let weight = vscale(
        global_to_local_spec(vec3(0, fneg(GRAVITY), 0), t.rotation),
        s6.current_mass,
    );
    let s7 = s6.with_force(weight, s6.center_of_mass);
    lemma_force_keeps_settings(s6, weight, s6.center_of_mass);
    let s8 = s7.after_wheels(config, t.rotation, t);
    lemma_wheels_keep_settings(s7, config, t);
    assert(s8 == state.after_simulate(config, dt, t)) by {
        reveal(FlightState::after_simulate);
    }
    lemma_motion_keeps_settings(s8, config, dt, t);
    assert(state.after_tick(config, dt, t) == s8.integrated(dt, t.rotation).after_variables(
        config,
        s8.moved(dt, t),
    ));
}

/// After a tick, whatever the state before it, every surface position
/// lies between retracted and extended, every surface command within full
/// travel, every trim within its bound, both throttle inputs within their
/// range and both throttle outputs between idle and full power.
pub proof fn lemma_tick_holds_ranges(state: FlightState, config: PlaneConfig, dt: i64, t: Transform)
    ensures
        in_range(settings(state.after_simulate(config, dt, t))),
        in_range(settings(state.after_tick(config, dt, t))),
{
    lemma_tick_settings(state, config, dt, t);
}

/// A hot-started aircraft still has both throttles at one half, its gear
/// switch off and its gear up after a tick of any length; its throttle
/// outputs are what the engine tables give at half throttle; and unless
/// the engines cut out, both are still switched on and their readouts are
/// what the tables give at half throttle.
pub proof fn lemma_hot_start_survives_tick(
    state: FlightState,
    config: PlaneConfig,
    dt: i64,
    t: Transform,
)
    ensures
        ({
            let after = state.hot().after_tick(config, dt, t);
            let tables = config.engine().tables;
            &&& after.left_throttle_input == HALF
            &&& after.right_throttle_input == HALF
            &&& !after.gear_switch
            &&& after.gear_pos == 0
            &&& after.left_throttle_output == throttle_output_spec(tables, HALF)
            &&& after.right_throttle_output == throttle_output_spec(tables, HALF)
            &&& !state.engines_cut_out() ==> {
                &&& after.left_engine_switch
                &&& after.right_engine_switch
                &&& after.left_engine_power_readout == power_readout_spec(tables, HALF)
                &&& after.right_engine_power_readout == power_readout_spec(tables, HALF)
            }
        }),
{
    let hot = state.hot();
    lemma_tick_settings(hot, config, dt, t);
    lemma_prepared_settings(hot);
    let start = hot.prepared();
    let mach = start.mach;
    let c = coefficients_spec(config, start, mach);
    let q = dynamic_pressure_spec(start.altitude_asl, start.airspeed);
    let aos = rad_spec(start.beta);
    let aoa = rad_spec(start.alpha);
    let flown = start.after_wings(
        config,
        c.alpha_max,
        c.lift,
        c.drag,
        q,
        start.wingspan,
        aos,
        aoa,
        c.cy_tail,
    ).after_elevator(config, aoa, q, mach).after_roll(aos, aoa, q).after_yaw(aos, q).after_other(
        config,
        q,
        c.omx_max,
        mach,
        aos,
    );
    lemma_engine_settings(flown, config, mach, dt);
    let after = hot.after_tick(config, dt, t);
    assert(settings(after) == settings(flown.after_engine(config, mach, dt)));
    assert(after.gear_pos == settings(after).gear_pos);
    assert(after.gear_switch == settings(after).gear_switch);
    assert(after.left_throttle_input == settings(after).left_throttle_input);
    assert(after.left_engine_switch == settings(after).left_engine_switch);
}

} // verus!
