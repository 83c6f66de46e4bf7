//! The forces on an aircraft and the integration of its motion.

use vstd::prelude::*;
use crate::fixed::{
    fabs, fadd, fdiv, fmax, fmin, fmul, fneg, fpow, fsqrt, fsub, fx_abs, fx_add, fx_div, fx_max,
    fx_min, fx_mul, fx_neg, fx_pow, fx_sqrt, fx_sub, HALF, SCALE, TWO,
};
use crate::trig::{atan2, atan2_spec, cos, cos_spec, sin, sin_spec};
use crate::geometry::{
    Euler, global_to_local, global_to_local_spec, local_to_global, local_to_global_spec,
    qaxis_angle, qeuler, qmul, qnormalize, Quat, Transform, vadd, vcross, vdiv, vec3, Vec3, vlen,
    vlen_sq, vnormalize, vscale, vsub, vzero,
};
use crate::plane::flight_model::{FlightModel, FlightState};
use crate::plane::plane_config::{EngineTables, PlaneConfig};
use crate::util::{
    actuator, actuator_spec, deg, deg_spec, limit, limit_spec, rad, rad_spec, rescale,
    rescale_spec, table_lerp, table_lerp_spec,
};

verus! {

// Numbers

/// Three.
pub const THREE: i64 = 3_000_000;

/// Five.
pub const FIVE: i64 = 5_000_000;

/// Six.
pub const SIX: i64 = 6_000_000;

/// Ten.
pub const TEN: i64 = 10_000_000;

/// Twelve.
pub const TWELVE: i64 = 12_000_000;

/// One hundred.
pub const HUNDRED: i64 = 100_000_000;

// Force and moment of the tick

impl FlightState {
    /// The state with a body-frame moment added to the tick's total.
    pub open spec fn with_moment(self, moment: Vec3) -> FlightState {
        FlightState { common_moment: vadd(self.common_moment, moment), ..self }
    }

    /// The state with a body-frame force acting at a body-frame point added
    /// to the tick's totals: the force itself, and its moment about the
    /// centre of mass.
    pub open spec fn with_force(self, force: Vec3, force_pos: Vec3) -> FlightState {
        FlightState {
            common_force: vadd(self.common_force, force),
            common_moment: vadd(
                self.common_moment,
                vcross(vsub(force_pos, self.center_of_mass), force),
            ),
            ..self
        }
    }
}

impl FlightModel {
    /// Adds a body-frame moment to the tick's total.
    pub fn add_local_moment(&mut self, moment: Vec3)
        ensures
            final(self).state == old(self).state.with_moment(moment),
            final(self).plane_config == old(self).plane_config,
            final(self).draw_vecs == old(self).draw_vecs,
    {
        self.state.common_moment = self.state.common_moment.plus(moment);
    }

    /// Adds a body-frame force acting at a body-frame point to the tick's
    /// totals.
    pub fn add_local_force(&mut self, force: Vec3, force_pos: Vec3)
        ensures
            final(self).state == old(self).state.with_force(force, force_pos),
            final(self).plane_config == old(self).plane_config,
            final(self).draw_vecs == old(self).draw_vecs,
    {
        self.state.common_force = self.state.common_force.plus(force);
        let delta_pos: Vec3 = force_pos.minus(self.state.center_of_mass);
        let delta_moment: Vec3 = delta_pos.cross(force);
        self.state.common_moment = self.state.common_moment.plus(delta_moment);
    }

    /// Records a force for display, as its world-frame direction and the
    /// world-frame point where it acts, and adds it to the tick's totals.
    pub fn add_local_force_draw(&mut self, force: Vec3, force_pos: Vec3, t: &Transform)
        ensures
            final(self).state == old(self).state.with_force(force, force_pos),
            final(self).plane_config == old(self).plane_config,
            final(self).draw_vecs@ == old(self).draw_vecs@.push(
                (
                    local_to_global_spec(force, t.rotation),
                    vadd(local_to_global_spec(force_pos, t.rotation), t.translation),
                ),
            ),
    {
        let gb_pos: Vec3 = local_to_global(force_pos, t.rotation).plus(t.translation);
        let rot: Vec3 = local_to_global(force, t.rotation);
        self.draw_vecs.push((rot, gb_pos));
        self.add_local_force(force, force_pos);
    }
}

// Air and aerodynamic coefficients

/// Altitudes, in metres, at which the air density is tabulated.
pub const ALTITUDE_M: [i64; 16] = [
    0,
    500_000_000,
    1_000_000_000,
    1_500_000_000,
    2_000_000_000,
    2_500_000_000,
    3_000_000_000,
    3_500_000_000,
    4_000_000_000,
    4_500_000_000,
    5_000_000_000,
    6_000_000_000,
    7_000_000_000,
    8_000_000_000,
    9_000_000_000,
    10_000_000_000,
];

/// Air density, in kilograms per cubic metre, at each tabulated altitude.
pub const AIR_DENSITY_KG_PER_M3: [i64; 16] = [
    1_225_000,
    1_167_000,
    1_112_000,
    1_058_000,
    1_007_000,
    957_000,
    909_000,
    863_000,
    819_000,
    777_000,
    736_000,
    660_000,
    590_000,
    525_000,
    467_000,
    414_000,
];

/// The share of the flaps' lift that fully extended slats add to the
/// greatest lift coefficient.
pub const SLAT_LIFT_SHARE: i64 = 400_000;

/// The density of the air at an altitude.
pub open spec fn air_density_spec(altitude: i64) -> i64 {
    table_lerp_spec(ALTITUDE_M@, AIR_DENSITY_KG_PER_M3@, altitude)
}

/// The dynamic pressure: half the air density times the airspeed squared.
pub open spec fn dynamic_pressure_spec(altitude: i64, airspeed: Vec3) -> i64 {
    fmul(fmul(HALF, air_density_spec(altitude)), vlen_sq(airspeed))
}

/// The aerodynamic coefficients of one tick.
pub struct Coefficients {
    /// The lift coefficient with the zero-lift and flap increments.
    pub lift: i64,
    /// The drag coefficient with the brake, flap and gear increments.
    pub drag: i64,
    /// The sideforce coefficient of the tail.
    pub cy_tail: i64,
    /// The stall angle, in degrees.
    pub alpha_max: i64,
    /// The greatest roll rate.
    pub omx_max: i64,
}

/// The aerodynamic coefficients at Mach number `mach` for the angles and
/// surface positions of `state`.
pub open spec fn coefficients_spec(config: PlaneConfig, state: FlightState, mach: i64)
    -> Coefficients {
    let aero = config.aerodynamics();
    let at = aero.tables;
    let cy_alpha = table_lerp_spec(at.mach@, at.Cya@, mach);
    let cx0 = table_lerp_spec(at.mach@, at.cx0@, mach);
    let cy_max = fadd(
        table_lerp_spec(at.mach@, at.CyMax@, mach),
        fmul(fmul(aero.cy_flap, SLAT_LIFT_SHARE), state.slats_pos),
    );
    let cy = limit_spec(fmul(cy_alpha, state.alpha), fneg(cy_max), cy_max);
    Coefficients {
        lift: fadd(fadd(cy, aero.Cy0), fmul(aero.cy_flap, state.flaps_pos)),
        drag: fadd(
            fadd(
                fadd(cx0, fmul(aero.cx_brk, state.airbrake_pos)),
                fmul(aero.cx_flap, state.flaps_pos),
            ),
            fmul(aero.cx_gear, state.gear_pos),
        ),
        cy_tail: limit_spec(
            fmul(fadd(fmul(HALF, cy_alpha), aero.Czbe), state.beta),
            fneg(cy_max),
            cy_max,
        ),
        alpha_max: table_lerp_spec(at.mach@, at.Aldop@, mach),
        omx_max: table_lerp_spec(at.mach@, at.OmxMax@, mach),
    }
}

pub fn air_density(altitude: i64) -> (rho: i64)
    ensures
        rho == air_density_spec(altitude),
{
    table_lerp(ALTITUDE_M.as_slice(), AIR_DENSITY_KG_PER_M3.as_slice(), altitude)
}

pub fn dynamic_pressure(altitude: i64, airspeed: Vec3) -> (q: i64)
    ensures
        q == dynamic_pressure_spec(altitude, airspeed),
{
    fx_mul(fx_mul(HALF, air_density(altitude)), airspeed.length_squared())
}

pub fn coefficients(config: &PlaneConfig, state: &FlightState, mach: i64) -> (c: Coefficients)
    ensures
        c == coefficients_spec(*config, *state, mach),
{
    let aero = config.aerodynamics();
    let at = &aero.tables;
    let cy_alpha: i64 = table_lerp(at.mach.as_slice(), at.Cya.as_slice(), mach);
    let cx0: i64 = table_lerp(at.mach.as_slice(), at.cx0.as_slice(), mach);
    let cy_max: i64 = fx_add(
        table_lerp(at.mach.as_slice(), at.CyMax.as_slice(), mach),
        fx_mul(fx_mul(aero.cy_flap, SLAT_LIFT_SHARE), state.slats_pos),
    );
    let cy: i64 = limit(fx_mul(cy_alpha, state.alpha), fx_neg(cy_max), cy_max);
    Coefficients {
        lift: fx_add(fx_add(cy, aero.Cy0), fx_mul(aero.cy_flap, state.flaps_pos)),
        drag: fx_add(
            fx_add(
                fx_add(cx0, fx_mul(aero.cx_brk, state.airbrake_pos)),
                fx_mul(aero.cx_flap, state.flaps_pos),
            ),
            fx_mul(aero.cx_gear, state.gear_pos),
        ),
        cy_tail: limit(
            fx_mul(fx_add(fx_mul(HALF, cy_alpha), aero.Czbe), state.beta),
            fx_neg(cy_max),
            cy_max,
        ),
        alpha_max: table_lerp(at.mach.as_slice(), at.Aldop.as_slice(), mach),
        omx_max: table_lerp(at.mach.as_slice(), at.OmxMax.as_slice(), mach),
    }
}

// Wings and tail

/// The share of the stall angle at which the wings' points of action
/// begin to move.
pub const STALL_ONSET: i64 = 750_000;

/// How far behind the centre of mass the wings act in attached flow.
pub const WING_OFFSET: i64 = 700_000;

pub const STALL_MARGIN: i64 = 1_100_000;

pub const STALL_SHIFT_DIVISOR: i64 = 2_000_000_000;

/// The wing is at or beyond the onset of stall.
pub open spec fn stalling_spec(alpha: i64, alpha_max: i64) -> bool {
    fdiv(fabs(alpha), alpha_max) >= STALL_ONSET
}

/// How far the wings' points of action slide aft with angle of attack, at
/// most a third of the aircraft's length.
pub open spec fn stall_shift_spec(alpha: i64, alpha_max: i64, length: i64) -> i64 {
    limit_spec(
        fdiv(fpow(fdiv(fabs(alpha), fmul(alpha_max, STALL_MARGIN)), 3), STALL_SHIFT_DIVISOR),
        0,
        fdiv(length, THREE),
    )
}

/// The longitudinal station at which a wing acts. `slip` is the sideslip
/// toward that wing, in radians.
pub open spec fn wing_station_spec(
    center_z: i64,
    alpha: i64,
    alpha_max: i64,
    length: i64,
    slip: i64,
) -> i64 {
    if stalling_spec(alpha, alpha_max) {
        fadd(
            fadd(center_z, WING_OFFSET),
            fadd(stall_shift_spec(alpha, alpha_max, length), limit_spec(fmul(slip, TEN), 0, SCALE)),
        )
    } else {
        fadd(center_z, WING_OFFSET)
    }
}

/// The force on one wing: half the lift upward and half the drag aft, each
/// skewed by the sideslip.
pub open spec fn wing_force_spec(lift: i64, drag: i64, q: i64, s: i64, aos: i64) -> Vec3 {
    let skew = sin_spec(fdiv(fneg(aos), TWO));
    vec3(
        0,
        fmul(fmul(fmul(lift, fadd(fdiv(skew, TWO), SCALE)), q), fdiv(s, TWO)),
        fmul(fmul(fmul(drag, fadd(skew, SCALE)), q), fdiv(s, TWO)),
    )
}

/// The force on the tail from sideslip.
pub open spec fn tail_force_spec(cy_tail: i64, q: i64, s: i64, aoa: i64) -> Vec3 {
    vec3(
        fmul(fmul(fmul(cy_tail, cos_spec(aoa)), q), fdiv(s, TWO)),
        0,
        fmul(fmul(fmul(fneg(fpow(fneg(cy_tail), 3)), sin_spec(aoa)), fdiv(s, TWO)), q),
    )
}

impl FlightState {
    /// The state after the wings and the tail have acted for one tick. Near
    /// and beyond the stall the wings' points of action slide aft.
    #[verifier::opaque]
    pub open spec fn after_wings(
        self,
        config: PlaneConfig,
        alpha_max: i64,
        lift: i64,
        drag: i64,
        q: i64,
        s: i64,
        aos: i64,
        aoa: i64,
        cy_tail: i64,
    ) -> FlightState {
        let left = Vec3 {
            z: wing_station_spec(
                self.center_of_mass.z,
                self.alpha,
                alpha_max,
                config.basic().length,
                fneg(aos),
            ),
            ..self.left_wing_pos
        };
        let right = Vec3 {
            z: wing_station_spec(
                self.center_of_mass.z,
                self.alpha,
                alpha_max,
                config.basic().length,
                aos,
            ),
            ..self.right_wing_pos
        };
        let wing = wing_force_spec(lift, drag, q, s, aos);
        (FlightState { left_wing_pos: left, right_wing_pos: right, ..self }).with_force(
            wing,
            left,
        ).with_force(wing, right).with_force(tail_force_spec(cy_tail, q, s, aoa), self.tail_pos)
    }
}

pub fn wing_station(center_z: i64, alpha: i64, alpha_max: i64, length: i64, slip: i64) -> (r: i64)
    ensures
        r == wing_station_spec(center_z, alpha, alpha_max, length, slip),
{
    if fx_div(fx_abs(alpha), alpha_max) >= STALL_ONSET {
        let shift: i64 = limit(
            fx_div(
                fx_pow(fx_div(fx_abs(alpha), fx_mul(alpha_max, STALL_MARGIN)), 3),
                STALL_SHIFT_DIVISOR,
            ),
            0,
            fx_div(length, THREE),
        );
        fx_add(fx_add(center_z, WING_OFFSET), fx_add(shift, limit(fx_mul(slip, TEN), 0, SCALE)))
    } else {
        fx_add(center_z, WING_OFFSET)
    }
}

pub fn wing_force(lift: i64, drag: i64, q: i64, s: i64, aos: i64) -> (f: Vec3)
    ensures
        f == wing_force_spec(lift, drag, q, s, aos),
{
    let skew: i64 = sin(fx_div(fx_neg(aos), TWO));
    Vec3::new(
        0,
        fx_mul(fx_mul(fx_mul(lift, fx_add(fx_div(skew, TWO), SCALE)), q), fx_div(s, TWO)),
        fx_mul(fx_mul(fx_mul(drag, fx_add(skew, SCALE)), q), fx_div(s, TWO)),
    )
}

pub fn tail_force(cy_tail: i64, q: i64, s: i64, aoa: i64) -> (f: Vec3)
    ensures
        f == tail_force_spec(cy_tail, q, s, aoa),
{
    Vec3::new(
        fx_mul(fx_mul(fx_mul(cy_tail, cos(aoa)), q), fx_div(s, TWO)),
        0,
        fx_mul(
            fx_mul(fx_mul(fx_neg(fx_pow(fx_neg(cy_tail), 3)), sin(aoa)), fx_div(s, TWO)),
            q,
        ),
    )
}

impl FlightModel {
    /// Applies the forces of the wings and the tail for one tick. The
    /// placement `t` is where the forces would be drawn; it is not read.
    pub fn update_wings(
        &mut self,
        alpha_max: i64,
        lift: i64,
        drag: i64,
        q: i64,
        s: i64,
        aos: i64,
        aoa: i64,
        t: &Transform,
        cy_tail: i64,
    )
        ensures
            final(self).state == old(self).state.after_wings(
                old(self).plane_config,
                alpha_max,
                lift,
                drag,
                q,
                s,
                aos,
                aoa,
                cy_tail,
            ),
            final(self).plane_config == old(self).plane_config,
            final(self).draw_vecs == old(self).draw_vecs,
    {
        proof {
            reveal(FlightState::after_wings);
        }
        let state: FlightState = self.state;
        let length: i64 = self.plane_config.basic().length;
        let left: Vec3 = Vec3 {
            x: state.left_wing_pos.x,
            y: state.left_wing_pos.y,
            z: wing_station(state.center_of_mass.z, state.alpha, alpha_max, length, fx_neg(aos)),
        };
        let right: Vec3 = Vec3 {
            x: state.right_wing_pos.x,
            y: state.right_wing_pos.y,
            z: wing_station(state.center_of_mass.z, state.alpha, alpha_max, length, aos),
        };
        let wing: Vec3 = wing_force(lift, drag, q, s, aos);
        let tail: Vec3 = tail_force(cy_tail, q, s, aoa);
        self.state = FlightState { left_wing_pos: left, right_wing_pos: right, ..state };
        self.add_local_force(wing, left);
        self.add_local_force(wing, right);
        self.add_local_force(tail, state.tail_pos);
    }
}

// Control channels

/// How far a held pitch key moves the pitch input in one tick.
pub const PITCH_STEP: i64 = 3_500;

/// The factor by which a released pitch input shrinks in one tick.
pub const PITCH_DECAY: i64 = 980_000;

/// A released nose-up pitch input shrinks only above this value.
pub const PITCH_UP_DEADBAND: i64 = 700_000;

/// A released nose-down pitch input shrinks only below this value.
pub const PITCH_DOWN_DEADBAND: i64 = -500_000;

pub const PITCH_TRIM_LIMIT: i64 = 300_000;

/// The most the elevator command moves in one tick.
pub const ELEVATOR_RATE: i64 = 12_500;

pub const ELEVATOR_BIAS: i64 = 150_000;

pub const ELEVATOR_GAIN: i64 = 14_000_000;

/// Elevator travel, in degrees, for positive and for negative commands.
pub const ELEVATOR_UP_DEGREES: i64 = 35_000_000;

pub const ELEVATOR_DOWN_DEGREES: i64 = -25_000_000;

/// The share of the maximum Mach number added to the Mach number before
/// the elevator's loss of authority with speed is taken.
pub const ELEVATOR_MACH_SHARE: i64 = 400_000;

pub const ELEVATOR_LEAST_AUTHORITY: i64 = 1_000;

pub const ROLL_STEP: i64 = 4_000;

pub const ROLL_DECAY: i64 = 900_000;

pub const ROLL_TRIM_LIMIT: i64 = 300_000;

pub const AILERON_RATE: i64 = 20_000;

/// Aileron and rudder travel to either side, in degrees.
pub const SURFACE_TRAVEL_DEGREES: i64 = 30_000_000;

pub const AILERON_GAIN: i64 = 4_000_000;

pub const YAW_STEP: i64 = 3_500;

pub const YAW_DECAY: i64 = 900_000;

pub const YAW_TRIM_LIMIT: i64 = 200_000;

pub const RUDDER_RATE: i64 = 12_000;

pub const RUDDER_GAIN: i64 = 1_500_000;

/// The pitch input after one tick of a key held (`discrete` of 1 or -1) or
/// released (0): a held key ramps the input to full travel; a released
/// input shrinks while it lies outside the deadband.
pub open spec fn pitch_ramp_spec(input: i64, discrete: i8) -> i64 {
    let raised = if discrete == 1 {
        fmin(fadd(input, PITCH_STEP), SCALE)
    } else {
        input
    };
    let eased = if discrete == 0 && raised > PITCH_UP_DEADBAND {
        fmul(raised, PITCH_DECAY)
    } else {
        raised
    };
    let lowered = if discrete == -1 {
        fmax(fsub(eased, PITCH_STEP), -SCALE as i64)
    } else {
        eased
    };
    if discrete == 0 && lowered < PITCH_DOWN_DEADBAND {
        fmul(lowered, PITCH_DECAY)
    } else {
        lowered
    }
}

/// The roll or yaw input after one tick of a key held or released: a held
/// key ramps the input by `step` to full travel; a released input shrinks
/// by the factor `decay`.
pub open spec fn ramp_spec(input: i64, discrete: i8, step: i64, decay: i64) -> i64 {
    let raised = if discrete == 1 {
        fmin(fadd(input, step), SCALE)
    } else {
        input
    };
    let lowered = if discrete == -1 {
        fmax(fsub(raised, step), -SCALE as i64)
    } else {
        raised
    };
    if discrete == 0 {
        fmul(lowered, decay)
    } else {
        lowered
    }
}

/// A surface command after one tick of tracking input plus trim at no more
/// than `rate` per tick, held to full travel.
pub open spec fn command_spec(command: i64, input: i64, trim: i64, rate: i64) -> i64 {
    limit_spec(
        actuator_spec(command, fadd(input, trim), fneg(rate), rate),
        -SCALE as i64,
        SCALE,
    )
}

/// The vertical force at the elevator: deflection, weakening with Mach
/// number, plus the damping of pitch rate and angle of attack, scaled by
/// half the dynamic pressure.
pub open spec fn elevator_force_spec(
    command: i64,
    pitch_rate: i64,
    aoa: i64,
    q: i64,
    mach: i64,
    mach_max: i64,
) -> i64 {
    let deflection = fmul(
        fmul(
            fneg(
                rescale_spec(
                    fadd(command, ELEVATOR_BIAS),
                    rad_spec(ELEVATOR_DOWN_DEGREES),
                    rad_spec(ELEVATOR_UP_DEGREES),
                ),
            ),
            ELEVATOR_GAIN,
        ),
        cos_spec(fdiv(aoa, TWO)),
    );
    let stability = fadd(fadd(aoa, fdiv(sin_spec(fdiv(aoa, TWO)), TWO)), fmul(pitch_rate, TWO));
    let authority = limit_spec(
        fsub(SCALE, fsqrt(fdiv(fadd(mach, fmul(mach_max, ELEVATOR_MACH_SHARE)), THREE))),
        ELEVATOR_LEAST_AUTHORITY,
        SCALE,
    );
    fdiv(
        fmul(fadd(fmul(deflection, authority), fmul(stability, fadd(fdiv(mach, TWO), SCALE))), q),
        TWO,
    )
}

/// The vertical force at the left aileron; the right aileron takes its
/// negation. Deflection plus roll damping, scaled by the dynamic pressure.
pub open spec fn aileron_force_spec(
    command: i64,
    roll_rate: i64,
    roll: i64,
    wingspan: i64,
    aos: i64,
    aoa: i64,
    q: i64,
) -> i64 {
    let deflection = fmul(
        rescale_spec(
            command,
            rad_spec(-SURFACE_TRAVEL_DEGREES as i64),
            rad_spec(SURFACE_TRAVEL_DEGREES),
        ),
        AILERON_GAIN,
    );
    let stability = fadd(
        fmul(
            fmul(
                fneg(roll_rate),
                fadd(fmul(fabs(fadd(aoa, HALF)), fabs(fadd(aos, HALF))), SCALE),
            ),
            fdiv(FIVE, wingspan),
        ),
        fmul(fdiv(sin_spec(roll), TWO), fabs(fdiv(aoa, TWO))),
    );
    fmul(fadd(deflection, stability), q)
}

/// The sideways force at the rudder, which acts twice: deflection plus
/// the damping of sideslip and yaw rate, scaled by the dynamic pressure.
pub open spec fn rudder_force_spec(command: i64, yaw_rate: i64, aos: i64, q: i64) -> i64 {
    let deflection = fmul(
        rescale_spec(
            command,
            rad_spec(-SURFACE_TRAVEL_DEGREES as i64),
            rad_spec(SURFACE_TRAVEL_DEGREES),
        ),
        RUDDER_GAIN,
    );
    let stability = fneg(fadd(fmul(aos, TWO), yaw_rate));
    fmul(fadd(deflection, stability), q)
}

impl FlightState {
    /// The state after the pitch channel has run for one tick.
    #[verifier::opaque]
    pub open spec fn after_elevator(self, config: PlaneConfig, aoa: i64, q: i64, mach: i64)
        -> FlightState {
        let input = if self.pitch_analog {
            limit_spec(self.pitch_input, -SCALE as i64, SCALE)
        } else {
            pitch_ramp_spec(self.pitch_input, self.pitch_discrete)
        };
        let trim = limit_spec(self.pitch_trim, -PITCH_TRIM_LIMIT as i64, PITCH_TRIM_LIMIT);
        let command = command_spec(self.elevator_command, input, trim, ELEVATOR_RATE);
        let force = elevator_force_spec(
            command,
            self.pitch_rate,
            aoa,
            q,
            mach,
            config.basic().mach_max,
        );
        (FlightState {
            pitch_input: input,
            pitch_trim: trim,
            elevator_command: command,
            ..self
        }).with_force(vec3(0, force, 0), self.elevator_pos)
    }

    /// The state after the roll channel has run for one tick.
    #[verifier::opaque]
    pub open spec fn after_roll(self, aos: i64, aoa: i64, q: i64) -> FlightState {
        let input = if self.roll_analog {
            limit_spec(self.roll_input, -SCALE as i64, SCALE)
        } else {
            ramp_spec(self.roll_input, self.roll_discrete, ROLL_STEP, ROLL_DECAY)
        };
        let trim = limit_spec(self.roll_trim, -ROLL_TRIM_LIMIT as i64, ROLL_TRIM_LIMIT);
        let command = command_spec(self.aileron_command, input, trim, AILERON_RATE);
        let force = aileron_force_spec(
            command,
            self.roll_rate,
            self.roll,
            self.wingspan,
            aos,
            aoa,
            q,
        );
        (FlightState {
            roll_input: input,
            roll_trim: trim,
            aileron_command: command,
            ..self
        }).with_force(vec3(0, force, 0), self.left_aileron_pos).with_force(
            vec3(0, fneg(force), 0),
            self.right_aileron_pos,
        )
    }

    /// The state after the yaw channel has run for one tick. The rudder
    /// force is applied twice at the rudder.
    #[verifier::opaque]
    pub open spec fn after_yaw(self, aos: i64, q: i64) -> FlightState {
        let input = if self.yaw_analog {
            limit_spec(self.yaw_input, -SCALE as i64, SCALE)
        } else {
            ramp_spec(self.yaw_input, self.yaw_discrete, YAW_STEP, YAW_DECAY)
        };
        let trim = limit_spec(self.yaw_trim, -YAW_TRIM_LIMIT as i64, YAW_TRIM_LIMIT);
        let command = command_spec(self.rudder_command, input, trim, RUDDER_RATE);
        let force = rudder_force_spec(command, self.yaw_rate, aos, q);
        (FlightState {
            yaw_input: input,
            yaw_trim: trim,
            rudder_command: command,
            ..self
        }).with_force(vec3(force, 0, 0), self.rudder_pos).with_force(
            vec3(force, 0, 0),
            self.rudder_pos,
        )
    }
}

pub fn pitch_ramp(input: i64, discrete: i8) -> (r: i64)
    ensures
        r == pitch_ramp_spec(input, discrete),
{
    let raised: i64 = if discrete == 1 {
        fx_min(fx_add(input, PITCH_STEP), SCALE)
    } else {
        input
    };
    let eased: i64 = if discrete == 0 && raised > PITCH_UP_DEADBAND {
        fx_mul(raised, PITCH_DECAY)
    } else {
        raised
    };
    let lowered: i64 = if discrete == -1 {
        fx_max(fx_sub(eased, PITCH_STEP), -SCALE)
    } else {
        eased
    };
    if discrete == 0 && lowered < PITCH_DOWN_DEADBAND {
        fx_mul(lowered, PITCH_DECAY)
    } else {
        lowered
    }
}

pub fn ramp(input: i64, discrete: i8, step: i64, decay: i64) -> (r: i64)
    ensures
        r == ramp_spec(input, discrete, step, decay),
{
    let raised: i64 = if discrete == 1 {
        fx_min(fx_add(input, step), SCALE)
    } else {
        input
    };
    let lowered: i64 = if discrete == -1 {
        fx_max(fx_sub(raised, step), -SCALE)
    } else {
        raised
    };
    if discrete == 0 {
        fx_mul(lowered, decay)
    } else {
        lowered
    }
}

pub fn command_step(command: i64, input: i64, trim: i64, rate: i64) -> (r: i64)
    ensures
        r == command_spec(command, input, trim, rate),
{
    limit(actuator(command, fx_add(input, trim), fx_neg(rate), rate), -SCALE, SCALE)
}

pub fn elevator_force(
    command: i64,
    pitch_rate: i64,
    aoa: i64,
    q: i64,
    mach: i64,
    mach_max: i64,
) -> (r: i64)
    ensures
        r == elevator_force_spec(command, pitch_rate, aoa, q, mach, mach_max),
{
    let deflection: i64 = fx_mul(
        fx_mul(
            fx_neg(
                rescale(
                    fx_add(command, ELEVATOR_BIAS),
                    rad(ELEVATOR_DOWN_DEGREES),
                    rad(ELEVATOR_UP_DEGREES),
                ),
            ),
            ELEVATOR_GAIN,
        ),
        cos(fx_div(aoa, TWO)),
    );
    let stability: i64 = fx_add(
        fx_add(aoa, fx_div(sin(fx_div(aoa, TWO)), TWO)),
        fx_mul(pitch_rate, TWO),
    );
    let authority: i64 = limit(
        fx_sub(SCALE, fx_sqrt(fx_div(fx_add(mach, fx_mul(mach_max, ELEVATOR_MACH_SHARE)), THREE))),
        ELEVATOR_LEAST_AUTHORITY,
        SCALE,
    );
    fx_div(
        fx_mul(
            fx_add(
                fx_mul(deflection, authority),
                fx_mul(stability, fx_add(fx_div(mach, TWO), SCALE)),
            ),
            q,
        ),
        TWO,
    )
}

pub fn aileron_force(
    command: i64,
    roll_rate: i64,
    roll: i64,
    wingspan: i64,
    aos: i64,
    aoa: i64,
    q: i64,
) -> (r: i64)
    ensures
        r == aileron_force_spec(command, roll_rate, roll, wingspan, aos, aoa, q),
{
    let deflection: i64 = fx_mul(
        rescale(command, rad(-SURFACE_TRAVEL_DEGREES), rad(SURFACE_TRAVEL_DEGREES)),
        AILERON_GAIN,
    );
    let stability: i64 = fx_add(
        fx_mul(
            fx_mul(
                fx_neg(roll_rate),
                fx_add(fx_mul(fx_abs(fx_add(aoa, HALF)), fx_abs(fx_add(aos, HALF))), SCALE),
            ),
            fx_div(FIVE, wingspan),
        ),
        fx_mul(fx_div(sin(roll), TWO), fx_abs(fx_div(aoa, TWO))),
    );
    fx_mul(fx_add(deflection, stability), q)
}

pub fn rudder_force(command: i64, yaw_rate: i64, aos: i64, q: i64) -> (r: i64)
    ensures
        r == rudder_force_spec(command, yaw_rate, aos, q),
{
    let deflection: i64 = fx_mul(
        rescale(command, rad(-SURFACE_TRAVEL_DEGREES), rad(SURFACE_TRAVEL_DEGREES)),
        RUDDER_GAIN,
    );
    let stability: i64 = fx_neg(fx_add(fx_mul(aos, TWO), yaw_rate));
    fx_mul(fx_add(deflection, stability), q)
}

impl FlightModel {
    /// Runs the pitch channel for one tick: input, trim, elevator command
    /// and the force at the elevator. The placement `t` is not read.
    pub fn update_elevator(&mut self, aoa: i64, q: i64, mach: &i64, t: &Transform)
        ensures
            final(self).state == old(self).state.after_elevator(
                old(self).plane_config,
                aoa,
                q,
                *mach,
            ),
            final(self).plane_config == old(self).plane_config,
            final(self).draw_vecs == old(self).draw_vecs,
    {
        proof {
            reveal(FlightState::after_elevator);
        }
        let state: FlightState = self.state;
        let input: i64 = if state.pitch_analog {
            limit(state.pitch_input, -SCALE, SCALE)
        } else {
            pitch_ramp(state.pitch_input, state.pitch_discrete)
        };
        let trim: i64 = limit(state.pitch_trim, -PITCH_TRIM_LIMIT, PITCH_TRIM_LIMIT);
        let command: i64 = command_step(state.elevator_command, input, trim, ELEVATOR_RATE);
        let force: i64 = elevator_force(
            command,
            state.pitch_rate,
            aoa,
            q,
            *mach,
            self.plane_config.basic().mach_max,
        );
        self.state = FlightState {
            pitch_input: input,
            pitch_trim: trim,
            elevator_command: command,
            ..state
        };
        self.add_local_force(Vec3::new(0, force, 0), state.elevator_pos);
    }

    /// Runs the roll channel for one tick: input, trim, aileron command
    /// and the opposed forces at the two ailerons. The placement `t` is not
    /// read.
    pub fn update_roll(&mut self, aos: i64, aoa: i64, q: i64, t: &Transform)
        ensures
            final(self).state == old(self).state.after_roll(aos, aoa, q),
            final(self).plane_config == old(self).plane_config,
            final(self).draw_vecs == old(self).draw_vecs,
    {
        proof {
            reveal(FlightState::after_roll);
        }
        let state: FlightState = self.state;
        let input: i64 = if state.roll_analog {
            limit(state.roll_input, -SCALE, SCALE)
        } else {
            ramp(state.roll_input, state.roll_discrete, ROLL_STEP, ROLL_DECAY)
        };
        let trim: i64 = limit(state.roll_trim, -ROLL_TRIM_LIMIT, ROLL_TRIM_LIMIT);
        let command: i64 = command_step(state.aileron_command, input, trim, AILERON_RATE);
        let force: i64 = aileron_force(
            command,
            state.roll_rate,
            state.roll,
            state.wingspan,
            aos,
            aoa,
            q,
        );
        self.state = FlightState {
            roll_input: input,
            roll_trim: trim,
            aileron_command: command,
            ..state
        };
        self.add_local_force(Vec3::new(0, force, 0), state.left_aileron_pos);
        self.add_local_force(Vec3::new(0, fx_neg(force), 0), state.right_aileron_pos);
    }

    /// Runs the yaw channel for one tick: input, trim, rudder command and
    /// the force at the rudder, which is applied twice. The placement `t`
    /// is not read.
    pub fn update_yaw(&mut self, aos: i64, q: i64, t: &Transform)
        ensures
            final(self).state == old(self).state.after_yaw(aos, q),
            final(self).plane_config == old(self).plane_config,
            final(self).draw_vecs == old(self).draw_vecs,
    {
        proof {
            reveal(FlightState::after_yaw);
        }
        let state: FlightState = self.state;
        let input: i64 = if state.yaw_analog {
            limit(state.yaw_input, -SCALE, SCALE)
        } else {
            ramp(state.yaw_input, state.yaw_discrete, YAW_STEP, YAW_DECAY)
        };
        let trim: i64 = limit(state.yaw_trim, -YAW_TRIM_LIMIT, YAW_TRIM_LIMIT);
        let command: i64 = command_step(state.rudder_command, input, trim, RUDDER_RATE);
        let force: i64 = rudder_force(command, state.yaw_rate, aos, q);
        self.state = FlightState {
            yaw_input: input,
            yaw_trim: trim,
            rudder_command: command,
            ..state
        };
        self.add_local_force(Vec3::new(force, 0, 0), state.rudder_pos);
        self.add_local_force(Vec3::new(force, 0, 0), state.rudder_pos);
    }
}

// Limiters

/// The pressure added to the dynamic pressure in the rate limiters.
pub const LIMITER_PRESSURE: i64 = 50_000_000_000;

/// The pressure added to twice the dynamic pressure in the roll-rate
/// limiter.
pub const ROLL_LIMITER_PRESSURE: i64 = 30_000_000_000;

/// The bound on the roll-rate and speed limiters.
pub const LIMITER_BOUND: i64 = 10_000_000_000_000;

pub const ROLL_RATE_MARGIN: i64 = 100_000;

pub const ROLL_RATIO_FLOOR: i64 = 100;

/// The yawing moment that steadies sharp turns.
pub open spec fn roll_yaw_moment_spec(roll_rate: i64, q: i64) -> i64 {
    fmul(fneg(fdiv(roll_rate, TWO)), fadd(q, LIMITER_PRESSURE))
}

/// The rolling moment that holds the roll rate near its maximum.
pub open spec fn roll_rate_limiter_spec(roll_rate: i64, omx_max: i64, q: i64) -> i64 {
    fmul(
        fneg(roll_rate),
        limit_spec(
            fmul(
                fpow(
                    limit_spec(
                        fdiv(fabs(roll_rate), fadd(omx_max, ROLL_RATE_MARGIN)),
                        ROLL_RATIO_FLOOR,
                        TWO,
                    ),
                    6,
                ),
                fadd(fadd(q, q), ROLL_LIMITER_PRESSURE),
            ),
            -LIMITER_BOUND as i64,
            LIMITER_BOUND,
        ),
    )
}

/// The yawing moment that damps yaw rate and sideslip.
pub open spec fn yaw_rate_limiter_spec(yaw_rate: i64, aos: i64, q: i64) -> i64 {
    fmul(fneg(fadd(yaw_rate, aos)), fadd(q, LIMITER_PRESSURE))
}

/// The aft force that holds the speed near the maximum Mach number.
pub open spec fn speed_limiter_spec(mach: i64, mach_max: i64, q: i64) -> i64 {
    limit_spec(
        fmul(fpow(fdiv(fabs(mach), mach_max), 5), fadd(q, LIMITER_PRESSURE)),
        -LIMITER_BOUND as i64,
        LIMITER_BOUND,
    )
}

impl FlightState {
    /// The state after the rate and speed limiters have acted for one tick.
    #[verifier::opaque]
    pub open spec fn after_other(
        self,
        config: PlaneConfig,
        q: i64,
        omx_max: i64,
        mach: i64,
        aos: i64,
    ) -> FlightState {
        self.with_moment(vec3(0, roll_yaw_moment_spec(self.roll_rate, q), 0)).with_moment(
            vec3(roll_rate_limiter_spec(self.roll_rate, omx_max, q), 0, 0),
        ).with_moment(vec3(0, yaw_rate_limiter_spec(self.yaw_rate, aos, q), 0)).with_force(
            vec3(0, 0, speed_limiter_spec(mach, config.basic().mach_max, q)),
            self.center_of_mass,
        )
    }
}

pub fn roll_yaw_moment(roll_rate: i64, q: i64) -> (m: i64)
    ensures
        m == roll_yaw_moment_spec(roll_rate, q),
{
    fx_mul(fx_neg(fx_div(roll_rate, TWO)), fx_add(q, LIMITER_PRESSURE))
}

pub fn roll_rate_limiter(roll_rate: i64, omx_max: i64, q: i64) -> (m: i64)
    ensures
        m == roll_rate_limiter_spec(roll_rate, omx_max, q),
{
    let ratio: i64 = limit(
        fx_div(fx_abs(roll_rate), fx_add(omx_max, ROLL_RATE_MARGIN)),
        ROLL_RATIO_FLOOR,
        TWO,
    );
    fx_mul(
        fx_neg(roll_rate),
        limit(
            fx_mul(fx_pow(ratio, 6), fx_add(fx_add(q, q), ROLL_LIMITER_PRESSURE)),
            -LIMITER_BOUND,
            LIMITER_BOUND,
        ),
    )
}

pub fn yaw_rate_limiter(yaw_rate: i64, aos: i64, q: i64) -> (m: i64)
    ensures
        m == yaw_rate_limiter_spec(yaw_rate, aos, q),
{
    fx_mul(fx_neg(fx_add(yaw_rate, aos)), fx_add(q, LIMITER_PRESSURE))
}

pub fn speed_limiter(mach: i64, mach_max: i64, q: i64) -> (f: i64)
    ensures
        f == speed_limiter_spec(mach, mach_max, q),
{
    limit(
        fx_mul(fx_pow(fx_div(fx_abs(mach), mach_max), 5), fx_add(q, LIMITER_PRESSURE)),
        -LIMITER_BOUND,
        LIMITER_BOUND,
    )
}

impl FlightModel {
    /// Applies the rate and speed limiters for one tick.
    pub fn update_other(&mut self, q: i64, omx_max: i64, mach: i64, aos: i64)
        ensures
            final(self).state == old(self).state.after_other(
                old(self).plane_config,
                q,
                omx_max,
                mach,
                aos,
            ),
            final(self).plane_config == old(self).plane_config,
            final(self).draw_vecs == old(self).draw_vecs,
    {
        proof {
            reveal(FlightState::after_other);
        }
        let state: FlightState = self.state;
        let mach_max: i64 = self.plane_config.basic().mach_max;
        self.add_local_moment(Vec3::new(0, roll_yaw_moment(state.roll_rate, q), 0));
        self.add_local_moment(Vec3::new(roll_rate_limiter(state.roll_rate, omx_max, q), 0, 0));
        self.add_local_moment(Vec3::new(0, yaw_rate_limiter(state.yaw_rate, aos, q), 0));
        self.add_local_force(
            Vec3::new(0, 0, speed_limiter(mach, mach_max, q)),
            state.center_of_mass,
        );
    }
}

// Engines

/// The altitude, in metres, above which the engines cut out.
pub const ENGINE_CEILING: i64 = 20_000_000_000;

/// The least throttle output of a running engine.
pub const IDLE_OUTPUT: i64 = 100_000;

/// The power that an engine delivers at a throttle input, never below idle.
pub open spec fn throttle_output_spec(tables: EngineTables, input: i64) -> i64 {
    limit_spec(
        table_lerp_spec(tables.throttle_input@, tables.engine_power@, input),
        IDLE_OUTPUT,
        SCALE,
    )
}

/// The power that the engine gauge shows at a throttle input.
pub open spec fn power_readout_spec(tables: EngineTables, input: i64) -> i64 {
    limit_spec(
        table_lerp_spec(tables.throttle_input@, tables.engine_power_readout@, input),
        0,
        SCALE,
    )
}

/// The thrust of one of two engines: its share of the maximum dry thrust
/// at its throttle output, thinned by altitude.
pub open spec fn thrust_spec(output: i64, max_dry_thrust: i64, alt_effect: i64) -> i64 {
    fmul(fmul(fmul(output, max_dry_thrust), alt_effect), HALF)
}

impl FlightState {
    /// The engines cut out: the fuel is spent or the air too thin.
    pub open spec fn engines_cut_out(self) -> bool {
        self.internal_fuel <= 0 || self.altitude_asl > ENGINE_CEILING
    }

    /// The state after the engines have run for one tick at Mach number
    /// `mach`: throttle inputs held to full travel, outputs and readouts
    /// looked up, thrust applied at the engine mounts. Engines that cut out
    /// are switched off and give no thrust, and their readouts fall from
    /// where they stood toward zero, by a tenth of the tick at most.
    #[verifier::opaque]
    pub open spec fn after_engine(self, config: PlaneConfig, mach: i64, dt: i64) -> FlightState {
        let tables = config.engine().tables;
        let max_dry_thrust = table_lerp_spec(tables.mach@, tables.max_thrust@, mach);
        let left_input = limit_spec(self.left_throttle_input, 0, SCALE);
        let right_input = limit_spec(self.right_throttle_input, 0, SCALE);
        let left_output = throttle_output_spec(tables, left_input);
        let right_output = throttle_output_spec(tables, right_input);
        let left_readout = power_readout_spec(tables, left_input);
        let right_readout = power_readout_spec(tables, right_input);
        let down = fdiv(fneg(dt), TEN);
        let up = fdiv(dt, TEN);
        let running = if self.engines_cut_out() {
            FlightState {
                left_throttle_input: left_input,
                right_throttle_input: right_input,
                left_throttle_output: left_output,
                right_throttle_output: right_output,
                left_engine_power_readout: actuator_spec(
                    self.left_engine_power_readout,
                    0,
                    down,
                    up,
                ),
                right_engine_power_readout: actuator_spec(
                    self.right_engine_power_readout,
                    0,
                    down,
                    up,
                ),
                left_thrust_force: 0,
                right_thrust_force: 0,
                left_engine_switch: false,
                right_engine_switch: false,
                ..self
            }
        } else {
            FlightState {
                left_throttle_input: left_input,
                right_throttle_input: right_input,
                left_throttle_output: left_output,
                right_throttle_output: right_output,
                left_engine_power_readout: left_readout,
                right_engine_power_readout: right_readout,
                left_thrust_force: thrust_spec(left_output, max_dry_thrust, self.engine_alt_effect),
                right_thrust_force: thrust_spec(
                    right_output,
                    max_dry_thrust,
                    self.engine_alt_effect,
                ),
                ..self
            }
        };
        running.with_force(
            vec3(0, 0, fneg(running.left_thrust_force)),
            self.left_engine_pos,
        ).with_force(vec3(0, 0, fneg(running.right_thrust_force)), self.right_engine_pos)
    }
}

pub fn throttle_output(tables: &EngineTables, input: i64) -> (r: i64)
    requires
        tables.throttle_input@.len() == tables.engine_power@.len(),
    ensures
        r == throttle_output_spec(*tables, input),
{
    limit(
        table_lerp(tables.throttle_input.as_slice(), tables.engine_power.as_slice(), input),
        IDLE_OUTPUT,
        SCALE,
    )
}

pub fn power_readout(tables: &EngineTables, input: i64) -> (r: i64)
    requires
        tables.throttle_input@.len() == tables.engine_power_readout@.len(),
    ensures
        r == power_readout_spec(*tables, input),
{
    limit(
        table_lerp(
            tables.throttle_input.as_slice(),
            tables.engine_power_readout.as_slice(),
            input,
        ),
        0,
        SCALE,
    )
}

pub fn thrust(output: i64, max_dry_thrust: i64, alt_effect: i64) -> (r: i64)
    ensures
        r == thrust_spec(output, max_dry_thrust, alt_effect),
{
    fx_mul(fx_mul(fx_mul(output, max_dry_thrust), alt_effect), HALF)
}

impl FlightModel {
    /// Runs both engines for one tick at Mach number `mach`. The placement
    /// `t` is not read.
    pub fn sim_engine(&mut self, mach: &i64, dt: &i64, t: &Transform)
        ensures
            final(self).state == old(self).state.after_engine(old(self).plane_config, *mach, *dt),
            final(self).plane_config == old(self).plane_config,
            final(self).draw_vecs == old(self).draw_vecs,
    {
        proof {
            reveal(FlightState::after_engine);
        }
        let state: FlightState = self.state;
        let max_dry_thrust: i64 = table_lerp(
            self.plane_config.engine().tables.mach.as_slice(),
            self.plane_config.engine().tables.max_thrust.as_slice(),
            *mach,
        );
        let left_input: i64 = limit(state.left_throttle_input, 0, SCALE);
        let right_input: i64 = limit(state.right_throttle_input, 0, SCALE);
        let left_output: i64 = throttle_output(&self.plane_config.engine().tables, left_input);
        let right_output: i64 = throttle_output(&self.plane_config.engine().tables, right_input);
        let left_readout: i64 = power_readout(&self.plane_config.engine().tables, left_input);
        let right_readout: i64 = power_readout(&self.plane_config.engine().tables, right_input);
        let down: i64 = fx_div(fx_neg(*dt), TEN);
        let up: i64 = fx_div(*dt, TEN);
        let running: FlightState = if state.internal_fuel <= 0 || state.altitude_asl
            > ENGINE_CEILING {
            FlightState {
                left_throttle_input: left_input,
                right_throttle_input: right_input,
                left_throttle_output: left_output,
                right_throttle_output: right_output,
                left_engine_power_readout: actuator(state.left_engine_power_readout, 0, down, up),
                right_engine_power_readout: actuator(
                    state.right_engine_power_readout,
                    0,
                    down,
                    up,
                ),
                left_thrust_force: 0,
                right_thrust_force: 0,
                left_engine_switch: false,
                right_engine_switch: false,
                ..state
            }
        } else {
            FlightState {
                left_throttle_input: left_input,
                right_throttle_input: right_input,
                left_throttle_output: left_output,
                right_throttle_output: right_output,
                left_engine_power_readout: left_readout,
                right_engine_power_readout: right_readout,
                left_thrust_force: thrust(left_output, max_dry_thrust, state.engine_alt_effect),
                right_thrust_force: thrust(right_output, max_dry_thrust, state.engine_alt_effect),
                ..state
            }
        };
        self.state = running;
        self.add_local_force(
            Vec3::new(0, 0, fx_neg(running.left_thrust_force)),
            state.left_engine_pos,
        );
        self.add_local_force(
            Vec3::new(0, 0, fx_neg(running.right_thrust_force)),
            state.right_engine_pos,
        );
    }
}

// Ground contact

/// The height of the ground plane.
pub const GROUND_HEIGHT: i64 = 0;

pub const WHEEL_RADIUS: i64 = 300_000;

/// The damping of a wheel strut, in newtons per metre per second.
pub const WHEEL_DAMPING: i64 = 200_000_000_000;

/// The stiffness of a wheel strut, in newtons per metre.
pub const WHEEL_SPRING: i64 = 4_000_000_000_000;

/// The force of a damped spring compressed by `x` and compressing at the
/// rate `dx`.
pub open spec fn sec_order_sim_spec(x: i64, dx: i64, spring: i64, damp: i64) -> i64 {
    fadd(fmul(fneg(dx), damp), fmul(x, spring))
}

/// How deep the bottom of a wheel at height `wheel_y` lies under the ground.
pub open spec fn penetration_spec(wheel_y: i64, ground_height: i64, wheel_radius: i64) -> i64 {
    fsub(ground_height, fsub(wheel_y, wheel_radius))
}

impl FlightState {
    /// The state after one wheel has been checked against the ground. A
    /// wheel below the ground marks the aircraft as on the ground and
    /// pushes back with the force of its strut; a wheel clear of the ground
    /// marks the aircraft as off the ground.
    #[verifier::opaque]
    pub open spec fn after_wheel(
        self,
        wheel_pos: Vec3,
        local_pos: Vec3,
        ground_height: i64,
        wheel_radius: i64,
        rotation: Quat,
        multi: i64,
    ) -> FlightState {
        let penetration = penetration_spec(wheel_pos.y, ground_height, wheel_radius);
        if penetration > 0 {
            let total = sec_order_sim_spec(
                penetration,
                self.velocity.y,
                WHEEL_SPRING,
                WHEEL_DAMPING,
            );
            (FlightState { on_ground: true, ..self }).with_force(
                vscale(global_to_local_spec(vec3(0, total, 0), rotation), multi),
                local_pos,
            )
        } else {
            FlightState { on_ground: false, ..self }
        }
    }

    /// The state after the front, the rear left and the rear right wheel
    /// have been checked, in that order.
    #[verifier::opaque]
    pub open spec fn after_wheels(self, config: PlaneConfig, gr: Quat, transform: Transform)
        -> FlightState {
        let wheels = config.structure();
        self.after_wheel(
            vadd(local_to_global_spec(wheels.front_wheel, gr), transform.translation),
            wheels.front_wheel,
            GROUND_HEIGHT,
            WHEEL_RADIUS,
            gr,
            SCALE,
        ).after_wheel(
            vadd(local_to_global_spec(wheels.back_left_wheel, gr), transform.translation),
            wheels.back_left_wheel,
            GROUND_HEIGHT,
            WHEEL_RADIUS,
            gr,
            SCALE,
        ).after_wheel(
            vadd(local_to_global_spec(wheels.back_right_wheel, gr), transform.translation),
            wheels.back_right_wheel,
            GROUND_HEIGHT,
            WHEEL_RADIUS,
            gr,
            SCALE,
        )
    }
}

pub fn sec_order_sim(x: i64, dx: i64, spring: i64, damp: i64) -> (total: i64)
    ensures
        total == sec_order_sim_spec(x, dx, spring, damp),
{
    let damp_f: i64 = fx_mul(fx_neg(dx), damp);
    fx_add(damp_f, fx_mul(x, spring))
}

impl FlightModel {
    /// Checks one wheel, at `wheel_pos` in the world and `local_pos` on the
    /// aircraft, against the ground.
    pub fn check_wheel(
        &mut self,
        wheel_pos: Vec3,
        local_pos: Vec3,
        ground_height: i64,
        wheel_radius: i64,
        rotation: Quat,
        multi: i64,
    )
        ensures
            final(self).state == old(self).state.after_wheel(
                wheel_pos,
                local_pos,
                ground_height,
                wheel_radius,
                rotation,
                multi,
            ),
            final(self).plane_config == old(self).plane_config,
            final(self).draw_vecs == old(self).draw_vecs,
    {
        proof {
            reveal(FlightState::after_wheel);
        }
        let penetration: i64 = fx_sub(ground_height, fx_sub(wheel_pos.y, wheel_radius));
        if penetration > 0 {
            self.state.on_ground = true;
            let total: i64 = sec_order_sim(
                penetration,
                self.state.velocity.y,
                WHEEL_SPRING,
                WHEEL_DAMPING,
            );
            let upward_force: Vec3 = global_to_local(Vec3::new(0, total, 0), rotation);
            self.add_local_force(upward_force.scaled(multi), local_pos);
        } else {
            self.state.on_ground = false;
        }
    }

    /// Checks the three wheels against the ground.
    pub fn wheel_on_ground(&mut self, gr: Quat, transform: &Transform)
        ensures
            final(self).state == old(self).state.after_wheels(
                old(self).plane_config,
                gr,
                *transform,
            ),
            final(self).plane_config == old(self).plane_config,
            final(self).draw_vecs == old(self).draw_vecs,
    {
        proof {
            reveal(FlightState::after_wheels);
        }
        let front: Vec3 = self.plane_config.structure().front_wheel;
        let back_left: Vec3 = self.plane_config.structure().back_left_wheel;
        let back_right: Vec3 = self.plane_config.structure().back_right_wheel;

        let fwp: Vec3 = local_to_global(front, gr).plus(transform.translation);
        let blwp: Vec3 = local_to_global(back_left, gr).plus(transform.translation);
        let brwp: Vec3 = local_to_global(back_right, gr).plus(transform.translation);

        self.check_wheel(fwp, front, GROUND_HEIGHT, WHEEL_RADIUS, gr, SCALE);
        self.check_wheel(blwp, back_left, GROUND_HEIGHT, WHEEL_RADIUS, gr, SCALE);
        self.check_wheel(brwp, back_right, GROUND_HEIGHT, WHEEL_RADIUS, gr, SCALE);
    }
}

// The forces of one tick

/// The acceleration of free fall, in metres per second squared.
pub const GRAVITY: i64 = 9_810_000;

/// How far the landing gear travels in one tick.
pub const GEAR_RATE: i64 = 1_000;

/// How far the airbrake opens in one tick.
pub const AIRBRAKE_OPEN_RATE: i64 = 4_000;

/// How far the airbrake closes in one tick.
pub const AIRBRAKE_CLOSE_RATE: i64 = -3_000;

/// How far the flaps travel in one tick.
pub const FLAPS_RATE: i64 = 2_000;

/// How far the slats travel in one tick.
pub const SLATS_RATE: i64 = 3_000;

/// The angle of attack, in degrees, at which the slats begin to extend.
pub const SLATS_ONSET: i64 = 6_000_000;

/// The position that a switch asks of its surface.
pub open spec fn switch_target_spec(on: bool) -> i64 {
    if on {
        SCALE
    } else {
        0
    }
}

/// A surface position after one tick of travel toward `target`, held
/// between retracted and extended.
pub open spec fn surface_spec(pos: i64, target: i64, down: i64, up: i64) -> i64 {
    limit_spec(actuator_spec(pos, target, down, up), 0, SCALE)
}

impl FlightState {
    /// The state at the start of a tick: force and moment cleared, gear,
    /// airbrake, flaps and slats moved one step, airspeed and Mach number
    /// taken.
    #[verifier::opaque]
    pub open spec fn prepared(self) -> FlightState {
        FlightState {
            common_moment: vzero(),
            common_force: vzero(),
            gear_pos: surface_spec(
                self.gear_pos,
                switch_target_spec(self.gear_switch),
                -GEAR_RATE as i64,
                GEAR_RATE,
            ),
            airbrake_pos: surface_spec(
                self.airbrake_pos,
                switch_target_spec(self.airbrake_switch),
                AIRBRAKE_CLOSE_RATE,
                AIRBRAKE_OPEN_RATE,
            ),
            flaps_pos: surface_spec(
                self.flaps_pos,
                switch_target_spec(self.flaps_switch),
                -FLAPS_RATE as i64,
                FLAPS_RATE,
            ),
            slats_pos: surface_spec(
                self.slats_pos,
                fdiv(fsub(self.alpha, SLATS_ONSET), TWELVE),
                -SLATS_RATE as i64,
                SLATS_RATE,
            ),
            airspeed: self.velocity_local,
            mach: fdiv(vlen(self.velocity_local), self.speed_of_sound),
            ..self
        }
    }

    /// The state after all forces of one tick have been gathered for an
    /// aircraft placed at `t`: surfaces, wings and tail, the three control
    /// channels, the limiters, the engines, gravity and the wheels.
    #[verifier::opaque]
    pub open spec fn after_simulate(self, config: PlaneConfig, dt: i64, t: Transform)
        -> FlightState {
        let start = self.prepared();
        let mach = start.mach;
        let c = coefficients_spec(config, start, mach);
        let q = dynamic_pressure_spec(start.altitude_asl, start.airspeed);
        let aos = rad_spec(start.beta);
        let aoa = rad_spec(start.alpha);
        let flown = start.after_wings(
            config,
            c.alpha_max,
            c.lift,
            c.drag,
            q,
            start.wingspan,
            aos,
            aoa,
            c.cy_tail,
        ).after_elevator(config, aoa, q, mach).after_roll(aos, aoa, q).after_yaw(aos, q)
            .after_other(config, q, c.omx_max, mach, aos).after_engine(config, mach, dt);
        flown.with_force(
            vscale(global_to_local_spec(vec3(0, fneg(GRAVITY), 0), t.rotation), flown.current_mass),
            flown.center_of_mass,
        ).after_wheels(config, t.rotation, t)
    }
}

pub fn switch_target(on: bool) -> (r: i64)
    ensures
        r == switch_target_spec(on),
{
    if on {
        SCALE
    } else {
        0
    }
}

pub fn surface(pos: i64, target: i64, down: i64, up: i64) -> (r: i64)
    ensures
        r == surface_spec(pos, target, down, up),
{
    limit(actuator(pos, target, down, up), 0, SCALE)
}

pub fn prepare(state: FlightState) -> (start: FlightState)
    ensures
        start == state.prepared(),
{
    proof {
        reveal(FlightState::prepared);
    }
    FlightState {
        common_moment: Vec3::zero(),
        common_force: Vec3::zero(),
        gear_pos: surface(state.gear_pos, switch_target(state.gear_switch), -GEAR_RATE, GEAR_RATE),
        airbrake_pos: surface(
            state.airbrake_pos,
            switch_target(state.airbrake_switch),
            AIRBRAKE_CLOSE_RATE,
            AIRBRAKE_OPEN_RATE,
        ),
        flaps_pos: surface(
            state.flaps_pos,
            switch_target(state.flaps_switch),
            -FLAPS_RATE,
            FLAPS_RATE,
        ),
        slats_pos: surface(
            state.slats_pos,
            fx_div(fx_sub(state.alpha, SLATS_ONSET), TWELVE),
            -SLATS_RATE,
            SLATS_RATE,
        ),
        airspeed: state.velocity_local,
        mach: fx_div(state.velocity_local.length(), state.speed_of_sound),
        ..state
    }
}

impl FlightModel {
    /// Gathers the forces and moments of one tick for an aircraft placed
    /// at `t`.
    pub fn simulate(&mut self, dt: i64, t: &Transform)
        ensures
            final(self).state == old(self).state.after_simulate(old(self).plane_config, dt, *t),
            final(self).plane_config == old(self).plane_config,
            final(self).draw_vecs@ == Seq::<(Vec3, Vec3)>::empty(),
    {
        proof {
            reveal(FlightState::after_simulate);
        }
        self.draw_vecs = Vec::new();
        let start: FlightState = prepare(self.state);
        self.state = start;
        let mach: i64 = start.mach;
        let c: Coefficients = coefficients(&self.plane_config, &start, mach);
        let q: i64 = dynamic_pressure(start.altitude_asl, start.airspeed);
        let aos: i64 = rad(start.beta);
        let aoa: i64 = rad(start.alpha);
        let s: i64 = start.wingspan;

        self.update_wings(c.alpha_max, c.lift, c.drag, q, s, aos, aoa, t, c.cy_tail);
        self.update_elevator(aoa, q, &mach, t);
        self.update_roll(aos, aoa, q, t);
        self.update_yaw(aos, q, t);
        self.update_other(q, c.omx_max, mach, aos);
        self.sim_engine(&mach, &dt, t);

        let l_grav: Vec3 = global_to_local(Vec3::new(0, fx_neg(GRAVITY), 0), t.rotation).scaled(
            self.state.current_mass,
        );
        let center: Vec3 = self.state.center_of_mass;
        self.add_local_force(l_grav, center);

        self.wheel_on_ground(t.rotation, t);
    }
}

// Integration

/// The turn in one tick, in radians, below which the orientation is left
/// as it is.
pub const LEAST_TURN: i64 = 10;

/// The angular acceleration about each body axis: the moment over the
/// moment of inertia about that axis.
pub open spec fn angular_acceleration_spec(moment: Vec3, inertia: Vec3) -> Vec3 {
    vec3(fdiv(moment.x, inertia.x), fdiv(moment.y, inertia.y), fdiv(moment.z, inertia.z))
}

/// The orientation after turning for `dt` at the world-frame angular
/// velocity `spin`: unchanged where the turn is below the least turn.
pub open spec fn turned_spec(rotation: Quat, spin: Vec3, dt: i64) -> Quat {
    let angle = fmul(vlen(spin), dt);
    if angle >= LEAST_TURN {
        qnormalize(qmul(qaxis_angle(vnormalize(spin), angle), rotation))
    } else {
        rotation
    }
}

impl FlightState {
    /// The state after the accumulated force and moment have acted for
    /// `dt` on an aircraft turned by `rotation`: the velocities integrated.
    #[verifier::opaque]
    pub open spec fn integrated(self, dt: i64, rotation: Quat) -> FlightState {
        let global_acceleration = local_to_global_spec(
            vdiv(self.common_force, self.current_mass),
            rotation,
        );
        FlightState {
            velocity: vadd(self.velocity, vscale(global_acceleration, dt)),
            angular_velocity: vadd(
                self.angular_velocity,
                vscale(angular_acceleration_spec(self.common_moment, self.moment_of_inertia), dt),
            ),
            ..self
        }
    }

    /// Where an aircraft stands after its velocities have been integrated
    /// and have carried it for `dt`.
    pub open spec fn moved(self, dt: i64, transform: Transform) -> Transform {
        let next = self.integrated(dt, transform.rotation);
        Transform {
            translation: vadd(transform.translation, vscale(next.velocity, dt)),
            rotation: turned_spec(
                transform.rotation,
                local_to_global_spec(next.angular_velocity, transform.rotation),
                dt,
            ),
        }
    }
}

impl FlightModel {
    /// Integrates the motion over `dt`: the accumulated force and moment
    /// change the velocities, and the new velocities carry and turn the
    /// aircraft.
    pub fn transform(&mut self, dt: i64, transform: &mut Transform)
        ensures
            final(self).state == old(self).state.integrated(dt, old(transform).rotation),
            *final(transform) == old(self).state.moved(dt, *old(transform)),
            final(self).plane_config == old(self).plane_config,
            final(self).draw_vecs == old(self).draw_vecs,
    {
        proof {
            reveal(FlightState::integrated);
        }
        let state: FlightState = self.state;
        let rotation: Quat = transform.rotation;

        let local_acceleration: Vec3 = state.common_force.divided(state.current_mass);
        let global_acceleration: Vec3 = local_to_global(local_acceleration, rotation);
        let velocity: Vec3 = state.velocity.plus(global_acceleration.scaled(dt));

        let angular_acceleration: Vec3 = Vec3::new(
            fx_div(state.common_moment.x, state.moment_of_inertia.x),
            fx_div(state.common_moment.y, state.moment_of_inertia.y),
            fx_div(state.common_moment.z, state.moment_of_inertia.z),
        );
        let angular_velocity: Vec3 = state.angular_velocity.plus(angular_acceleration.scaled(dt));

        self.state = FlightState { velocity, angular_velocity, ..state };

        let world_angular_velocity: Vec3 = local_to_global(angular_velocity, rotation);
        let angle: i64 = fx_mul(world_angular_velocity.length(), dt);
        let turned: Quat = if angle >= LEAST_TURN {
            let axis: Vec3 = world_angular_velocity.normalized();
            Quat::from_axis_angle(axis, angle).times(rotation).normalized()
        } else {
            rotation
        };
        *transform = Transform {
            translation: transform.translation.plus(velocity.scaled(dt)),
            rotation: turned,
        };
    }
}

// Readings

/// The speed, in metres per second, below which the angles of attack and
/// sideslip read zero.
pub const LEAST_AIRSPEED: i64 = 10_000_000;

/// Angle of attack and sideslip, in degrees, above which the airframe
/// shakes in flight.
pub const SHAKE_ANGLE: i64 = 10_000_000;

/// The load factor above which the airframe shakes in flight.
pub const SHAKE_G: i64 = 5_000_000;

/// The share of the maximum Mach number above which the airframe shakes
/// in flight.
pub const SHAKE_MACH_SHARE: i64 = 800_000;

/// What one reading adds to the shaking: a hundredth of its excess over
/// the threshold.
pub open spec fn shake_excess_spec(reading: i64, threshold: i64) -> i64 {
    if fabs(reading) > threshold {
        fdiv(fsub(fabs(reading), threshold), HUNDRED)
    } else {
        0
    }
}

/// The shaking of the airframe in flight: the airbrake at speed, high
/// angle of attack, high sideslip, high load factor and a Mach number near
/// the maximum. On the ground nothing shakes.
pub open spec fn shake_spec(
    cx_brk: i64,
    mach_max: i64,
    airbrake_pos: i64,
    on_ground: bool,
    alpha: i64,
    beta: i64,
    g: i64,
    mach: i64,
) -> i64 {
    if on_ground {
        0
    } else {
        let brake = fdiv(
            limit_spec(fmul(fmul(fadd(cx_brk, SCALE), airbrake_pos), mach), 0, TWO),
            SIX,
        );
        let with_alpha = fadd(brake, shake_excess_spec(alpha, SHAKE_ANGLE));
        let with_beta = fadd(with_alpha, shake_excess_spec(beta, SHAKE_ANGLE));
        let with_g = fadd(with_beta, shake_excess_spec(g, SHAKE_G));
        if mach > fmul(mach_max, SHAKE_MACH_SHARE) {
            fadd(with_g, fdiv(fsub(mach, fmul(mach_max, SHAKE_MACH_SHARE)), TWO))
        } else {
            with_g
        }
    }
}

impl FlightState {
    /// The state with the readings taken anew from the motion and the
    /// placement of the aircraft: body-frame velocity, angles of attack and
    /// sideslip (zero below the least airspeed), Mach number, attitude in
    /// degrees, body rates, load factor, altitude and shaking.
    #[verifier::opaque]
    pub open spec fn after_variables(self, config: PlaneConfig, transform: Transform)
        -> FlightState {
        let velocity_local = global_to_local_spec(self.velocity, transform.rotation);
        let forward = fneg(velocity_local.z);
        let fast = vlen(self.velocity) >= LEAST_AIRSPEED;
        let angles = qeuler(transform.rotation);
        let alpha = if fast {
            fneg(deg_spec(atan2_spec(velocity_local.y, forward)))
        } else {
            0
        };
        let beta = if fast {
            deg_spec(atan2_spec(velocity_local.x, forward))
        } else {
            0
        };
        let mach = fdiv(vlen(velocity_local), self.speed_of_sound);
        let g = fadd(fdiv(fdiv(self.common_force.y, self.current_mass), GRAVITY), SCALE);
        FlightState {
            velocity_local: velocity_local,
            alpha: alpha,
            beta: beta,
            mach: mach,
            heading: deg_spec(angles.heading),
            pitch: deg_spec(angles.pitch),
            roll: deg_spec(angles.roll),
            roll_rate: fneg(self.angular_velocity.z),
            yaw_rate: self.angular_velocity.y,
            pitch_rate: self.angular_velocity.x,
            g: g,
            altitude_asl: transform.translation.y,
            shake_amplitude: shake_spec(
                config.aerodynamics().cx_brk,
                config.basic().mach_max,
                self.airbrake_pos,
                self.on_ground,
                alpha,
                beta,
                g,
                mach,
            ),
            ..self
        }
    }
}

pub fn shake_excess(reading: i64, threshold: i64) -> (r: i64)
    ensures
        r == shake_excess_spec(reading, threshold),
{
    if fx_abs(reading) > threshold {
        fx_div(fx_sub(fx_abs(reading), threshold), HUNDRED)
    } else {
        0
    }
}

pub fn shake(
    cx_brk: i64,
    mach_max: i64,
    airbrake_pos: i64,
    on_ground: bool,
    alpha: i64,
    beta: i64,
    g: i64,
    mach: i64,
) -> (r: i64)
    ensures
        r == shake_spec(cx_brk, mach_max, airbrake_pos, on_ground, alpha, beta, g, mach),
{
    if on_ground {
        0
    } else {
        let brake: i64 = fx_div(
            limit(fx_mul(fx_mul(fx_add(cx_brk, SCALE), airbrake_pos), mach), 0, TWO),
            SIX,
        );
        let with_alpha: i64 = fx_add(brake, shake_excess(alpha, SHAKE_ANGLE));
        let with_beta: i64 = fx_add(with_alpha, shake_excess(beta, SHAKE_ANGLE));
        let with_g: i64 = fx_add(with_beta, shake_excess(g, SHAKE_G));
        if mach > fx_mul(mach_max, SHAKE_MACH_SHARE) {
            fx_add(with_g, fx_div(fx_sub(mach, fx_mul(mach_max, SHAKE_MACH_SHARE)), TWO))
        } else {
            with_g
        }
    }
}

impl FlightModel {
    /// Takes the readings anew from the motion and the placement of the
    /// aircraft.
    pub fn update_variables(&mut self, transform: &Transform)
        ensures
            final(self).state == old(self).state.after_variables(
                old(self).plane_config,
                *transform,
            ),
            final(self).plane_config == old(self).plane_config,
            final(self).draw_vecs == old(self).draw_vecs,
    {
        proof {
            reveal(FlightState::after_variables);
        }
        let state: FlightState = self.state;
        let velocity_local: Vec3 = global_to_local(state.velocity, transform.rotation);
        let forward: i64 = fx_neg(velocity_local.z);
        let fast: bool = state.velocity.length() >= LEAST_AIRSPEED;
        let alpha: i64 = if fast {
            fx_neg(deg(atan2(velocity_local.y, forward)))
        } else {
            0
        };
        let beta: i64 = if fast {
            deg(atan2(velocity_local.x, forward))
        } else {
            0
        };
        let mach: i64 = fx_div(velocity_local.length(), state.speed_of_sound);
        let g: i64 = fx_add(
            fx_div(fx_div(state.common_force.y, state.current_mass), GRAVITY),
            SCALE,
        );
        let angles: Euler = transform.rotation.to_euler();
        let shake_amplitude: i64 = shake(
            self.plane_config.aerodynamics().cx_brk,
            self.plane_config.basic().mach_max,
            state.airbrake_pos,
            state.on_ground,
            alpha,
            beta,
            g,
            mach,
        );
        self.state = FlightState {
            velocity_local,
            alpha,
            beta,
            mach,
            heading: deg(angles.heading),
            pitch: deg(angles.pitch),
            roll: deg(angles.roll),
            roll_rate: fx_neg(state.angular_velocity.z),
            yaw_rate: state.angular_velocity.y,
            pitch_rate: state.angular_velocity.x,
            g,
            altitude_asl: transform.translation.y,
            shake_amplitude,
            ..state
        };
    }
}

// Hot start

/// The speed, in metres per second, at which a hot-started aircraft flies.
pub const HOT_START_SPEED: i64 = 200_000_000;

impl FlightState {
    /// The state of an aircraft in flight with its engines running: gear
    /// up, both engines on at half throttle, flying forward at 200 metres
    /// per second.
    pub open spec fn hot(self) -> FlightState {
        FlightState {
            gear_switch: false,
            gear_pos: 0,
            carrier_pos: 0,
            left_engine_switch: true,
            left_throttle_input: HALF,
            left_throttle_output: HALF,
            left_engine_power_readout: HALF,
            right_engine_switch: true,
            right_throttle_input: HALF,
            right_throttle_output: HALF,
            right_engine_power_readout: HALF,
            pitch_input: 0,
            velocity: vec3(0, 0, fneg(HOT_START_SPEED)),
            ..self
        }
    }
}

impl FlightModel {
    /// Puts the aircraft in flight with its engines running.
    pub fn start_hot(&mut self)
        ensures
            final(self).state == old(self).state.hot(),
            final(self).plane_config == old(self).plane_config,
            final(self).draw_vecs == old(self).draw_vecs,
    {
        let state: FlightState = self.state;
        self.state = FlightState {
            gear_switch: false,
            gear_pos: 0,
            carrier_pos: 0,
            left_engine_switch: true,
            left_throttle_input: HALF,
            left_throttle_output: HALF,
            left_engine_power_readout: HALF,
            right_engine_switch: true,
            right_throttle_input: HALF,
            right_throttle_output: HALF,
            right_engine_power_readout: HALF,
            pitch_input: 0,
            velocity: Vec3::new(0, 0, fx_neg(HOT_START_SPEED)),
            ..state
        };
    }
}

} // verus!
