//! A deterministic flight-dynamics core in fixed-point arithmetic.
//!
//! Given the control inputs of a frame and the time that has passed, the
//! core advances the velocity, the angular velocity and the orientation of
//! an aircraft and takes its instruments anew: airspeed, angle of attack,
//! load factor, Mach number and the like.
//!
//! Every physical quantity is an `i64` counting millionths of its unit
//! (metres, seconds, radians, newtons, ...). All arithmetic saturates at
//! the bounds of `i64`; products and quotients round toward zero, and a
//! vector is turned exactly and rounded once, so a simulation tick is a
//! total function of the previous flight state, the aircraft
//! configuration, the control inputs and the elapsed time, and gives the
//! same result on every machine.
//!
//! - [`fixed`]: the scalar arithmetic.
//! - [`util`]: angle conversion, rate-limited actuators, clamping and table
//!   lookup.
//! - [`trig`]: sine, cosine and arctangent.
//! - [`geometry`]: vectors, quaternions and frame conversion.
//! - [`frames`]: why a vector converted between the frames and back
//!   returns to within a millionth.
//! - [`orientation`]: why orientations stay of unit length.
//! - [`plane`]: the configuration record, the flight state, the physics of
//!   a tick and what holds of it.
//! - [`systems`]: what a host application asks of the core.

pub mod fixed;
pub mod util;
pub mod trig;
pub mod geometry;
pub mod frames;
pub mod orientation;
pub mod plane;
pub mod systems;
