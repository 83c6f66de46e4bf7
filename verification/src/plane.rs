//! One aircraft: its configuration, its flight state and the physics that
//! advances it.

pub mod flight_model;
pub mod flight_physics;
pub mod laws;
pub mod plane;
pub mod plane_config;
