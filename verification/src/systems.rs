//! What the host application asks of the flight model: aircraft to place
//! in the world, the tick of each aircraft, and the pilot's instruments.

pub mod aircraft;
pub mod enemy;
