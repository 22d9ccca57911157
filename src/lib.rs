//! Watering decision engine of a hydroponic station: a temperature-driven
//! watering schedule, a pump that tracks the state it was last commanded to,
//! and a controller that reads the sensor and starts or stops the pump once
//! per tick.

pub mod hydroponic;
pub mod measurement;
pub mod policy;
pub mod pump;
