//! Portable interfaces for environmental sensors.
pub mod sensor;
pub mod temperature;
pub mod humidity;
pub mod simulated;
