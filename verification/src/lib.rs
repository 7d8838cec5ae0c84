//! Verified core of a temperature-and-blinker firmware design: the numeric
//! calibration engine that turns raw converter samples into a compensated
//! temperature, the single-slot event signal between the button task and the
//! LED task, the mutual-exclusion arbiter for the one shared converter, the
//! lazily-initialized calibration singleton, and the adaptive blink-rate
//! state machine. Hardware access, timers and the task runtime are left to
//! the surrounding program, which feeds plain values into these components.

pub mod arbiter;
pub mod blink;
pub mod calibration;
pub mod config;
pub mod provider;
pub mod sht31;
pub mod signal;

pub use calibration::TemperatureCalibration;
pub use signal::ButtonEvent;
