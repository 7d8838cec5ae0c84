//! Configuration constants of the firmware core.

use vstd::prelude::*;

verus! {

/// Initial LED blink interval in milliseconds.
pub const INITIAL_BLINK_MS: u32 = 1000;

/// Minimum blink interval in milliseconds; a halving that would land below
/// this floor wraps back to `INITIAL_BLINK_MS` instead.
pub const MIN_BLINK_MS: u32 = 50;

/// Main task heartbeat interval in milliseconds.
pub const MAIN_HEARTBEAT_INTERVAL_MS: u64 = 10000;

/// How often to report the blink counter (every N blinks).
pub const BLINK_LOG_FREQUENCY: u32 = 10;

/// Die-temperature reading interval in milliseconds.
pub const MCU_TEMP_READING_INTERVAL_MS: u64 = 4000;

/// External-sensor reading interval in milliseconds.
pub const SHT31_READING_INTERVAL_MS: u64 = 3000;

/// Supply voltage during factory calibration, in millivolts.
pub const MCU_VDDA_CALIB_MV: u32 = 3300;

/// Low temperature calibration point, in tenths of a degree Celsius.
pub const MCU_TEMP_CALIB_LOW_TENTHS: i64 = 300;

/// High temperature calibration point, in tenths of a degree Celsius.
pub const MCU_TEMP_CALIB_HIGH_TENTHS: i64 = 1100;

} // verus!
