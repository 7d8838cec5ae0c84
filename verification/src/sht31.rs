//! Frame decoding and unit conversion for the external temperature/humidity
//! sensor.
//!
//! The bus transaction delivers big-endian words inside small frames: a
//! status frame of two data bytes and a checksum byte, and a measurement
//! frame of a temperature word and a humidity word, each followed by its
//! checksum byte. Checksum verification is the bus driver's business; this
//! module decodes the words and converts them to centi-units with exact
//! integer arithmetic.

use vstd::prelude::*;

verus! {

/// Number of bytes in a status frame: two data bytes and a checksum byte.
pub const STATUS_FRAME_LEN: usize = 3;

/// Number of bytes in a measurement frame: temperature word, its checksum,
/// humidity word, its checksum.
pub const MEASUREMENT_FRAME_LEN: usize = 6;

/// The big-endian 16-bit word formed by two bytes.
pub open spec fn spec_be_u16(hi: u8, lo: u8) -> int {
    hi * 256 + lo
}

/// Temperature in hundredths of a degree Celsius for a raw sensor word: the
/// sensor maps its full 16-bit range linearly onto -45..=130 degrees.
pub open spec fn spec_temperature_centi(raw: u16) -> int {
    -4500 + (17500 * raw) / 65535
}

/// Relative humidity in hundredths of a percent for a raw sensor word: the
/// full 16-bit range maps linearly onto 0..=100 percent.
pub open spec fn spec_humidity_centi(raw: u16) -> int {
    (10000 * raw) / 65535
}

/// Combines two bytes into the big-endian word they spell.
pub fn be_u16(hi: u8, lo: u8) -> (r: u16)
    ensures
        r == spec_be_u16(hi, lo),
{
    (hi as u16) * 256 + (lo as u16)
}

/// Decodes the status word from a status frame, ignoring the trailing
/// checksum byte.
pub fn parse_status_frame(frame: &Vec<u8>) -> (status: u16)
    requires
        frame@.len() == STATUS_FRAME_LEN,
    ensures
        status == spec_be_u16(frame@[0], frame@[1]),
{
    be_u16(frame[0], frame[1])
}

/// Decodes the raw temperature and humidity words from a measurement frame,
/// ignoring the two checksum bytes.
pub fn parse_measurement_frame(frame: &Vec<u8>) -> (r: (u16, u16))
    requires
        frame@.len() == MEASUREMENT_FRAME_LEN,
    ensures
        r.0 == spec_be_u16(frame@[0], frame@[1]),
        r.1 == spec_be_u16(frame@[3], frame@[4]),
{
    (be_u16(frame[0], frame[1]), be_u16(frame[3], frame[4]))
}

/// Converts a raw temperature word to hundredths of a degree Celsius.
pub fn sht31_temperature_centi(raw: u16) -> (t: i32)
    ensures
        t == spec_temperature_centi(raw),
        -4500 <= t <= 13000,
{
    let scaled: u32 = 17500 * (raw as u32);
    let q: u32 = scaled / 65535;
    proof {
        vstd::arithmetic::div_mod::lemma_div_nonincreasing(scaled as int, 65535);
    }
    (q as i32) - 4500
}

/// Converts a raw humidity word to hundredths of a percent.
pub fn sht31_humidity_centi(raw: u16) -> (h: i32)
    ensures
        h == spec_humidity_centi(raw),
        0 <= h <= 10000,
{
    let scaled: u32 = 10000 * (raw as u32);
    let q: u32 = scaled / 65535;
    proof {
        vstd::arithmetic::div_mod::lemma_div_nonincreasing(scaled as int, 65535);
    }
    q as i32
}

} // verus!
