//! Two-point calibration engine for the die-temperature sensor.
//!
//! Three factory constants (the raw converter value at the low calibration
//! point, at the high calibration point, and the raw reading of the internal
//! voltage reference at the nominal supply) turn a pair of raw samples into a
//! temperature. The computation is fixed-point: temperatures are carried in
//! tenths of a degree Celsius, and every division is explicit, so a degenerate
//! calibration (equal calibration points, or a zero reference sample) is
//! rejected as an error instead of dividing by zero.

use vstd::prelude::*;

use crate::config::{MCU_TEMP_CALIB_HIGH_TENTHS, MCU_TEMP_CALIB_LOW_TENTHS, MCU_VDDA_CALIB_MV};

verus! {

use vstd::arithmetic::div_mod::lemma_div_nonincreasing;
use vstd::arithmetic::mul::lemma_mul_upper_bound;

/// Factory calibration constants for the die-temperature sensor, programmed
/// during production into read-only memory.
#[derive(Debug, Clone, Copy, PartialEq, Eq, Structural)]
pub struct TemperatureCalibration {
    /// Raw converter value at the low calibration temperature.
    pub temp30_cal: u16,
    /// Raw converter value at the high calibration temperature.
    pub temp110_cal: u16,
    /// Raw reading of the internal voltage reference at the nominal supply.
    pub vrefint_cal: u16,
}

/// Failure of the calibration arithmetic.
#[derive(Debug, Clone, Copy, PartialEq, Eq, Structural)]
pub enum CalibrationError {
    /// The reference sample is zero, or the two calibration points coincide,
    /// so the interpolation slope is undefined.
    DivisionByZero,
}

/// Packages three raw calibration words, in the order (low point, high point,
/// reference), into a `TemperatureCalibration`.
pub fn read_calibration_data(raw: (u16, u16, u16)) -> (cal: TemperatureCalibration)
    ensures
        cal.temp30_cal == raw.0,
        cal.temp110_cal == raw.1,
        cal.vrefint_cal == raw.2,
{
    let (temp30_cal, temp110_cal, vrefint_cal) = raw;
    TemperatureCalibration { temp30_cal, temp110_cal, vrefint_cal }
}

/// Quotient rounded toward zero, the sign convention of machine division.
pub open spec fn div_toward_zero(n: int, d: int) -> int
    recommends
        d != 0,
{
    if n >= 0 && d > 0 {
        n / d
    } else if n >= 0 {
        -(n / -d)
    } else if d > 0 {
        -(-n / d)
    } else {
        -n / -d
    }
}

/// Actual supply voltage in millivolts, recovered from the reference sample:
/// the factory reference reading was taken at the nominal supply, so the
/// ratio of the two rescales the nominal voltage.
pub open spec fn spec_vdda_actual_mv(vrefint_cal: u16, vref_sample: u16) -> int
    recommends
        vref_sample != 0,
{
    (MCU_VDDA_CALIB_MV * vrefint_cal) / (vref_sample as int)
}

/// Sensor sample compensated to what it would read at the nominal supply.
pub open spec fn spec_compensated_sample(temp_sample: u16, vrefint_cal: u16, vref_sample: u16) -> int
    recommends
        vref_sample != 0,
{
    (temp_sample * spec_vdda_actual_mv(vrefint_cal, vref_sample)) / (MCU_VDDA_CALIB_MV as int)
}

/// Temperature in tenths of a degree Celsius: linear interpolation of the
/// compensated sample between the two factory calibration points.
pub open spec fn spec_temperature_tenths(
    temp_sample: u16,
    vref_sample: u16,
    cal: TemperatureCalibration,
) -> int
    recommends
        vref_sample != 0,
        cal.temp110_cal != cal.temp30_cal,
{
    MCU_TEMP_CALIB_LOW_TENTHS + div_toward_zero(
        (spec_compensated_sample(temp_sample, cal.vrefint_cal, vref_sample) - cal.temp30_cal)
            * (MCU_TEMP_CALIB_HIGH_TENTHS - MCU_TEMP_CALIB_LOW_TENTHS),
        cal.temp110_cal - cal.temp30_cal,
    )
}

/// Computes the calibrated temperature, in tenths of a degree Celsius, from a
/// raw sensor sample and a raw reference sample.
///
/// Fails exactly when the reference sample is zero or the two calibration
/// points coincide; every other input, across the full unsigned range of both
/// samples, yields the interpolated temperature.
pub fn calculate_temperature(
    temp_sample: u16,
    vref_sample: u16,
    cal: &TemperatureCalibration,
) -> (r: Result<i64, CalibrationError>)
    ensures
        r is Err <==> vref_sample == 0 || cal.temp110_cal == cal.temp30_cal,
        r matches Ok(t) ==> t == spec_temperature_tenths(temp_sample, vref_sample, *cal),
        r matches Err(e) ==> e == CalibrationError::DivisionByZero,
{
    if vref_sample == 0 || cal.temp110_cal == cal.temp30_cal {
        return Err(CalibrationError::DivisionByZero);
    }

    // Actual supply voltage from the reference channel.
    proof {
        assert(MCU_VDDA_CALIB_MV == 3300);
        lemma_mul_upper_bound(MCU_VDDA_CALIB_MV as int, 3300, cal.vrefint_cal as int, 65535);
    }
    let vdda_num: u64 = (MCU_VDDA_CALIB_MV as u64) * (cal.vrefint_cal as u64);
    let vdda_actual: u64 = vdda_num / (vref_sample as u64);
    proof {
        lemma_div_nonincreasing(vdda_num as int, vref_sample as int);
    }

    // Sensor sample compensated for the actual supply voltage.
    proof {
        lemma_mul_upper_bound(temp_sample as int, 65535, vdda_actual as int, 216265500);
    }
    let comp_num: u64 = (temp_sample as u64) * vdda_actual;
    let compensated: u64 = comp_num / (MCU_VDDA_CALIB_MV as u64);
    proof {
        lemma_div_nonincreasing(comp_num as int, MCU_VDDA_CALIB_MV as int);
    }

    // Interpolation between the calibration points, in sign-magnitude form so
    // that both divisions run on non-negative quantities.
    let low: u64 = cal.temp30_cal as u64;
    let num_mag: u64 = if compensated >= low {
        compensated - low
    } else {
        low - compensated
    };
    let num_neg: bool = compensated < low;
    let den_mag: u64 = if cal.temp110_cal >= cal.temp30_cal {
        (cal.temp110_cal - cal.temp30_cal) as u64
    } else {
        (cal.temp30_cal - cal.temp110_cal) as u64
    };
    let den_neg: bool = cal.temp110_cal < cal.temp30_cal;

    let span: u64 = (MCU_TEMP_CALIB_HIGH_TENTHS - MCU_TEMP_CALIB_LOW_TENTHS) as u64;
    let q_num: u64 = num_mag * span;
    let q_mag: u64 = q_num / den_mag;
    proof {
        lemma_div_nonincreasing(q_num as int, den_mag as int);
    }
    let q: i64 = if num_neg != den_neg {
        -(q_mag as i64)
    } else {
        q_mag as i64
    };

    proof {
        let ci = compensated as int;
        let lo = cal.temp30_cal as int;
        let hi = cal.temp110_cal as int;
        let n = (ci - lo) * (MCU_TEMP_CALIB_HIGH_TENTHS - MCU_TEMP_CALIB_LOW_TENTHS);
        let d = hi - lo;
        assert(ci == spec_compensated_sample(temp_sample, cal.vrefint_cal, vref_sample));
        if ci >= lo {
            assert(n == num_mag * 800);
        } else {
            assert(-n == num_mag * 800);
        }
        assert(q == div_toward_zero(n, d));
    }
    Ok(MCU_TEMP_CALIB_LOW_TENTHS + q)
}

/// Calibration identity: feeding the calibration constants back into the
/// engine reproduces the calibration points themselves. With the sensor
/// sample equal to the low-point constant and the reference sample equal to
/// the reference constant, the result is exactly the low calibration
/// temperature; with the high-point constant it is exactly the high one —
/// for every calibration whose points differ and whose reference is nonzero.
pub proof fn lemma_calibration_identity(cal: TemperatureCalibration)
    requires
        cal.vrefint_cal != 0,
        cal.temp110_cal != cal.temp30_cal,
    ensures
        spec_temperature_tenths(cal.temp30_cal, cal.vrefint_cal, cal) == MCU_TEMP_CALIB_LOW_TENTHS,
        spec_temperature_tenths(cal.temp110_cal, cal.vrefint_cal, cal)
            == MCU_TEMP_CALIB_HIGH_TENTHS,
{
    let v = cal.vrefint_cal as int;
    let lo = cal.temp30_cal as int;
    let hi = cal.temp110_cal as int;

    assert((MCU_VDDA_CALIB_MV * v) / v == MCU_VDDA_CALIB_MV) by {
        vstd::arithmetic::mul::lemma_mul_is_commutative(MCU_VDDA_CALIB_MV as int, v);
        vstd::arithmetic::div_mod::lemma_div_multiples_vanish(MCU_VDDA_CALIB_MV as int, v);
    }
    assert(spec_vdda_actual_mv(cal.vrefint_cal, cal.vrefint_cal) == MCU_VDDA_CALIB_MV);

    assert((lo * MCU_VDDA_CALIB_MV) / (MCU_VDDA_CALIB_MV as int) == lo) by {
        vstd::arithmetic::div_mod::lemma_div_by_multiple(lo, MCU_VDDA_CALIB_MV as int);
    }
    assert(spec_compensated_sample(cal.temp30_cal, cal.vrefint_cal, cal.vrefint_cal) == lo);

    assert((hi * MCU_VDDA_CALIB_MV) / (MCU_VDDA_CALIB_MV as int) == hi) by {
        vstd::arithmetic::div_mod::lemma_div_by_multiple(hi, MCU_VDDA_CALIB_MV as int);
    }
    assert(spec_compensated_sample(cal.temp110_cal, cal.vrefint_cal, cal.vrefint_cal) == hi);

    // Low point: a zero numerator divides to zero whichever sign the slope has.
    let d = hi - lo;
    assert((lo - lo) * (MCU_TEMP_CALIB_HIGH_TENTHS - MCU_TEMP_CALIB_LOW_TENTHS) == 0);
    if d > 0 {
        vstd::arithmetic::div_mod::lemma_div_of0(d);
    } else {
        vstd::arithmetic::div_mod::lemma_div_of0(-d);
    }
    assert(div_toward_zero(0, d) == 0);

    // High point: the numerator is the slope's denominator scaled by the full
    // temperature span, so the quotient is exactly the span.
    let n = d * (MCU_TEMP_CALIB_HIGH_TENTHS - MCU_TEMP_CALIB_LOW_TENTHS);
    if d > 0 {
        assert((d * 800) / d == 800) by {
            vstd::arithmetic::div_mod::lemma_div_multiples_vanish(800, d);
        }
        assert(div_toward_zero(n, d) == 800);
    } else {
        assert(-n == (-d) * 800);
        assert(((-d) * 800) / (-d) == 800) by {
            vstd::arithmetic::div_mod::lemma_div_multiples_vanish(800, -d);
        }
        assert(div_toward_zero(n, d) == 800);
    }
}

} // verus!
