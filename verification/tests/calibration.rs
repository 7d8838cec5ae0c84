use blinktherm::calibration::{
    calculate_temperature, read_calibration_data, CalibrationError, TemperatureCalibration,
};

fn sample_calibration() -> TemperatureCalibration {
    TemperatureCalibration { temp30_cal: 940, temp110_cal: 1280, vrefint_cal: 1530 }
}

#[test]
fn read_calibration_data_packages_words_in_order() {
    let cal = read_calibration_data((940, 1280, 1530));
    assert_eq!(cal.temp30_cal, 940);
    assert_eq!(cal.temp110_cal, 1280);
    assert_eq!(cal.vrefint_cal, 1530);
}

#[test]
fn calibration_identity_low_point() {
    let cal = sample_calibration();
    let r = calculate_temperature(cal.temp30_cal, cal.vrefint_cal, &cal);
    assert_eq!(r, Ok(300));
}

#[test]
fn calibration_identity_high_point() {
    let cal = sample_calibration();
    let r = calculate_temperature(cal.temp110_cal, cal.vrefint_cal, &cal);
    assert_eq!(r, Ok(1100));
}

#[test]
fn calibration_identity_holds_for_other_triples() {
    let cal = TemperatureCalibration { temp30_cal: 1711, temp110_cal: 1292, vrefint_cal: 1 };
    assert_eq!(calculate_temperature(1711, 1, &cal), Ok(300));
    assert_eq!(calculate_temperature(1292, 1, &cal), Ok(1100));
}

#[test]
fn temperature_between_points() {
    let cal = sample_calibration();
    // vdda 3300 * 1530 / 1600 = 3155 mV; compensated 1000 * 3155 / 3300 = 956;
    // 300 + (956 - 940) * 800 / 340 = 337 tenths.
    assert_eq!(calculate_temperature(1000, 1600, &cal), Ok(337));
}

#[test]
fn temperature_below_low_point_is_negative() {
    let cal = sample_calibration();
    // compensated 764 sits below the low point: 300 - 140800 / 340 = -114 tenths.
    assert_eq!(calculate_temperature(800, 1600, &cal), Ok(-114));
}

#[test]
fn temperature_with_descending_calibration_points() {
    let cal = TemperatureCalibration { temp30_cal: 1280, temp110_cal: 940, vrefint_cal: 1530 };
    // Slope and offset are both negative: the two signs cancel.
    assert_eq!(calculate_temperature(1000, 1600, &cal), Ok(1062));
}

#[test]
fn full_range_samples_are_accepted() {
    let cal = TemperatureCalibration { temp30_cal: 0, temp110_cal: 1, vrefint_cal: 65535 };
    assert_eq!(calculate_temperature(65535, 1, &cal), Ok(3435868980300));
}

#[test]
fn zero_reference_sample_is_division_by_zero() {
    let cal = sample_calibration();
    assert_eq!(calculate_temperature(1000, 0, &cal), Err(CalibrationError::DivisionByZero));
}

#[test]
fn equal_calibration_points_are_division_by_zero() {
    let cal = TemperatureCalibration { temp30_cal: 940, temp110_cal: 940, vrefint_cal: 1530 };
    assert_eq!(calculate_temperature(1000, 1600, &cal), Err(CalibrationError::DivisionByZero));
}
