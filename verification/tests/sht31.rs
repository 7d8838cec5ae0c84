use blinktherm::sht31::{
    be_u16, parse_measurement_frame, parse_status_frame, sht31_humidity_centi,
    sht31_temperature_centi,
};

#[test]
fn be_u16_combines_bytes_big_endian() {
    assert_eq!(be_u16(0x12, 0x34), 0x1234);
    assert_eq!(be_u16(0, 0), 0);
    assert_eq!(be_u16(0xFF, 0xFF), 0xFFFF);
}

#[test]
fn status_frame_ignores_checksum_byte() {
    let frame = vec![0x80, 0x10, 0xFF];
    assert_eq!(parse_status_frame(&frame), 0x8010);
}

#[test]
fn measurement_frame_yields_both_raw_words() {
    // temperature word, its checksum, humidity word, its checksum
    let frame = vec![0x61, 0xA9, 0x00, 0x24, 0x93, 0x00];
    let (temp_raw, hum_raw) = parse_measurement_frame(&frame);
    assert_eq!(temp_raw, 25001);
    assert_eq!(hum_raw, 9363);
}

#[test]
fn temperature_conversion_exact_values() {
    // -45 + 175 * 25001 / 65535 degrees is 21.76 degrees, floor of 2176.xx.
    assert_eq!(sht31_temperature_centi(25001), 2176);
    assert_eq!(sht31_temperature_centi(0), -4500);
    assert_eq!(sht31_temperature_centi(65535), 13000);
}

#[test]
fn humidity_conversion_exact_values() {
    // 100 * 9363 / 65535 percent is 14.28 percent.
    assert_eq!(sht31_humidity_centi(9363), 1428);
    assert_eq!(sht31_humidity_centi(0), 0);
    assert_eq!(sht31_humidity_centi(65535), 10000);
}
