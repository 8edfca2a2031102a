use ruuvi_sensor_protocol::{
    i16_from_two_bytes, u16_from_two_bytes, AccelerationVector, AccelerationVectorV3, ParseError,
    SensorDataV3, SensorValues,
};

#[test]
fn parse_version_3_data_with_invalid_length() {
    let value = vec![3, 103, 22, 50, 60, 70];
    let result = SensorDataV3::from_manufacturer_specific_data(&value);
    assert_eq!(
        result,
        Err(ParseError::InvalidValueLength {
            version: 3,
            length: 6,
            expected: 14
        })
    );
}

#[test]
fn parse_valid_version_3_data() {
    let value = vec![
        3, 0x17, 0x01, 0x45, 0x35, 0x58, 0x03, 0xE8, 0x04, 0xE7, 0x05, 0xE6, 0x08, 0x86,
    ];
    let result = SensorDataV3::from_manufacturer_specific_data(&value);
    assert_eq!(
        result,
        Ok(SensorDataV3 {
            humidity: 0x17,
            temperature: 0x0145,
            pressure: 0x3558,
            acceleration: AccelerationVectorV3(1000, 1255, 1510),
            battery_potential: 0x0886
        })
    );
}

#[test]
fn parse_version_3_into_generic_structure() {
    let value = vec![
        3, 0x17, 0x01, 0x45, 0x35, 0x58, 0x03, 0xE8, 0x04, 0xE7, 0x05, 0xE6, 0x08, 0x86,
    ];
    let result = SensorDataV3::from_manufacturer_specific_data(&value);
    assert!(result.is_ok());

    assert_eq!(
        result.map(|data| data.into()),
        Ok(SensorValues {
            humidity: Some(115_000),
            temperature: Some(1690),
            pressure: Some(63656),
            acceleration: Some(AccelerationVector(1000, 1255, 1510)),
            battery_potential: Some(2182)
        })
    );
}

#[test]
fn decode_valid_version_3_advertisement() {
    let id = 0x0499;
    let value = &[
        0x03, 0x17, 0x01, 0x45, 0x35, 0x58, 0x03, 0xE8, 0x04, 0xE7, 0x05, 0xE6, 0x08, 0x86,
    ];
    let values = SensorValues::from_manufacturer_specific_data(id, value).unwrap();

    assert_eq!(values.humidity, Some(115_000));
    assert_eq!(values.temperature, Some(1690));
    assert_eq!(values.pressure, Some(63656));
    assert_eq!(values.acceleration, Some(AccelerationVector(1000, 1255, 1510)));
    assert_eq!(values.battery_potential, Some(2182));
}

#[test]
fn decode_negative_temperature() {
    let value = &[
        0x03, 0x17, 0x81, 0x45, 0x35, 0x58, 0x03, 0xE8, 0x04, 0xE7, 0x05, 0xE6, 0x08, 0x86,
    ];
    let values = SensorValues::from_manufacturer_specific_data(0x0499, value).unwrap();
    assert_eq!(values.temperature, Some(-1690));
}

#[test]
fn decode_unknown_manufacturer_id() {
    let value = &[
        0x03, 0x17, 0x01, 0x45, 0x35, 0x58, 0x03, 0xE8, 0x04, 0xE7, 0x05, 0xE6, 0x08, 0x86,
    ];
    let result = SensorValues::from_manufacturer_specific_data(0x0500, value);
    assert_eq!(result, Err(ParseError::UnknownManufacturerId(0x0500)));
}

#[test]
fn decode_unsupported_format_version() {
    let id = 0x0499;
    let value = &[
        0x07, 0x17, 0x01, 0x45, 0x35, 0x58, 0x03, 0xE8, 0x04, 0xE7, 0x05, 0xE6, 0x08, 0x86,
    ];
    let result = SensorValues::from_manufacturer_specific_data(id, value);
    assert_eq!(result, Err(ParseError::UnsupportedFormatVersion(7)));
}

#[test]
fn decode_version_3_truncated_payload() {
    let value = &[0x03, 0x17, 0x01, 0x45];
    let result = SensorValues::from_manufacturer_specific_data(0x0499, value);
    assert_eq!(
        result,
        Err(ParseError::InvalidValueLength {
            version: 3,
            length: 4,
            expected: 14
        })
    );
}

#[test]
fn decode_empty_payload() {
    let result = SensorValues::from_manufacturer_specific_data(0x0499, &[]);
    assert_eq!(
        result,
        Err(ParseError::InvalidValueLength {
            version: 0,
            length: 0,
            expected: 1
        })
    );
}

#[test]
fn decode_same_input_twice_is_identical() {
    let id = 0x0499;
    let value = &[
        0x03, 0x17, 0x01, 0x45, 0x35, 0x58, 0x03, 0xE8, 0x04, 0xE7, 0x05, 0xE6, 0x08, 0x86,
    ];
    let first = SensorValues::from_manufacturer_specific_data(id, value);
    let second = SensorValues::from_manufacturer_specific_data(id, value);
    assert_eq!(first, second);

    let bad = &[0x07, 0x00];
    let first_err = SensorValues::from_manufacturer_specific_data(id, bad);
    let second_err = SensorValues::from_manufacturer_specific_data(id, bad);
    assert_eq!(first_err, second_err);
}

#[test]
fn u16_from_two_bytes_is_big_endian() {
    assert_eq!(u16_from_two_bytes(0x01, 0x45), 0x0145);
    assert_eq!(u16_from_two_bytes(0x00, 0x00), 0);
    assert_eq!(u16_from_two_bytes(0xFF, 0xFF), 0xFFFF);
}

#[test]
fn i16_from_two_bytes_is_twos_complement() {
    assert_eq!(i16_from_two_bytes(0x03, 0xE8), 1000);
    assert_eq!(i16_from_two_bytes(0xFC, 0x18), -1000);
    assert_eq!(i16_from_two_bytes(0xFF, 0xFF), -1);
    assert_eq!(i16_from_two_bytes(0x80, 0x00), i16::MIN);
    assert_eq!(i16_from_two_bytes(0x7F, 0xFF), i16::MAX);
}
