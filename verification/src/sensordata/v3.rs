//! Decoder for format version 3: a 14-byte fixed layout (1 version byte
//! followed by 13 data bytes) with big-endian multi-byte fields.

use vstd::prelude::*;

use crate::formats::{AccelerationVector, ParseError, SensorValues};

verus! {

/// Payload length of format version 3: one version byte and 13 data bytes.
pub const V3_PAYLOAD_LENGTH: usize = 14;

/// Base pressure in pascals; the raw pressure field is an offset above it.
pub const V3_BASE_PRESSURE_PASCALS: u32 = 50_000;

/// Normalized humidity units per raw humidity unit. The raw field counts half
/// percentage points; the normalized record counts 10 000 parts per
/// percentage point, so one raw unit is 5 000 normalized units.
pub const V3_HUMIDITY_SCALE: u32 = 5_000;

/// Raw acceleration of format version 3: signed 16-bit milli-g per axis
/// (x, y, z).
#[derive(Debug, PartialEq)]
pub struct AccelerationVectorV3(pub i16, pub i16, pub i16);

/// The format-specific record of version 3: the raw fields as the wire
/// encoding carries them, before unit conversion. Transient: it only exists
/// on the way to a [`SensorValues`].
#[derive(Debug, PartialEq)]
pub struct SensorDataV3 {
    /// Unsigned, in units of 0.5 percentage points.
    pub humidity: u8,
    /// Unsigned 16 bits; the high byte carries sign (bit 7) and integer
    /// degrees Celsius (bits 0-6), the low byte fractional hundredths.
    pub temperature: u16,
    /// Unsigned 16-bit offset above the base pressure of 50 000 Pa.
    pub pressure: u16,
    /// Signed 16-bit milli-g per axis.
    pub acceleration: AccelerationVectorV3,
    /// Unsigned, in millivolts.
    pub battery_potential: u16,
}

/// The version-3 record encoded by a 14-byte payload, field by field at the
/// layout's fixed offsets.
pub open spec fn spec_v3_from_bytes(data: Seq<u8>) -> SensorDataV3
    recommends
        data.len() == V3_PAYLOAD_LENGTH,
{
    SensorDataV3 {
        humidity: data[1],
        temperature: spec_u16_from_two_bytes(data[2], data[3]),
        pressure: spec_u16_from_two_bytes(data[4], data[5]),
        acceleration: AccelerationVectorV3(
            spec_i16_from_two_bytes(data[6], data[7]),
            spec_i16_from_two_bytes(data[8], data[9]),
            spec_i16_from_two_bytes(data[10], data[11]),
        ),
        battery_potential: spec_u16_from_two_bytes(data[12], data[13]),
    }
}

impl SensorDataV3 {
    /// Decodes a version-3 payload. The whole payload, version byte included,
    /// is passed in; its length must be exactly 14 bytes, and any other length
    /// is rejected before any field is read.
    pub fn from_manufacturer_specific_data(value: &[u8]) -> (result: Result<Self, ParseError>)
        ensures
            value@.len() == V3_PAYLOAD_LENGTH ==> result == Ok::<Self, ParseError>(
                spec_v3_from_bytes(value@),
            ),
            value@.len() != V3_PAYLOAD_LENGTH ==> result == Err::<Self, ParseError>(
                ParseError::InvalidValueLength {
                    version: 3,
                    length: value@.len() as usize,
                    expected: V3_PAYLOAD_LENGTH,
                },
            ),
    {
        if value.len() == V3_PAYLOAD_LENGTH {
            Ok(Self {
                humidity: value[1],
                temperature: u16_from_two_bytes(value[2], value[3]),
                pressure: u16_from_two_bytes(value[4], value[5]),
                acceleration: AccelerationVectorV3(
                    i16_from_two_bytes(value[6], value[7]),
                    i16_from_two_bytes(value[8], value[9]),
                    i16_from_two_bytes(value[10], value[11]),
                ),
                battery_potential: u16_from_two_bytes(value[12], value[13]),
            })
        } else {
            Err(ParseError::InvalidValueLength {
                version: 3,
                length: value.len(),
                expected: V3_PAYLOAD_LENGTH,
            })
        }
    }
}

/// The unsigned 16-bit value encoded big-endian by the byte pair `(b1, b2)`.
pub open spec fn spec_u16_from_two_bytes(b1: u8, b2: u8) -> u16 {
    (b1 * 256 + b2) as u16
}

/// The signed 16-bit value encoded big-endian, two's complement, by the byte
/// pair `(b1, b2)`.
pub open spec fn spec_i16_from_two_bytes(b1: u8, b2: u8) -> i16 {
    if b1 >= 128 {
        (b1 * 256 + b2 - 0x1_0000) as i16
    } else {
        (b1 * 256 + b2) as i16
    }
}

/// Combines two bytes into the unsigned 16-bit value they encode big-endian.
pub fn u16_from_two_bytes(b1: u8, b2: u8) -> (result: u16)
    ensures
        result == spec_u16_from_two_bytes(b1, b2),
{
    b1 as u16 * 256 + b2 as u16
}

/// Combines two bytes into the signed 16-bit value they encode big-endian,
/// two's complement.
pub fn i16_from_two_bytes(b1: u8, b2: u8) -> (result: i16)
    ensures
        result == spec_i16_from_two_bytes(b1, b2),
{
    let wide: i32 = b1 as i32 * 256 + b2 as i32;
    if wide >= 0x8000 {
        (wide - 0x1_0000) as i16
    } else {
        wide as i16
    }
}

/// The milli-Celsius temperature encoded by a raw version-3 temperature
/// field: the high byte carries the sign (bit 7) and the integer degrees
/// (bits 0-6), the low byte the fractional hundredths of a degree.
pub open spec fn spec_v3_temperature_millicelsius(raw: u16) -> int {
    let high = raw as int / 256;
    let low = raw as int % 256;
    let magnitude = (high % 128) * 1000 + low * 10;
    if high >= 128 {
        -magnitude
    } else {
        magnitude
    }
}

/// The version-independent record that a version-3 record converts to: every
/// quantity present, each scaled to its normalized unit.
pub open spec fn spec_v3_normalized(data: SensorDataV3) -> SensorValues {
    SensorValues {
        humidity: Some((data.humidity * V3_HUMIDITY_SCALE) as u32),
        temperature: Some(spec_v3_temperature_millicelsius(data.temperature) as i32),
        pressure: Some((data.pressure + V3_BASE_PRESSURE_PASCALS) as u32),
        acceleration: Some(
            AccelerationVector(data.acceleration.0, data.acceleration.1, data.acceleration.2),
        ),
        battery_potential: Some(data.battery_potential),
    }
}

/// Converts a raw version-3 temperature field to milli-Celsius.
fn v3_temperature_millicelsius(raw: u16) -> (result: i32)
    ensures
        result == spec_v3_temperature_millicelsius(raw),
{
    let high: u16 = raw / 256;
    let low: u16 = raw % 256;
    let magnitude: i32 = (high % 128) as i32 * 1000 + low as i32 * 10;
    if high >= 128 {
        -magnitude
    } else {
        magnitude
    }
}

impl From<SensorDataV3> for SensorValues {
    /// Converts the raw version-3 record into the version-independent record.
    fn from(data: SensorDataV3) -> (result: SensorValues) {
        SensorValues {
            humidity: Some(data.humidity as u32 * V3_HUMIDITY_SCALE),
            temperature: Some(v3_temperature_millicelsius(data.temperature)),
            pressure: Some(data.pressure as u32 + V3_BASE_PRESSURE_PASCALS),
            acceleration: Some(
                AccelerationVector(data.acceleration.0, data.acceleration.1, data.acceleration.2),
            ),
            battery_potential: Some(data.battery_potential),
        }
    }
}

impl vstd::std_specs::convert::FromSpecImpl<SensorDataV3> for SensorValues {
    open spec fn obeys_from_spec() -> bool {
        true
    }

    open spec fn from_spec(data: SensorDataV3) -> Self {
        spec_v3_normalized(data)
    }
}

} // verus!
