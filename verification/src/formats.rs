//! Version-independent measurement record and the error taxonomy of the
//! decoder.

use vstd::prelude::*;

use crate::sensordata::v3::{
    spec_v3_from_bytes, spec_v3_normalized, SensorDataV3, V3_PAYLOAD_LENGTH,
};

verus! {

/// The manufacturer id registered to the supported beacon vendor, as
/// advertised (16-bit little-endian) alongside each payload.
pub const RUUVI_MANUFACTURER_ID: u16 = 0x0499;

/// Why a payload could not be decoded.
///
/// Every error is an ordinary, terminal classification outcome of parsing:
/// decoding is deterministic, so retrying the same input is never useful.
#[derive(Debug, PartialEq)]
pub enum ParseError {
    /// The advertisement does not belong to the supported beacon vendor.
    UnknownManufacturerId(u16),
    /// The manufacturer matched but the version byte names a format this
    /// decoder does not implement.
    UnsupportedFormatVersion(u8),
    /// Manufacturer and version matched but the payload length does not fit
    /// the version's fixed layout. A zero-length payload, which cannot even be
    /// inspected for a version tag, is reported with version `0` and expected
    /// length `1` (the version byte).
    InvalidValueLength { version: u8, length: usize, expected: usize },
}

/// Acceleration as a 3-tuple of signed milli-g components (x, y, z).
#[derive(Debug, PartialEq)]
pub struct AccelerationVector(pub i16, pub i16, pub i16);

/// The version-independent measurement record.
///
/// Each physical quantity is optional: `None` means the payload's format
/// version does not report that quantity. Format version 3 reports all five.
#[derive(Debug, PartialEq)]
pub struct SensorValues {
    /// Relative humidity, 10 000 parts per percentage point (115_000 = 11.5%).
    pub humidity: Option<u32>,
    /// Temperature in milli-Celsius.
    pub temperature: Option<i32>,
    /// Pressure in pascals.
    pub pressure: Option<u32>,
    /// Acceleration in milli-g per axis.
    pub acceleration: Option<AccelerationVector>,
    /// Battery potential in millivolts.
    pub battery_potential: Option<u16>,
}

/// The result of decoding the payload `data` advertised under
/// `manufacturer_id`: the manufacturer id is checked first, then the version
/// tag in the first byte, then the tag's decoder validates the length and
/// decodes the fields. Decoding is a pure function of its two inputs.
pub open spec fn spec_decode(manufacturer_id: u16, data: Seq<u8>) -> Result<
    SensorValues,
    ParseError,
> {
    if manufacturer_id != RUUVI_MANUFACTURER_ID {
        Err(ParseError::UnknownManufacturerId(manufacturer_id))
    } else if data.len() == 0 {
        Err(ParseError::InvalidValueLength { version: 0, length: 0, expected: 1 })
    } else if data[0] == 3 {
        if data.len() == V3_PAYLOAD_LENGTH {
            Ok(spec_v3_normalized(spec_v3_from_bytes(data)))
        } else {
            Err(
                ParseError::InvalidValueLength {
                    version: 3,
                    length: data.len() as usize,
                    expected: V3_PAYLOAD_LENGTH,
                },
            )
        }
    } else {
        Err(ParseError::UnsupportedFormatVersion(data[0]))
    }
}

impl SensorValues {
    /// Decodes a manufacturer-specific advertisement payload into a set of
    /// sensor values.
    ///
    /// An advertisement from another vendor, an unsupported format-version
    /// tag and a payload length that does not fit the version's layout are
    /// each rejected with their own error, exactly as [`spec_decode`] states.
    pub fn from_manufacturer_specific_data(manufacturer_id: u16, value: &[u8]) -> (result: Result<
        SensorValues,
        ParseError,
    >)
        ensures
            result == spec_decode(manufacturer_id, value@),
            manufacturer_id == RUUVI_MANUFACTURER_ID && value@.len() == V3_PAYLOAD_LENGTH
                && value@[0] == 3 ==> result == Ok::<SensorValues, ParseError>(
                spec_v3_normalized(spec_v3_from_bytes(value@)),
            ),
            manufacturer_id != RUUVI_MANUFACTURER_ID ==> result == Err::<SensorValues, ParseError>(
                ParseError::UnknownManufacturerId(manufacturer_id),
            ),
            manufacturer_id == RUUVI_MANUFACTURER_ID && value@.len() >= 1 && value@[0] != 3
                ==> result == Err::<SensorValues, ParseError>(
                ParseError::UnsupportedFormatVersion(value@[0]),
            ),
            manufacturer_id == RUUVI_MANUFACTURER_ID && value@.len() >= 1 && value@[0] == 3
                && value@.len() != V3_PAYLOAD_LENGTH ==> result == Err::<SensorValues, ParseError>(
                ParseError::InvalidValueLength {
                    version: 3,
                    length: value@.len() as usize,
                    expected: V3_PAYLOAD_LENGTH,
                },
            ),
    {
        if manufacturer_id != RUUVI_MANUFACTURER_ID {
            Err(ParseError::UnknownManufacturerId(manufacturer_id))
        } else if value.len() == 0 {
            Err(ParseError::InvalidValueLength { version: 0, length: 0, expected: 1 })
        } else if value[0] == 3 {
            match SensorDataV3::from_manufacturer_specific_data(value) {
                Ok(data) => Ok(SensorValues::from(data)),
                Err(error) => Err(error),
            }
        } else {
            Err(ParseError::UnsupportedFormatVersion(value[0]))
        }
    }
}

/// Decoding has no hidden state: any two results of decoding the same
/// (manufacturer id, payload) pair are identical.
pub proof fn lemma_decode_deterministic(
    manufacturer_id: u16,
    data: Seq<u8>,
    first: Result<SensorValues, ParseError>,
    second: Result<SensorValues, ParseError>,
)
    requires
        first == spec_decode(manufacturer_id, data),
        second == spec_decode(manufacturer_id, data),
    ensures
        first == second,
{
}

} // verus!
