//! Decoder for manufacturer-specific advertising payloads broadcast by Ruuvi
//! sensor beacons.
//!
//! A payload is a versioned, fixed-layout byte sequence carried inside a
//! Bluetooth advertisement together with a registered manufacturer id. The
//! decoder checks the manufacturer id, dispatches on the format-version byte,
//! validates the payload length, and converts the raw big-endian fields into a
//! version-independent set of physical measurements
//! ([`SensorValues`](formats::SensorValues)).

use vstd::prelude::*;

pub mod formats;
pub mod sensordata;

pub use crate::formats::{AccelerationVector, ParseError, SensorValues};
pub use crate::sensordata::v3::{
    i16_from_two_bytes, u16_from_two_bytes, AccelerationVectorV3, SensorDataV3,
};

verus! {

/// Zero degrees Celsius expressed in milli-kelvins.
pub const ZERO_CELSIUS_IN_MILLIKELVINS: u32 = 273_150;

/// Capability of a record type that carries an absolute temperature reading.
///
/// Any record exposing a milli-kelvin reading gets the milli-Celsius
/// conversion for free, so future format versions that report temperature can
/// reuse it. Absence propagates: a record without a reading converts to no
/// reading.
pub trait Temperature {
    /// The temperature reading this record carries, in milli-kelvins.
    spec fn spec_temperature_as_millikelvins(&self) -> Option<u32>;

    /// Returns temperature in milli-kelvins if a temperature reading is
    /// available.
    fn temperature_as_millikelvins(&self) -> (result: Option<u32>)
        ensures
            result == self.spec_temperature_as_millikelvins(),
    ;

    /// Returns temperature in milli-Celsius if a temperature reading is
    /// available, by subtracting the zero-Celsius offset from the absolute
    /// milli-kelvin reading.
    fn temperature_as_millicelsius(&self) -> (result: Option<i32>)
        requires
            self.spec_temperature_as_millikelvins() matches Some(mk) ==> mk <= i32::MAX,
        ensures
            match (self.spec_temperature_as_millikelvins(), result) {
                (Some(mk), Some(mc)) => mc == mk - ZERO_CELSIUS_IN_MILLIKELVINS,
                (None, None) => true,
                _ => false,
            },
    {
        match self.temperature_as_millikelvins() {
            Some(mk) => Some(mk as i32 - ZERO_CELSIUS_IN_MILLIKELVINS as i32),
            None => None,
        }
    }
}

} // verus!
