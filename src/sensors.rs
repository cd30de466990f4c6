//! Sensors: the DS18B20 temperature probe on the single-wire bus, and the analog
//! moisture and light probes, each read into a tagged `Reading`.
use vstd::prelude::*;
use crate::reading::{Celsius, integer_part, fractional_part, signed_sixteenths, temp_from_raw};

verus! {

/// A fault reported by the single-wire bus.
#[derive(Clone, Copy, Debug, PartialEq, Eq, Structural)]
pub enum BusFault {
    /// The line did not go high when released.
    WireNotHigh,
    /// A checksum did not match: (expected, computed).
    CrcMismatch(u8, u8),
    /// A device of another family answered: (expected, found).
    FamilyCodeMismatch(u8, u8),
    /// A diagnostic fault of the bus driver.
    Debug(Option<u8>),
    /// The pin driving the line failed.
    Port,
}

/// Errors of the sensors.
#[derive(Clone, Copy, Debug, PartialEq, Eq, Structural)]
pub enum SensorError {
    /// The bus failed.
    BusFault(BusFault),
    /// No device of the expected family was found on the bus.
    NoDevice,
    /// The sensor returned no usable value.
    ReadFailure,
}

/// One reading of one sensor.
#[derive(Clone, Copy, Debug, PartialEq, Eq, Structural)]
pub enum Reading {
    Temperature(Celsius),
    Moisture { raw: u16, resolution_bits: u32 },
    Light { raw: u16, resolution_bits: u32 },
}

/// The conversion precision that a DS18B20 reports.
#[derive(Clone, Copy, Debug, PartialEq, Eq, Structural)]
pub enum Resolution {
    Bits9,
    Bits10,
    Bits11,
    Bits12,
}

/// The family code of the DS18B20 temperature sensor.
pub const FAMILY_CODE: u8 = 0x28;

/// How long a conversion at `r` takes, in milliseconds.
pub open spec fn conversion_time_ms(r: Resolution) -> u16 {
    match r {
        Resolution::Bits9 => 94,
        Resolution::Bits10 => 188,
        Resolution::Bits11 => 375,
        Resolution::Bits12 => 750,
    }
}

#[verifier::external_type_specification]
#[verifier::external_body]
pub struct ExDS18B20(onewire::ds18b20::DS18B20);

/// Relies on onewire::ds18b20::MeasureResolution::time_ms: the conversion time
/// of each resolution.
#[verifier::external_body]
fn time_ms(r: Resolution) -> (ms: u16)
    ensures
        ms == conversion_time_ms(r),
{
    let m = match r {
        Resolution::Bits9 => onewire::ds18b20::MeasureResolution::TC8,
        Resolution::Bits10 => onewire::ds18b20::MeasureResolution::TC4,
        Resolution::Bits11 => onewire::ds18b20::MeasureResolution::TC2,
        Resolution::Bits12 => onewire::ds18b20::MeasureResolution::TC,
    };
    m.time_ms()
}

/// Relies on onewire::ds18b20::DS18B20::new: it accepts a device exactly when
/// the first byte of its address is the DS18B20 family code, and otherwise fails
/// with a family-code mismatch of (expected, found).
#[verifier::external_body]
fn ds18b20_for(address: [u8; 8]) -> (r: Result<onewire::ds18b20::DS18B20, BusFault>)
    ensures
        r is Ok <==> address[0] == FAMILY_CODE,
        r matches Err(f) ==> f == BusFault::FamilyCodeMismatch(FAMILY_CODE, address[0]),
{
    onewire::ds18b20::DS18B20::new::<()>(onewire::Device { address }).map_err(|e| match e {
        onewire::Error::WireNotHigh => BusFault::WireNotHigh,
        onewire::Error::CrcMismatch(a, b) => BusFault::CrcMismatch(a, b),
        onewire::Error::FamilyCodeMismatch(a, b) => BusFault::FamilyCodeMismatch(a, b),
        onewire::Error::Debug(a) => BusFault::Debug(a),
        onewire::Error::PortError(()) => BusFault::Port,
    })
}

/// What sensor discovery gives: the error of a failed bus reset, the error of a
/// failed search, `NoDevice` where the search found nothing, a family mismatch
/// where the device found is not a DS18B20, and otherwise the device.
pub open spec fn discovery_outcome(
    reset: Result<(), BusFault>,
    search: Result<Option<[u8; 8]>, BusFault>,
) -> Result<[u8; 8], SensorError> {
    match reset {
        Err(f) => Err(SensorError::BusFault(f)),
        Ok(()) => match search {
            Err(f) => Err(SensorError::BusFault(f)),
            Ok(None) => Err(SensorError::NoDevice),
            Ok(Some(a)) => if a[0] == FAMILY_CODE {
                Ok(a)
            } else {
                Err(SensorError::BusFault(BusFault::FamilyCodeMismatch(FAMILY_CODE, a[0])))
            },
        },
    }
}

/// What a scratchpad read gives: the bus's error, `ReadFailure` for the one
/// sample that no temperature encodes (0x8000), and otherwise the temperature.
pub open spec fn sample_outcome(sample: Result<u16, BusFault>) -> Result<Celsius, SensorError> {
    match sample {
        Err(f) => Err(SensorError::BusFault(f)),
        Ok(raw) => if raw == 0x8000 {
            Err(SensorError::ReadFailure)
        } else {
            Ok(Celsius { integer: integer_part(raw) as i16, fraction: fractional_part(raw) as i16 })
        },
    }
}

/// Decodes the outcome of a scratchpad read.
pub fn decode_sample(sample: Result<u16, BusFault>) -> (r: Result<Celsius, SensorError>)
    ensures
        r == sample_outcome(sample),
        sample matches Ok(raw) ==> (raw != 0x8000 ==> (r matches Ok(c) && c.ten_thousandths()
            == signed_sixteenths(raw) * 625)),
{
    match sample {
        Err(f) => Err(SensorError::BusFault(f)),
        Ok(raw) => if raw == 0x8000 {
            Err(SensorError::ReadFailure)
        } else {
            Ok(temp_from_raw(raw))
        },
    }
}

/// How long to wait for a conversion at `resolution` before reading it back.
pub fn conversion_delay_ms(resolution: Resolution) -> (ms: u16)
    ensures
        ms == conversion_time_ms(resolution),
{
    time_ms(resolution)
}

/// A DS18B20 temperature sensor found on the bus.
pub struct Temperature {
    sensor: onewire::ds18b20::DS18B20,
    address: [u8; 8],
}

impl Temperature {
    /// Discovers the sensor from the outcome of a bus reset and of a search
    /// for the DS18B20 family. The search's outcome is looked at only where the
    /// reset succeeded.
    pub fn new(reset: Result<(), BusFault>, search: Result<Option<[u8; 8]>, BusFault>) -> (r: Result<
        Temperature,
        SensorError,
    >)
        ensures
            match discovery_outcome(reset, search) {
                Ok(a) => r matches Ok(t) && t.address() == a,
                Err(e) => r matches Err(f) && f == e,
            },
    {
        match reset {
            Err(f) => Err(SensorError::BusFault(f)),
            Ok(()) => match search {
                Err(f) => Err(SensorError::BusFault(f)),
                Ok(None) => Err(SensorError::NoDevice),
                Ok(Some(address)) => match ds18b20_for(address) {
                    Ok(sensor) => Ok(Temperature { sensor, address }),
                    Err(f) => Err(SensorError::BusFault(f)),
                },
            },
        }
    }

    /// The bus address of the sensor.
    pub closed spec fn address(&self) -> [u8; 8] {
        self.address
    }

    /// The bus address of the sensor.
    pub fn device_address(&self) -> (r: [u8; 8])
        ensures
            r == self.address(),
    {
        self.address
    }

    /// The bus driver's handle on the sensor, for the bus transactions.
    pub fn device(&self) -> &onewire::ds18b20::DS18B20 {
        &self.sensor
    }

    /// Turns the outcome of a scratchpad read into a reading.
    pub fn read(&self, sample: Result<u16, BusFault>) -> (r: Result<Reading, SensorError>)
        ensures
            match sample_outcome(sample) {
                Ok(c) => r == Ok::<Reading, SensorError>(Reading::Temperature(c)),
                Err(e) => r == Err::<Reading, SensorError>(e),
            },
    {
        match decode_sample(sample) {
            Ok(c) => Ok(Reading::Temperature(c)),
            Err(e) => Err(e),
        }
    }
}

/// An analog soil-moisture probe on a converter channel of a fixed resolution.
#[derive(Clone, Copy, Debug, PartialEq, Eq, Structural)]
pub struct SoilMoisture {
    pub resolution_bits: u32,
}

/// An analog light probe on a converter channel of a fixed resolution.
#[derive(Clone, Copy, Debug, PartialEq, Eq, Structural)]
pub struct Light {
    pub resolution_bits: u32,
}

impl SoilMoisture {
    /// A probe read at `resolution_bits`.
    pub fn new(resolution_bits: u32) -> (r: SoilMoisture)
        ensures
            r.resolution_bits == resolution_bits,
    {
        SoilMoisture { resolution_bits }
    }

    /// Turns one conversion into a reading: `None` is a conversion that
    /// reported an error.
    pub fn read(&self, conversion: Option<u16>) -> (r: Result<Reading, SensorError>)
        ensures
            r == match conversion {
                Some(raw) => Ok::<Reading, SensorError>(
                    Reading::Moisture { raw, resolution_bits: self.resolution_bits },
                ),
                None => Err(SensorError::ReadFailure),
            },
    {
        match conversion {
            Some(raw) => Ok(Reading::Moisture { raw, resolution_bits: self.resolution_bits }),
            None => Err(SensorError::ReadFailure),
        }
    }
}

impl Light {
    /// A probe read at `resolution_bits`.
    pub fn new(resolution_bits: u32) -> (r: Light)
        ensures
            r.resolution_bits == resolution_bits,
    {
        Light { resolution_bits }
    }

    /// Turns one conversion into a reading: `None` is a conversion that
    /// reported an error.
    pub fn read(&self, conversion: Option<u16>) -> (r: Result<Reading, SensorError>)
        ensures
            r == match conversion {
                Some(raw) => Ok::<Reading, SensorError>(
                    Reading::Light { raw, resolution_bits: self.resolution_bits },
                ),
                None => Err(SensorError::ReadFailure),
            },
    {
        match conversion {
            Some(raw) => Ok(Reading::Light { raw, resolution_bits: self.resolution_bits }),
            None => Err(SensorError::ReadFailure),
        }
    }
}

} // verus!
