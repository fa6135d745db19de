//! Environment sensors: probing, serial-number checks and stand-in sensors.

use vstd::prelude::*;
use crate::crc::{calculate_crc8_checksum, crc8};
use crate::error::{OsError, OsResult};

verus! {

/// Bus address of the HTU21D / Si7021 family.
pub const HTU_DEV_ADDR: u8 = 0x40;

/// Sensor families the firmware drives.
#[derive(Debug, Clone, Copy, PartialEq, Eq, Structural)]
pub enum SensorKind {
    HtuCompatible,
}

/// Picks the driver for the first device that answered a bus probe.
pub fn classify_sensor(found: Option<u8>) -> (r: OsResult<SensorKind>)
    ensures
        found == Some(HTU_DEV_ADDR) ==> r == Ok::<SensorKind, OsError>(SensorKind::HtuCompatible),
        found != Some(HTU_DEV_ADDR) ==> r == Err::<SensorKind, OsError>(OsError::NoEnvSensor),
{
    match found {
        Some(addr) => {
            if addr == HTU_DEV_ADDR {
                Ok(SensorKind::HtuCompatible)
            } else {
                Err(OsError::NoEnvSensor)
            }
        },
        None => Err(OsError::NoEnvSensor),
    }
}

/// The serial-number bytes of the two electronic-ID reads, most significant
/// first, provided each read's trailing CRC matches its data bytes.
///
/// The first read is SNA_3, CRC, SNA_2, CRC, SNA_1, CRC, SNA_0, CRC; the second
/// is SNB_3, SNB_2, CRC, SNB_1, SNB_0, CRC. The last CRC of each read covers all
/// of its data bytes.
pub open spec fn serial_bytes_spec(first: Seq<u8>, second: Seq<u8>) -> Option<Seq<u8>> {
    let a = seq![first[0], first[2], first[4], first[6]];
    let b = seq![second[0], second[1], second[3], second[4]];
    if crc8(a) == first[7] && crc8(b) == second[5] {
        Some(a + b)
    } else {
        None
    }
}

/// Checks and extracts the eight serial-number bytes of the sensor's two
/// electronic-ID reads; `None` on a checksum mismatch.
pub fn serial_bytes(first: &[u8; 8], second: &[u8; 6]) -> (r: Option<[u8; 8]>)
    ensures
        match r {
            Some(bytes) => serial_bytes_spec(first@, second@) == Some(bytes@),
            None => serial_bytes_spec(first@, second@) is None,
        },
{
    let a = [first[0], first[2], first[4], first[6]];
    let b = [second[0], second[1], second[3], second[4]];
    assert(a@ =~= seq![first@[0], first@[2], first@[4], first@[6]]);
    assert(b@ =~= seq![second@[0], second@[1], second@[3], second@[4]]);
    let first_crc = calculate_crc8_checksum(&a);
    let last_crc = calculate_crc8_checksum(&b);
    if first_crc != first[7] || last_crc != second[5] {
        return None;
    }
    let bytes = [a[0], a[1], a[2], a[3], b[0], b[1], b[2], b[3]];
    assert(bytes@ =~= a@ + b@);
    Some(bytes)
}

/// A stand-in sensor with fixed readings.
pub struct MockSensor;

impl MockSensor {
    pub fn new() -> (r: OsResult<MockSensor>)
        ensures
            r is Ok,
    {
        Ok(MockSensor)
    }

    pub fn connected(&mut self) -> (r: OsResult<bool>)
        ensures
            r == Ok::<bool, OsError>(true),
    {
        Ok(true)
    }

    /// Temperature in hundredths of a degree Celsius.
    pub fn read_temperature(&mut self) -> (r: OsResult<i32>)
        ensures
            r == Ok::<i32, OsError>(2000),
    {
        Ok(2000)
    }

    /// Relative humidity in percent.
    pub fn read_humidity(&mut self) -> (r: OsResult<u8>)
        ensures
            r == Ok::<u8, OsError>(40),
    {
        Ok(40)
    }

    /// Air pressure in hectopascals.
    pub fn read_air_pressure(&mut self) -> (r: OsResult<Option<u16>>)
        ensures
            r == Ok::<Option<u16>, OsError>(Some(5000)),
    {
        Ok(Some(5000))
    }
}

/// A stand-in sensor at an address no real device uses.
pub struct FakeEnvSensor;

impl FakeEnvSensor {
    pub const DEV_ADDR: u8 = 0xFF;

    pub fn new() -> (r: OsResult<FakeEnvSensor>)
        ensures
            r is Ok,
    {
        Ok(FakeEnvSensor)
    }

    pub fn connected(&mut self) -> (r: OsResult<bool>)
        ensures
            r == Ok::<bool, OsError>(true),
    {
        Ok(true)
    }

    /// Temperature in hundredths of a degree Celsius.
    pub fn read_temperature(&mut self) -> (r: OsResult<i32>)
        ensures
            r == Ok::<i32, OsError>(0),
    {
        Ok(0)
    }

    /// Relative humidity in percent.
    pub fn read_humidity(&mut self) -> (r: OsResult<u8>)
        ensures
            r == Ok::<u8, OsError>(69),
    {
        Ok(69)
    }

    /// Air pressure in hectopascals.
    pub fn read_air_pressure(&mut self) -> (r: Option<OsResult<u16>>)
        ensures
            r == Some(Ok::<u16, OsError>(321)),
    {
        Some(Ok(321))
    }
}

} // verus!
