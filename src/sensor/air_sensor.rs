//! CO2, temperature and humidity sensor on an I2C bus.
//!
//! The sensor answers a read with three words, each two bytes followed by a
//! checksum byte: CO2 in ppm, raw temperature, raw relative humidity.
use vstd::prelude::*;

use crate::sensor::{
    be_bytes, be_u16, field_i16, field_u16, field_u8, from_be_bytes, hi, lo, twos_complement,
    LPP_HUMIDITY, LPP_ILLUMINANCE, LPP_TEMPERATURE,
};

verus! {

/// Command that reads the serial number.
pub const SERIAL_NUMBER_COMMAND: u16 = 0x3682;

/// Command that reads the last measurement.
pub const READ_MEASUREMENT_COMMAND: u16 = 0xec05;

/// Command that starts one measurement.
pub const MEASURE_SINGLE_SHOT_COMMAND: u16 = 0x219d;

/// Command that powers the sensor down.
pub const POWER_DOWN: u16 = 0x36e0;

/// Command that wakes the sensor up.
pub const WAKE_UP: u16 = 0x36f6;

/// Delay after `WAKE_UP`, in milliseconds.
pub const WAKE_UP_DELAY_MS: u64 = 30;

/// Delay after `POWER_DOWN`, `SERIAL_NUMBER_COMMAND` and
/// `READ_MEASUREMENT_COMMAND`, in milliseconds.
pub const COMMAND_DELAY_MS: u64 = 1;

/// Delay between `MEASURE_SINGLE_SHOT_COMMAND` and reading its result, in
/// milliseconds.
pub const MEASUREMENT_DELAY_MS: u64 = 5000;

/// Channel of the air sensor's fields.
pub const AIR_CHANNEL: u8 = 0x01;

/// Length of an air sensor record.
pub const AIR_RECORD_LEN: usize = 11;

/// Identity of the sensor, as read at boot.
#[derive(Clone, Copy, Debug, PartialEq, Eq, Structural)]
pub struct Info {
    pub serial_number: u64,
}

/// The three words of a measurement, as the sensor sends them.
#[derive(Clone, Copy, Debug, PartialEq, Eq, Structural)]
pub struct RawMeasurement {
    /// CO2 concentration in ppm.
    pub co2: u16,
    /// Raw temperature word.
    pub temperature: u16,
    /// Raw relative humidity word.
    pub humidity: u16,
}

/// Serial number carried by the answer to `SERIAL_NUMBER_COMMAND`: its three
/// words, most significant first.
pub open spec fn serial_of(b: Seq<u8>) -> u64 {
    (be_u16(b[0], b[1]) as int * 0x1_0000_0000 + be_u16(b[3], b[4]) as int * 0x1_0000 + be_u16(
        b[6],
        b[7],
    ) as int) as u64
}

/// Bytes of a command as written on the bus, most significant first.
pub fn command_bytes(command: u16) -> (r: [u8; 2])
    ensures
        r@ == seq![hi(command), lo(command)],
{
    let r = be_bytes(command);
    assert(r@ =~= seq![hi(command), lo(command)]);
    r
}

/// Identity carried by the answer to `SERIAL_NUMBER_COMMAND`.
pub fn parse_info(buffer: &[u8; 9]) -> (r: Info)
    ensures
        r.serial_number == serial_of(buffer@),
{
    let word0 = from_be_bytes(buffer[0], buffer[1]) as u64;
    let word1 = from_be_bytes(buffer[3], buffer[4]) as u64;
    let word2 = from_be_bytes(buffer[6], buffer[7]) as u64;
    Info { serial_number: word0 * 0x1_0000_0000 + word1 * 0x1_0000 + word2 }
}

/// Words carried by the answer to `READ_MEASUREMENT_COMMAND`.
pub fn parse_measurement(buffer: &[u8; 9]) -> (r: RawMeasurement)
    ensures
        r.co2 == be_u16(buffer@[0], buffer@[1]),
        r.temperature == be_u16(buffer@[3], buffer@[4]),
        r.humidity == be_u16(buffer@[6], buffer@[7]),
{
    RawMeasurement {
        co2: from_be_bytes(buffer[0], buffer[1]),
        temperature: from_be_bytes(buffer[3], buffer[4]),
        humidity: from_be_bytes(buffer[6], buffer[7]),
    }
}

/// Record of one measurement: temperature in tenths of a degree, humidity in
/// half percent, CO2 in ppm.
pub open spec fn air_record(temperature: i16, humidity: u8, co2: u16) -> Seq<u8> {
    field_i16(AIR_CHANNEL, LPP_TEMPERATURE, temperature) + field_u8(
        AIR_CHANNEL,
        LPP_HUMIDITY,
        humidity,
    ) + field_u16(AIR_CHANNEL, LPP_ILLUMINANCE, co2)
}

/// Encodes a measurement, already scaled, into the air sensor's record.
pub fn encode_record(temperature: i16, humidity: u8, co2: u16) -> (r: [u8; 11])
    ensures
        r@ == air_record(temperature, humidity, co2),
{
    let t = be_bytes(twos_complement(temperature));
    let c = be_bytes(co2);
    let r = [
        AIR_CHANNEL,
        LPP_TEMPERATURE,
        t[0],
        t[1],
        AIR_CHANNEL,
        LPP_HUMIDITY,
        humidity,
        AIR_CHANNEL,
        LPP_ILLUMINANCE,
        c[0],
        c[1],
    ];
    assert(r@ =~= air_record(temperature, humidity, co2));
    r
}

} // verus!
