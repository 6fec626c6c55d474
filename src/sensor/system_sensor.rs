//! Board readings: chip temperature, battery voltage and charge, system
//! voltage and the power source. The board's power cannot be switched.
use vstd::prelude::*;

use crate::sensor::{
    be_bytes, field_i16, field_u16, field_u8, twos_complement, LPP_ANALOG_INPUT, LPP_DIGITAL_INPUT, LPP_HUMIDITY,
    LPP_TEMPERATURE,
};

verus! {

/// Channel of the chip temperature and battery fields.
pub const BOARD_CHANNEL: u8 = 0x03;

/// Channel of the system voltage and power source fields.
pub const SUPPLY_CHANNEL: u8 = 0x04;

/// Length of a system sensor record.
pub const SYSTEM_RECORD_LEN: usize = 18;

/// Where the board draws its power from.
#[derive(Clone, Copy, Debug, PartialEq, Eq, Structural)]
pub enum PowerSource {
    Battery,
    Usb,
}

/// Value of the power source field.
pub open spec fn source_code(source: PowerSource) -> u8 {
    match source {
        PowerSource::Battery => 0,
        PowerSource::Usb => 1,
    }
}

/// Power source given the level of the USB sense pin.
pub fn power_source(usb_high: bool) -> (r: PowerSource)
    ensures
        r == (if usb_high {
            PowerSource::Usb
        } else {
            PowerSource::Battery
        }),
{
    if usb_high {
        PowerSource::Usb
    } else {
        PowerSource::Battery
    }
}

/// Record of one set of readings: chip temperature in tenths of a degree,
/// battery and system voltage in hundredths of a volt, battery charge in half
/// percent, and the power source.
pub open spec fn system_record(
    temperature: i16,
    battery_voltage: u16,
    battery_capacity: u8,
    vsys_voltage: u16,
    source: PowerSource,
) -> Seq<u8> {
    field_i16(BOARD_CHANNEL, LPP_TEMPERATURE, temperature) + field_u16(
        BOARD_CHANNEL,
        LPP_ANALOG_INPUT,
        battery_voltage,
    ) + field_u8(BOARD_CHANNEL, LPP_HUMIDITY, battery_capacity) + field_u16(
        SUPPLY_CHANNEL,
        LPP_ANALOG_INPUT,
        vsys_voltage,
    ) + field_u8(SUPPLY_CHANNEL, LPP_DIGITAL_INPUT, source_code(source))
}

/// Encodes readings, already scaled, into the system sensor's record.
pub fn encode_record(
    temperature: i16,
    battery_voltage: u16,
    battery_capacity: u8,
    vsys_voltage: u16,
    source: PowerSource,
) -> (r: [u8; 18])
    ensures
        r@ == system_record(temperature, battery_voltage, battery_capacity, vsys_voltage, source),
{
    let t = be_bytes(twos_complement(temperature));
    let b = be_bytes(battery_voltage);
    let v = be_bytes(vsys_voltage);
    let code: u8 = match source {
        PowerSource::Battery => 0,
        PowerSource::Usb => 1,
    };
    let r = [
        BOARD_CHANNEL,
        LPP_TEMPERATURE,
        t[0],
        t[1],
        BOARD_CHANNEL,
        LPP_ANALOG_INPUT,
        b[0],
        b[1],
        BOARD_CHANNEL,
        LPP_HUMIDITY,
        battery_capacity,
        SUPPLY_CHANNEL,
        LPP_ANALOG_INPUT,
        v[0],
        v[1],
        SUPPLY_CHANNEL,
        LPP_DIGITAL_INPUT,
        code,
    ];
    assert(r@ =~= system_record(
        temperature,
        battery_voltage,
        battery_capacity,
        vsys_voltage,
        source,
    ));
    r
}

} // verus!
