//! Sensors: the byte layout of their records and the power-switching
//! decisions shared by every sensor.
//!
//! A record is a sequence of Cayenne LPP fields: a channel byte, a type byte
//! and a big-endian value whose width the type fixes.
use vstd::prelude::*;

pub mod air_sensor;
pub mod soil_sensor;
pub mod system_sensor;

verus! {

/// LPP type of a one-byte digital input.
pub const LPP_DIGITAL_INPUT: u8 = 0x00;

/// LPP type of a two-byte analog input (hundredths).
pub const LPP_ANALOG_INPUT: u8 = 0x02;

/// LPP type of a two-byte unsigned count (used for raw counts and ppm).
pub const LPP_ILLUMINANCE: u8 = 0x65;

/// LPP type of a two-byte signed temperature in tenths of a degree.
pub const LPP_TEMPERATURE: u8 = 0x67;

/// LPP type of a one-byte percentage in half-percent steps.
pub const LPP_HUMIDITY: u8 = 0x68;

/// High byte of a 16-bit value.
pub open spec fn hi(v: u16) -> u8 {
    (v / 256) as u8
}

/// Low byte of a 16-bit value.
pub open spec fn lo(v: u16) -> u8 {
    (v % 256) as u8
}

/// Two's-complement bit pattern of a signed 16-bit value.
pub open spec fn twos(v: i16) -> u16 {
    if v < 0 {
        (v + 65536) as u16
    } else {
        v as u16
    }
}

/// A field with a one-byte value.
pub open spec fn field_u8(channel: u8, kind: u8, v: u8) -> Seq<u8> {
    seq![channel, kind, v]
}

/// A field with a two-byte unsigned value, most significant byte first.
pub open spec fn field_u16(channel: u8, kind: u8, v: u16) -> Seq<u8> {
    seq![channel, kind, hi(v), lo(v)]
}

/// A field with a two-byte signed value in two's complement.
pub open spec fn field_i16(channel: u8, kind: u8, v: i16) -> Seq<u8> {
    field_u16(channel, kind, twos(v))
}

/// The 16-bit value whose big-endian bytes are `h`, `l`.
pub open spec fn be_u16(h: u8, l: u8) -> u16 {
    (h as int * 256 + l as int) as u16
}

/// Big-endian bytes of `v`.
pub fn be_bytes(v: u16) -> (r: [u8; 2])
    ensures
        r[0] == hi(v),
        r[1] == lo(v),
{
    assert(((v >> 8u16) as u8) == ((v / 256) as u8)) by (bit_vector);
    assert((v as u8) == ((v % 256) as u8)) by (bit_vector);
    [(v >> 8) as u8, v as u8]
}

/// Reads a big-endian 16-bit value.
pub fn from_be_bytes(h: u8, l: u8) -> (r: u16)
    ensures
        r == be_u16(h, l),
{
    (h as u16) * 256 + (l as u16)
}

/// Two's-complement bit pattern of `v`, as `v as u16` gives it.
pub fn twos_complement(v: i16) -> (r: u16)
    ensures
        r == twos(v),
{
    if v < 0 {
        (v as i32 + 65536) as u16
    } else {
        v as u16
    }
}

/// What a power request asks of the hardware.
#[derive(Clone, Copy, Debug, PartialEq, Eq, Structural)]
pub enum PowerStep {
    /// The sensor is already in the requested state: nothing to do.
    AlreadyDone,
    /// The sensor must be switched.
    Switch,
}

/// Power state of a sensor that can be switched on and off.
///
/// `on()` and `off()` are idempotent: a request for the state the sensor is
/// already in is answered without touching the hardware.
#[derive(Clone, Copy, Debug)]
pub struct PowerSwitch {
    powered: bool,
}

/// Step that a request for power state `on` takes from state `powered`.
pub open spec fn power_step(powered: bool, on: bool) -> PowerStep {
    if powered == on {
        PowerStep::AlreadyDone
    } else {
        PowerStep::Switch
    }
}

/// State after a request for `on` whose switching, if any was needed,
/// succeeded (`ok`) or failed.
pub open spec fn power_after(powered: bool, on: bool, ok: bool) -> bool {
    if power_step(powered, on) == PowerStep::AlreadyDone || ok {
        on
    } else {
        powered
    }
}

impl PowerSwitch {
    pub closed spec fn powered(&self) -> bool {
        self.powered
    }

    pub fn new(powered: bool) -> (r: PowerSwitch)
        ensures
            r.powered() == powered,
    {
        PowerSwitch { powered }
    }

    pub fn is_powered(&self) -> (r: bool)
        ensures
            r == self.powered(),
    {
        self.powered
    }

    /// Step needed to power the sensor on.
    pub fn on(&self) -> (r: PowerStep)
        ensures
            r == power_step(self.powered(), true),
    {
        if self.powered {
            PowerStep::AlreadyDone
        } else {
            PowerStep::Switch
        }
    }

    /// Step needed to power the sensor off.
    pub fn off(&self) -> (r: PowerStep)
        ensures
            r == power_step(self.powered(), false),
    {
        if self.powered {
            PowerStep::Switch
        } else {
            PowerStep::AlreadyDone
        }
    }

    /// Records the end of a request for state `on`. `ok` tells whether the
    /// switching succeeded; it is not looked at when none was needed. The
    /// request succeeds unless a needed switching failed.
    pub fn complete(&mut self, on: bool, ok: bool) -> (r: Result<(), ()>)
        ensures
            final(self).powered() == power_after(old(self).powered(), on, ok),
            r is Ok <==> (power_step(old(self).powered(), on) == PowerStep::AlreadyDone || ok),
    {
        if self.powered == on {
            Ok(())
        } else if ok {
            self.powered = on;
            Ok(())
        } else {
            Err(())
        }
    }
}

/// Powering on (or off) is idempotent. Whatever state a sensor is in, once a
/// request for a state has succeeded, a second request for the same state
/// needs no switching, succeeds, and leaves the state unchanged.
pub proof fn lemma_power_idempotent(powered: bool, on: bool)
    ensures
        power_after(powered, on, true) == on,
        power_step(power_after(powered, on, true), on) == PowerStep::AlreadyDone,
        power_after(power_after(powered, on, true), on, false) == on,
        power_after(power_after(powered, on, true), on, true) == on,
{
}

} // verus!
