//! Capacitive soil moisture sensor read through the shared analog converter.
//! It is powered only while it is probed, since constant power corrodes it.
use vstd::prelude::*;

use crate::sensor::{be_bytes, field_u16, LPP_ILLUMINANCE};

verus! {

/// Channel of the soil sensor's field.
pub const SOIL_CHANNEL: u8 = 0x02;

/// Length of a soil sensor record.
pub const SOIL_RECORD_LEN: usize = 4;

/// Record of one reading: the converter's raw count.
pub open spec fn soil_record(moisture: u16) -> Seq<u8> {
    field_u16(SOIL_CHANNEL, LPP_ILLUMINANCE, moisture)
}

/// Encodes a raw converter count into the soil sensor's record.
pub fn encode_record(moisture: u16) -> (r: [u8; 4])
    ensures
        r@ == soil_record(moisture),
{
    let m = be_bytes(moisture);
    let r = [SOIL_CHANNEL, LPP_ILLUMINANCE, m[0], m[1]];
    assert(r@ =~= soil_record(moisture));
    r
}

} // verus!
