//! Constants of the FIT profile, field descriptors and the FIT clock.

use vstd::prelude::*;

verus! {

/// Seconds from the Unix epoch to the FIT epoch, 1989-12-31 00:00:00 UTC.
pub const FIT_EPOCH_OFFSET: u32 = 631065600;

// Base types of a field descriptor.
pub const BASE_TYPE_ENUM: u8 = 0x00;

pub const BASE_TYPE_UINT8: u8 = 0x0D;

pub const BASE_TYPE_UINT16: u8 = 0x84;

pub const BASE_TYPE_UINT32: u8 = 0x86;

pub const BASE_TYPE_STRING: u8 = 0x07;

// Global message numbers.
pub const MESG_FILE_ID: u16 = 0;

pub const MESG_EVENT: u16 = 21;

pub const MESG_RECORD: u16 = 20;

pub const MESG_LAP: u16 = 19;

pub const MESG_SESSION: u16 = 18;

pub const MESG_ACTIVITY: u16 = 34;

// Local message types, one for each message of an activity file.
pub const LOCAL_FILE_ID: u8 = 0;

pub const LOCAL_EVENT: u8 = 1;

pub const LOCAL_RECORD: u8 = 2;

pub const LOCAL_LAP: u8 = 3;

pub const LOCAL_SESSION: u8 = 4;

pub const LOCAL_ACTIVITY: u8 = 5;

pub const FILE_TYPE_ACTIVITY: u8 = 4;

pub const MANUFACTURER_DEVELOPMENT: u16 = 255;

pub const PRODUCT_NOTCHRIDER: u16 = 1;

pub const SPORT_CYCLING: u8 = 2;

pub const SUB_SPORT_INDOOR_CYCLING: u8 = 6;

pub const EVENT_TIMER: u8 = 0;

pub const EVENT_TYPE_START: u8 = 0;

pub const EVENT_TYPE_STOP_ALL: u8 = 4;

pub const LAP_TRIGGER_SESSION_END: u8 = 7;

pub const ACTIVITY_MANUAL: u8 = 0;

/// One field of a definition record: its number, its size in bytes and its
/// base type.
#[derive(Clone, Copy, Debug)]
pub struct FieldDef {
    pub field_num: u8,
    pub size: u8,
    pub base_type: u8,
}

impl FieldDef {
    pub fn new(field_num: u8, size: u8, base_type: u8) -> (field: Self)
        ensures
            field == (FieldDef { field_num, size, base_type }),
    {
        Self { field_num, size, base_type }
    }
}

/// The FIT timestamp of a Unix time: seconds since the FIT epoch, modulo 2^32.
pub open spec fn spec_unix_to_fit_timestamp(unix_secs: u64) -> u32 {
    ((unix_secs - FIT_EPOCH_OFFSET) % 0x1_0000_0000) as u32
}

/// Converts seconds since 1970 to a FIT timestamp.
pub fn unix_to_fit_timestamp(unix_secs: u64) -> (fit_ts: u32)
    ensures
        fit_ts == spec_unix_to_fit_timestamp(unix_secs),
{
    let low: u32 = (unix_secs % 0x1_0000_0000) as u32;
    low.wrapping_sub(FIT_EPOCH_OFFSET)
}

} // verus!
