//! The heart-rate monitor profile: device type 120, channel period 8070.

use vstd::prelude::*;

verus! {

// Data pages of the profile.
pub const PAGE_0_DEFAULT: u8 = 0x00;

pub const PAGE_1_CUMULATIVE_TIME: u8 = 0x01;

pub const PAGE_2_MANUFACTURER: u8 = 0x02;

pub const PAGE_3_PRODUCT: u8 = 0x03;

pub const PAGE_4_PREVIOUS_HR: u8 = 0x04;

pub struct HrmParser;

/// The heart rate that a broadcast payload carries: byte 7, in every page
/// of the profile. A short payload and a rate of zero carry none.
pub open spec fn spec_heart_rate(data: Seq<u8>) -> Option<u8> {
    if data.len() < 8 || data[7] == 0 {
        None
    } else {
        Some(data[7])
    }
}

/// The page number of a payload: the low seven bits of byte 0. Bit 7 is a
/// toggle and no part of the number.
pub open spec fn spec_page_number(data: Seq<u8>) -> Option<u8> {
    if data.len() == 0 {
        None
    } else {
        Some(data[0] & 0x7F)
    }
}

impl HrmParser {
    /// Reads the computed heart rate, in beats per minute.
    pub fn parse_heart_rate(data: &[u8]) -> (rate: Option<u8>)
        ensures
            rate == spec_heart_rate(data@),
    {
        if data.len() < 8 {
            return None;
        }
        let hr: u8 = data[7];
        if hr == 0 {
            return None;
        }
        Some(hr)
    }

    /// Reads the page number.
    pub fn get_page_number(data: &[u8]) -> (page: Option<u8>)
        ensures
            page == spec_page_number(data@),
    {
        if data.len() == 0 {
            return None;
        }
        Some(data[0] & 0x7F)
    }
}

} // verus!
