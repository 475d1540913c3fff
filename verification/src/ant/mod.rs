//! ANT+ support: the message codec and channel bring-up, the FE-C and
//! heart-rate page decoders, and the live telemetry they feed.

pub mod channel;
pub mod fec;
pub mod hrm;

use vstd::prelude::*;

verus! {

/// Units of 0.0001 km/h in one millimetre per second.
pub const SPEED_UNITS_PER_MMS: u32 = 36;

/// The live telemetry of a trainer and a heart-rate strap. The speed is kept
/// in ten-thousandths of a km/h, so that one millimetre per second is 36
/// units and every speed on the wire has an exact value.
#[derive(Debug, Clone, Copy)]
pub struct TrainerData {
    /// Instantaneous power in watts.
    pub power: u16,
    /// Speed in units of 0.0001 km/h.
    pub speed: u32,
    /// Cadence in revolutions per minute.
    pub cadence: u8,
    /// Heart rate in beats per minute.
    pub heart_rate: u8,
}

impl Default for TrainerData {
    fn default() -> (data: Self)
        ensures
            data == (TrainerData { power: 0, speed: 0, cadence: 0, heart_rate: 0 }),
    {
        Self { power: 0, speed: 0, cadence: 0, heart_rate: 0 }
    }
}

impl TrainerData {
    /// Telemetry with the given values.
    pub fn new(power: u16, speed: u32, cadence: u8, heart_rate: u8) -> (data: Self)
        ensures
            data == (TrainerData { power, speed, cadence, heart_rate }),
    {
        Self { power, speed, cadence, heart_rate }
    }

    /// Whether the trainer moves: power, speed or cadence above zero. A
    /// heart rate alone is no activity.
    pub open spec fn spec_is_active(&self) -> bool {
        self.power > 0 || self.speed > 0 || self.cadence > 0
    }

    /// Whether the trainer moves.
    #[verifier::when_used_as_spec(spec_is_active)]
    pub fn is_active(&self) -> (active: bool)
        ensures
            active == self.spec_is_active(),
    {
        self.power > 0 || self.speed > 0 || self.cadence > 0
    }
}

} // verus!
