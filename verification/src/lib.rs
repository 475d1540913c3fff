//! Core of an indoor-cycling companion: the ANT+ message codec, the FE-C and
//! heart-rate page decoders, the live telemetry snapshot, and a workout
//! recorder that writes FIT activity files.

pub mod ant;
pub mod bytes;
pub mod calendar;
pub mod clock;
pub mod fit;
pub mod session;
pub mod workout;
