//! FIT activity files: checksum, record framing and the message catalogue.

pub mod crc;
pub mod encoder;
pub mod messages;
pub mod types;
