//! Helpers shared by the frame model and the codecs.

pub mod buffer;
pub mod crc;
pub mod hex;
pub mod word;
