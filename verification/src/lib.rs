//! Session core for USB-attached hardware entropy generators.
//!
//! The library enumerates and qualifies the supported devices on the USB bus,
//! owns one session per device (start-stream, exact-length read, stop-stream),
//! serializes access to each device behind its own lock, and derives integers
//! from the raw entropy bytes by little-endian decoding.

pub mod constants;
pub mod decode;
pub mod driver;
pub mod generator;
pub mod transport;
