//! Identifiers, wire-protocol command bytes and transport parameters for the
//! supported family of USB entropy generators.

use vstd::prelude::*;

verus! {

/// Vendor id of the USB-to-serial bridge chip the generators are built on.
pub const BRIDGE_VENDOR_ID: u16 = 0x0403;

/// Product id of the USB-to-serial bridge chip.
pub const BRIDGE_PRODUCT_ID: u16 = 0x6015;

/// The interface claimed on each qualified device.
pub const BRIDGE_INTERFACE: u8 = 0;

/// Bulk IN endpoint carrying the entropy stream.
pub const ENDPOINT_IN: u8 = 0x81;

/// Bulk OUT endpoint taking the command bytes.
pub const ENDPOINT_OUT: u8 = 0x02;

/// Command byte that starts continuous entropy streaming.
pub const START_STREAMING_COMMAND: u8 = 0x96;

/// Command byte that stops the entropy stream.
pub const STOP_STREAMING_COMMAND: u8 = 0xe0;

/// Bound, in milliseconds, on every bulk transfer and string read.
pub const TRANSFER_TIMEOUT_MS: u64 = 1000;

/// Coarse status of a transfer, as reported to callers that do not want to
/// inspect the full error type.
#[derive(Debug, PartialEq, Eq, Structural)]
pub enum Status {
    Success,
    RxdBytesLengthWrong,
}

impl Status {
    pub fn is_ok(&self) -> (r: bool)
        ensures
            r == (self is Success),
    {
        matches!(self, Status::Success)
    }
}

} // verus!
