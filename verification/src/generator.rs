//! One qualified entropy generator and its streaming session.
//!
//! A [`Generator`] owns the open device handle, its identity (serial number
//! and description) and the streaming state. A session is start-stream, then
//! exact-length reads, then stop-stream; the device is command-idempotent, so
//! re-issuing start or stop is permitted and only moves the state again.

use crate::constants::{
    ENDPOINT_IN, ENDPOINT_OUT, START_STREAMING_COMMAND, STOP_STREAMING_COMMAND,
    TRANSFER_TIMEOUT_MS,
};
use crate::transport;
use crate::transport::{UsbAction, UsbHandle};
use vstd::prelude::*;

verus! {

/// Declares std::io::Error, carried verbatim by the I/O error kind.
#[verifier::external_type_specification]
#[verifier::external_body]
pub struct ExIoError(std::io::Error);

/// The failures this library reports: a transport fault at the USB boundary,
/// a lower-level I/O fault, a bulk read of the wrong length, and a lookup of
/// a serial that no qualified device carries (or an empty registry).
#[derive(Debug)]
pub enum MeterFeederError {
    UsbError(rusb::Error),
    IoError(std::io::Error),
    ReadLengthMismatch,
    DeviceNotFound,
}

impl From<rusb::Error> for MeterFeederError {
    fn from(err: rusb::Error) -> (r: Self) {
        MeterFeederError::UsbError(err)
    }
}

impl vstd::std_specs::convert::FromSpecImpl<rusb::Error> for MeterFeederError {
    open spec fn obeys_from_spec() -> bool {
        true
    }

    open spec fn from_spec(err: rusb::Error) -> Self {
        MeterFeederError::UsbError(err)
    }
}

impl From<std::io::Error> for MeterFeederError {
    fn from(err: std::io::Error) -> (r: Self) {
        MeterFeederError::IoError(err)
    }
}

impl vstd::std_specs::convert::FromSpecImpl<std::io::Error> for MeterFeederError {
    open spec fn obeys_from_spec() -> bool {
        true
    }

    open spec fn from_spec(err: std::io::Error) -> Self {
        MeterFeederError::IoError(err)
    }
}

/// The strict exact-length rule on one bulk transfer's outcome: the buffer
/// passes through exactly when the transferred count `n` equals the requested
/// `length`; any other count is `ReadLengthMismatch`, and nothing else ever
/// is. There is no accumulation or retry: one transfer decides.
pub fn take_exact(buffer: Vec<u8>, n: usize, length: usize) -> (r: Result<
    Vec<u8>,
    MeterFeederError,
>)
    ensures
        n == length ==> r == Ok::<Vec<u8>, MeterFeederError>(buffer),
        n != length ==> (r matches Err(e) && e is ReadLengthMismatch),
{
    if n != length {
        Err(MeterFeederError::ReadLengthMismatch)
    } else {
        Ok(buffer)
    }
}

/// The transport actions one start-streaming call attempts, in order: reset
/// the device's I/O state, then send the start command byte on the bulk OUT
/// endpoint.
pub open spec fn spec_start_actions() -> Seq<UsbAction> {
    seq![
        UsbAction::Reset,
        UsbAction::BulkWrite { endpoint: ENDPOINT_OUT, command: START_STREAMING_COMMAND },
    ]
}

/// The transport actions one stop-streaming call attempts, in order: reset
/// the device's I/O state, then send the stop command byte on the bulk OUT
/// endpoint.
pub open spec fn spec_stop_actions() -> Seq<UsbAction> {
    seq![
        UsbAction::Reset,
        UsbAction::BulkWrite { endpoint: ENDPOINT_OUT, command: STOP_STREAMING_COMMAND },
    ]
}

/// The transport actions one whole entropy session attempts, in order:
/// start-stream, one exact-length transfer on the bulk IN endpoint,
/// stop-stream.
pub open spec fn spec_session_actions(length: usize) -> Seq<UsbAction> {
    spec_start_actions() + seq![UsbAction::BulkRead { endpoint: ENDPOINT_IN, length }]
        + spec_stop_actions()
}

/// Streaming state of one generator: between a start command and the matching
/// stop command the device is `Streaming`, otherwise `Idle`.
#[derive(Clone, Copy, Debug, PartialEq, Eq, Structural)]
pub enum StreamState {
    Idle,
    Streaming,
}

/// One qualified entropy generator: its open handle, its identity and its
/// streaming state.
pub struct Generator {
    serial_number: String,
    description: String,
    device: UsbHandle,
    state: StreamState,
}

impl Generator {
    /// The serial number, the generator's immutable identity key.
    pub closed spec fn spec_serial(&self) -> Seq<char> {
        self.serial_number@
    }

    /// The human-readable product description.
    pub closed spec fn spec_description(&self) -> Seq<char> {
        self.description@
    }

    /// The current streaming state.
    pub closed spec fn spec_state(&self) -> StreamState {
        self.state
    }

    /// The trace of stream-level transport actions performed through this
    /// generator's handle, oldest first.
    pub closed spec fn spec_log(&self) -> Seq<UsbAction> {
        self.device.spec_log()
    }

    pub fn new(serial_number: String, description: String, device: UsbHandle) -> (g: Generator)
        ensures
            g.spec_serial() == serial_number@,
            g.spec_description() == description@,
            g.spec_state() is Idle,
            g.spec_log() == device.spec_log(),
    {
        Generator { serial_number, description, device, state: StreamState::Idle }
    }

    pub fn get_serial_number(&self) -> (r: &str)
        ensures
            r@ == self.spec_serial(),
    {
        self.serial_number.as_str()
    }

    pub fn get_description(&self) -> (r: &str)
        ensures
            r@ == self.spec_description(),
    {
        self.description.as_str()
    }

    /// The open device handle, for transport operations outside a session.
    pub fn get_device(&self) -> (r: Result<&UsbHandle, MeterFeederError>)
        ensures
            r is Ok,
    {
        Ok(&self.device)
    }

    /// Resets the device's I/O buffers (discarding stale bytes a previous
    /// session may have left), then sends the start-streaming command byte on
    /// the bulk OUT endpoint: the action trace grows by exactly
    /// [`spec_start_actions`] on success. A reset failure propagates and the
    /// write is skipped; the trace shows which actions were attempted.
    pub fn start_streaming(&mut self) -> (r: Result<(), MeterFeederError>)
        ensures
            final(self).spec_serial() == old(self).spec_serial(),
            final(self).spec_description() == old(self).spec_description(),
            r is Ok ==> final(self).spec_state() is Streaming,
            r is Err ==> final(self).spec_state() == old(self).spec_state(),
            r matches Err(e) ==> e is UsbError,
            r is Ok ==> final(self).spec_log() == old(self).spec_log() + spec_start_actions(),
            final(self).spec_log() == old(self).spec_log().push(UsbAction::Reset)
                || final(self).spec_log() == old(self).spec_log() + spec_start_actions(),
    {
        match transport::reset_device(&mut self.device) {
            Err(e) => {
                return Err(MeterFeederError::UsbError(e));
            },
            Ok(_) => {},
        }
        let res = transport::write_command(
            &mut self.device,
            ENDPOINT_OUT,
            START_STREAMING_COMMAND,
            TRANSFER_TIMEOUT_MS,
        );
        proof {
            assert(self.spec_log() =~= old(self).spec_log() + spec_start_actions());
        }
        match res {
            Err(e) => Err(MeterFeederError::UsbError(e)),
            Ok(_) => {
                self.state = StreamState::Streaming;
                Ok(())
            },
        }
    }

    /// Resets the device's I/O buffers, then sends the stop-streaming command
    /// byte on the bulk OUT endpoint: the action trace grows by exactly
    /// [`spec_stop_actions`] on success. A reset failure propagates and the
    /// write is skipped; the trace shows which actions were attempted.
    pub fn stop_streaming(&mut self) -> (r: Result<(), MeterFeederError>)
        ensures
            final(self).spec_serial() == old(self).spec_serial(),
            final(self).spec_description() == old(self).spec_description(),
            r is Ok ==> final(self).spec_state() is Idle,
            r is Err ==> final(self).spec_state() == old(self).spec_state(),
            r matches Err(e) ==> e is UsbError,
            r is Ok ==> final(self).spec_log() == old(self).spec_log() + spec_stop_actions(),
            final(self).spec_log() == old(self).spec_log().push(UsbAction::Reset)
                || final(self).spec_log() == old(self).spec_log() + spec_stop_actions(),
    {
        match transport::reset_device(&mut self.device) {
            Err(e) => {
                return Err(MeterFeederError::UsbError(e));
            },
            Ok(_) => {},
        }
        let res = transport::write_command(
            &mut self.device,
            ENDPOINT_OUT,
            STOP_STREAMING_COMMAND,
            TRANSFER_TIMEOUT_MS,
        );
        proof {
            assert(self.spec_log() =~= old(self).spec_log() + spec_stop_actions());
        }
        match res {
            Err(e) => Err(MeterFeederError::UsbError(e)),
            Ok(_) => {
                self.state = StreamState::Idle;
                Ok(())
            },
        }
    }

    /// Exactly one bulk transfer on the IN endpoint, bounded by the fixed
    /// timeout — the action trace grows by that one transfer and nothing
    /// else, so there is no accumulation or retry. The transfer must yield
    /// exactly `length` bytes; what is returned for each transferred count
    /// is stated by [`take_exact`], which decides — `ReadLengthMismatch` on
    /// any other count, never a silently short or long result. A transport
    /// failure propagates as `UsbError` instead.
    pub fn read(&mut self, length: usize) -> (r: Result<Vec<u8>, MeterFeederError>)
        ensures
            final(self).spec_serial() == old(self).spec_serial(),
            final(self).spec_description() == old(self).spec_description(),
            final(self).spec_state() == old(self).spec_state(),
            final(self).spec_log() == old(self).spec_log().push(
                UsbAction::BulkRead { endpoint: ENDPOINT_IN, length },
            ),
            r matches Ok(bytes) ==> bytes@.len() == length,
            r matches Err(e) ==> e is UsbError || e is ReadLengthMismatch,
    {
        let mut buffer: Vec<u8> = vec![0u8; length];
        let n = match transport::read_bulk(
            &mut self.device,
            ENDPOINT_IN,
            &mut buffer,
            TRANSFER_TIMEOUT_MS,
        ) {
            Err(e) => {
                return Err(MeterFeederError::UsbError(e));
            },
            Ok(n) => n,
        };
        take_exact(buffer, n, length)
    }

    /// One whole entropy session under the caller's exclusive access: start
    /// streaming, read exactly `length` bytes, stop streaming. On full
    /// success the action trace grows by exactly [`spec_session_actions`] —
    /// reset, the start byte, one transfer, reset, the stop byte, in that
    /// order; on a failure it grows by a prefix of that sequence, the first
    /// failing step's error propagates, and the later steps are skipped.
    pub fn run_session(&mut self, length: usize) -> (r: Result<Vec<u8>, MeterFeederError>)
        ensures
            final(self).spec_serial() == old(self).spec_serial(),
            final(self).spec_description() == old(self).spec_description(),
            r matches Ok(bytes) ==> bytes@.len() == length,
            r matches Err(e) ==> e is UsbError || e is ReadLengthMismatch,
            r is Ok ==> final(self).spec_log() == old(self).spec_log() + spec_session_actions(
                length,
            ),
            r is Ok ==> final(self).spec_state() is Idle,
            exists|k: int|
                0 <= k <= spec_session_actions(length).len() && final(self).spec_log()
                    == old(self).spec_log() + #[trigger] spec_session_actions(length).take(k),
    {
        let ghost pre = old(self).spec_log();
        match self.start_streaming() {
            Err(e) => {
                proof {
                    if self.spec_log() == pre.push(UsbAction::Reset) {
                        assert(self.spec_log() =~= pre + spec_session_actions(length).take(1));
                    } else {
                        assert(self.spec_log() =~= pre + spec_session_actions(length).take(2));
                    }
                }
                return Err(e);
            },
            Ok(_) => {},
        }
        let data = match self.read(length) {
            Err(e) => {
                proof {
                    assert(self.spec_log() =~= pre + spec_session_actions(length).take(3));
                }
                return Err(e);
            },
            Ok(d) => d,
        };
        match self.stop_streaming() {
            Err(e) => {
                proof {
                    if self.spec_log() == (pre + spec_session_actions(length).take(3)).push(
                        UsbAction::Reset,
                    ) {
                        assert(self.spec_log() =~= pre + spec_session_actions(length).take(4));
                    } else {
                        assert(self.spec_log() =~= pre + spec_session_actions(length).take(5));
                    }
                }
                return Err(e);
            },
            Ok(_) => {},
        }
        proof {
            assert(self.spec_log() =~= pre + spec_session_actions(length));
            assert(self.spec_log() == pre + spec_session_actions(length).take(5));
        }
        Ok(data)
    }

    /// Best-effort release of the claimed interface at teardown; the attempt
    /// is recorded on the handle's action trace.
    pub fn release_interface(&mut self, iface: u8) -> (r: Result<(), MeterFeederError>)
        ensures
            final(self).spec_serial() == old(self).spec_serial(),
            final(self).spec_description() == old(self).spec_description(),
            final(self).spec_state() == old(self).spec_state(),
            final(self).spec_log() == old(self).spec_log().push(
                UsbAction::ReleaseInterface { iface },
            ),
            r matches Err(e) ==> e is UsbError,
    {
        match transport::release_interface(&mut self.device, iface) {
            Ok(_) => Ok(()),
            Err(e) => Err(MeterFeederError::UsbError(e)),
        }
    }

    /// Gives the device up; the handle releases its claimed interfaces and
    /// closes when dropped.
    pub fn close(self) {
    }
}

} // verus!
