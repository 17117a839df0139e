//! Trusted boundary to the USB transport (the `rusb` crate).
//!
//! Everything the session core needs from the bus goes through the wrappers
//! below: enumeration, descriptor and string reads, configuration and
//! interface claims, device reset, and the two bulk endpoints. Each wrapper
//! makes exactly one `rusb` call; what a device answers depends on the
//! hardware, so the contracts state only what holds of every outcome.

use rusb::UsbContext;
use std::time::Duration;
use vstd::prelude::*;

verus! {

/// Declares rusb::Context, the libusb context the bus is enumerated through.
#[verifier::external_type_specification]
#[verifier::external_body]
pub struct ExContext(rusb::Context);

/// One enumerated USB device, as the transport hands it out. The inner
/// `rusb::Device` is generic over the libusb context and cannot be declared
/// to the verifier directly, so it is held opaquely here.
#[verifier::external_body]
pub struct UsbDevice {
    device: rusb::Device<rusb::Context>,
}

/// The raw open handle. Held opaquely for the same reason as
/// [`UsbDevice`].
#[verifier::external_body]
struct RawHandle {
    handle: rusb::DeviceHandle<rusb::Context>,
}

/// One observable transport action on an open handle. The ghost trace of
/// these actions is the model the session contracts are stated over: which
/// command bytes go out, on which endpoint, in which order. Qualification
/// reads (descriptor, strings, configuration, interface claim) happen before
/// a generator exists and stay outside this model.
pub enum UsbAction {
    /// The device's I/O state was reset.
    Reset,
    /// One buffer of `command` was sent on the bulk OUT `endpoint`.
    BulkWrite { endpoint: u8, command: u8 },
    /// One transfer of up to `length` bytes was requested on the bulk IN
    /// `endpoint`.
    BulkRead { endpoint: u8, length: usize },
    /// A release of the claimed interface `iface` was attempted.
    ReleaseInterface { iface: u8 },
}

/// An open USB device handle, together with the ghost trace of the
/// stream-level transport actions performed through it. Every wrapper that
/// acts on the stream appends its action to the trace, whatever the device
/// answered: the trace records attempts, not outcomes.
pub struct UsbHandle {
    raw: RawHandle,
    log: Ghost<Seq<UsbAction>>,
}

impl UsbHandle {
    /// The trace of stream-level actions performed through this handle,
    /// oldest first.
    pub closed spec fn spec_log(&self) -> Seq<UsbAction> {
        self.log@
    }
}

/// Declares rusb::DeviceDescriptor, the descriptor qualification reads ids
/// and string indices from.
#[verifier::external_type_specification]
#[verifier::external_body]
pub struct ExDeviceDescriptor(rusb::DeviceDescriptor);

/// Declares rusb::Language, the language a string descriptor is read in.
#[verifier::external_type_specification]
#[verifier::external_body]
pub struct ExLanguage(rusb::Language);

/// Declares rusb::Error, the transport's error type; the library carries it
/// verbatim inside its own error type.
#[verifier::external_type_specification]
#[verifier::external_body]
pub struct ExUsbError(rusb::Error);

/// Relies on rusb::Context::new: opens a fresh libusb context or reports why
/// it could not.
#[verifier::external_body]
pub(crate) fn new_context() -> Result<rusb::Context, rusb::Error> {
    rusb::Context::new()
}

/// Relies on rusb::UsbContext::devices: lists the devices currently visible
/// on the bus.
#[verifier::external_body]
pub(crate) fn list_devices(ctx: &rusb::Context) -> Result<Vec<UsbDevice>, rusb::Error> {
    match ctx.devices() {
        Ok(list) => Ok(list.iter().map(|device| UsbDevice { device }).collect()),
        Err(e) => Err(e),
    }
}

/// Relies on rusb::Device::device_descriptor: reads the device descriptor.
#[verifier::external_body]
pub(crate) fn device_descriptor(
    device: &UsbDevice,
) -> Result<rusb::DeviceDescriptor, rusb::Error> {
    device.device.device_descriptor()
}

/// Relies on rusb::DeviceDescriptor::vendor_id: the descriptor's vendor id
/// field.
#[verifier::external_body]
pub(crate) fn descriptor_vendor_id(descriptor: &rusb::DeviceDescriptor) -> u16 {
    descriptor.vendor_id()
}

/// Relies on rusb::DeviceDescriptor::product_id: the descriptor's product id
/// field.
#[verifier::external_body]
pub(crate) fn descriptor_product_id(descriptor: &rusb::DeviceDescriptor) -> u16 {
    descriptor.product_id()
}

/// Relies on rusb::Device::open: opens the device and hands back the handle,
/// with an action trace that starts empty.
#[verifier::external_body]
pub(crate) fn open_device(device: &UsbDevice) -> (r: Result<UsbHandle, rusb::Error>)
    ensures
        r matches Ok(h) ==> h.spec_log() == Seq::<UsbAction>::empty(),
{
    match device.device.open() {
        Ok(handle) => Ok(UsbHandle { raw: RawHandle { handle }, log: Ghost(Seq::empty()) }),
        Err(e) => Err(e),
    }
}

/// Relies on rusb::DeviceHandle::read_languages: the languages the device's
/// string descriptors can be read in.
#[verifier::external_body]
pub(crate) fn read_languages(
    handle: &UsbHandle,
    timeout_ms: u64,
) -> Result<Vec<rusb::Language>, rusb::Error> {
    handle.raw.handle.read_languages(Duration::from_millis(timeout_ms))
}

/// Relies on rusb::DeviceHandle::read_serial_number_string: the device's
/// serial-number string descriptor.
#[verifier::external_body]
pub(crate) fn read_serial_number_string(
    handle: &UsbHandle,
    language: &rusb::Language,
    descriptor: &rusb::DeviceDescriptor,
    timeout_ms: u64,
) -> Result<String, rusb::Error> {
    handle.raw.handle.read_serial_number_string(*language, descriptor, Duration::from_millis(timeout_ms))
}

/// Relies on rusb::DeviceHandle::read_product_string: the device's product
/// description string descriptor.
#[verifier::external_body]
pub(crate) fn read_product_string(
    handle: &UsbHandle,
    language: &rusb::Language,
    descriptor: &rusb::DeviceDescriptor,
    timeout_ms: u64,
) -> Result<String, rusb::Error> {
    handle.raw.handle.read_product_string(*language, descriptor, Duration::from_millis(timeout_ms))
}

/// Relies on rusb::DeviceHandle::set_active_configuration: activates the
/// numbered configuration.
#[verifier::external_body]
pub(crate) fn set_active_configuration(
    handle: &UsbHandle,
    config: u8,
) -> Result<(), rusb::Error> {
    handle.raw.handle.set_active_configuration(config)
}

/// Relies on rusb::DeviceHandle::claim_interface: claims the numbered
/// interface for this handle.
#[verifier::external_body]
pub(crate) fn claim_interface(
    handle: &UsbHandle,
    iface: u8,
) -> Result<(), rusb::Error> {
    handle.raw.handle.claim_interface(iface)
}

/// Relies on rusb::DeviceHandle::release_interface: releases a previously
/// claimed interface. The attempt is appended to the handle's action trace.
#[verifier::external_body]
pub(crate) fn release_interface(handle: &mut UsbHandle, iface: u8) -> (r: Result<
    (),
    rusb::Error,
>)
    ensures
        final(handle).spec_log() == old(handle).spec_log().push(
            UsbAction::ReleaseInterface { iface },
        ),
{
    handle.raw.handle.release_interface(iface)
}

/// Relies on rusb::DeviceHandle::reset: resets the device, discarding any
/// buffered I/O state. The attempt is appended to the handle's action trace.
#[verifier::external_body]
pub(crate) fn reset_device(handle: &mut UsbHandle) -> (r: Result<(), rusb::Error>)
    ensures
        final(handle).spec_log() == old(handle).spec_log().push(UsbAction::Reset),
{
    handle.raw.handle.reset()
}

/// Relies on rusb::DeviceHandle::write_bulk: sends a one-byte command on a
/// bulk OUT endpoint; on Ok(n), n bytes of the one-byte buffer were written.
/// The attempt is appended to the handle's action trace.
#[verifier::external_body]
pub(crate) fn write_command(
    handle: &mut UsbHandle,
    endpoint: u8,
    command: u8,
    timeout_ms: u64,
) -> (r: Result<usize, rusb::Error>)
    ensures
        r matches Ok(n) ==> n <= 1,
        final(handle).spec_log() == old(handle).spec_log().push(
            UsbAction::BulkWrite { endpoint, command },
        ),
{
    handle.raw.handle.write_bulk(endpoint, &[command], Duration::from_millis(timeout_ms))
}

/// Relies on rusb::DeviceHandle::read_bulk: fills a prefix of the buffer from
/// a bulk IN endpoint and returns how many bytes arrived; the buffer keeps
/// its length either way. The attempt is appended to the handle's action
/// trace.
#[verifier::external_body]
pub(crate) fn read_bulk(
    handle: &mut UsbHandle,
    endpoint: u8,
    buf: &mut Vec<u8>,
    timeout_ms: u64,
) -> (r: Result<usize, rusb::Error>)
    ensures
        final(buf)@.len() == old(buf)@.len(),
        r matches Ok(n) ==> n <= old(buf)@.len(),
        final(handle).spec_log() == old(handle).spec_log().push(
            UsbAction::BulkRead { endpoint, length: old(buf)@.len() as usize },
        ),
{
    handle.raw.handle.read_bulk(endpoint, buf, Duration::from_millis(timeout_ms))
}

} // verus!
