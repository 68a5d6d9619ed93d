//! The trusted boundary to the USB transport.
//!
//! Everything that actually touches the bus goes through the rusb crate.
//! Each item here either declares one of rusb's types so that it can stand
//! in signatures, or wraps one of its calls behind a contract that Verus
//! takes on trust; the logic around these calls is verified.

use vstd::prelude::*;

use crate::endpoint::{AltSettingInfo, ConfigInfo, EndpointInfo, UsbDirection, UsbTransferType};
use crate::errors::ProtocolError;
use crate::locator::DeviceIdentity;

verus! {

/// An attached USB device, as rusb enumerates it. Opaque to the verifier:
/// rusb::Device is generic over a context trait that cannot be declared
/// here, so the value is held whole inside this struct.
#[verifier::external_body]
pub struct UsbDevice {
    dev: rusb::Device<rusb::GlobalContext>,
}

/// An open, exclusive handle to a USB device, as rusb opens it. Opaque to
/// the verifier for the same reason as UsbDevice.
#[verifier::external_body]
pub struct UsbHandle {
    handle: rusb::DeviceHandle<rusb::GlobalContext>,
}

#[verifier::external_type_specification]
#[verifier::external_body]
pub struct ExRusbError(rusb::Error);

#[verifier::external_type_specification]
#[verifier::external_body]
pub struct ExDirection(rusb::Direction);

#[verifier::external_type_specification]
#[verifier::external_body]
pub struct ExTransferType(rusb::TransferType);

/// Relies on rusb::devices and rusb::DeviceList::iter: one entry for each
/// USB device attached at the moment of the call.
#[verifier::external_body]
pub(crate) fn usb_list_devices() -> Result<Vec<UsbDevice>, rusb::Error> {
    Ok(rusb::devices()?.iter().map(|dev| UsbDevice { dev }).collect())
}

/// Relies on rusb::Device::device_descriptor and the descriptor's vendor_id
/// and product_id getters: the vendor/product pair of the device.
#[verifier::external_body]
pub(crate) fn usb_device_identity(device: &UsbDevice) -> Result<
    DeviceIdentity,
    rusb::Error,
> {
    let d = device.dev.device_descriptor()?;
    Ok(DeviceIdentity { vendor_id: d.vendor_id(), product_id: d.product_id() })
}

/// Relies on rusb::Device::device_descriptor and the descriptor's
/// num_configurations getter: how many configurations the device offers.
#[verifier::external_body]
pub(crate) fn usb_num_configurations(device: &UsbDevice) -> Result<
    u8,
    rusb::Error,
> {
    Ok(device.dev.device_descriptor()?.num_configurations())
}

/// Relies on rusb::Device::open: obtains an open handle to the device.
#[verifier::external_body]
pub(crate) fn usb_open_device(device: &UsbDevice) -> Result<UsbHandle, rusb::Error> {
    Ok(UsbHandle { handle: device.dev.open()? })
}

/// Relies on rusb::Direction having exactly the In and Out variants; tells
/// them apart as the library's own direction value.
#[verifier::external_body]
pub(crate) fn direction_of(d: rusb::Direction) -> UsbDirection {
    match d {
        rusb::Direction::In => UsbDirection::In,
        rusb::Direction::Out => UsbDirection::Out,
    }
}

/// Relies on rusb::TransferType having exactly the Control, Isochronous,
/// Bulk and Interrupt variants; tells them apart as the library's own
/// transfer-type value.
#[verifier::external_body]
pub(crate) fn transfer_type_of(t: rusb::TransferType) -> UsbTransferType {
    match t {
        rusb::TransferType::Control => UsbTransferType::Control,
        rusb::TransferType::Isochronous => UsbTransferType::Isochronous,
        rusb::TransferType::Bulk => UsbTransferType::Bulk,
        rusb::TransferType::Interrupt => UsbTransferType::Interrupt,
    }
}

/// Relies on rusb::Device::config_descriptor and the descriptor iterators
/// ConfigDescriptor::interfaces, Interface::descriptors and
/// InterfaceDescriptor::endpoint_descriptors, with their field getters:
/// mirrors one configuration's subtree as plain values, in enumeration
/// order.
#[verifier::external_body]
pub(crate) fn usb_read_config(device: &UsbDevice, index: u8) -> Result<
    ConfigInfo,
    rusb::Error,
> {
    let c = device.dev.config_descriptor(index)?;
    let alt_settings = c.interfaces().flat_map(|i| i.descriptors()).map(|d| AltSettingInfo {
        interface_number: d.interface_number(),
        setting_number: d.setting_number(),
        endpoints: d.endpoint_descriptors().map(|e| EndpointInfo {
            address: e.address(),
            direction: direction_of(e.direction()),
            transfer_type: transfer_type_of(e.transfer_type()),
        }).collect(),
    }).collect();
    Ok(ConfigInfo { number: c.number(), alt_settings })
}

/// Relies on rusb::DeviceHandle::set_active_configuration.
#[verifier::external_body]
pub(crate) fn usb_set_active_configuration(
    handle: &UsbHandle,
    config: u8,
) -> Result<(), rusb::Error> {
    handle.handle.set_active_configuration(config)
}

/// Relies on rusb::DeviceHandle::detach_kernel_driver.
#[verifier::external_body]
pub(crate) fn usb_detach_kernel_driver(
    handle: &UsbHandle,
    iface: u8,
) -> Result<(), rusb::Error> {
    handle.handle.detach_kernel_driver(iface)
}

/// Relies on rusb::DeviceHandle::claim_interface: claims the interface
/// exclusively for this handle.
#[verifier::external_body]
pub(crate) fn usb_claim_interface(
    handle: &UsbHandle,
    iface: u8,
) -> Result<(), rusb::Error> {
    handle.handle.claim_interface(iface)
}

/// Relies on rusb::DeviceHandle::set_alternate_setting.
#[verifier::external_body]
pub(crate) fn usb_set_alternate_setting(
    handle: &UsbHandle,
    iface: u8,
    setting: u8,
) -> Result<(), rusb::Error> {
    handle.handle.set_alternate_setting(iface, setting)
}

/// Relies on rusb::DeviceHandle::write_interrupt: writes the buffer to the
/// interrupt-out endpoint, waiting at most the given timeout, and returns
/// how many bytes went out, never more than the buffer holds.
#[verifier::external_body]
pub(crate) fn usb_write_interrupt(
    handle: &UsbHandle,
    endpoint: u8,
    buf: &[u8; 64],
    timeout_ms: u64,
) -> (r: Result<usize, rusb::Error>)
    ensures
        r matches Ok(n) ==> n <= 64,
{
    handle.handle.write_interrupt(endpoint, buf, std::time::Duration::from_millis(timeout_ms))
}

/// Relies on rusb::DeviceHandle::read_interrupt: reads one interrupt
/// transfer into the buffer, waiting at most the given timeout, and returns
/// how many bytes arrived, never more than the buffer holds. What the
/// device sends is its own business: nothing is promised of the buffer's
/// new contents.
#[verifier::external_body]
pub(crate) fn usb_read_interrupt(
    handle: &UsbHandle,
    endpoint: u8,
    buf: &mut [u8; 64],
    timeout_ms: u64,
) -> (r: Result<usize, rusb::Error>)
    ensures
        r matches Ok(n) ==> n <= 64,
{
    handle.handle.read_interrupt(endpoint, buf, std::time::Duration::from_millis(timeout_ms))
}

/// Relies on rusb::Error: its Timeout variant marks a transfer that timed
/// out; every other variant is reported as an I/O failure.
#[verifier::external_body]
pub(crate) fn transport_error_of(e: rusb::Error) -> (r: ProtocolError)
    ensures
        r == ProtocolError::TransportTimeout || r == ProtocolError::TransportIo,
{
    match e {
        rusb::Error::Timeout => ProtocolError::TransportTimeout,
        _ => ProtocolError::TransportIo,
    }
}

/// Relies on crossbeam_channel::after and Receiver::recv: blocks the
/// calling thread until the timer channel delivers, about the given number
/// of milliseconds from now.
#[verifier::external_body]
pub(crate) fn pause_ms(ms: u64) {
    let _ = crossbeam_channel::after(std::time::Duration::from_millis(ms)).recv();
}

} // verus!
