//! The open monitor and its four semantic operations.
//!
//! An exchange runs synchronously: drain stale interrupt reports, write the
//! 64-byte command, read one 64-byte response, decode it. The two setters
//! are fire-and-forget: they drain and write like an exchange, then issue a
//! few best-effort reads whose only purpose is the settling delay — without
//! it, two write commands back-to-back are empirically unreliable.

use vstd::prelude::*;

use crate::endpoint::{
    configure_endpoint, find_endpoint, first_matching_endpoint, read_config_tree, ConfigInfo,
    Endpoint, UsbDirection, UsbTransferType,
};
use crate::errors::ProtocolError;
use crate::locator::get_device;
use crate::packet::{
    decode, decoded_value, get_input_packet, get_kvm_packet, header_valid, set_input_packet,
    set_kvm_packet, value_field_valid,
};
use crate::usb::{
    transport_error_of, usb_num_configurations, usb_open_device, usb_read_interrupt,
    usb_write_interrupt, UsbHandle,
};

verus! {

/// How many short reads drain stale interrupt reports before an exchange.
pub const DRAIN_READS: usize = 10;

/// How many best-effort reads follow a fire-and-forget write.
pub const SETTLE_READS: usize = 5;

/// Timeout of one drain or settle read, in milliseconds.
pub const DRAIN_TIMEOUT_MS: u64 = 1;

/// Timeout of the authoritative write and read, in milliseconds.
pub const EXCHANGE_TIMEOUT_MS: u64 = 1000;

/// An open monitor: the exclusive device handle plus the two resolved
/// interrupt endpoints.
pub struct MSIDevice {
    device_handle: UsbHandle,
    in_endpoint: Endpoint,
    out_endpoint: Endpoint,
    tree: Ghost<Seq<ConfigInfo>>,
}

impl MSIDevice {
    /// The endpoints came out of the device's descriptor tree: each is the
    /// first interrupt endpoint of its direction, in enumeration order.
    pub closed spec fn wf(self) -> bool {
        &&& first_matching_endpoint(self.tree@, UsbDirection::Out, UsbTransferType::Interrupt)
            == Some(self.out_endpoint)
        &&& first_matching_endpoint(self.tree@, UsbDirection::In, UsbTransferType::Interrupt)
            == Some(self.in_endpoint)
    }

    /// Locates the device carrying the vendor/product pair, opens it,
    /// resolves the interrupt-out and interrupt-in endpoints from its
    /// descriptor tree and configures both, in that order.
    /// `requires_detach` says whether the platform attaches a kernel
    /// driver that must be detached before an interface can be claimed.
    pub fn open(vendor_id: u16, product_id: u16, requires_detach: bool) -> (r: Result<
        MSIDevice,
        ProtocolError,
    >)
        ensures
            r matches Ok(d) ==> d.wf(),
    {
        let device = match get_device(vendor_id, product_id) {
            Ok(Some(d)) => d,
            Ok(None) => return Err(ProtocolError::DeviceNotFound),
            Err(e) => return Err(e),
        };
        let device_handle = match usb_open_device(&device) {
            Ok(h) => h,
            Err(e) => return Err(transport_error_of(e)),
        };
        let num_configurations = match usb_num_configurations(&device) {
            Ok(n) => n,
            Err(e) => return Err(transport_error_of(e)),
        };
        let configs = read_config_tree(&device, num_configurations);

        let out_endpoint = match find_endpoint(
            &configs,
            UsbDirection::Out,
            UsbTransferType::Interrupt,
        ) {
            Some(e) => e,
            None => return Err(ProtocolError::EndpointNotFound),
        };
        configure_endpoint(&device_handle, &out_endpoint, requires_detach)?;

        let in_endpoint = match find_endpoint(
            &configs,
            UsbDirection::In,
            UsbTransferType::Interrupt,
        ) {
            Some(e) => e,
            None => return Err(ProtocolError::EndpointNotFound),
        };
        configure_endpoint(&device_handle, &in_endpoint, requires_detach)?;

        Ok(MSIDevice { device_handle, in_endpoint, out_endpoint, tree: Ghost(configs@) })
    }

    /// Whether a device carrying the vendor/product pair is attached,
    /// within the locator's bounded retry window.
    pub fn is_connected(vendor_id: u16, product_id: u16) -> (r: Result<bool, ProtocolError>)
        ensures
            r matches Err(e) ==> e == ProtocolError::TransportTimeout || e
                == ProtocolError::TransportIo,
    {
        match get_device(vendor_id, product_id) {
            Ok(found) => Ok(found.is_some()),
            Err(e) => Err(e),
        }
    }

    /// Issues `count` short reads on the in-endpoint, ignoring every
    /// result, timeouts included: before an exchange this clears queued,
    /// stale reports; after a fire-and-forget write it provides the
    /// settling delay.
    fn drain(&self, count: usize) {
        let mut buf = [0u8; 64];
        let mut i: usize = 0;
        while i < count
            decreases count - i,
        {
            let _ = usb_read_interrupt(
                &self.device_handle,
                self.in_endpoint.address,
                &mut buf,
                DRAIN_TIMEOUT_MS,
            );
            i += 1;
        }
    }

    /// Runs one authoritative exchange: drains stale reports, writes the
    /// command packet to the out-endpoint, reads one response from the
    /// in-endpoint and decodes it. Whatever the device answered, a
    /// successful result carries a response with a valid header and value
    /// field, decoded exactly.
    pub fn get_uart_cmd(&self, packet: [u8; 64]) -> (r: Result<([u8; 64], u32), ProtocolError>)
        ensures
            r matches Ok(p) ==> header_valid(p.0@) && value_field_valid(p.0@) && p.1
                == decoded_value(p.0@) && p.1 <= 999,
    {
        self.drain(DRAIN_READS);
        match usb_write_interrupt(
            &self.device_handle,
            self.out_endpoint.address,
            &packet,
            EXCHANGE_TIMEOUT_MS,
        ) {
            Ok(_) => (),
            Err(e) => return Err(transport_error_of(e)),
        }
        let mut buf = [0u8; 64];
        match usb_read_interrupt(
            &self.device_handle,
            self.in_endpoint.address,
            &mut buf,
            EXCHANGE_TIMEOUT_MS,
        ) {
            Ok(_) => (),
            Err(e) => return Err(transport_error_of(e)),
        }
        decode(buf)
    }

    /// Reads the active input source; a successful result is the decoded
    /// three-digit value, at most 999.
    pub fn get_input(&self) -> (r: Result<u32, ProtocolError>)
        ensures
            r matches Ok(v) ==> v <= 999,
    {
        let packet = get_input_packet();
        match self.get_uart_cmd(packet) {
            Ok(p) => Ok(p.1),
            Err(e) => Err(e),
        }
    }

    /// Reads the active KVM port; a successful result is the decoded
    /// three-digit value, at most 999.
    pub fn get_kvm(&self) -> (r: Result<u32, ProtocolError>)
        ensures
            r matches Ok(v) ==> v <= 999,
    {
        let packet = get_kvm_packet();
        match self.get_uart_cmd(packet) {
            Ok(p) => Ok(p.1),
            Err(e) => Err(e),
        }
    }

    /// Switches the active input source to `position`, which selects among
    /// inputs 0–9. Fire-and-forget: stale reports are drained and the
    /// command written as in an exchange, but the device's acknowledgment
    /// is not read authoritatively, only drained for the settling delay.
    pub fn set_input(&self, position: u8) -> (r: Result<(), ProtocolError>)
        requires
            position <= 9,
        ensures
            r matches Err(e) ==> e == ProtocolError::TransportTimeout || e
                == ProtocolError::TransportIo,
    {
        let packet = set_input_packet(position);
        self.drain(DRAIN_READS);
        match usb_write_interrupt(
            &self.device_handle,
            self.out_endpoint.address,
            &packet,
            EXCHANGE_TIMEOUT_MS,
        ) {
            Ok(_) => (),
            Err(e) => return Err(transport_error_of(e)),
        }
        self.drain(SETTLE_READS);
        Ok(())
    }

    /// Switches the active KVM port to `position`, which selects among
    /// ports 0–9. Fire-and-forget, like `set_input`.
    pub fn set_kvm(&self, position: u8) -> (r: Result<(), ProtocolError>)
        requires
            position <= 9,
        ensures
            r matches Err(e) ==> e == ProtocolError::TransportTimeout || e
                == ProtocolError::TransportIo,
    {
        let packet = set_kvm_packet(position);
        self.drain(DRAIN_READS);
        match usb_write_interrupt(
            &self.device_handle,
            self.out_endpoint.address,
            &packet,
            EXCHANGE_TIMEOUT_MS,
        ) {
            Ok(_) => (),
            Err(e) => return Err(transport_error_of(e)),
        }
        self.drain(SETTLE_READS);
        Ok(())
    }
}

} // verus!
