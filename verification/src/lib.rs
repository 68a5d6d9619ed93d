//! Control of a monitor's input source and KVM switch over USB interrupt
//! endpoints.
//!
//! The monitor speaks a vendor-specific command/response protocol: fixed
//! 64-byte packets carrying an ASCII feature address, written to an
//! interrupt-out endpoint, answered on an interrupt-in endpoint with a
//! three-digit ASCII value. This crate locates the device, resolves the two
//! interrupt endpoints from its descriptor tree, frames and decodes the
//! packets, and exposes the four semantic operations (get/set input source,
//! get/set KVM port).

pub mod device;
pub mod endpoint;
pub mod errors;
pub mod locator;
pub mod packet;
pub mod usb;
