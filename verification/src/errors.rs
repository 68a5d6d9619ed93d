use vstd::prelude::*;

verus! {

/// The ways an operation against the monitor can fail.
#[derive(Clone, Copy, Debug, PartialEq, Eq, Structural)]
pub enum ProtocolError {
    /// The locator exhausted its retries without seeing the device.
    DeviceNotFound,
    /// No endpoint of the requested direction and transfer type exists.
    EndpointNotFound,
    /// Activating the configuration, detaching the kernel driver, claiming
    /// the interface or selecting the alternate setting failed.
    ConfigurationFailed,
    /// An interrupt write or read timed out.
    TransportTimeout,
    /// An interrupt write or read failed with an I/O error.
    TransportIo,
    /// The response's header byte was not the expected reply header.
    UnexpectedHeader,
    /// The response's value field held bytes that are not ASCII digits.
    MalformedValue,
}

} // verus!
