//! Resolution of USB endpoints from a device's descriptor tree.
//!
//! The descriptor tree is mirrored into plain values (configurations,
//! alternate settings, endpoints), so the search for an endpoint of a given
//! direction and transfer type is ordinary verified code: it returns the
//! first match in descriptor enumeration order, or nothing.

use vstd::prelude::*;

use crate::errors::ProtocolError;
use crate::usb::{
    usb_claim_interface, usb_detach_kernel_driver, usb_read_config, usb_set_active_configuration,
    usb_set_alternate_setting,
};

verus! {

/// Transfer direction of a USB endpoint, seen from the host.
#[derive(Clone, Copy, Debug, PartialEq, Eq, Structural)]
pub enum UsbDirection {
    In,
    Out,
}

/// Transfer type of a USB endpoint.
#[derive(Clone, Copy, Debug, PartialEq, Eq, Structural)]
pub enum UsbTransferType {
    Control,
    Isochronous,
    Bulk,
    Interrupt,
}

/// One endpoint as listed in an alternate setting's descriptor.
#[derive(Clone, Copy, Debug, PartialEq, Eq, Structural)]
pub struct EndpointInfo {
    pub address: u8,
    pub direction: UsbDirection,
    pub transfer_type: UsbTransferType,
}

/// One alternate setting of an interface, with its endpoints in descriptor
/// order.
pub struct AltSettingInfo {
    pub interface_number: u8,
    pub setting_number: u8,
    pub endpoints: Vec<EndpointInfo>,
}

/// One configuration of a device: its number, and every alternate setting
/// of every interface, in descriptor order.
pub struct ConfigInfo {
    pub number: u8,
    pub alt_settings: Vec<AltSettingInfo>,
}

/// The parameters needed to activate and address one endpoint: its
/// configuration number, interface number, alternate setting and address.
#[derive(Clone, Copy, Debug, PartialEq, Eq, Structural)]
pub struct Endpoint {
    pub config: u8,
    pub iface: u8,
    pub setting: u8,
    pub address: u8,
}

/// Whether an endpoint has the requested direction and transfer type.
pub open spec fn endpoint_matches(
    e: EndpointInfo,
    direction: UsbDirection,
    transfer_type: UsbTransferType,
) -> bool {
    e.direction == direction && e.transfer_type == transfer_type
}

/// The first matching endpoint of `eps` at position `k` or later.
pub open spec fn first_in_endpoints(
    eps: Seq<EndpointInfo>,
    direction: UsbDirection,
    transfer_type: UsbTransferType,
    k: int,
) -> Option<EndpointInfo>
    decreases eps.len() - k,
{
    if k < 0 || k >= eps.len() {
        None
    } else if endpoint_matches(eps[k], direction, transfer_type) {
        Some(eps[k])
    } else {
        first_in_endpoints(eps, direction, transfer_type, k + 1)
    }
}

/// The resolved endpoint for the first match inside one alternate setting,
/// if it has one.
pub open spec fn alt_first_match(
    config_number: u8,
    alt: AltSettingInfo,
    direction: UsbDirection,
    transfer_type: UsbTransferType,
) -> Option<Endpoint> {
    match first_in_endpoints(alt.endpoints@, direction, transfer_type, 0) {
        Some(e) => Some(
            Endpoint {
                config: config_number,
                iface: alt.interface_number,
                setting: alt.setting_number,
                address: e.address,
            },
        ),
        None => None,
    }
}

/// The resolved endpoint for the first match in `alts` at position `j` or
/// later.
pub open spec fn first_in_alts(
    config_number: u8,
    alts: Seq<AltSettingInfo>,
    direction: UsbDirection,
    transfer_type: UsbTransferType,
    j: int,
) -> Option<Endpoint>
    decreases alts.len() - j,
{
    if j < 0 || j >= alts.len() {
        None
    } else {
        match alt_first_match(config_number, alts[j], direction, transfer_type) {
            Some(e) => Some(e),
            None => first_in_alts(config_number, alts, direction, transfer_type, j + 1),
        }
    }
}

/// The resolved endpoint for the first match in `configs` at position `i`
/// or later.
pub open spec fn first_in_configs(
    configs: Seq<ConfigInfo>,
    direction: UsbDirection,
    transfer_type: UsbTransferType,
    i: int,
) -> Option<Endpoint>
    decreases configs.len() - i,
{
    if i < 0 || i >= configs.len() {
        None
    } else {
        match first_in_alts(
            configs[i].number,
            configs[i].alt_settings@,
            direction,
            transfer_type,
            0,
        ) {
            Some(e) => Some(e),
            None => first_in_configs(configs, direction, transfer_type, i + 1),
        }
    }
}

/// The first endpoint of the whole descriptor tree, in enumeration order,
/// whose direction and transfer type both match.
pub open spec fn first_matching_endpoint(
    configs: Seq<ConfigInfo>,
    direction: UsbDirection,
    transfer_type: UsbTransferType,
) -> Option<Endpoint> {
    first_in_configs(configs, direction, transfer_type, 0)
}

/// Walks every configuration, every alternate setting and every endpoint of
/// the descriptor tree, in order, and returns the claim parameters of the
/// first endpoint matching the requested direction and transfer type, or
/// `None` when no endpoint matches.
#[verifier::loop_isolation(false)]
pub fn find_endpoint(
    configs: &Vec<ConfigInfo>,
    direction: UsbDirection,
    transfer_type: UsbTransferType,
) -> (r: Option<Endpoint>)
    ensures
        r == first_matching_endpoint(configs@, direction, transfer_type),
{
    let mut i: usize = 0;
    while i < configs.len()
        invariant
            i <= configs@.len(),
            first_in_configs(configs@, direction, transfer_type, 0) == first_in_configs(
                configs@,
                direction,
                transfer_type,
                i as int,
            ),
        decreases configs@.len() - i,
    {
        let config = &configs[i];
        let mut j: usize = 0;
        while j < config.alt_settings.len()
            invariant
                j <= config.alt_settings@.len(),
                first_in_alts(config.number, config.alt_settings@, direction, transfer_type, 0)
                    == first_in_alts(
                    config.number,
                    config.alt_settings@,
                    direction,
                    transfer_type,
                    j as int,
                ),
            decreases config.alt_settings@.len() - j,
        {
            let alt = &config.alt_settings[j];
            let mut k: usize = 0;
            while k < alt.endpoints.len()
                invariant
                    k <= alt.endpoints@.len(),
                    first_in_endpoints(alt.endpoints@, direction, transfer_type, 0)
                        == first_in_endpoints(alt.endpoints@, direction, transfer_type, k as int),
                decreases alt.endpoints@.len() - k,
            {
                let e = alt.endpoints[k];
                if e.direction == direction && e.transfer_type == transfer_type {
                    return Some(
                        Endpoint {
                            config: config.number,
                            iface: alt.interface_number,
                            setting: alt.setting_number,
                            address: e.address,
                        },
                    );
                }
                k += 1;
            }
            j += 1;
        }
        i += 1;
    }
    None
}

/// Reads every configuration descriptor of the device into plain values,
/// in index order, skipping configurations whose descriptor cannot be read.
pub fn read_config_tree(
    device: &crate::usb::UsbDevice,
    num_configurations: u8,
) -> (configs: Vec<ConfigInfo>)
    ensures
        configs@.len() <= num_configurations,
{
    let mut configs: Vec<ConfigInfo> = Vec::new();
    let mut n: u8 = 0;
    while n < num_configurations
        invariant
            n <= num_configurations,
            configs@.len() <= n,
        decreases num_configurations - n,
    {
        match usb_read_config(device, n) {
            Ok(c) => configs.push(c),
            Err(_) => (),
        }
        n += 1;
    }
    configs
}

/// Activates the endpoint's configuration, detaches the kernel driver where
/// the platform requires that, claims its interface exclusively and selects
/// its alternate setting. A failing step aborts the call; nothing done so
/// far is rolled back.
pub fn configure_endpoint(
    handle: &crate::usb::UsbHandle,
    endpoint: &Endpoint,
    requires_detach: bool,
) -> (r: Result<(), ProtocolError>)
    ensures
        r matches Err(e) ==> e == ProtocolError::ConfigurationFailed,
{
    if usb_set_active_configuration(handle, endpoint.config).is_err() {
        return Err(ProtocolError::ConfigurationFailed);
    }
    if requires_detach {
        if usb_detach_kernel_driver(handle, endpoint.iface).is_err() {
            return Err(ProtocolError::ConfigurationFailed);
        }
    }
    if usb_claim_interface(handle, endpoint.iface).is_err() {
        return Err(ProtocolError::ConfigurationFailed);
    }
    if usb_set_alternate_setting(handle, endpoint.iface, endpoint.setting).is_err() {
        return Err(ProtocolError::ConfigurationFailed);
    }
    Ok(())
}

} // verus!
