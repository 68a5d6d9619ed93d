//! Locating the physical device on the bus.
//!
//! Enumeration returns whatever is attached at that moment, so the locator
//! retries a few times with a pause in between, to accommodate devices that
//! enumerate slowly after hot-plug. The match itself — first device whose
//! descriptor carries the requested vendor/product pair — is verified.

use vstd::prelude::*;

use crate::errors::ProtocolError;
use crate::usb::{pause_ms, transport_error_of, usb_device_identity, usb_list_devices};

verus! {

/// How many enumeration attempts the locator makes in all.
pub const LOCATE_ATTEMPTS: usize = 3;

/// How long the locator pauses between two attempts, in milliseconds.
pub const LOCATE_PAUSE_MS: u64 = 200;

/// The vendor/product pair identifying a physical USB device.
#[derive(Clone, Copy, Debug, PartialEq, Eq, Structural)]
pub struct DeviceIdentity {
    pub vendor_id: u16,
    pub product_id: u16,
}

/// Whether an identity carries the requested vendor/product pair.
pub open spec fn identity_matches(id: DeviceIdentity, vendor_id: u16, product_id: u16) -> bool {
    id.vendor_id == vendor_id && id.product_id == product_id
}

/// The position of the first identity in `ids` matching the vendor/product
/// pair, or `None` when no identity matches.
pub fn matching_index(ids: &Vec<DeviceIdentity>, vendor_id: u16, product_id: u16) -> (r: Option<
    usize,
>)
    ensures
        r matches Some(i) ==> i < ids@.len() && identity_matches(ids@[i as int], vendor_id,
            product_id) && forall|j: int|
            0 <= j < i ==> !identity_matches(ids@[j], vendor_id, product_id),
        r is None ==> forall|j: int|
            0 <= j < ids@.len() ==> !identity_matches(ids@[j], vendor_id, product_id),
{
    let mut i: usize = 0;
    while i < ids.len()
        invariant
            i <= ids@.len(),
            forall|j: int| 0 <= j < i ==> !identity_matches(ids@[j], vendor_id, product_id),
        decreases ids@.len() - i,
    {
        let id = ids[i];
        if id.vendor_id == vendor_id && id.product_id == product_id {
            return Some(i);
        }
        i += 1;
    }
    None
}

/// Enumerates the attached USB devices and returns the first one whose
/// descriptor matches the vendor/product pair. When no attempt sees a
/// match, after the bounded retries, the result is `Ok(None)`, not an
/// error; an enumeration or descriptor-read failure aborts the search.
pub fn get_device(vendor_id: u16, product_id: u16) -> (r: Result<
    Option<crate::usb::UsbDevice>,
    ProtocolError,
>)
    ensures
        r matches Err(e) ==> e == ProtocolError::TransportTimeout || e
            == ProtocolError::TransportIo,
{
    let mut attempt: usize = 0;
    while attempt < LOCATE_ATTEMPTS
        invariant
            attempt <= LOCATE_ATTEMPTS,
        decreases LOCATE_ATTEMPTS - attempt,
    {
        if attempt > 0 {
            pause_ms(LOCATE_PAUSE_MS);
        }
        let mut devices = match usb_list_devices() {
            Ok(v) => v,
            Err(e) => return Err(transport_error_of(e)),
        };
        let mut ids: Vec<DeviceIdentity> = Vec::new();
        let mut i: usize = 0;
        while i < devices.len()
            invariant
                i <= devices@.len(),
                ids@.len() == i,
            decreases devices@.len() - i,
        {
            let id = match usb_device_identity(&devices[i]) {
                Ok(d) => d,
                Err(e) => return Err(transport_error_of(e)),
            };
            ids.push(id);
            i += 1;
        }
        if let Some(idx) = matching_index(&ids, vendor_id, product_id) {
            return Ok(Some(devices.remove(idx)));
        }
        attempt += 1;
    }
    Ok(None)
}

} // verus!
