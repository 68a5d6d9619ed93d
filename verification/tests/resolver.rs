use msi_kvm::endpoint::{
    find_endpoint, AltSettingInfo, ConfigInfo, Endpoint, EndpointInfo, UsbDirection,
    UsbTransferType,
};
use msi_kvm::locator::{matching_index, DeviceIdentity};

fn interrupt_pair_tree() -> Vec<ConfigInfo> {
    let endpoints = vec![
        EndpointInfo {
            address: 0x81,
            direction: UsbDirection::In,
            transfer_type: UsbTransferType::Interrupt,
        },
        EndpointInfo {
            address: 0x02,
            direction: UsbDirection::Out,
            transfer_type: UsbTransferType::Interrupt,
        },
    ];
    let alt = AltSettingInfo { interface_number: 3, setting_number: 0, endpoints };
    vec![ConfigInfo { number: 1, alt_settings: vec![alt] }]
}

#[test]
fn find_endpoint_resolves_the_interrupt_in_endpoint() {
    let tree = interrupt_pair_tree();
    let found = find_endpoint(&tree, UsbDirection::In, UsbTransferType::Interrupt);
    assert_eq!(
        found,
        Some(Endpoint { config: 1, iface: 3, setting: 0, address: 0x81 })
    );
}

#[test]
fn find_endpoint_resolves_the_interrupt_out_endpoint() {
    let tree = interrupt_pair_tree();
    let found = find_endpoint(&tree, UsbDirection::Out, UsbTransferType::Interrupt);
    assert_eq!(
        found,
        Some(Endpoint { config: 1, iface: 3, setting: 0, address: 0x02 })
    );
}

#[test]
fn find_endpoint_returns_none_for_a_missing_bulk_endpoint() {
    let tree = interrupt_pair_tree();
    let found = find_endpoint(&tree, UsbDirection::In, UsbTransferType::Bulk);
    assert_eq!(found, None);
}

#[test]
fn find_endpoint_returns_none_on_an_empty_tree() {
    let tree: Vec<ConfigInfo> = Vec::new();
    let found = find_endpoint(&tree, UsbDirection::In, UsbTransferType::Interrupt);
    assert_eq!(found, None);
}

#[test]
fn find_endpoint_prefers_the_first_match_in_enumeration_order() {
    let first = EndpointInfo {
        address: 0x83,
        direction: UsbDirection::In,
        transfer_type: UsbTransferType::Interrupt,
    };
    let second = EndpointInfo {
        address: 0x84,
        direction: UsbDirection::In,
        transfer_type: UsbTransferType::Interrupt,
    };
    let tree = vec![
        ConfigInfo {
            number: 1,
            alt_settings: vec![
                AltSettingInfo { interface_number: 0, setting_number: 0, endpoints: vec![first] },
                AltSettingInfo { interface_number: 1, setting_number: 0, endpoints: vec![second] },
            ],
        },
    ];
    let found = find_endpoint(&tree, UsbDirection::In, UsbTransferType::Interrupt);
    assert_eq!(
        found,
        Some(Endpoint { config: 1, iface: 0, setting: 0, address: 0x83 })
    );
}

#[test]
fn find_endpoint_crosses_configurations_in_order() {
    let tree = vec![
        ConfigInfo {
            number: 1,
            alt_settings: vec![AltSettingInfo {
                interface_number: 0,
                setting_number: 0,
                endpoints: vec![EndpointInfo {
                    address: 0x01,
                    direction: UsbDirection::Out,
                    transfer_type: UsbTransferType::Bulk,
                }],
            }],
        },
        ConfigInfo {
            number: 2,
            alt_settings: vec![AltSettingInfo {
                interface_number: 5,
                setting_number: 1,
                endpoints: vec![EndpointInfo {
                    address: 0x82,
                    direction: UsbDirection::In,
                    transfer_type: UsbTransferType::Interrupt,
                }],
            }],
        },
    ];
    let found = find_endpoint(&tree, UsbDirection::In, UsbTransferType::Interrupt);
    assert_eq!(
        found,
        Some(Endpoint { config: 2, iface: 5, setting: 1, address: 0x82 })
    );
}

#[test]
fn matching_index_finds_the_requested_identity() {
    let ids = vec![
        DeviceIdentity { vendor_id: 0x0001, product_id: 0x0002 },
        DeviceIdentity { vendor_id: 0x1462, product_id: 0x3fa4 },
    ];
    assert_eq!(matching_index(&ids, 0x1462, 0x3fa4), Some(1));
}

#[test]
fn matching_index_returns_none_when_absent() {
    let ids = vec![DeviceIdentity { vendor_id: 0x0001, product_id: 0x0002 }];
    assert_eq!(matching_index(&ids, 0x1462, 0x3fa4), None);
}

#[test]
fn matching_index_returns_the_first_of_equal_identities() {
    let ids = vec![
        DeviceIdentity { vendor_id: 7, product_id: 8 },
        DeviceIdentity { vendor_id: 5, product_id: 6 },
        DeviceIdentity { vendor_id: 5, product_id: 6 },
    ];
    assert_eq!(matching_index(&ids, 5, 6), Some(1));
}

#[test]
fn matching_index_requires_both_halves_of_the_identity() {
    let ids = vec![
        DeviceIdentity { vendor_id: 5, product_id: 9 },
        DeviceIdentity { vendor_id: 9, product_id: 6 },
    ];
    assert_eq!(matching_index(&ids, 5, 6), None);
}
