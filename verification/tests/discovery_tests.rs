//! Endpoint discovery, device matching and identity formatting.

use electron_bot::discovery::{
    find_device, format_device_id, is_electron_bot_present, require_device, scan_devices,
    select_bulk_endpoints, select_interface, EndpointDirection, EndpointInfo, InterfaceInfo,
    TransferKind,
};
use electron_bot::error::BotError;
use electron_bot::types::DeviceInfo;

fn ep(address: u8, direction: EndpointDirection, kind: TransferKind) -> EndpointInfo {
    EndpointInfo { address, direction, kind }
}

fn dev(vid: u16, pid: u16) -> DeviceInfo {
    DeviceInfo { vid, pid, info: format_device_id(vid, pid) }
}

#[test]
fn binding_picks_the_bulk_pair() {
    let endpoints = vec![
        ep(0x81, EndpointDirection::In, TransferKind::Bulk),
        ep(0x01, EndpointDirection::Out, TransferKind::Bulk),
    ];
    assert_eq!(select_bulk_endpoints(&endpoints), Some((0x01, 0x81)));
}

#[test]
fn binding_needs_both_directions() {
    let only_in = vec![ep(0x81, EndpointDirection::In, TransferKind::Bulk)];
    assert_eq!(select_bulk_endpoints(&only_in), None);
    let only_out = vec![ep(0x01, EndpointDirection::Out, TransferKind::Bulk)];
    assert_eq!(select_bulk_endpoints(&only_out), None);
    let interrupt_only = vec![
        ep(0x82, EndpointDirection::In, TransferKind::Interrupt),
        ep(0x02, EndpointDirection::Out, TransferKind::Interrupt),
    ];
    assert_eq!(select_bulk_endpoints(&interrupt_only), None);
    assert_eq!(select_bulk_endpoints(&Vec::new()), None);
}

#[test]
fn binding_takes_the_last_bulk_of_each_direction() {
    let endpoints = vec![
        ep(0x81, EndpointDirection::In, TransferKind::Bulk),
        ep(0x01, EndpointDirection::Out, TransferKind::Bulk),
        ep(0x83, EndpointDirection::In, TransferKind::Bulk),
    ];
    assert_eq!(select_bulk_endpoints(&endpoints), Some((0x01, 0x83)));
}

#[test]
fn interface_scan_skips_unsuitable_interfaces() {
    let interfaces = vec![
        InterfaceInfo {
            number: 0,
            endpoints: vec![ep(0x82, EndpointDirection::In, TransferKind::Interrupt)],
        },
        InterfaceInfo {
            number: 1,
            endpoints: vec![
                ep(0x81, EndpointDirection::In, TransferKind::Bulk),
                ep(0x01, EndpointDirection::Out, TransferKind::Bulk),
            ],
        },
    ];
    assert_eq!(select_interface(&interfaces), Some(1));
    let pair = select_bulk_endpoints(&interfaces[1].endpoints);
    assert_eq!(pair, Some((0x01, 0x81)));
}

#[test]
fn interface_scan_takes_the_first_suitable() {
    let suitable = InterfaceInfo {
        number: 3,
        endpoints: vec![
            ep(0x81, EndpointDirection::In, TransferKind::Bulk),
            ep(0x01, EndpointDirection::Out, TransferKind::Bulk),
        ],
    };
    let interfaces = vec![suitable.clone(), suitable];
    assert_eq!(select_interface(&interfaces), Some(0));
    assert_eq!(select_interface(&Vec::new()), None);
}

#[test]
fn device_scan_matches_the_fixed_identity() {
    let devices = vec![dev(0x046D, 0xC077), dev(0x1001, 0x8023), dev(0x1001, 0x8023)];
    assert_eq!(find_device(&devices), Some(1));
    let none = vec![dev(0x046D, 0xC077), dev(0x1001, 0x8024), dev(0x1002, 0x8023)];
    assert_eq!(find_device(&none), None);
}

#[test]
fn missing_device_reports_device_not_found() {
    let none = vec![dev(0x046D, 0xC077)];
    assert!(matches!(require_device(&none), Err(BotError::DeviceNotFound)));
    assert!(matches!(require_device(&Vec::new()), Err(BotError::DeviceNotFound)));
    let some = vec![dev(0x1001, 0x8023)];
    assert_eq!(require_device(&some).unwrap(), 0);
}

#[test]
fn identity_formats_as_lowercase_hex() {
    assert_eq!(format_device_id(0x1001, 0x8023), "1001:8023");
    assert_eq!(format_device_id(0x046D, 0xC077), "046d:c077");
    assert_eq!(format_device_id(0, 0xFFFF), "0000:ffff");
}

#[test]
fn scan_entries_render_their_own_identity() {
    for d in scan_devices() {
        assert_eq!(d.info, format!("{:04x}:{:04x}", d.vid, d.pid));
    }
}

#[test]
fn the_controller_is_not_on_this_machine() {
    assert!(!is_electron_bot_present());
}
