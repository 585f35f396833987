use b24_tool::ble::BleEvent;
use b24_tool::bgapi::{
    command_header, format_mac, is_response_to, is_scan_response_event, parse_ad_structures,
    parse_scan_response, payload_length, scan_packet_events,
};

#[test]
fn header_payload_length() {
    assert_eq!(payload_length(&[0x80, 0x10, 0x06, 0x00]), 16);
    assert_eq!(payload_length(&[0x87, 0xFF, 0x06, 0x00]), 0x7FF);
    assert_eq!(payload_length(&[0x08, 0x01, 0, 0]), 1);
}

#[test]
fn command_headers() {
    assert_eq!(command_header(5, 0x06, 0x07), [0x00, 5, 0x06, 0x07]);
    assert_eq!(command_header(0, 0x06, 0x04), [0, 0, 6, 4]);
    assert_eq!(command_header(300, 0x06, 0x02), [0, 44, 6, 2]);
}

#[test]
fn header_kinds() {
    assert!(is_scan_response_event(&[0x80, 0x10, 0x06, 0x00]));
    assert!(!is_scan_response_event(&[0x00, 0x10, 0x06, 0x00]));
    assert!(is_response_to(&[0x00, 0x02, 0x06, 0x07], 0x06, 0x07));
    assert!(!is_response_to(&[0x80, 0x02, 0x06, 0x07], 0x06, 0x07));
}

#[test]
fn mac_text() {
    assert_eq!(format_mac(&[0x01, 0x02, 0x03, 0x0A, 0xBC, 0xFF]), "FF:BC:0A:03:02:01");
}

fn ad_block() -> Vec<u8> {
    vec![
        0x02, 0x01, 0x06, // flags
        0x05, 0x09, b'B', b'2', b'4', b'!', // complete name
        0x06, 0xFF, 0xC3, 0x04, 0xAA, 0xBB, 0xCC, // manufacturer data 0x04C3
        0x03, 0xFF, 0x01, 0x00, // manufacturer data 0x0001, empty
    ]
}

#[test]
fn ad_structures() {
    let (m, name) = parse_ad_structures(&ad_block());
    assert_eq!(name, "B24!");
    assert_eq!(m.get(&0x04C3), Some(&vec![0xAA, 0xBB, 0xCC]));
    assert_eq!(m.get(&0x0001), Some(&vec![]));
    assert_eq!(m.len(), 2);
}

#[test]
fn ad_structures_stop_at_bad_length() {
    let (m, name) = parse_ad_structures(&[0x03, 0x09, b'A', b'B', 0x09, 0xFF, 0x01]);
    assert_eq!(name, "AB");
    assert!(m.is_empty());
    let (m, name) = parse_ad_structures(&[0x00, 0x03, 0x09, b'A', b'B']);
    assert_eq!(name, "");
    assert!(m.is_empty());
}

#[test]
fn ad_invalid_name_is_ignored() {
    let (_, name) = parse_ad_structures(&[0x03, 0x08, 0xFF, 0xFE]);
    assert_eq!(name, "");
}

fn scan_payload() -> Vec<u8> {
    let ad = ad_block();
    let mut p = vec![0xC4, 0x00, 0x11, 0x22, 0x33, 0x44, 0x55, 0x66, 0x00, 0xFF, ad.len() as u8];
    p.extend_from_slice(&ad);
    p
}

#[test]
fn scan_response_parses() {
    let s = parse_scan_response(&scan_payload()).unwrap();
    assert_eq!(s.rssi, -60);
    assert_eq!(s.mac, "66:55:44:33:22:11");
    assert_eq!(s.name, "B24!");
    assert_eq!(s.manufacturer_data.get(&0x04C3), Some(&vec![0xAA, 0xBB, 0xCC]));
}

#[test]
fn scan_response_incomplete() {
    let p = scan_payload();
    assert!(parse_scan_response(&p[..10]).is_none());
    assert!(parse_scan_response(&p[..p.len() - 1]).is_none());
}

#[test]
fn scan_packet_to_events() {
    let events = scan_packet_events(&[0x80, 0, 0x06, 0x00], &scan_payload());
    assert_eq!(events.len(), 2);
    match &events[0] {
        BleEvent::DeviceDiscovered { peripheral_id, name, rssi, manufacturer_data, service_uuids } => {
            assert_eq!(peripheral_id, "66:55:44:33:22:11");
            assert_eq!(name.as_deref(), Some("B24!"));
            assert_eq!(*rssi, Some(-60));
            assert_eq!(manufacturer_data.len(), 2);
            assert!(service_uuids.is_empty());
        }
        other => panic!("unexpected {other:?}"),
    }
    assert!(matches!(&events[1], BleEvent::ManufacturerDataUpdate { .. }));
    assert!(scan_packet_events(&[0x00, 0, 0x06, 0x00], &scan_payload()).is_empty());
}

#[test]
fn scan_without_name_or_data() {
    let p = vec![0x10, 0, 1, 2, 3, 4, 5, 6, 0, 0, 0];
    let events = scan_packet_events(&[0x80, 0, 0x06, 0x00], &p);
    assert_eq!(events.len(), 1);
    match &events[0] {
        BleEvent::DeviceDiscovered { name, rssi, .. } => {
            assert!(name.is_none());
            assert_eq!(*rssi, Some(16));
        }
        other => panic!("unexpected {other:?}"),
    }
}

#[test]
fn command_header_announces_its_length() {
    for n in [0usize, 1, 6, 255] {
        let h = command_header(n, 6, 2);
        assert_eq!(payload_length(&h), n);
    }
}

#[test]
fn scanner_setup_payloads() {
    assert!(b24_tool::bgapi::is_bled112(0x2458, 0x0001));
    assert!(!b24_tool::bgapi::is_bled112(0x2458, 0x0002));
    assert_eq!(b24_tool::bgapi::scan_parameters_payload(), vec![0xC8, 0x00, 0xC8, 0x00, 0x00]);
    assert_eq!(b24_tool::bgapi::discover_observation_payload(), vec![0x02]);
    let h = b24_tool::bgapi::command_header(5, b24_tool::bgapi::CLASS_GAP, b24_tool::bgapi::GAP_SET_SCAN_PARAMETERS);
    assert_eq!(h, [0x00, 0x05, 0x06, 0x07]);
}
