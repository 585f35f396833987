use std::collections::{HashMap, VecDeque};

use b24_tool::ble::BleCommand;
use b24_tool::calibration::LinearisationRow;
use b24_tool::session::{
    clear_pending_uuid, connect_device, disconnect_button, log_status_byte, log_units_label,
    on_connected, on_device_discovered, on_disconnected, on_error, on_scan_stopped, push_history,
    register_for_uuid, scan_button, LinearisationReader, Register,
};
use b24_tool::state::{ConnectionPhase, ConnectionState, ScannedDevice, Tab};
use b24_tool::types::StatusByte;
use b24_tool::uuids::{
    char_coeff_at_idx, char_data_rate, char_data_units, char_lin_index, char_status, svc_config,
};

fn device(id: &str) -> ScannedDevice {
    ScannedDevice {
        name: "x".to_string(),
        data_tag: None,
        rssi: None,
        peripheral_id: id.to_string(),
        manufacturer_data: HashMap::new(),
        service_uuids: Vec::new(),
        is_b24: false,
        advert: None,
    }
}

#[test]
fn registers_by_uuid() {
    assert_eq!(register_for_uuid(char_data_rate()), Some(Register::DataRate));
    assert_eq!(register_for_uuid(char_status()), Some(Register::Status));
    assert_eq!(register_for_uuid(char_data_units()), Some(Register::DataUnits));
    assert_eq!(register_for_uuid(svc_config()), None);
}

#[test]
fn discovered_devices_are_deduplicated() {
    let mut c = ConnectionState::default();
    on_device_discovered(&mut c, "AA".to_string(), None, Some(-40), HashMap::new(), Vec::new());
    on_device_discovered(&mut c, "BB".to_string(), Some("B24".to_string()), None, HashMap::new(), Vec::new());
    on_device_discovered(&mut c, "AA".to_string(), Some("Load cell".to_string()), Some(-50), HashMap::new(), Vec::new());
    on_device_discovered(&mut c, "BB".to_string(), None, Some(-70), HashMap::new(), Vec::new());
    assert_eq!(c.scanned_devices.len(), 2);
    assert_eq!(c.scanned_devices[0].name, "Load cell");
    assert_eq!(c.scanned_devices[0].rssi, Some(-50));
    assert_eq!(c.scanned_devices[1].name, "B24");
    assert_eq!(c.scanned_devices[1].rssi, Some(-70));
    let mut d = ConnectionState::default();
    on_device_discovered(&mut d, "CC".to_string(), None, None, HashMap::new(), Vec::new());
    assert_eq!(d.scanned_devices[0].name, "Unknown");
}

#[test]
fn scan_stop_only_leaves_scanning() {
    let mut c = ConnectionState::default();
    c.phase = ConnectionPhase::Scanning;
    on_scan_stopped(&mut c);
    assert!(c.phase == ConnectionPhase::Disconnected);
    c.phase = ConnectionPhase::Connected;
    on_scan_stopped(&mut c);
    assert!(c.phase == ConnectionPhase::Connected);
}

#[test]
fn connecting_reads_everything() {
    let mut c = ConnectionState::default();
    c.error_message = Some("old".to_string());
    let mut tab = Tab::Connect;
    let cmds = on_connected(&mut c, &mut tab);
    assert!(c.phase == ConnectionPhase::Connected);
    assert!(c.error_message.is_none());
    assert_eq!(tab, Tab::Configuration);
    assert_eq!(cmds.len(), 15);
    assert!(matches!(&cmds[0], BleCommand::ReadAll(v) if v.len() == 11));
    assert!(matches!(&cmds[2], BleCommand::ReadCharacteristic(u) if *u == char_data_units()));
    assert!(matches!(&cmds[3], BleCommand::ReadAdvanced { index: 5 }));
    assert!(matches!(&cmds[14], BleCommand::ReadAdvanced { index: 43 }));
}

#[test]
fn disconnect_and_error() {
    let mut c = ConnectionState::default();
    c.phase = ConnectionPhase::Connected;
    let mut tab = Tab::Live;
    let mut pending = vec![1u128, 2];
    on_disconnected(&mut c, &mut tab, &mut pending, Some("lost".to_string()));
    assert!(c.phase == ConnectionPhase::Disconnected);
    assert_eq!(c.error_message.as_deref(), Some("lost"));
    assert!(pending.is_empty());
    assert_eq!(tab, Tab::Connect);
    on_disconnected(&mut c, &mut tab, &mut pending, None);
    assert_eq!(c.error_message.as_deref(), Some("lost"));

    c.phase = ConnectionPhase::Scanning;
    tab = Tab::Log;
    pending.push(9);
    on_error(&mut c, &mut tab, &mut pending, "bad".to_string());
    assert!(c.phase == ConnectionPhase::Scanning);
    assert_eq!(tab, Tab::Log);
    assert!(pending.is_empty());
    c.phase = ConnectionPhase::Connecting;
    on_error(&mut c, &mut tab, &mut pending, "worse".to_string());
    assert!(c.phase == ConnectionPhase::Disconnected);
    assert_eq!(tab, Tab::Connect);
    assert_eq!(c.error_message.as_deref(), Some("worse"));
}

#[test]
fn pending_reads_cleared_by_reply() {
    let mut pending = vec![3u128, 4, 3, 5];
    clear_pending_uuid(&mut pending, 3);
    assert_eq!(pending, vec![4, 5]);
    clear_pending_uuid(&mut pending, 6);
    assert_eq!(pending, vec![4, 5]);
}

fn fetched_index(cmds: &[BleCommand]) -> u8 {
    assert_eq!(cmds.len(), 2);
    match (&cmds[0], &cmds[1]) {
        (BleCommand::WriteCharacteristic { uuid, data }, BleCommand::ReadCharacteristic(r)) => {
            assert_eq!(*uuid, char_lin_index());
            assert_eq!(*r, char_coeff_at_idx());
            assert_eq!(data.len(), 1);
            data[0]
        }
        other => panic!("unexpected {other:?}"),
    }
}

#[test]
fn linearisation_transfer() {
    let mut r = LinearisationReader::new();
    assert!(r.on_lin_points(0).is_empty());
    assert!(r.on_lin_points(16).is_empty());
    let (cmds, table) = r.on_coefficient(1);
    assert!(cmds.is_empty() && table.is_none());

    let first = r.on_lin_points(2);
    assert_eq!(fetched_index(&first), 0);
    let coeffs = [10u32, 11, 12, 20, 21, 22, 30];
    let mut done = None;
    for (k, c) in coeffs.iter().enumerate() {
        let (cmds, table) = r.on_coefficient(*c);
        if k + 1 < coeffs.len() {
            assert_eq!(fetched_index(&cmds), (k + 1) as u8);
            assert!(table.is_none());
        } else {
            assert!(cmds.is_empty());
            done = table;
        }
    }
    assert_eq!(
        done.unwrap(),
        vec![
            LinearisationRow { index: 1, valid_from: 10, gain: 11, offset: 12, valid_to: 20 },
            LinearisationRow { index: 2, valid_from: 20, gain: 21, offset: 22, valid_to: 30 },
        ]
    );
    assert!(r.queue.is_empty() && r.buf.is_empty());
}

#[test]
fn history_is_bounded() {
    let mut h: VecDeque<u32> = VecDeque::new();
    for i in 0..5 {
        push_history(&mut h, i, 3);
    }
    assert_eq!(h, VecDeque::from(vec![2, 3, 4]));
}

#[test]
fn logged_fields() {
    assert_eq!(log_units_label(Some(15)), "m");
    assert_eq!(log_units_label(None), "");
    assert_eq!(log_status_byte(None), 0);
    assert_eq!(log_status_byte(Some(StatusByte::from_byte(0x12))), 0x12);
}

#[test]
fn connect_tab_buttons() {
    let mut conn = ConnectionState::default();
    conn.scanned_devices.push(device("P1"));
    assert!(matches!(scan_button(&mut conn), Some(BleCommand::StartScan)));
    assert_eq!(conn.phase, ConnectionPhase::Scanning);
    assert!(conn.scanned_devices.is_empty());
    assert!(matches!(scan_button(&mut conn), Some(BleCommand::StopScan)));
    assert_eq!(conn.phase, ConnectionPhase::Disconnected);
    conn.scanned_devices.push(device("P1"));
    conn.config_pin = "1234".to_string();
    conn.error_message = Some("old".to_string());
    match connect_device(&mut conn, 0) {
        BleCommand::Connect { peripheral_id, config_pin } => {
            assert_eq!(peripheral_id, "P1");
            assert_eq!(config_pin, 1234);
        }
        other => panic!("unexpected {other:?}"),
    }
    assert_eq!(conn.phase, ConnectionPhase::Connecting);
    assert_eq!(conn.selected_device_index, Some(0));
    assert_eq!(conn.error_message, None);
    conn.config_pin = "abc".to_string();
    assert!(matches!(connect_device(&mut conn, 0), BleCommand::Connect { config_pin: 9999, .. }));
    assert!(!b24_tool::session::can_connect(&conn));
    conn.phase = ConnectionPhase::Connected;
    assert!(!b24_tool::session::can_connect(&conn));
    assert!(scan_button(&mut conn).is_none());
    assert!(matches!(disconnect_button(&mut conn), BleCommand::Disconnect));
    assert_eq!(conn.phase, ConnectionPhase::Disconnected);
    assert!(b24_tool::session::can_connect(&conn));
}
