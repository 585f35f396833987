use std::collections::HashMap;

use b24_tool::ble::{BleCommand, BleError, BleEvent};
use b24_tool::events::{disconnect_now, process_event, process_events, AppState, EventTime};
use b24_tool::plans::{import_from_exportable, ExportableConfig};
use b24_tool::registers::{apply_notification, update_reading, DataLog, LiveData};
use b24_tool::state::{ConnectionPhase, Tab};
use b24_tool::types::DeviceAction;
use b24_tool::uuids::{
    char_coeff_at_idx, char_config_pin, char_data_tag, char_data_units, char_data_value,
    char_firmware_ver, char_lin_index, char_lin_points, char_model_name, char_status,
};

const T0: EventTime = EventTime { live_elapsed_bits: 0, view_elapsed_bits: 0, now_ms: 0 };

fn discovered(id: &str, name: Option<&str>, rssi: i16) -> BleEvent {
    BleEvent::DeviceDiscovered {
        peripheral_id: id.to_string(),
        name: name.map(str::to_string),
        rssi: Some(rssi),
        manufacturer_data: HashMap::new(),
        service_uuids: Vec::new(),
    }
}

fn read(uuid: u128, data: &[u8]) -> BleEvent {
    BleEvent::CharacteristicRead { uuid, data: data.to_vec() }
}

#[test]
fn discovery_events_keep_one_entry_per_device() {
    let mut st = AppState::new();
    process_event(&mut st, discovered("AA", None, -70), T0);
    process_event(&mut st, discovered("BB", Some("B24 #2"), -60), T0);
    process_event(&mut st, discovered("AA", Some("B24 #1"), -50), T0);
    process_event(&mut st, discovered("AA", None, -40), T0);
    let devs = &st.connection.scanned_devices;
    assert_eq!(devs.len(), 2);
    assert_eq!(devs[0].peripheral_id, "AA");
    assert_eq!(devs[0].name, "B24 #1");
    assert_eq!(devs[0].rssi, Some(-40));
    assert_eq!(devs[1].name, "B24 #2");
    let mut st = AppState::new();
    process_event(&mut st, discovered("CC", None, -1), T0);
    assert_eq!(st.connection.scanned_devices[0].name, "Unknown");
}

#[test]
fn connected_event_reads_every_register() {
    let mut st = AppState::new();
    st.connection.error_message = Some("old".to_string());
    let (cmds, v) = process_event(&mut st, BleEvent::Connected, T0);
    assert!(v.is_none());
    assert_eq!(st.connection.phase, ConnectionPhase::Connected);
    assert_eq!(st.connection.error_message, None);
    assert_eq!(st.ui.active_tab, Tab::Configuration);
    assert_eq!(cmds.len(), 3 + 12);
    assert!(matches!(&cmds[0], BleCommand::ReadAll(v) if v.len() == 11));
    assert!(matches!(&cmds[2], BleCommand::ReadCharacteristic(u) if *u == char_data_units()));
    assert!(matches!(&cmds[3], BleCommand::ReadAdvanced { index: 5 }));
}

#[test]
fn register_reads_update_the_registers() {
    let mut st = AppState::new();
    st.ui.pending_reads = vec![char_config_pin(), char_data_tag(), char_config_pin()];
    process_event(&mut st, read(char_config_pin(), &[0, 0, 0x30, 0x39]), T0);
    assert_eq!(st.config.config_pin, Some(12345));
    assert_eq!(st.ui.pending_reads, vec![char_data_tag()]);
    process_event(&mut st, read(char_data_tag(), &[0x0A, 0xBC]), T0);
    assert_eq!(st.config.data_tag.as_deref(), Some("0ABC"));
    // An unreadable tag keeps the one held; an unreadable pin clears it.
    process_event(&mut st, read(char_data_tag(), &[0x01]), T0);
    assert_eq!(st.config.data_tag.as_deref(), Some("0ABC"));
    process_event(&mut st, read(char_config_pin(), &[1, 2]), T0);
    assert_eq!(st.config.config_pin, None);
    process_event(&mut st, read(char_model_name(), b"B24-T\0\0\0"), T0);
    assert_eq!(st.config.model_name.as_deref(), Some("B24-T"));
    process_event(&mut st, read(char_firmware_ver(), &3.01f32.to_be_bytes()), T0);
    assert_eq!(st.config.firmware_version.map(f32::from_bits), Some(3.01));
    process_event(&mut st, read(char_status(), &[0x06]), T0);
    let s = st.live_data.current_status.unwrap();
    assert!(s.integrity && s.not_gross && !s.shunt_cal);
    process_event(&mut st, read(char_data_units(), &[]), T0);
    assert_eq!(st.live_data.current_units, None);
}

#[test]
fn reading_lin_points_fetches_the_table() {
    let mut st = AppState::new();
    let (cmds, _) = process_event(&mut st, read(char_lin_points(), &[1]), T0);
    assert_eq!(st.calibration.lin_points, Some(1));
    assert_eq!(cmds.len(), 2);
    assert!(matches!(&cmds[0], BleCommand::WriteCharacteristic { uuid, data } if *uuid == char_lin_index() && data == &vec![0]));
    assert!(matches!(&cmds[1], BleCommand::ReadCharacteristic(u) if *u == char_coeff_at_idx()));
    let values = [0.0f32, 2.0, 0.5, 10.0];
    for (i, v) in values.iter().enumerate() {
        let (cmds, _) = process_event(&mut st, read(char_coeff_at_idx(), &v.to_be_bytes()), T0);
        if i + 1 < values.len() {
            assert!(matches!(&cmds[0], BleCommand::WriteCharacteristic { data, .. } if data == &vec![(i + 1) as u8]));
        } else {
            assert!(cmds.is_empty());
        }
    }
    let table = &st.calibration.linearisation_table;
    assert_eq!(table.len(), 1);
    assert_eq!(table[0].index, 1);
    assert_eq!(f32::from_bits(table[0].gain), 2.0);
    assert_eq!(f32::from_bits(table[0].valid_to), 10.0);
    assert!(st.lin_reader.queue.is_empty());
    // Too many points: no transfer.
    let (cmds, _) = process_event(&mut st, read(char_lin_points(), &[16]), T0);
    assert!(cmds.is_empty());
    assert!(st.lin_reader.queue.is_empty());
}

#[test]
fn notifications_update_the_live_reading() {
    let mut st = AppState::new();
    let (_, v) = process_event(&mut st, BleEvent::Notification { uuid: char_data_value(), data: 12.5f32.to_be_bytes().to_vec() }, T0);
    assert_eq!(v.map(f32::from_bits), Some(12.5));
    assert_eq!(st.live_data.current_value.map(f32::from_bits), Some(12.5));
    let (_, v) = process_event(&mut st, BleEvent::Notification { uuid: char_data_value(), data: vec![1, 2] }, T0);
    assert_eq!(v, None);
    assert_eq!(st.live_data.current_value.map(f32::from_bits), Some(12.5));
    let mut live = LiveData::default();
    assert_eq!(live.history_max_points, 2000);
    assert_eq!(update_reading(&mut live, char_data_units(), &[]), None);
    assert_eq!(live.current_units, None);
    update_reading(&mut live, char_data_units(), &[7, 9]);
    assert_eq!(live.current_units, Some(7));
}

#[test]
fn errors_and_disconnects_reset_the_link() {
    let mut st = AppState::new();
    process_event(&mut st, BleEvent::Connected, T0);
    st.ui.pending_reads = vec![char_status()];
    process_event(&mut st, BleEvent::Error(BleError::PinTimeout), T0);
    assert_eq!(st.connection.phase, ConnectionPhase::Disconnected);
    assert_eq!(st.ui.active_tab, Tab::Connect);
    assert!(st.ui.pending_reads.is_empty());
    assert_eq!(st.connection.error_message.as_deref(), Some("PIN authentication timeout (5 seconds)"));
    st.ui.active_tab = Tab::Live;
    process_event(&mut st, BleEvent::Error(BleError::NotConnected), T0);
    assert_eq!(st.ui.active_tab, Tab::Live);
    process_event(&mut st, BleEvent::Connected, T0);
    process_event(&mut st, BleEvent::Disconnected { reason: Some("lost".to_string()) }, T0);
    assert_eq!(st.connection.phase, ConnectionPhase::Disconnected);
    assert_eq!(st.connection.error_message.as_deref(), Some("lost"));
    assert_eq!(st.ui.active_tab, Tab::Connect);
}

#[test]
fn other_events_change_nothing_but_their_part() {
    let mut st = AppState::new();
    process_event(&mut st, BleEvent::AdvancedRead { index: 4, data: vec![0x3F, 0x80, 0, 0, 9] }, T0);
    assert_eq!(st.advanced.get_u32(4), Some(0x3F80_0000));
    let (cmds, v) = process_event(&mut st, BleEvent::ActionExecuted(DeviceAction::CalculateCoefficients), T0);
    assert!(cmds.is_empty() && v.is_none());
    process_event(&mut st, BleEvent::ScanStopped, T0);
    assert_eq!(st.connection.phase, ConnectionPhase::Disconnected);
}

#[test]
fn written_values_read_back() {
    let cfg = ExportableConfig {
        data_rate: Some(250),
        resolution: Some(32),
        battery_threshold: Some(2.8f32.to_bits()),
        view_pin: None,
        system_zero: Some((-0.125f32).to_bits()),
        config_pin: Some(4321),
        cal_units: Some(9),
        data_tag: Some("7BE5".to_string()),
        sensitivity_range: Some(1),
        data_gain: Some(1.5f32.to_bits()),
        data_offset: Some(0.25f32.to_bits()),
        cal_pin: Some(99),
        local_name: None,
        data_units: None,
    };
    let mut st = AppState::new();
    for cmd in import_from_exportable(&cfg) {
        if let BleCommand::WriteCharacteristic { uuid, data } = cmd {
            process_event(&mut st, BleEvent::CharacteristicRead { uuid, data }, T0);
        }
    }
    assert_eq!(st.config.data_rate, Some(250));
    assert_eq!(st.config.resolution, Some(32));
    assert_eq!(st.config.battery_threshold, Some(2.8f32.to_bits()));
    assert_eq!(st.config.system_zero, Some((-0.125f32).to_bits()));
    assert_eq!(st.config.config_pin, Some(4321));
    assert_eq!(st.config.data_tag.as_deref(), Some("7BE5"));
    assert_eq!(st.calibration.cal_units, Some(9));
    assert_eq!(st.calibration.sensitivity_range, Some(1));
    assert_eq!(st.calibration.data_gain, Some(1.5f32.to_bits()));
    assert_eq!(st.calibration.data_offset, Some(0.25f32.to_bits()));
    assert_eq!(st.calibration.cal_pin, Some(99));
}

#[test]
fn top_bar_disconnect_resets_the_link() {
    let mut st = AppState::new();
    process_event(&mut st, BleEvent::Connected, T0);
    st.ui.pending_reads = vec![char_status(), char_data_value()];
    assert!(matches!(disconnect_now(&mut st), BleCommand::Disconnect));
    assert_eq!(st.connection.phase, ConnectionPhase::Disconnected);
    assert!(st.ui.pending_reads.is_empty());
    assert_eq!(st.ui.active_tab, Tab::Connect);
}

#[test]
fn top_bar_and_repaint_follow_the_link() {
    let mut st = b24_tool::events::AppState::new();
    assert!(!b24_tool::events::needs_repaint(&st));
    assert!(!b24_tool::events::shows_disconnect_button(&st));
    st.connection.phase = b24_tool::state::ConnectionPhase::Connecting;
    assert!(b24_tool::events::needs_repaint(&st));
    assert!(!b24_tool::events::shows_disconnect_button(&st));
    st.ui.active_tab = b24_tool::state::Tab::Live;
    assert!(b24_tool::events::shows_disconnect_button(&st));
    st.connection.phase = b24_tool::state::ConnectionPhase::Scanning;
    assert!(b24_tool::events::needs_repaint(&st));
    assert!(!b24_tool::events::shows_disconnect_button(&st));
    st.connection.phase = b24_tool::state::ConnectionPhase::Disconnected;
    st.ui.pending_reads.push(7);
    assert!(b24_tool::events::needs_repaint(&st));
}

#[test]
fn wizard_points_advance() {
    let mut w = b24_tool::events::CalWizardState::default();
    let c = w.acquire_low(Some(0.5f32.to_bits()));
    assert!(matches!(c, BleCommand::ReadCharacteristic(u) if u == b24_tool::uuids::char_base_value()));
    w.acquire_high(Some(2.0f32.to_bits()));
    w.high_value = "100".to_string();
    w.add_point();
    assert_eq!(w.current_point, 1);
    assert_eq!(w.low_value, "100");
    assert_eq!(w.low_acquired, Some(2.0f32.to_bits()));
    assert!(w.high_value.is_empty() && w.high_acquired.is_none());
    w.reset();
    assert_eq!(w.current_point, 0);
    assert!(w.low_acquired.is_none() && w.low_value.is_empty());
    let cmds = b24_tool::events::wizard_apply_writes(1.5f32.to_bits(), 0.25f32.to_bits());
    assert!(matches!(&cmds[0], BleCommand::WriteCharacteristic { uuid, data }
        if *uuid == b24_tool::uuids::char_data_gain() && *data == 1.5f32.to_be_bytes().to_vec()));
    assert!(matches!(&cmds[1], BleCommand::WriteCharacteristic { uuid, data }
        if *uuid == b24_tool::uuids::char_data_offset() && *data == 0.25f32.to_be_bytes().to_vec()));
}

#[test]
fn clear_history_keeps_the_reading() {
    let mut live = LiveData::default();
    update_reading(&mut live, char_data_value(), &3.0f32.to_be_bytes());
    b24_tool::session::push_history(&mut live.history, (10, 3.0f32.to_bits()), 2000);
    assert_eq!(live.history.len(), 1);
    live.clear_history();
    assert!(live.history.is_empty());
    assert_eq!(live.current_value, Some(3.0f32.to_bits()));
}

#[test]
fn status_bar_texts() {
    assert_eq!(ConnectionPhase::Scanning.status_text(), "Scanning...");
    assert_eq!(ConnectionPhase::Connected.status_text(), "Connected");
    let mut st = AppState::new();
    assert_eq!(b24_tool::events::status_units_label(&st), "");
    st.live_data.current_units = Some(0);
    assert_eq!(b24_tool::events::status_units_label(&st), b24_tool::types::DataUnits::from_byte(0).label());
    st.calibration.cal_units = Some(1);
    assert_eq!(b24_tool::events::status_units_label(&st), b24_tool::types::DataUnits::from_byte(1).label());
    assert_ne!(b24_tool::types::DataUnits::from_byte(0).label(), b24_tool::types::DataUnits::from_byte(1).label());
}

fn advert_packet(tag: u16, status: u8, units: u8, value: f32) -> Vec<u8> {
    let mut plain = vec![0x01];
    plain.extend_from_slice(&tag.to_be_bytes());
    plain.push(status);
    plain.push(units);
    plain.extend_from_slice(&value.to_bits().to_be_bytes());
    let seed = b24_tool::codec::compute_xor_seed("");
    b24_tool::codec::xor_advertising(&mut plain, &seed);
    plain
}

#[test]
fn rediscovery_keeps_one_entry_without_b24_signs() {
    let mut st = AppState::new();
    process_event(&mut st, discovered("AA", Some("B24"), -60), T0);
    process_event(&mut st, discovered("AA", None, -50), T0);
    let devs = &st.connection.scanned_devices;
    assert_eq!(devs.len(), 1);
    assert_eq!(devs[0].peripheral_id, "AA");
    assert_eq!(devs[0].name, "B24");
    assert_eq!(devs[0].rssi, Some(-50));
    assert!(!devs[0].is_b24);
    assert!(devs[0].advert.is_none());
}

#[test]
fn b24_devices_are_recognised_and_decoded() {
    let mut st = AppState::new();
    let mut m = HashMap::new();
    m.insert(0x04C3u16, advert_packet(0x1A2B, 0, 3, 2.5));
    process_event(&mut st, BleEvent::DeviceDiscovered {
        peripheral_id: "M".to_string(),
        name: None,
        rssi: None,
        manufacturer_data: m,
        service_uuids: Vec::new(),
    }, T0);
    process_event(&mut st, BleEvent::DeviceDiscovered {
        peripheral_id: "S".to_string(),
        name: None,
        rssi: None,
        manufacturer_data: HashMap::new(),
        service_uuids: vec![b24_tool::uuids::svc_config()],
    }, T0);
    let devs = &st.connection.scanned_devices;
    assert!(devs[0].is_b24 && devs[1].is_b24);
    let a = devs[0].advert.unwrap();
    assert_eq!((a.data_tag, a.units, a.value_bits), (0x1A2B, 3, 2.5f32.to_bits()));
    assert!(devs[1].advert.is_none());

    // New manufacturer data re-decodes a known device and adds no device.
    let mut m2 = HashMap::new();
    m2.insert(0x04C3u16, advert_packet(0x1A2B, 0, 3, 7.0));
    process_event(&mut st, BleEvent::ManufacturerDataUpdate { peripheral_id: "M".to_string(), manufacturer_data: m2 }, T0);
    assert_eq!(st.connection.scanned_devices[0].advert.unwrap().value_bits, 7.0f32.to_bits());
    let mut m3 = HashMap::new();
    m3.insert(0x04C3u16, vec![1, 2]);
    process_event(&mut st, BleEvent::ManufacturerDataUpdate { peripheral_id: "M".to_string(), manufacturer_data: m3.clone() }, T0);
    assert_eq!(st.connection.scanned_devices[0].advert.unwrap().value_bits, 7.0f32.to_bits());
    assert_eq!(st.connection.scanned_devices[0].manufacturer_data, m3);
    process_event(&mut st, BleEvent::ManufacturerDataUpdate { peripheral_id: "Z".to_string(), manufacturer_data: HashMap::new() }, T0);
    assert_eq!(st.connection.scanned_devices.len(), 2);
}

#[test]
fn readings_fill_history_and_log() {
    let mut live = LiveData::default();
    live.history_max_points = 2;
    let mut log = DataLog::default();
    // Not logging: only the history grows.
    let r = apply_notification(&mut live, &mut log, char_data_value(), &1.0f32.to_be_bytes(), 10, 1000);
    assert_eq!(r, Some(1.0f32.to_bits()));
    assert_eq!(live.history.len(), 1);
    assert!(log.entries.is_empty());
    log.toggle();
    apply_notification(&mut live, &mut log, char_status(), &[0x00], 11, 1001);
    apply_notification(&mut live, &mut log, char_data_units(), &[3], 12, 1002);
    apply_notification(&mut live, &mut log, char_data_value(), &2.0f32.to_be_bytes(), 13, 1003);
    apply_notification(&mut live, &mut log, char_data_value(), &3.0f32.to_be_bytes(), 14, 1004);
    assert_eq!(live.history.len(), 2);
    assert_eq!(live.history.back(), Some(&(14, 3.0f32.to_bits())));
    assert_eq!(live.history.front(), Some(&(13, 2.0f32.to_bits())));
    assert_eq!(live.current_value, Some(3.0f32.to_bits()));
    assert_eq!(log.entries.len(), 2);
    let e = &log.entries[1];
    assert_eq!((e.timestamp_ms, e.value_bits, e.status), (1004, 3.0f32.to_bits(), 0));
    assert_eq!(e.units, b24_tool::types::DataUnits::from_byte(3).label());
    // A short value changes nothing.
    assert_eq!(apply_notification(&mut live, &mut log, char_data_value(), &[1, 2], 15, 1005), None);
    assert_eq!(live.history.len(), 2);
    assert_eq!(log.entries.len(), 2);
    log.clear();
    assert!(log.entries.is_empty() && log.is_logging);
    log.toggle();
    log.record(7, 1, None, None);
    assert!(log.entries.is_empty());
}

#[test]
fn a_batch_of_events_keeps_devices_unique() {
    let mut st = AppState::new();
    let (cmds, values) = process_events(&mut st, vec![
        discovered("AA", Some("B24"), -60),
        discovered("AA", None, -50),
        BleEvent::ManufacturerDataUpdate { peripheral_id: "ZZ".to_string(), manufacturer_data: HashMap::new() },
        discovered("BB", None, -40),
        BleEvent::Connected,
        BleEvent::Notification { uuid: char_data_value(), data: 4.0f32.to_be_bytes().to_vec() },
    ], T0);
    let devs = &st.connection.scanned_devices;
    assert_eq!(devs.len(), 2);
    assert_eq!((devs[0].peripheral_id.as_str(), devs[0].name.as_str(), devs[0].rssi), ("AA", "B24", Some(-50)));
    assert!(!devs[0].is_b24);
    assert_eq!(devs[1].peripheral_id, "BB");
    assert_eq!(values.len(), 6);
    assert_eq!(values[5], Some(4.0f32.to_bits()));
    assert!(values[..5].iter().all(|v| v.is_none()));
    // The commands are those of the connection, in order.
    assert!(matches!(&cmds[0], BleCommand::ReadAll(_)));
    let mut again = AppState::new();
    let (c2, _) = process_event(&mut again, BleEvent::Connected, T0);
    assert_eq!(cmds.len(), c2.len());
}

#[test]
fn view_mode_follows_one_advertising_device() {
    let mut st = AppState::new();
    st.ui.active_tab = Tab::Live;
    st.ui.view_mode.view_connected(&mut st.ui.active_tab);
    assert!(st.ui.view_mode.active);
    assert_eq!(st.ui.view_mode.device_name, "Connected Device");
    assert_eq!(st.ui.active_tab, Tab::Connect);
    assert!(b24_tool::events::needs_repaint(&st));

    let mut v = b24_tool::view::ViewMode::new();
    v.active = true;
    v.source = b24_tool::view::ViewSource::Advertising;
    v.peripheral_id = Some("M".to_string());
    let mut m = HashMap::new();
    m.insert(0x04C3u16, advert_packet(0x0102, 0, 4, 9.5));
    b24_tool::view::view_on_advert(&mut v, &"X".to_string(), &m, 1);
    assert!(v.current_value.is_none());
    b24_tool::view::view_on_advert(&mut v, &"M".to_string(), &m, 2);
    assert_eq!(v.current_value, Some(9.5f32.to_bits()));
    assert_eq!(v.data_tag, Some(0x0102));
    assert_eq!(v.current_units, Some(4));
    assert_eq!(v.history.len(), 1);
    // With another View PIN the packet does not decode and nothing changes.
    v.view_pin = "9999".to_string();
    b24_tool::view::view_on_advert(&mut v, &"M".to_string(), &m, 3);
    assert_eq!(v.history.len(), 1);
}

#[test]
fn connecting_marks_its_reads_pending() {
    let mut st = AppState::new();
    let (cmds, _) = process_event(&mut st, BleEvent::Connected, T0);
    assert_eq!(st.connection.phase, ConnectionPhase::Connected);
    assert_eq!(st.ui.active_tab, Tab::Configuration);
    assert_eq!(cmds.len(), 3 + b24_tool::types::AdvancedParam::ALL.len());
    assert_eq!(st.ui.pending_reads.len(), 11 + 11 + 1);
    assert!(st.ui.is_pending(char_data_units()));
    assert!(st.ui.is_pending(char_config_pin()));
    for p in b24_tool::types::AdvancedParam::ALL.iter() {
        assert!(st.ui.is_adv_pending(p.index()));
    }
    assert!(st.ui.has_pending());
    // Answers clear what they answer.
    process_event(&mut st, read(char_data_units(), &[3]), T0);
    assert!(!st.ui.is_pending(char_data_units()));
    let first = b24_tool::types::AdvancedParam::ALL[0].index();
    process_event(&mut st, BleEvent::AdvancedRead { index: first, data: vec![1] }, T0);
    assert!(!st.ui.is_adv_pending(first));
    // Writes are tracked and cleared by their confirmation.
    st.ui.track_send(&BleCommand::WriteCharacteristic { uuid: char_data_tag(), data: vec![0, 1] });
    st.ui.track_send(&BleCommand::WriteAdvanced { index: 194, data: vec![0] });
    assert!(st.ui.pending_writes.contains(&char_data_tag()) && st.ui.is_adv_pending(194));
    process_event(&mut st, BleEvent::CharacteristicWritten { uuid: char_data_tag() }, T0);
    process_event(&mut st, BleEvent::AdvancedWritten { index: 194 }, T0);
    assert!(!st.ui.pending_writes.contains(&char_data_tag()) && !st.ui.is_adv_pending(194));
    // A read sent twice is pending once.
    let n = st.ui.pending_reads.len();
    st.ui.track_sends(&vec![BleCommand::ReadCharacteristic(char_status()), BleCommand::ReadCharacteristic(char_status())]);
    assert_eq!(st.ui.pending_reads.len(), n + 1);
    // The link going away forgets everything pending.
    process_event(&mut st, BleEvent::Disconnected { reason: None }, T0);
    assert!(!st.ui.has_pending());
}

#[test]
fn notifications_through_events_fill_history_and_log() {
    let mut st = AppState::new();
    st.log.toggle();
    let t = EventTime { live_elapsed_bits: 2.5f64.to_bits(), view_elapsed_bits: 0, now_ms: 77 };
    let (_, v) = process_event(&mut st, BleEvent::Notification { uuid: char_data_value(), data: 6.0f32.to_be_bytes().to_vec() }, t);
    assert_eq!(v, Some(6.0f32.to_bits()));
    assert_eq!(st.live_data.history.back(), Some(&(2.5f64.to_bits(), 6.0f32.to_bits())));
    assert_eq!(st.log.entries.len(), 1);
    assert_eq!(st.log.entries[0].timestamp_ms, 77);
}

#[test]
fn view_mode_decodes_advertisements_of_its_device() {
    let mut st = AppState::new();
    st.ui.view_mode.active = true;
    st.ui.view_mode.source = b24_tool::view::ViewSource::Advertising;
    st.ui.view_mode.peripheral_id = Some("M".to_string());
    let mut m = HashMap::new();
    m.insert(0x04C3u16, advert_packet(0x0A0B, 0, 2, 1.5));
    // An update from a device not in the list is ignored.
    process_event(&mut st, BleEvent::ManufacturerDataUpdate { peripheral_id: "M".to_string(), manufacturer_data: m.clone() }, T0);
    assert!(st.ui.view_mode.current_value.is_none());
    process_event(&mut st, BleEvent::DeviceDiscovered {
        peripheral_id: "M".to_string(),
        name: None,
        rssi: None,
        manufacturer_data: m,
        service_uuids: Vec::new(),
    }, T0);
    assert_eq!(st.ui.view_mode.current_value, Some(1.5f32.to_bits()));
    assert_eq!(st.ui.view_mode.data_tag, Some(0x0A0B));
    let mut m2 = HashMap::new();
    m2.insert(0x04C3u16, advert_packet(0x0A0B, 0, 2, 2.5));
    process_event(&mut st, BleEvent::ManufacturerDataUpdate { peripheral_id: "M".to_string(), manufacturer_data: m2 }, T0);
    assert_eq!(st.ui.view_mode.current_value, Some(2.5f32.to_bits()));
    assert_eq!(st.ui.view_mode.history.len(), 2);
}
