use b24_tool::ble::BleError;
use b24_tool::state::{AdvancedRegisters, CalSubTab, ConnectionPhase, ConnectionState, EditBuffers, Tab};
use b24_tool::types::{AdvancedParam, DataUnits, Resolution, SensitivityRange};
use b24_tool::uuids::{
    all_calibration_uuids, all_config_uuids, b24_uuid, char_adv_data, char_adv_index,
    char_config_pin, char_data_rate, char_data_units, char_data_value, char_gap_device_name,
    char_status, svc_config, svc_data,
};
use b24_tool::worker::{
    advanced_data_uuid, advanced_index_write, can_authenticate, find_characteristic,
    notification_targets, pin_accepted, pin_write,
};

fn parse(s: &str) -> u128 {
    uuid::Uuid::parse_str(s).unwrap().as_u128()
}

#[test]
fn b24_uuid_values() {
    assert_eq!(svc_config(), parse("a970fd30-a0e8-11e6-bdf4-0800200c9a66"));
    assert_eq!(svc_data(), parse("a9712440-a0e8-11e6-bdf4-0800200c9a66"));
    assert_eq!(b24_uuid(0x12345678), parse("12345678-a0e8-11e6-bdf4-0800200c9a66"));
    assert_eq!(char_gap_device_name(), parse("00002a00-0000-1000-8000-00805f9b34fb"));
}

#[test]
fn read_all_lists() {
    let cfg = all_config_uuids();
    assert_eq!(cfg.len(), 11);
    assert_eq!(cfg[0], char_config_pin());
    let cal = all_calibration_uuids();
    assert_eq!(cal.len(), 11);
    assert_eq!(cal[10], parse("a971726b-a0e8-11e6-bdf4-0800200c9a66"));
}

#[test]
fn advanced_register_lookup() {
    let mut adv = AdvancedRegisters::default();
    assert_eq!(adv.get_u8(35), None);
    adv.store(35, vec![1, 2]);
    adv.store(29, vec![0, 0, 1, 0, 9]);
    adv.store(41, vec![0, 0]);
    assert_eq!(adv.get_u8(35), Some(1));
    assert_eq!(adv.get_u32(29), Some(256));
    assert_eq!(adv.get_u32(41), None);
    adv.store(40, vec![]);
    assert_eq!(adv.get_u8(40), None);
    adv.store(35, vec![7]);
    assert_eq!(adv.get_u8(35), Some(7));
}

#[test]
fn state_defaults() {
    let c = ConnectionState::default();
    assert!(c.phase == ConnectionPhase::Disconnected);
    assert!(c.scanned_devices.is_empty() && c.error_message.is_none());
    assert_eq!(Tab::default(), Tab::Connect);
    assert_eq!(CalSubTab::default(), CalSubTab::AutoCal);
    assert!(EditBuffers::default().adv_data.is_empty());
}

#[test]
fn error_messages() {
    assert_eq!(BleError::NoAdapter.message(), "No BLE adapter found");
    assert_eq!(BleError::DeviceNotFound("AA".to_string()).message(), "Device not found: AA");
    assert_eq!(BleError::PinTimeout.message(), "PIN authentication timeout (5 seconds)");
    assert_eq!(BleError::Other("x".to_string()).message(), "BLE error: x");
    assert_eq!(BleError::ReadFailed("r".to_string()).message(), "Read failed: r");
    assert_eq!(BleError::WriteFailed("w".to_string()).message(), "Write failed: w");
    assert_eq!(BleError::ConnectionFailed("c".to_string()).message(), "Connection failed: c");
    assert_eq!(BleError::CharacteristicNotFound("u".to_string()).message(), "Characteristic not found: u");
    assert_eq!(BleError::NotConnected.message(), "Not connected to any device");
}

#[test]
fn worker_decisions() {
    let before = vec![char_config_pin(), svc_config()];
    assert!(can_authenticate(&before));
    assert!(!pin_accepted(&before));
    assert_eq!(pin_write(1234), (char_config_pin(), vec![0, 0, 4, 0xD2]));
    let after = vec![char_data_units(), char_data_rate(), char_status(), char_config_pin()];
    assert!(pin_accepted(&after));
    assert_eq!(notification_targets(&after), vec![char_status(), char_data_units()]);
    assert_eq!(find_characteristic(&after, char_data_rate()), Some(1));
    assert_eq!(find_characteristic(&after, char_data_value()), None);
    assert!(!can_authenticate(&vec![]));
    assert_eq!(advanced_index_write(41), (char_adv_index(), vec![41]));
    assert_eq!(advanced_data_uuid(), char_adv_data());
}

#[test]
fn constant_lists() {
    assert_eq!(Resolution::ALL.len(), 5);
    assert_eq!(SensitivityRange::ALL[3], SensitivityRange::Range48mV);
    assert_eq!(DataUnits::ALL.len(), 104);
    assert!(DataUnits::ALL.iter().all(|u| DataUnits::from_byte(u.to_byte()) == *u));
    assert_eq!(AdvancedParam::ALL.to_vec(), AdvancedParam::all());
}
