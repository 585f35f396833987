use b24_tool::ble::BleCommand;
use b24_tool::export::{export_config_text, join_lines_text, FloatTexts};
use b24_tool::plans::{import_config_text, TextFloats};
use b24_tool::registers::{CalibrationRegisters, ConfigRegisters};
use b24_tool::roundtrip::text_keys_check;
use b24_tool::state::AdvancedRegisters;
use b24_tool::text::{config_value, parse_config_text};
use b24_tool::uuids::{
    char_battery_thresh, char_cal_units, char_data_rate, char_data_tag, char_resolution,
    char_sens_range, char_view_pin,
};

fn sample() -> (ConfigRegisters, CalibrationRegisters, AdvancedRegisters, FloatTexts) {
    let mut c = ConfigRegisters::default();
    c.model_name = Some("B24-T".to_string());
    c.serial_number = Some(123);
    c.firmware_version = Some(3.01f32.to_bits());
    c.data_rate = Some(1000);
    c.resolution = Some(16);
    c.battery_threshold = Some(2.5f32.to_bits());
    c.view_pin = Some("1234".to_string());
    c.data_tag = Some("00FF".to_string());
    let mut cal = CalibrationRegisters::default();
    cal.sensitivity_range = Some(2);
    cal.cal_units = Some(7);
    let mut adv = AdvancedRegisters::default();
    adv.store(26, (-10.0f32).to_be_bytes().to_vec());
    adv.store(29, vec![0, 0, 0, 4]);
    adv.store(40, vec![1]);
    adv.store(5, 99.0f32.to_be_bytes().to_vec());
    let floats = FloatTexts {
        battery_threshold: Some("2.5".to_string()),
        system_zero: None,
        data_gain: None,
        data_offset: None,
        display_min: Some("-10".to_string()),
        display_max: None,
        filter_level: None,
        fast_level: None,
    };
    (c, cal, adv, floats)
}

const EXPECTED: &str = "# B24 Configuration Export
# Exported: 2024-05-01 12:00:00
# Model: B24-T
# Serial: 123
# Firmware: 3.01

[Configuration]
data_rate = 1000
resolution = 16
battery_threshold = 2.5
view_pin = 1234
data_tag = 00FF

[Calibration]
sensitivity_range = 2
cal_units = 7

[Advanced]
Display Min = -10
Filter Steps = 4
Fast Mode = 1
";

#[test]
fn export_writes_sections() {
    let (c, cal, adv, floats) = sample();
    let text = export_config_text("2024-05-01 12:00:00", &Some("3.01".to_string()), &c, &cal, &adv, &floats);
    assert_eq!(text, EXPECTED);
}

#[test]
fn join_puts_newlines_between_lines() {
    assert_eq!(join_lines_text(&vec!["a".to_string(), "".to_string(), "b".to_string()]), "a\n\nb");
    assert_eq!(join_lines_text(&vec![]), "");
    assert_eq!(join_lines_text(&vec!["x".to_string()]), "x");
}

#[test]
fn lowercase_keys_hold() {
    assert!(text_keys_check());
}

fn write_of(c: &BleCommand) -> (u128, Vec<u8>) {
    match c {
        BleCommand::WriteCharacteristic { uuid, data } => (*uuid, data.clone()),
        other => panic!("not a write: {other:?}"),
    }
}

#[test]
fn exported_configuration_imports_back() {
    let (c, cal, adv, floats) = sample();
    let text = export_config_text("now", &None, &c, &cal, &adv, &floats);
    let kvs = parse_config_text(&text);
    let bits = |k: &str| config_value(&kvs, k).and_then(|v| v.parse::<f32>().ok()).map(f32::to_bits);
    let tf = TextFloats {
        battery_threshold: bits("battery_threshold"),
        system_zero: bits("system_zero"),
        data_gain: bits("data_gain"),
        data_offset: bits("data_offset"),
        display_min: bits("display_min"),
        display_max: bits("display_max"),
        filter_level: bits("filter_level"),
        fast_level: bits("fast_level"),
    };
    let cmds = import_config_text(&kvs, &tf);
    assert_eq!(write_of(&cmds[0]), (char_data_rate(), vec![0, 0, 0x03, 0xE8]));
    assert_eq!(write_of(&cmds[1]), (char_resolution(), vec![16]));
    assert_eq!(write_of(&cmds[2]), (char_battery_thresh(), 2.5f32.to_be_bytes().to_vec()));
    assert_eq!(write_of(&cmds[3]), (char_view_pin(), vec![b'1', b'2', b'3', b'4', 0]));
    assert_eq!(write_of(&cmds[4]), (char_data_tag(), vec![0x00, 0xFF]));
    assert_eq!(write_of(&cmds[5]), (char_sens_range(), vec![2]));
    assert_eq!(write_of(&cmds[6]), (char_cal_units(), vec![7]));
    assert!(matches!(&cmds[7], BleCommand::WriteAdvanced { index: 26, data } if data == &(-10.0f32).to_be_bytes().to_vec()));
    assert!(matches!(&cmds[8], BleCommand::WriteAdvanced { index: 29, data } if data == &vec![0, 0, 0, 4]));
    assert!(matches!(&cmds[9], BleCommand::WriteAdvanced { index: 40, data } if data == &vec![1]));
    assert!(matches!(&cmds[10], BleCommand::ReadAll(_)));
    assert_eq!(cmds.len(), 7 + 3 + 2 + 12);
}
