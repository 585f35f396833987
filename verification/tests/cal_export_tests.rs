use b24_tool::ble::BleCommand;
use b24_tool::cal_export::export_calibration_text;
use b24_tool::cal_roundtrip::cal_sections_check;
use b24_tool::calibration::{import_calibration_plan, parse_calibration_text};
use b24_tool::registers::{CalibrationRegisters, ConfigRegisters};
use b24_tool::uuids::{char_cal_units, char_sens_range};

fn pts(v: &[(&str, &str)]) -> Vec<(String, String)> {
    v.iter().map(|(a, b)| (a.to_string(), b.to_string())).collect()
}

const EXPECTED: &str = "# B24 Calibration Export
# Exported: 2024-05-01 12:00:00
# Model: B24-T
# Serial: 77

[Settings]
sensitivity_range = 3
data_gain = 1
data_offset = 0
cal_units = 2 # °
lin_points = 2
lin_repeat = 3

[Calibration Points]
# mV/V, Engineering Value
0, 0
1.5, 100

[Table Points]
# mV/V, Engineering Value
2, 200

[Linearisation Table]
# Index, Valid From, Gain, Offset, Valid To
1, 0, 66.666664, -0, 1.5
";

fn sample() -> (ConfigRegisters, CalibrationRegisters) {
    let mut c = ConfigRegisters::default();
    c.model_name = Some("B24-T".to_string());
    c.serial_number = Some(77);
    let mut cal = CalibrationRegisters::default();
    cal.sensitivity_range = Some(3);
    cal.cal_units = Some(2);
    cal.lin_points = Some(2);
    cal.lin_repeat = Some(3);
    (c, cal)
}

#[test]
fn calibration_export_writes_sections() {
    let (c, cal) = sample();
    let rows = vec![(1u8, "0".to_string(), "66.666664".to_string(), "-0".to_string(), "1.5".to_string())];
    let text = export_calibration_text(
        "2024-05-01 12:00:00",
        &c,
        &cal,
        &Some("1".to_string()),
        &Some("0".to_string()),
        &Some(pts(&[("0", "0"), ("1.5", "100")])),
        &Some(pts(&[("2", "200")])),
        &rows,
    );
    assert_eq!(text, EXPECTED);
}

#[test]
fn calibration_export_without_points_or_table() {
    let c = ConfigRegisters::default();
    let cal = CalibrationRegisters::default();
    let text = export_calibration_text("t", &c, &cal, &None, &None, &None, &None, &Vec::new());
    assert_eq!(text, "# B24 Calibration Export\n# Exported: t\n\n[Settings]\n");
}

#[test]
fn calibration_section_names_lowercase() {
    assert!(cal_sections_check());
}

#[test]
fn exported_calibration_imports_back() {
    let (c, cal) = sample();
    let text = export_calibration_text(
        "now",
        &c,
        &cal,
        &Some("1".to_string()),
        &None,
        &Some(pts(&[("0", "0"), ("1.5", "100")])),
        &Some(pts(&[("2", "200")])),
        &Vec::new(),
    );
    let back = parse_calibration_text(&text);
    let settings: Vec<(&str, &str)> = back.settings.iter().map(|(k, v)| (k.as_str(), v.as_str())).collect();
    assert_eq!(
        settings,
        vec![("sensitivity_range", "3"), ("data_gain", "1"), ("cal_units", "2"), ("lin_points", "2"), ("lin_repeat", "3")]
    );
    assert_eq!(back.points, pts(&[("0", "0"), ("1.5", "100"), ("2", "200")]));
    let cmds = import_calibration_plan(&back, &Vec::new(), 0);
    match &cmds[0] {
        BleCommand::WriteCharacteristic { uuid, data } => assert_eq!((*uuid, data.clone()), (char_sens_range(), vec![3])),
        other => panic!("unexpected {other:?}"),
    }
    match &cmds[1] {
        BleCommand::WriteCharacteristic { uuid, data } => assert_eq!((*uuid, data.clone()), (char_cal_units(), vec![2])),
        other => panic!("unexpected {other:?}"),
    }
}
