use b24_tool::ble::BleCommand;
use b24_tool::calibration::{
    build_linearisation_table, import_calibration_plan, linearisation_write_plan,
    parse_calibration_text, LinearisationRow, LinearisationSegment,
};
use b24_tool::codec::decode_u32_be;
use b24_tool::session::LinearisationReader;
use b24_tool::types::DeviceAction;
use b24_tool::uuids::{
    char_cal_units, char_coeff_at_idx, char_data_gain, char_data_offset, char_lin_index,
    char_lin_points, char_lin_repeat, char_sens_range,
};

fn write_of(c: &BleCommand) -> (u128, Vec<u8>) {
    match c {
        BleCommand::WriteCharacteristic { uuid, data } => (*uuid, data.clone()),
        other => panic!("not a write: {other:?}"),
    }
}

fn two_segments() -> Vec<LinearisationSegment> {
    vec![
        LinearisationSegment { valid_from: 0.0f32.to_bits(), gain: 2.0f32.to_bits(), offset: 0.0f32.to_bits() },
        LinearisationSegment { valid_from: 1.0f32.to_bits(), gain: 3.0f32.to_bits(), offset: (-1.0f32).to_bits() },
    ]
}

#[test]
fn write_plan_for_two_segments() {
    let segs = two_segments();
    let cmds = linearisation_write_plan(&segs, 2.0f32.to_bits());
    assert_eq!(cmds.len(), 6 * 2 + 7);
    assert_eq!(write_of(&cmds[0]), (char_lin_repeat(), vec![3]));
    assert_eq!(write_of(&cmds[1]), (char_lin_index(), vec![0]));
    assert_eq!(write_of(&cmds[2]), (char_coeff_at_idx(), 0.0f32.to_bits().to_be_bytes().to_vec()));
    assert_eq!(write_of(&cmds[3]), (char_lin_index(), vec![1]));
    assert_eq!(write_of(&cmds[4]), (char_coeff_at_idx(), vec![0x40, 0x00, 0x00, 0x00]));
    assert_eq!(write_of(&cmds[11]), (char_lin_index(), vec![5]));
    assert_eq!(write_of(&cmds[12]), (char_coeff_at_idx(), vec![0xBF, 0x80, 0x00, 0x00]));
    assert_eq!(write_of(&cmds[13]), (char_lin_index(), vec![6]));
    assert_eq!(write_of(&cmds[14]), (char_coeff_at_idx(), vec![0x40, 0x00, 0x00, 0x00]));
    assert_eq!(write_of(&cmds[15]), (char_lin_points(), vec![2]));
    assert_eq!(write_of(&cmds[16]), (char_data_gain(), vec![0x3F, 0x80, 0x00, 0x00]));
    assert_eq!(write_of(&cmds[17]), (char_data_offset(), vec![0, 0, 0, 0]));
    assert!(matches!(cmds[18], BleCommand::ExecuteAction(DeviceAction::CalculateCoefficients)));
}

#[test]
fn write_plan_without_segments() {
    let cmds = linearisation_write_plan(&Vec::new(), 7);
    assert_eq!(cmds.len(), 7);
    assert_eq!(write_of(&cmds[1]), (char_lin_index(), vec![0]));
    assert_eq!(write_of(&cmds[2]), (char_coeff_at_idx(), vec![0, 0, 0, 7]));
    assert_eq!(write_of(&cmds[3]), (char_lin_points(), vec![0]));
}

#[test]
fn uploaded_table_reads_back() {
    // Run the upload against a model of the device's indexed coefficient
    // register, then read the table back as the application does.
    let segs = two_segments();
    let last = 2.5f32.to_bits();
    let cmds = linearisation_write_plan(&segs, last);
    let mut coeffs = [0u32; 256];
    let mut index = 0usize;
    for c in &cmds {
        if let BleCommand::WriteCharacteristic { uuid, data } = c {
            if *uuid == char_lin_index() {
                index = data[0] as usize;
            } else if *uuid == char_coeff_at_idx() {
                coeffs[index] = decode_u32_be(data).unwrap();
            }
        }
    }
    let buf: Vec<u32> = coeffs[..7].to_vec();
    let table = build_linearisation_table(&buf, 2);
    assert_eq!(
        table,
        vec![
            LinearisationRow { index: 1, valid_from: segs[0].valid_from, gain: segs[0].gain, offset: segs[0].offset, valid_to: segs[1].valid_from },
            LinearisationRow { index: 2, valid_from: segs[1].valid_from, gain: segs[1].gain, offset: segs[1].offset, valid_to: last },
        ]
    );
    // The reader requests the coefficients at the indices the upload used.
    let mut reader = LinearisationReader::new();
    let first = reader.on_lin_points(2);
    assert!(matches!(first[0], BleCommand::WriteCharacteristic { .. }));
    assert_eq!(write_of(&first[0]), (char_lin_index(), vec![0]));
}

const SAMPLE: &str = "# B24 Calibration Export\n\
# Model: B24\n\
\n\
[Settings]\n\
sensitivity_range = 2\n\
data_gain = 1\n\
cal_units = 7 # kg\n\
lin_points = 2\n\
\n\
[Calibration Points]\n\
# mV/V, Engineering Value\n\
0.5, 100\n\
  0.1 ,  20  \r\n\
no comma here\n\
\n\
[Linearisation Table]\n\
1, 0, 1, 0, 2\n\
[TABLE POINTS]\n\
2,  300\n";

#[test]
fn calibration_file_is_read_by_section() {
    let cal = parse_calibration_text(SAMPLE);
    let settings: Vec<(&str, &str)> = cal.settings.iter().map(|(k, v)| (k.as_str(), v.as_str())).collect();
    assert_eq!(
        settings,
        vec![("sensitivity_range", "2"), ("data_gain", "1"), ("cal_units", "7"), ("lin_points", "2")]
    );
    let points: Vec<(&str, &str)> = cal.points.iter().map(|(k, v)| (k.as_str(), v.as_str())).collect();
    assert_eq!(points, vec![("0.5", "100"), ("0.1", "20"), ("2", "300")]);
}

#[test]
fn calibration_file_outside_sections_is_ignored() {
    let cal = parse_calibration_text("a = 1\n1, 2\n[Other]\nb = 2\n3, 4\n");
    assert!(cal.settings.is_empty());
    assert!(cal.points.is_empty());
    let cal = parse_calibration_text("");
    assert!(cal.settings.is_empty() && cal.points.is_empty());
}

#[test]
fn later_setting_wins_in_import() {
    let cal = parse_calibration_text("[settings]\ncal_units = 3\ncal_units = 9\nsensitivity_range = x\n");
    let cmds = import_calibration_plan(&cal, &Vec::new(), 0);
    assert_eq!(cmds.len(), 2);
    assert_eq!(write_of(&cmds[0]), (char_cal_units(), vec![9]));
    assert!(matches!(cmds[1], BleCommand::ReadAll(_)));
}

#[test]
fn import_with_table() {
    let cal = parse_calibration_text(SAMPLE);
    let segs = two_segments();
    let cmds = import_calibration_plan(&cal, &segs, 2.0f32.to_bits());
    assert_eq!(cmds.len(), 2 + 18 + 1 + 1);
    assert_eq!(write_of(&cmds[0]), (char_sens_range(), vec![2]));
    assert_eq!(write_of(&cmds[1]), (char_cal_units(), vec![7]));
    assert_eq!(write_of(&cmds[2]), (char_lin_repeat(), vec![3]));
    assert!(matches!(cmds[20], BleCommand::ExecuteAction(DeviceAction::CalculateCoefficients)));
    match &cmds[21] {
        BleCommand::ReadAll(v) => assert_eq!(v.len(), 11),
        other => panic!("unexpected {other:?}"),
    }
}
