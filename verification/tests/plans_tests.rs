use b24_tool::ble::BleCommand;
use b24_tool::plans::{
    import_config_text, import_from_exportable, refresh_all_reads, refresh_calibration_reads,
    read_all_advanced, save_all_changes, write_adv_param, write_lin_register,
    ExportableConfig, FloatEdits, TextFloats,
};
use b24_tool::session::Register;
use b24_tool::state::EditBuffers;
use b24_tool::text::parse_config_text;
use b24_tool::types::AdvancedParam;
use b24_tool::uuids::{
    char_cal_units, char_config_pin, char_data_rate, char_data_tag, char_data_units,
    char_gap_device_name, char_lin_points, char_sens_range, char_system_zero, char_view_pin,
};

fn write_of(c: &BleCommand) -> (u128, Vec<u8>) {
    match c {
        BleCommand::WriteCharacteristic { uuid, data } => (*uuid, data.clone()),
        other => panic!("not a write: {other:?}"),
    }
}

#[test]
fn save_writes_edited_fields() {
    let mut e = EditBuffers::default();
    e.data_rate = "1000".to_string();
    e.resolution = "999".to_string();
    e.data_tag = " 00ff ".to_string();
    e.view_pin = "12".to_string();
    e.cal_units_display = "7".to_string();
    e.adv_data = "keep".to_string();
    let floats = FloatEdits {
        battery_threshold: None,
        system_zero: Some(1.5f32.to_bits()),
        data_gain: None,
        data_offset: None,
    };
    let cmds = save_all_changes(&mut e, floats);
    assert_eq!(cmds.len(), 5 + 4);
    assert_eq!(write_of(&cmds[0]), (char_data_rate(), vec![0, 0, 3, 0xE8]));
    assert_eq!(write_of(&cmds[1]), (char_data_tag(), vec![0x00, 0xFF]));
    assert_eq!(write_of(&cmds[2]), (char_view_pin(), vec![b'1', b'2', 0, 0, 0]));
    assert_eq!(write_of(&cmds[3]), (char_system_zero(), 1.5f32.to_be_bytes().to_vec()));
    assert_eq!(write_of(&cmds[4]), (char_cal_units(), vec![7]));
    assert!(matches!(&cmds[5], BleCommand::ReadAll(v) if v.len() == 11));
    assert!(matches!(&cmds[8], BleCommand::ReadCharacteristic(u) if *u == char_gap_device_name()));
    assert!(e.data_rate.is_empty() && e.resolution.is_empty() && e.view_pin.is_empty());
    assert_eq!(e.adv_data, "keep");
}

#[test]
fn save_writes_device_name_and_units() {
    let mut e = EditBuffers::default();
    e.local_name = "  Load Cell 7 ".to_string();
    e.data_units_display = "15".to_string();
    e.sensitivity_range = "2".to_string();
    let floats = FloatEdits {
        battery_threshold: None,
        system_zero: None,
        data_gain: None,
        data_offset: None,
    };
    let cmds = save_all_changes(&mut e, floats);
    assert_eq!(cmds.len(), 3 + 4);
    assert_eq!(write_of(&cmds[0]), (char_gap_device_name(), b"Load Cell 7".to_vec()));
    assert_eq!(write_of(&cmds[1]), (char_data_units(), vec![15]));
    assert_eq!(write_of(&cmds[2]), (char_sens_range(), vec![2]));
    assert!(e.local_name.is_empty() && e.data_units_display.is_empty());
}

#[test]
fn import_saved_config() {
    let cfg = ExportableConfig {
        data_rate: None,
        resolution: Some(16),
        battery_threshold: None,
        view_pin: Some("0000".to_string()),
        system_zero: None,
        config_pin: Some(42),
        cal_units: None,
        data_tag: Some("zz".to_string()),
        sensitivity_range: Some(1),
        data_gain: None,
        data_offset: None,
        cal_pin: None,
        local_name: Some("Cell".to_string()),
        data_units: Some(15),
    };
    let cmds = import_from_exportable(&cfg);
    assert_eq!(cmds.len(), 6 + 2);
    assert_eq!(write_of(&cmds[0]).1, vec![16]);
    assert_eq!(write_of(&cmds[1]), (char_view_pin(), vec![b'0', b'0', b'0', b'0', 0]));
    assert_eq!(write_of(&cmds[2]), (char_config_pin(), vec![0, 0, 0, 42]));
    assert_eq!(write_of(&cmds[3]), (char_sens_range(), vec![1]));
    assert_eq!(write_of(&cmds[4]), (char_gap_device_name(), b"Cell".to_vec()));
    assert_eq!(write_of(&cmds[5]), (char_data_units(), vec![15]));
    assert!(matches!(&cmds[7], BleCommand::ReadAll(v) if v.len() == 11));
}

#[test]
fn import_text_config() {
    let text = "[Configuration]\ndata_rate = 500\nview_pin = 9\nlocal_name = X\n[Advanced]\nFilter Steps = 4\nFast Mode = 300\nDisplay Min = 1.5\nPeak Value = 3\n";
    let kvs = parse_config_text(text);
    let floats = TextFloats {
        battery_threshold: None,
        system_zero: None,
        data_gain: None,
        data_offset: None,
        display_min: Some(1.5f32.to_bits()),
        display_max: None,
        filter_level: None,
        fast_level: None,
    };
    let cmds = import_config_text(&kvs, &floats);
    assert_eq!(write_of(&cmds[0]), (char_data_rate(), vec![0, 0, 1, 0xF4]));
    assert_eq!(write_of(&cmds[1]), (char_view_pin(), vec![b'9', 0, 0, 0, 0]));
    assert_eq!(write_of(&cmds[2]), (char_gap_device_name(), b"X".to_vec()));
    match &cmds[3] {
        BleCommand::WriteAdvanced { index, data } => {
            assert_eq!(*index, 26);
            assert_eq!(*data, 1.5f32.to_be_bytes().to_vec());
        }
        other => panic!("unexpected {other:?}"),
    }
    match &cmds[4] {
        BleCommand::WriteAdvanced { index, data } => {
            assert_eq!(*index, 29);
            assert_eq!(*data, vec![0, 0, 0, 4]);
        }
        other => panic!("unexpected {other:?}"),
    }
    assert_eq!(cmds.len(), 5 + 2 + 12);
    assert!(matches!(&cmds[5], BleCommand::ReadAll(_)));
    assert!(matches!(&cmds[7], BleCommand::ReadAdvanced { index: 5 }));
}

#[test]
fn advanced_param_writes() {
    match write_adv_param(AdvancedParam::FastDataRate, "100", None) {
        Some(BleCommand::WriteAdvanced { index, data }) => {
            assert_eq!(index, 41);
            assert_eq!(data, vec![0, 0, 0, 100]);
        }
        other => panic!("unexpected {other:?}"),
    }
    match write_adv_param(AdvancedParam::LinDirection, "1", None) {
        Some(BleCommand::WriteAdvanced { index, data }) => {
            assert_eq!(index, 35);
            assert_eq!(data, vec![1]);
        }
        other => panic!("unexpected {other:?}"),
    }
    assert!(write_adv_param(AdvancedParam::FastMode, "x", None).is_none());
    assert!(write_adv_param(AdvancedParam::FastLevel, "2.0", None).is_none());
    assert!(write_adv_param(AdvancedParam::FastLevel, "2.0", Some(2.0f32.to_bits())).is_some());
}

#[test]
fn refresh_buttons_read_registers() {
    let cmds = refresh_all_reads();
    assert_eq!(cmds.len(), 4);
    assert!(matches!(&cmds[0], BleCommand::ReadAll(v) if v.len() == 11 && v[0] == char_config_pin()));
    assert!(matches!(&cmds[1], BleCommand::ReadAll(v) if v.len() == 11 && v[0] == char_sens_range()));
    assert!(matches!(&cmds[2], BleCommand::ReadCharacteristic(u) if *u == char_data_units()));
    assert!(matches!(&cmds[3], BleCommand::ReadCharacteristic(u) if *u == char_gap_device_name()));
    let cmds = refresh_calibration_reads();
    assert_eq!(cmds.len(), 2);
    assert!(matches!(&cmds[0], BleCommand::ReadAll(v) if v.len() == 11 && v[0] == char_sens_range()));
    assert!(matches!(&cmds[1], BleCommand::ReadCharacteristic(u) if *u == char_lin_points()));
}

#[test]
fn read_all_advanced_reads_every_parameter() {
    let cmds = read_all_advanced();
    assert_eq!(cmds.len(), AdvancedParam::ALL.len());
    for (c, p) in cmds.iter().zip(AdvancedParam::ALL.iter()) {
        assert!(matches!(c, BleCommand::ReadAdvanced { index } if *index == p.index()));
    }
}

#[test]
fn lin_register_write_buttons() {
    assert_eq!(
        write_of(&write_lin_register(Register::LinPoints, "4").unwrap()),
        (char_lin_points(), vec![4])
    );
    assert_eq!(write_of(&write_lin_register(Register::LinIndex, "255").unwrap()).1, vec![255]);
    assert!(write_lin_register(Register::LinRepeat, "256").is_none());
    assert!(write_lin_register(Register::LinRepeat, "").is_none());
}
