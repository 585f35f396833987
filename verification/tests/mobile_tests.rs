use b24_tool::mobile::{units_hex, MobileExport, TransmitterRow};
use b24_tool::types::DataUnits;

fn row(tag: &str, description: &str, unit_byte: Option<u8>) -> TransmitterRow {
    TransmitterRow { data_tag: tag.to_string(), description: description.to_string(), unit_byte }
}

fn export(rows: Vec<TransmitterRow>) -> MobileExport {
    MobileExport {
        project_name: String::new(),
        view_pin: "0000".to_string(),
        timeout_index: 2,
        decimal_places: 2,
        transmitters: rows,
        populated_from_device: false,
    }
}

#[test]
fn tiles_skip_blank_tags_and_keep_positions() {
    let me = export(vec![row(" ab12 ", "", Some(7)), row("   ", "skipped", None), row("c3d4", " Crane ", None)]);
    let tiles = me.tiles();
    assert_eq!(tiles.len(), 2);
    assert_eq!(tiles[0].tag, "AB12");
    assert_eq!(tiles[0].description, "TX AB12");
    assert_eq!(tiles[0].unit, DataUnits::from_byte(7));
    assert_eq!(tiles[0].position, 1);
    assert_eq!(tiles[1].tag, "C3D4");
    assert_eq!(tiles[1].description, "Crane");
    assert_eq!(tiles[1].unit, DataUnits::Undefined);
    assert_eq!(tiles[1].position, 3);
}

#[test]
fn project_settings_text() {
    let mut me = export(vec![]);
    assert_eq!(me.timeout_seconds(), 12);
    me.timeout_index = 6;
    assert_eq!(me.timeout_seconds(), 60);
    me.timeout_index = 7;
    assert_eq!(me.timeout_seconds(), 12);
    assert_eq!(me.format_text(), "0.00");
    me.decimal_places = 0;
    assert_eq!(me.format_text(), "0");
    me.decimal_places = 6;
    assert_eq!(me.format_text(), "0.000000");
    me.decimal_places = 9;
    assert_eq!(me.format_text(), "0.00");
    assert_eq!(me.display_name(), "B24 Project");
    assert_eq!(me.file_name(), "b24_project.json");
    me.project_name = "  Site A crane ".to_string();
    assert_eq!(me.display_name(), "Site A crane");
    assert_eq!(me.file_name(), "Site_A_crane.json");
    assert_eq!(units_hex(DataUnits::from_byte(0x2A)), "0x2A");
}

#[test]
fn defaults_come_from_the_device_once() {
    let mut me = export(vec![row("", "", None), row("x", "y", None)]);
    me.populate_from_device(false, &Some("1A2B".to_string()), &None, Some(3), &Some("4321".to_string()));
    assert!(!me.populated_from_device);
    me.populate_from_device(true, &Some("1A2B".to_string()), &None, Some(3), &Some("4321".to_string()));
    assert!(me.populated_from_device);
    assert_eq!(me.transmitters[0].data_tag, "1A2B");
    assert_eq!(me.transmitters[0].description, "Load Cell");
    assert_eq!(me.transmitters[0].unit_byte, Some(3));
    assert_eq!(me.transmitters[1].data_tag, "x");
    assert_eq!(me.view_pin, "4321");
    me.populate_from_device(true, &Some("FFFF".to_string()), &None, None, &Some("9999".to_string()));
    assert_eq!(me.transmitters[0].data_tag, "1A2B");
    assert_eq!(me.view_pin, "4321");

    let mut kept = export(vec![row("7777", "Mine", Some(1))]);
    kept.view_pin = "1111".to_string();
    kept.populate_from_device(true, &Some("1A2B".to_string()), &Some("B24-Model".to_string()), Some(3), &Some("4321".to_string()));
    assert_eq!(kept.transmitters[0].data_tag, "7777");
    assert_eq!(kept.transmitters[0].description, "Mine");
    assert_eq!(kept.transmitters[0].unit_byte, Some(1));
    assert_eq!(kept.view_pin, "1111");
}
