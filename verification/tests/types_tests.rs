use b24_tool::types::{
    AdvancedParam, DataUnits, DeviceAction, ParamType, Resolution, SensitivityRange, StatusByte,
};

#[test]
fn resolution_bytes_roundtrip() {
    for r in [Resolution::Bits8, Resolution::Bits16, Resolution::Bits32, Resolution::Bits48, Resolution::Bits64] {
        assert_eq!(Resolution::from_byte(r.to_byte()), Some(r));
    }
    assert_eq!(Resolution::Bits48.to_byte(), 48);
    assert_eq!(Resolution::from_byte(9), None);
    assert_eq!(Resolution::Bits8.label(), "8 (14.25 bits, max battery)");
}

#[test]
fn sensitivity_bytes_roundtrip() {
    assert_eq!(SensitivityRange::from_byte(2), Some(SensitivityRange::Range24mV));
    assert_eq!(SensitivityRange::Range48mV.to_byte(), 3);
    assert_eq!(SensitivityRange::from_byte(4), None);
    assert_eq!(SensitivityRange::Range6mV.label(), "0: \u{00B1}6 mV/V");
}

#[test]
fn status_byte_flags() {
    let s = StatusByte::from_byte(0x29);
    assert!(s.shunt_cal && s.over_range && s.battery_low);
    assert!(!s.integrity && !s.not_gross && !s.fast_mode && !s.digital_input);
    assert_eq!(s.to_byte(), 0x29);
    assert_eq!(StatusByte::from_byte(0xFF).to_byte(), 0x7F);
}

#[test]
fn status_description_texts() {
    assert_eq!(StatusByte::from_byte(0).description(), "OK");
    assert_eq!(StatusByte::from_byte(0x80).description(), "OK");
    assert_eq!(StatusByte::from_byte(0x04).description(), "Tare");
    assert_eq!(
        StatusByte::from_byte(0x7F).description(),
        "ShuntCal, Integrity, Tare, OverRange, Fast, BattLow, DigIn"
    );
}

#[test]
fn units_codes() {
    assert_eq!(DataUnits::from_byte(15), DataUnits::Metres);
    assert_eq!(DataUnits::from_byte(154), DataUnits::InchPound);
    assert_eq!(DataUnits::from_byte(8), DataUnits::Other(8));
    for b in 0..=255u8 {
        assert_eq!(DataUnits::from_byte(b).to_byte(), b);
    }
    assert_eq!(DataUnits::Undefined.to_byte(), 255);
}

#[test]
fn units_texts() {
    assert_eq!(DataUnits::Degrees.label(), "\u{00B0}");
    assert_eq!(DataUnits::Psi.label(), "psi");
    assert_eq!(DataUnits::Metres.dropdown_label(), "m (15)");
    assert_eq!(DataUnits::Other(9).dropdown_label(), "Unknown (9)");
    assert_eq!(DataUnits::MvPerV.app_name(), "millivolt per volt");
    assert_eq!(DataUnits::Leagues.app_name(), "league");
    assert_eq!(DataUnits::Knots.app_group(), "speed");
    assert_eq!(DataUnits::Other(3).app_group(), "undefined");
    assert_eq!(DataUnits::Other(3).app_name(), "unknown");
}

#[test]
fn advanced_params() {
    let all = AdvancedParam::all();
    assert_eq!(all.len(), 12);
    assert_eq!(all[0], AdvancedParam::PeakValue);
    assert_eq!(AdvancedParam::FastLevel.index(), 43);
    assert_eq!(AdvancedParam::DigitalOutputFunction.label(), "Digital Output Func");
    assert_eq!(AdvancedParam::FilterSteps.data_type(), ParamType::Uint32);
    assert_eq!(AdvancedParam::FastMode.data_type(), ParamType::Uint8);
    assert_eq!(AdvancedParam::DisplayMin.data_type(), ParamType::Float);
    assert!(AdvancedParam::PeakValue.description().starts_with("Highest recorded value"));
}

#[test]
fn device_actions() {
    assert_eq!(DeviceAction::Tare.command(), (194, vec![0]));
    assert_eq!(DeviceAction::CalculateCoefficients.command(), (38, vec![0]));
    assert_eq!(DeviceAction::RestoreEepromDefaults.label(), "Restore EEPROM Defaults");
}
