use b24_tool::text::{
    config_value, fix_exponent_format, format_decimal, format_hex4, is_whitespace_char,
    parse_config_line, parse_config_text, parse_data_tag, parse_hex_u16, parse_u32, parse_u8,
    trim, write_opt_str, write_opt_u32, write_opt_u8,
};

#[test]
fn decimal_texts() {
    assert_eq!(format_decimal(0), "0");
    assert_eq!(format_decimal(1000), "1000");
    assert_eq!(format_decimal(u32::MAX), "4294967295");
}

#[test]
fn hex_tag_texts() {
    assert_eq!(format_hex4(0x0ABC), "0ABC");
    assert_eq!(format_hex4(0), "0000");
    assert_eq!(parse_hex_u16(&format_hex4(0xBEEF)), Some(0xBEEF));
}

#[test]
fn unsigned_parsing_follows_from_str() {
    for s in ["0", "12", "+12", "", "+", "-1", "1 2", "4294967295", "4294967296", "007"] {
        assert_eq!(parse_u32(s), s.parse::<u32>().ok(), "input {s:?}");
    }
    for s in ["255", "256", "+0", "a"] {
        assert_eq!(parse_u8(s), s.parse::<u8>().ok(), "input {s:?}");
    }
    for s in ["ffff", "FfFf", "10000", "+a", "g", ""] {
        assert_eq!(parse_hex_u16(s), u16::from_str_radix(s, 16).ok(), "input {s:?}");
    }
}

#[test]
fn decimal_roundtrip_examples() {
    for v in [0u32, 9, 10, 99, 12345, u32::MAX] {
        assert_eq!(parse_u32(&format_decimal(v)), Some(v));
    }
}

#[test]
fn trimming_matches_std() {
    for s in ["  a b  ", "\t\nx\r\n", "", "   ", "\u{3000}y\u{2009}", "z"] {
        assert_eq!(trim(s), s.trim());
    }
    assert!(is_whitespace_char('\u{85}'));
    assert!(!is_whitespace_char('\u{200B}'));
}

#[test]
fn data_tag_parsing() {
    assert_eq!(parse_data_tag("  1a2B "), Some(0x1A2B));
    assert_eq!(parse_data_tag("xyz"), None);
}

#[test]
fn optional_lines() {
    let mut lines: Vec<String> = Vec::new();
    write_opt_u32(&mut lines, "data_rate", Some(1000));
    write_opt_u8(&mut lines, "resolution", None);
    write_opt_u8(&mut lines, "cal_units", Some(7));
    write_opt_str(&mut lines, "view_pin", Some("0000"));
    write_opt_str(&mut lines, "data_tag", None);
    assert_eq!(lines, vec!["data_rate = 1000", "cal_units = 7", "view_pin = 0000"]);
}

#[test]
fn exponent_fix() {
    let json = "{\"a\":1.7976931348623157e308,\"b\":\"e308e308\"}".to_string();
    assert_eq!(
        fix_exponent_format(json),
        "{\"a\":1.7976931348623157e+308,\"b\":\"e+308e+308\"}"
    );
    assert_eq!(fix_exponent_format("e30".to_string()), "e30");
}

#[test]
fn config_lines() {
    assert_eq!(
        parse_config_line("  Display Min = 2.5 "),
        Some(("display_min".to_string(), "2.5".to_string()))
    );
    assert_eq!(parse_config_line("# comment = 1"), None);
    assert_eq!(parse_config_line("[Configuration]"), None);
    assert_eq!(parse_config_line("no equals"), None);
    assert_eq!(parse_config_line("k = a = b"), Some(("k".to_string(), "a = b".to_string())));
}

#[test]
fn config_text_pairs() {
    let text = "# B24 Configuration Export\n\n[Configuration]\ndata_rate = 1000\r\nview_pin = 1234\n[Calibration]\ndata_rate = 2000";
    let pairs = parse_config_text(text);
    assert_eq!(
        pairs,
        vec![
            ("data_rate".to_string(), "1000".to_string()),
            ("view_pin".to_string(), "1234".to_string()),
            ("data_rate".to_string(), "2000".to_string()),
        ]
    );
    assert_eq!(config_value(&pairs, "data_rate"), Some("2000".to_string()));
    assert_eq!(config_value(&pairs, "cal_pin"), None);
}
