//! The configuration export file: a text of "key = value" lines in
//! sections, which importing the file reads back.

use vstd::prelude::*;
use vstd::string::{StrSliceExecFns, StringExecFns};

use crate::registers::{opt_view, CalibrationRegisters, CalibrationView, ConfigRegisters, ConfigView};
use crate::state::{adv_u32, adv_u8, AdvancedRegisters};
use crate::text::{decimal, key_value_line, texts, write_opt_str, write_opt_u32, write_opt_u8};
use crate::types::{all_advanced_params, param_index, param_label, param_type, AdvancedParam, ParamType};

verus! {

/// The texts of the float values to export, formatted by the caller: the
/// float registers and the float advanced parameters (none when not read).
pub struct FloatTexts {
    pub battery_threshold: Option<String>,
    pub system_zero: Option<String>,
    pub data_gain: Option<String>,
    pub data_offset: Option<String>,
    pub display_min: Option<String>,
    pub display_max: Option<String>,
    pub filter_level: Option<String>,
    pub fast_level: Option<String>,
}

/// `lines` with the line "key = value" added when there is a value.
pub open spec fn opt_line(lines: Seq<Seq<char>>, key: Seq<char>, v: Option<Seq<char>>) -> Seq<Seq<char>> {
    match v {
        Some(t) => lines.push(key_value_line(key, t)),
        None => lines,
    }
}

/// The decimal text of an optional u32.
pub open spec fn dec32(v: Option<u32>) -> Option<Seq<char>> {
    match v {
        Some(x) => Some(decimal(x as nat)),
        None => None,
    }
}

/// The decimal text of an optional u8.
pub open spec fn dec8(v: Option<u8>) -> Option<Seq<char>> {
    match v {
        Some(x) => Some(decimal(x as nat)),
        None => None,
    }
}

/// The comment lines that open an export: a title, the time of the export,
/// the model, serial number and firmware version when known, then a blank line.
pub open spec fn header_lines(
    at: Seq<char>,
    model: Option<Seq<char>>,
    serial: Option<u32>,
    firmware: Option<Seq<char>>,
) -> Seq<Seq<char>> {
    let h0 = seq!["# B24 Configuration Export"@, "# Exported: "@ + at];
    let h1 = match model {
        Some(m) => h0.push("# Model: "@ + m),
        None => h0,
    };
    let h2 = match serial {
        Some(n) => h1.push("# Serial: "@ + decimal(n as nat)),
        None => h1,
    };
    let h3 = match firmware {
        Some(t) => h2.push("# Firmware: "@ + t),
        None => h2,
    };
    h3.push(Seq::empty())
}

/// `lines` with the configuration section added.
pub open spec fn config_lines(lines: Seq<Seq<char>>, c: ConfigView, f: FloatTexts) -> Seq<Seq<char>> {
    let l0 = lines.push("[Configuration]"@);
    let l1 = opt_line(l0, "data_rate"@, dec32(c.data_rate));
    let l2 = opt_line(l1, "resolution"@, dec8(c.resolution));
    let l3 = opt_line(l2, "battery_threshold"@, opt_view(f.battery_threshold));
    let l4 = opt_line(l3, "view_pin"@, c.view_pin);
    let l5 = opt_line(l4, "system_zero"@, opt_view(f.system_zero));
    let l6 = opt_line(l5, "config_pin"@, dec32(c.config_pin));
    let l7 = opt_line(l6, "data_tag"@, c.data_tag);
    let l8 = opt_line(l7, "local_name"@, c.local_name);
    let l9 = opt_line(l8, "data_units"@, dec8(c.data_units));
    l9.push(Seq::empty())
}

/// `lines` with the calibration section added.
pub open spec fn calibration_lines(lines: Seq<Seq<char>>, cal: CalibrationView, f: FloatTexts) -> Seq<Seq<char>> {
    let l0 = lines.push("[Calibration]"@);
    let l1 = opt_line(l0, "sensitivity_range"@, dec8(cal.sensitivity_range));
    let l2 = opt_line(l1, "data_gain"@, opt_view(f.data_gain));
    let l3 = opt_line(l2, "data_offset"@, opt_view(f.data_offset));
    let l4 = opt_line(l3, "cal_pin"@, dec32(cal.cal_pin));
    let l5 = opt_line(l4, "cal_units"@, dec8(cal.cal_units));
    l5.push(Seq::empty())
}

/// Whether an advanced parameter is read-only (never exported or imported).
pub open spec fn is_read_only(p: AdvancedParam) -> bool {
    p == AdvancedParam::PeakValue || p == AdvancedParam::TroughValue
}

/// The text given for a float advanced parameter.
pub open spec fn adv_float_text(f: FloatTexts, p: AdvancedParam) -> Option<Seq<char>> {
    match p {
        AdvancedParam::DisplayMin => opt_view(f.display_min),
        AdvancedParam::DisplayMax => opt_view(f.display_max),
        AdvancedParam::FilterLevel => opt_view(f.filter_level),
        AdvancedParam::FastLevel => opt_view(f.fast_level),
        _ => None,
    }
}

/// The exported text of an advanced parameter's value, if it was read.
pub open spec fn adv_value_text(values: Map<u8, Vec<u8>>, f: FloatTexts, p: AdvancedParam) -> Option<Seq<char>> {
    match param_type(p) {
        ParamType::Float => adv_float_text(f, p),
        ParamType::Uint32 => dec32(adv_u32(values, param_index(p))),
        ParamType::Uint8 => dec8(adv_u8(values, param_index(p))),
    }
}

/// `lines` with the advanced section header and the lines of the first `n`
/// advanced parameters (by label) added.
pub open spec fn advanced_lines(lines: Seq<Seq<char>>, values: Map<u8, Vec<u8>>, f: FloatTexts, n: int) -> Seq<Seq<char>>
    decreases n,
{
    if n <= 0 {
        lines.push("[Advanced]"@)
    } else {
        let l = advanced_lines(lines, values, f, n - 1);
        let p = all_advanced_params()[n - 1];
        if is_read_only(p) {
            l
        } else {
            opt_line(l, param_label(p), adv_value_text(values, f, p))
        }
    }
}

/// The lines of a configuration export.
pub open spec fn export_lines(
    at: Seq<char>,
    firmware: Option<Seq<char>>,
    c: ConfigView,
    cal: CalibrationView,
    values: Map<u8, Vec<u8>>,
    f: FloatTexts,
) -> Seq<Seq<char>> {
    let h = header_lines(at, c.model_name, c.serial_number, firmware);
    advanced_lines(calibration_lines(config_lines(h, c, f), cal, f), values, f, 12).push(Seq::empty())
}

/// Lines joined with '\n' between them.
pub open spec fn join_lines(lines: Seq<Seq<char>>) -> Seq<char>
    decreases lines.len(),
{
    if lines.len() == 0 {
        Seq::empty()
    } else if lines.len() == 1 {
        lines[0]
    } else {
        join_lines(lines.drop_last()) + seq!['\n'] + lines.last()
    }
}

fn push_text(lines: &mut Vec<String>, text: &str)
    ensures
        texts(final(lines)@) == texts(old(lines)@).push(text@),
{
    lines.push(String::from_str(text));
    assert(texts(final(lines)@) =~= texts(old(lines)@).push(text@));
}

fn push_blank(lines: &mut Vec<String>)
    ensures
        texts(final(lines)@) == texts(old(lines)@).push(Seq::empty()),
{
    lines.push(String::new());
    assert(texts(final(lines)@) =~= texts(old(lines)@).push(Seq::empty()));
}

fn push_prefixed(lines: &mut Vec<String>, prefix: &str, text: &str)
    ensures
        texts(final(lines)@) == texts(old(lines)@).push(prefix@ + text@),
{
    let mut line = String::from_str(prefix);
    line.append(text);
    lines.push(line);
    assert(texts(final(lines)@) =~= texts(old(lines)@).push(prefix@ + text@));
}

fn opt_str(v: &Option<String>) -> (r: Option<&str>)
    ensures
        match r {
            Some(s) => opt_view(*v) == Some(s@),
            None => opt_view(*v) is None,
        },
{
    match v {
        Some(s) => Some(s.as_str()),
        None => None,
    }
}

fn adv_float_str(f: &FloatTexts, p: AdvancedParam) -> (r: Option<&str>)
    ensures
        match r {
            Some(s) => adv_float_text(*f, p) == Some(s@),
            None => adv_float_text(*f, p) is None,
        },
{
    match p {
        AdvancedParam::DisplayMin => opt_str(&f.display_min),
        AdvancedParam::DisplayMax => opt_str(&f.display_max),
        AdvancedParam::FilterLevel => opt_str(&f.filter_level),
        AdvancedParam::FastLevel => opt_str(&f.fast_level),
        _ => None,
    }
}

/// Lines joined with '\n' between them (`join("\n")`).
pub fn join_lines_text(lines: &Vec<String>) -> (r: String)
    ensures
        r@ == join_lines(texts(lines@)),
{
    let ghost t = texts(lines@);
    let mut r = String::new();
    let mut i: usize = 0;
    assert(t.take(0) =~= Seq::<Seq<char>>::empty());
    while i < lines.len()
        invariant
            t == texts(lines@),
            i <= lines@.len(),
            r@ == join_lines(t.take(i as int)),
        decreases lines@.len() - i,
    {
        proof {
            reveal_strlit("\n");
        }
        assert(t.take(i + 1).drop_last() =~= t.take(i as int));
        assert(t.take(i + 1).last() == lines@[i as int]@);
        if i > 0 {
            r.append("\n");
        }
        r.append(lines[i].as_str());
        if i == 0 {
            assert(t.take(1) =~= seq![lines@[0]@]);
            assert(r@ =~= join_lines(t.take(1)));
        } else {
            assert(r@ =~= join_lines(t.take(i as int)) + seq!['\n'] + lines@[i as int]@);
        }
        i = i + 1;
    }
    assert(t.take(lines@.len() as int) =~= t);
    r
}

/// The text of a configuration export: comment lines with the time of the
/// export (`exported_at`), the model, the serial number and the firmware
/// version (its text given by the caller); the "[Configuration]",
/// "[Calibration]" and "[Advanced]" sections with a "key = value" line for
/// every value read (advanced parameters by label, the read-only ones left
/// out), float values as the caller formatted them; lines joined with '\n'.
pub fn export_config_text(
    exported_at: &str,
    firmware: &Option<String>,
    config: &ConfigRegisters,
    cal: &CalibrationRegisters,
    adv: &AdvancedRegisters,
    floats: &FloatTexts,
) -> (text: String)
    ensures
        text@ == join_lines(export_lines(exported_at@, opt_view(*firmware), config@, cal@, adv.values@, *floats)),
{
    let ghost c = config@;
    let ghost f = *floats;
    let mut lines: Vec<String> = Vec::new();
    push_text(&mut lines, "# B24 Configuration Export");
    push_prefixed(&mut lines, "# Exported: ", exported_at);
    let ghost h0 = texts(lines@);
    assert(h0 =~= seq!["# B24 Configuration Export"@, "# Exported: "@ + exported_at@]);
    if let Some(m) = &config.model_name {
        push_prefixed(&mut lines, "# Model: ", m.as_str());
    }
    let ghost h1 = texts(lines@);
    assert(h1 == (match c.model_name {
        Some(m) => h0.push("# Model: "@ + m),
        None => h0,
    }));
    if let Some(sn) = config.serial_number {
        let t = crate::text::format_decimal(sn);
        push_prefixed(&mut lines, "# Serial: ", t.as_str());
    }
    let ghost hs = texts(lines@);
    assert(hs == (match c.serial_number {
        Some(n) => h1.push("# Serial: "@ + decimal(n as nat)),
        None => h1,
    }));
    if let Some(fw) = firmware {
        push_prefixed(&mut lines, "# Firmware: ", fw.as_str());
    }
    push_blank(&mut lines);
    let ghost h = texts(lines@);
    assert(h == header_lines(exported_at@, c.model_name, c.serial_number, opt_view(*firmware)));
    push_text(&mut lines, "[Configuration]");
    let ghost l0 = texts(lines@);
    write_opt_u32(&mut lines, "data_rate", config.data_rate);
    let ghost l1 = texts(lines@);
    assert(l1 == opt_line(l0, "data_rate"@, dec32(c.data_rate)));
    write_opt_u8(&mut lines, "resolution", config.resolution);
    let ghost l2 = texts(lines@);
    assert(l2 == opt_line(l1, "resolution"@, dec8(c.resolution)));
    write_opt_str(&mut lines, "battery_threshold", opt_str(&floats.battery_threshold));
    let ghost l3 = texts(lines@);
    assert(l3 == opt_line(l2, "battery_threshold"@, opt_view(f.battery_threshold)));
    write_opt_str(&mut lines, "view_pin", opt_str(&config.view_pin));
    let ghost l4 = texts(lines@);
    assert(l4 == opt_line(l3, "view_pin"@, c.view_pin));
    write_opt_str(&mut lines, "system_zero", opt_str(&floats.system_zero));
    let ghost l5 = texts(lines@);
    assert(l5 == opt_line(l4, "system_zero"@, opt_view(f.system_zero)));
    write_opt_u32(&mut lines, "config_pin", config.config_pin);
    let ghost l6 = texts(lines@);
    assert(l6 == opt_line(l5, "config_pin"@, dec32(c.config_pin)));
    write_opt_str(&mut lines, "data_tag", opt_str(&config.data_tag));
    let ghost l7 = texts(lines@);
    assert(l7 == opt_line(l6, "data_tag"@, c.data_tag));
    write_opt_str(&mut lines, "local_name", opt_str(&config.local_name));
    let ghost l8 = texts(lines@);
    assert(l8 == opt_line(l7, "local_name"@, c.local_name));
    write_opt_u8(&mut lines, "data_units", config.data_units);
    let ghost l9 = texts(lines@);
    assert(l9 == opt_line(l8, "data_units"@, dec8(c.data_units)));
    push_blank(&mut lines);
    let ghost h2 = texts(lines@);
    assert(h2 == config_lines(h, c, f));
    push_text(&mut lines, "[Calibration]");
    let ghost k0 = texts(lines@);
    write_opt_u8(&mut lines, "sensitivity_range", cal.sensitivity_range);
    let ghost k1 = texts(lines@);
    assert(k1 == opt_line(k0, "sensitivity_range"@, dec8(cal@.sensitivity_range)));
    write_opt_str(&mut lines, "data_gain", opt_str(&floats.data_gain));
    let ghost k2 = texts(lines@);
    assert(k2 == opt_line(k1, "data_gain"@, opt_view(f.data_gain)));
    write_opt_str(&mut lines, "data_offset", opt_str(&floats.data_offset));
    let ghost k3 = texts(lines@);
    assert(k3 == opt_line(k2, "data_offset"@, opt_view(f.data_offset)));
    write_opt_u32(&mut lines, "cal_pin", cal.cal_pin);
    let ghost k4 = texts(lines@);
    assert(k4 == opt_line(k3, "cal_pin"@, dec32(cal@.cal_pin)));
    write_opt_u8(&mut lines, "cal_units", cal.cal_units);
    let ghost k5 = texts(lines@);
    assert(k5 == opt_line(k4, "cal_units"@, dec8(cal@.cal_units)));
    push_blank(&mut lines);
    let ghost h3 = texts(lines@);
    assert(h3 == calibration_lines(h2, cal@, f));
    push_text(&mut lines, "[Advanced]");
    let params = AdvancedParam::all();
    let mut i: usize = 0;
    while i < params.len()
        invariant
            params@ == all_advanced_params(),
            i <= params@.len(),
            texts(lines@) == advanced_lines(h3, adv.values@, f, i as int),
            f == *floats,
        decreases params@.len() - i,
    {
        let p = params[i];
        if !(p == AdvancedParam::PeakValue || p == AdvancedParam::TroughValue) {
            let index = p.index();
            match p.data_type() {
                ParamType::Float => write_opt_str(&mut lines, p.label(), adv_float_str(floats, p)),
                ParamType::Uint32 => write_opt_u32(&mut lines, p.label(), adv.get_u32(index)),
                ParamType::Uint8 => write_opt_u8(&mut lines, p.label(), adv.get_u8(index)),
            }
        }
        i = i + 1;
    }
    push_blank(&mut lines);
    join_lines_text(&lines)
}

} // verus!
