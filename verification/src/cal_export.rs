//! The calibration export file: the calibration settings, the calibration
//! points and the linearisation table as text, which the calibration import
//! reads back.

use vstd::prelude::*;
use vstd::string::{StrSliceExecFns, StringExecFns};

use crate::export::{dec8, opt_line};
use crate::registers::{opt_view, CalibrationRegisters, CalibrationView, ConfigRegisters};
use crate::text::{decimal, format_decimal, key_value_line, texts, write_opt_str, write_opt_u8};
use crate::types::{units_from_byte, units_label, DataUnits};

verus! {

/// The line "mV/V, value" of a calibration point.
pub open spec fn point_line(p: (Seq<char>, Seq<char>)) -> Seq<char> {
    p.0 + ", "@ + p.1
}

/// `lines` with a line for each point added.
pub open spec fn point_lines(lines: Seq<Seq<char>>, pts: Seq<(Seq<char>, Seq<char>)>) -> Seq<Seq<char>>
    decreases pts.len(),
{
    if pts.len() == 0 {
        lines
    } else {
        point_lines(lines, pts.drop_last()).push(point_line(pts.last()))
    }
}

/// The line "index, valid from, gain, offset, valid to" of a table row.
pub open spec fn row_line(r: (u8, Seq<char>, Seq<char>, Seq<char>, Seq<char>)) -> Seq<char> {
    decimal(r.0 as nat) + ", "@ + r.1 + ", "@ + r.2 + ", "@ + r.3 + ", "@ + r.4
}

/// `lines` with a line for each table row added.
pub open spec fn row_lines(lines: Seq<Seq<char>>, rows: Seq<(u8, Seq<char>, Seq<char>, Seq<char>, Seq<char>)>) -> Seq<Seq<char>>
    decreases rows.len(),
{
    if rows.len() == 0 {
        lines
    } else {
        row_lines(lines, rows.drop_last()).push(row_line(rows.last()))
    }
}

/// `lines` with a section of points added, when there is one: its header,
/// the column comment, the points and a blank line.
pub open spec fn points_section(lines: Seq<Seq<char>>, name: Seq<char>, pts: Option<Seq<(Seq<char>, Seq<char>)>>) -> Seq<Seq<char>> {
    match pts {
        Some(p) => point_lines(lines.push(name).push("# mV/V, Engineering Value"@), p).push(Seq::empty()),
        None => lines,
    }
}

/// The "cal_units" line: the units byte and, after '#', its symbol.
pub open spec fn cal_units_line(u: u8) -> Seq<char> {
    key_value_line("cal_units"@, decimal(u as nat) + " # "@ + units_label(units_from_byte(u)))
}

/// The comment lines that open a calibration export: a title, the time of
/// the export, and the model and serial number when known.
pub open spec fn cal_header_lines(at: Seq<char>, model: Option<Seq<char>>, serial: Option<u32>) -> Seq<Seq<char>> {
    let h0 = seq!["# B24 Calibration Export"@, "# Exported: "@ + at];
    let h1 = match model {
        Some(m) => h0.push("# Model: "@ + m),
        None => h0,
    };
    match serial {
        Some(n) => h1.push("# Serial: "@ + decimal(n as nat)),
        None => h1,
    }
}

/// `lines` with the settings section (without its closing blank line) added.
pub open spec fn cal_settings_lines(
    lines: Seq<Seq<char>>,
    cal: CalibrationView,
    gain: Option<Seq<char>>,
    offset: Option<Seq<char>>,
) -> Seq<Seq<char>> {
    let s0 = lines.push("[Settings]"@);
    let s1 = opt_line(s0, "sensitivity_range"@, dec8(cal.sensitivity_range));
    let s2 = opt_line(s1, "data_gain"@, gain);
    let s3 = opt_line(s2, "data_offset"@, offset);
    let s4 = match cal.cal_units {
        Some(u) => s3.push(cal_units_line(u)),
        None => s3,
    };
    let s5 = opt_line(s4, "lin_points"@, dec8(cal.lin_points));
    opt_line(s5, "lin_repeat"@, dec8(cal.lin_repeat))
}

/// The lines of a calibration export.
pub open spec fn cal_export_lines(
    at: Seq<char>,
    model: Option<Seq<char>>,
    serial: Option<u32>,
    cal: CalibrationView,
    gain: Option<Seq<char>>,
    offset: Option<Seq<char>>,
    auto_points: Option<Seq<(Seq<char>, Seq<char>)>>,
    table_points: Option<Seq<(Seq<char>, Seq<char>)>>,
    rows: Seq<(u8, Seq<char>, Seq<char>, Seq<char>, Seq<char>)>,
) -> Seq<Seq<char>> {
    let s = cal_settings_lines(cal_header_lines(at, model, serial).push(Seq::empty()), cal, gain, offset);
    let a = points_section(s.push(Seq::empty()), "[Calibration Points]"@, auto_points);
    let t = points_section(a, "[Table Points]"@, table_points);
    if rows.len() > 0 {
        row_lines(t.push("[Linearisation Table]"@).push("# Index, Valid From, Gain, Offset, Valid To"@), rows).push(Seq::empty())
    } else {
        t
    }
}

/// The views of a list of text pairs.
pub open spec fn pair_views(v: Seq<(String, String)>) -> Seq<(Seq<char>, Seq<char>)> {
    v.map_values(|p: (String, String)| (p.0@, p.1@))
}

/// The view of an optional list of text pairs.
pub open spec fn opt_pairs_view(v: Option<Vec<(String, String)>>) -> Option<Seq<(Seq<char>, Seq<char>)>> {
    match v {
        Some(p) => Some(pair_views(p@)),
        None => None,
    }
}

/// The views of the table rows.
pub open spec fn row_views(v: Seq<(u8, String, String, String, String)>) -> Seq<(u8, Seq<char>, Seq<char>, Seq<char>, Seq<char>)> {
    v.map_values(|r: (u8, String, String, String, String)| (r.0, r.1@, r.2@, r.3@, r.4@))
}

fn push_owned(lines: &mut Vec<String>, line: String)
    ensures
        texts(final(lines)@) == texts(old(lines)@).push(line@),
{
    let ghost v = line@;
    lines.push(line);
    assert(texts(final(lines)@) =~= texts(old(lines)@).push(v));
}

fn concat(a: &str, b: &str) -> (r: String)
    ensures
        r@ == a@ + b@,
{
    let mut r = String::from_str(a);
    r.append(b);
    r
}

fn push_points(lines: &mut Vec<String>, name: &str, pts: &Option<Vec<(String, String)>>)
    ensures
        texts(final(lines)@) == points_section(texts(old(lines)@), name@, opt_pairs_view(*pts)),
{
    if let Some(p) = pts {
        push_owned(lines, String::from_str(name));
        push_owned(lines, String::from_str("# mV/V, Engineering Value"));
        let ghost base = texts(lines@);
        let ghost pv = pair_views(p@);
        let mut i: usize = 0;
        assert(pv.take(0) =~= Seq::<(Seq<char>, Seq<char>)>::empty());
        while i < p.len()
            invariant
                pv == pair_views(p@),
                i <= p@.len(),
                texts(lines@) == point_lines(base, pv.take(i as int)),
            decreases p@.len() - i,
        {
            let line = concat(concat(p[i].0.as_str(), ", ").as_str(), p[i].1.as_str());
            push_owned(lines, line);
            assert(pv.take(i + 1).drop_last() =~= pv.take(i as int));
            i = i + 1;
        }
        assert(pv.take(p@.len() as int) =~= pv);
        push_owned(lines, String::new());
    }
}

fn push_rows(lines: &mut Vec<String>, rows: &Vec<(u8, String, String, String, String)>)
    ensures
        texts(final(lines)@) == row_lines(texts(old(lines)@), row_views(rows@)),
{
    let ghost base = texts(lines@);
    let ghost rv = row_views(rows@);
    let mut i: usize = 0;
    assert(rv.take(0) =~= Seq::<(u8, Seq<char>, Seq<char>, Seq<char>, Seq<char>)>::empty());
    while i < rows.len()
        invariant
            rv == row_views(rows@),
            i <= rows@.len(),
            texts(lines@) == row_lines(base, rv.take(i as int)),
        decreases rows@.len() - i,
    {
        let r = &rows[i];
        let idx = format_decimal(r.0 as u32);
        let mut line = concat(idx.as_str(), ", ");
        line.append(r.1.as_str());
        line.append(", ");
        line.append(r.2.as_str());
        line.append(", ");
        line.append(r.3.as_str());
        line.append(", ");
        line.append(r.4.as_str());
        push_owned(lines, line);
        assert(rv.take(i + 1).drop_last() =~= rv.take(i as int));
        assert(rv.take(i + 1).last() == rv[i as int]);
        i = i + 1;
    }
    assert(rv.take(rows@.len() as int) =~= rv);
}

/// The text of a calibration export: comment lines with the time of the
/// export (`exported_at`), the model and the serial number; the
/// "[Settings]" section with the calibration settings read (the units with
/// their symbol as a comment, the gain and offset as the caller formatted
/// them); the captured calibration points ("[Calibration Points]") and the
/// table calibration points ("[Table Points]") when there are any, as
/// "mV/V, value" lines; and the linearisation table read from the device
/// ("[Linearisation Table]") when it has rows. Lines are joined with '\n'.
pub fn export_calibration_text(
    exported_at: &str,
    config: &ConfigRegisters,
    cal: &CalibrationRegisters,
    gain: &Option<String>,
    offset: &Option<String>,
    auto_points: &Option<Vec<(String, String)>>,
    table_points: &Option<Vec<(String, String)>>,
    rows: &Vec<(u8, String, String, String, String)>,
) -> (text: String)
    ensures
        text@ == crate::export::join_lines(
            cal_export_lines(
                exported_at@,
                opt_view(config.model_name),
                config.serial_number,
                cal@,
                opt_view(*gain),
                opt_view(*offset),
                opt_pairs_view(*auto_points),
                opt_pairs_view(*table_points),
                row_views(rows@),
            ),
        ),
{
    let mut lines: Vec<String> = Vec::new();
    push_owned(&mut lines, String::from_str("# B24 Calibration Export"));
    push_owned(&mut lines, concat("# Exported: ", exported_at));
    let ghost h0 = texts(lines@);
    assert(h0 =~= seq!["# B24 Calibration Export"@, "# Exported: "@ + exported_at@]);
    if let Some(m) = &config.model_name {
        push_owned(&mut lines, concat("# Model: ", m.as_str()));
    }
    if let Some(sn) = config.serial_number {
        let t = format_decimal(sn);
        push_owned(&mut lines, concat("# Serial: ", t.as_str()));
    }
    let ghost h = texts(lines@);
    assert(h == cal_header_lines(exported_at@, opt_view(config.model_name), config.serial_number));
    push_owned(&mut lines, String::new());
    let ghost hb = texts(lines@);
    push_owned(&mut lines, String::from_str("[Settings]"));
    write_opt_u8(&mut lines, "sensitivity_range", cal.sensitivity_range);
    let gain_str: Option<&str> = match gain {
        Some(g) => Some(g.as_str()),
        None => None,
    };
    write_opt_str(&mut lines, "data_gain", gain_str);
    let offset_str: Option<&str> = match offset {
        Some(o) => Some(o.as_str()),
        None => None,
    };
    write_opt_str(&mut lines, "data_offset", offset_str);
    if let Some(u) = cal.cal_units {
        let d = format_decimal(u as u32);
        let mut value = concat(d.as_str(), " # ");
        value.append(DataUnits::from_byte(u).label());
        let mut line = String::from_str("cal_units");
        line.append(" = ");
        line.append(value.as_str());
        push_owned(&mut lines, line);
    }
    write_opt_u8(&mut lines, "lin_points", cal.lin_points);
    write_opt_u8(&mut lines, "lin_repeat", cal.lin_repeat);
    assert(texts(lines@) == cal_settings_lines(hb, cal@, opt_view(*gain), opt_view(*offset)));
    push_owned(&mut lines, String::new());
    push_points(&mut lines, "[Calibration Points]", auto_points);
    push_points(&mut lines, "[Table Points]", table_points);
    if rows.len() > 0 {
        push_owned(&mut lines, String::from_str("[Linearisation Table]"));
        push_owned(&mut lines, String::from_str("# Index, Valid From, Gain, Offset, Valid To"));
        push_rows(&mut lines, rows);
        push_owned(&mut lines, String::new());
    }
    crate::export::join_lines_text(&lines)
}

} // verus!
