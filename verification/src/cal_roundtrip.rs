//! A calibration export read back by the calibration import: the text that
//! `export_calibration_text` writes, read by `parse_calibration_text`,
//! gives back the settings and the calibration points that were exported.

use vstd::prelude::*;

use crate::cal_export::{
    cal_export_lines, cal_header_lines, cal_settings_lines, cal_units_line, point_line, point_lines,
    points_section, row_line, row_lines,
};
use vstd::string::StringExecFns;

use crate::calibration::{before_char, cal_fold, cal_setting_write, cal_step, is_points_section};
use crate::export::{dec8, join_lines, opt_line};
use crate::plans::opt_u8_write;
use crate::registers::CalibrationView;
use crate::roundtrip::{
    clean_key, clean_value, lemma_decimal_clean, lemma_line_pair_kv, lemma_pair_value_opt_all,
    lemma_split_join, lemma_trailing_end_gt, lemma_trailing_end_le, lines_clean, no_newline,
    opt_no_newline, opt_pair,
};
use crate::session::Register;
use crate::types::{units_from_byte, units_label, DataUnits};
use crate::text::{
    decimal, is_white_space, key_value_line, lemma_decimal_digits, lemma_find_char,
    lemma_leading_ws, lemma_trailing_end, leading_ws, lowercase, pair_value, split_lines,
    to_lowercase_text, trailing_end, trimmed,
};

verus! {

/// The first character of a text that does not start with white space
/// opens its trimmed form.
pub(crate) proof fn lemma_trimmed_first(s: Seq<char>)
    requires
        s.len() > 0,
        !is_white_space(s[0]),
    ensures
        trimmed(s).len() > 0,
        trimmed(s)[0] == s[0],
        trimmed(s) == s.subrange(0, trailing_end(s)),
{
    lemma_leading_ws(s, 0);
    lemma_trailing_end_gt(s, 0);
    lemma_trailing_end_le(s);
    assert(leading_ws(s) == 0);
}

/// Reading one more line of a calibration file.
pub proof fn lemma_cal_fold_push(l: Seq<Seq<char>>, x: Seq<char>)
    ensures
        cal_fold(l.push(x)) == cal_step(cal_fold(l), x),
{
    assert(l.push(x).drop_last() =~= l);
}

proof fn lemma_cal_skip(
    st: (Seq<char>, Seq<(Seq<char>, Seq<char>)>, Seq<(Seq<char>, Seq<char>)>),
    x: Seq<char>,
)
    requires
        x.len() == 0 || x[0] == '#',
    ensures
        cal_step(st, x) == st,
{
    if x.len() > 0 {
        lemma_trimmed_first(x);
    } else {
        assert(trimmed(x).len() == 0);
    }
}

proof fn lemma_cal_header(
    st: (Seq<char>, Seq<(Seq<char>, Seq<char>)>, Seq<(Seq<char>, Seq<char>)>),
    line: Seq<char>,
    name: Seq<char>,
)
    requires
        line == seq!['['] + name + seq![']'],
    ensures
        cal_step(st, line) == (lowercase(name), st.1, st.2),
{
    let n = line.len() as int;
    assert(line[0] == '[');
    assert(line[n - 1] == ']');
    lemma_leading_ws(line, 0);
    lemma_trailing_end(line, n);
    assert(trimmed(line) =~= line);
    assert(line.subrange(1, n - 1) =~= name);
}

proof fn lemma_cal_kv(
    st: (Seq<char>, Seq<(Seq<char>, Seq<char>)>, Seq<(Seq<char>, Seq<char>)>),
    k: Seq<char>,
    v: Seq<char>,
)
    requires
        st.0 == "settings"@,
        clean_key(k),
        clean_value(v),
        forall|i: int| 0 <= i < v.len() ==> v[i] != '#',
    ensures
        cal_step(st, key_value_line(k, v)) == (st.0, st.1.push((k, v)), st.2),
{
    reveal_strlit(" = ");
    let s = key_value_line(k, v);
    let n = k.len() as int;
    assert(s.len() == n + 3 + v.len());
    assert(s[n] == ' ');
    assert(s[n + 1] == '=');
    assert(s[n + 2] == ' ');
    assert(forall|i: int| 0 <= i < n ==> s[i] == k[i]);
    assert(forall|i: int| 0 <= i < v.len() ==> s[n + 3 + i] == v[i]);
    lemma_leading_ws(s, 0);
    let e: int = if v.len() > 0 { s.len() as int } else { n + 2 };
    if v.len() > 0 {
        assert(s.last() == v.last());
    } else {
        assert(is_white_space(s[n + 2]));
    }
    lemma_trailing_end(s, e);
    let t = trimmed(s);
    assert(t =~= s.subrange(0, e));
    assert(t.len() > 0 && t[0] == k[0]);
    assert forall|j: int| 0 <= j < n + 1 implies t[j] != '=' by {
        if j < n {
            assert(t[j] == k[j]);
        }
    }
    lemma_find_char(t, '=', n + 1);
    lemma_leading_ws(k, 0);
    lemma_trailing_end(k, n);
    let kk = t.take(n + 1);
    assert(kk =~= k.push(' '));
    lemma_leading_ws(kk, 0);
    lemma_trailing_end(kk, n);
    assert(trimmed(kk) =~= k);
    let vv = t.skip(n + 2);
    if v.len() > 0 {
        assert(vv =~= seq![' '] + v);
        assert forall|j: int| 0 <= j < vv.len() implies vv[j] != '#' by {
            if j > 0 {
                assert(vv[j] == v[j - 1]);
            }
        }
        lemma_find_char(vv, '#', vv.len() as int);
        assert(before_char(vv, '#') == vv);
        lemma_leading_ws(vv, 1);
        lemma_trailing_end(vv, vv.len() as int);
        assert(trimmed(vv) =~= v);
    } else {
        assert(vv =~= Seq::<char>::empty());
        assert(before_char(vv, '#') == vv);
        assert(trimmed(vv) =~= v);
    }
}

proof fn lemma_cal_units(
    st: (Seq<char>, Seq<(Seq<char>, Seq<char>)>, Seq<(Seq<char>, Seq<char>)>),
    u: u8,
    label: Seq<char>,
)
    requires
        st.0 == "settings"@,
        cal_units_line(u) == key_value_line("cal_units"@, decimal(u as nat) + " # "@ + label),
    ensures
        cal_step(st, cal_units_line(u)) == (st.0, st.1.push(("cal_units"@, decimal(u as nat))), st.2),
{
    reveal_strlit(" = ");
    reveal_strlit(" # ");
    reveal_strlit("cal_units");
    let k = "cal_units"@;
    let d = decimal(u as nat);
    lemma_decimal_clean(u as nat);
    lemma_decimal_digits(u as nat);
    let s = cal_units_line(u);
    let n: int = 9;
    let m = d.len() as int;
    let hash = n + 3 + m + 1;
    assert(s.len() == n + 3 + m + 3 + label.len());
    assert(forall|i: int| 0 <= i < n ==> s[i] == k[i]);
    assert(s[n] == ' ' && s[n + 1] == '=' && s[n + 2] == ' ');
    assert(forall|i: int| 0 <= i < m ==> s[n + 3 + i] == d[i]);
    assert(s[n + 3 + m] == ' ' && s[hash] == '#' && s[hash + 1] == ' ');
    lemma_trimmed_first(s);
    lemma_trailing_end_gt(s, hash);
    let e = trailing_end(s);
    lemma_trailing_end_le(s);
    assert(hash < e <= s.len());
    let t = trimmed(s);
    assert(t == s.subrange(0, e));
    assert(t.len() == e);
    assert(t[0] == 'c');
    assert forall|j: int| 0 <= j < n + 1 implies t[j] != '=' by {
        if j < n {
            assert(t[j] == k[j]);
        }
    }
    lemma_find_char(t, '=', n + 1);
    let kk = t.take(n + 1);
    assert(kk =~= k.push(' '));
    lemma_leading_ws(kk, 0);
    lemma_trailing_end(kk, n);
    assert(trimmed(kk) =~= k);
    let vv = t.skip(n + 2);
    assert(vv.len() == e - n - 2);
    assert(vv[0] == ' ');
    assert(forall|i: int| 0 <= i < m ==> vv[1 + i] == d[i]);
    assert(vv[m + 1] == ' ');
    assert(vv[m + 2] == '#');
    assert forall|j: int| 0 <= j < m + 2 implies vv[j] != '#' by {
        if 1 <= j <= m {
            assert(vv[j] == d[j - 1]);
            assert(crate::text::digit_value(d[j - 1], 10) is Some);
        }
    }
    lemma_find_char(vv, '#', m + 2);
    let b = vv.take(m + 2);
    assert(b =~= seq![' '] + d + seq![' ']);
    lemma_leading_ws(b, 1);
    lemma_trailing_end(b, m + 1);
    assert(trimmed(b) =~= d);
}

/// Whether a calibration point can be written as a "mV/V, value" line and
/// read back as it is.
pub open spec fn clean_point(p: (Seq<char>, Seq<char>)) -> bool {
    &&& clean_value(p.0)
    &&& clean_value(p.1)
    &&& forall|i: int| 0 <= i < p.0.len() ==> p.0[i] != ','
    &&& p.0.len() > 0 ==> p.0[0] != '#' && p.0[0] != '['
}

proof fn lemma_cal_point(
    st: (Seq<char>, Seq<(Seq<char>, Seq<char>)>, Seq<(Seq<char>, Seq<char>)>),
    pt: (Seq<char>, Seq<char>),
)
    requires
        is_points_section(st.0),
        clean_point(pt),
    ensures
        cal_step(st, point_line(pt)) == (st.0, st.1, st.2.push(pt)),
        no_newline(point_line(pt)),
{
    reveal_strlit(", ");
    reveal_strlit("settings");
    reveal_strlit("calibration points");
    reveal_strlit("table points");
    assert("settings"@.len() == 8 && "calibration points"@.len() == 18 && "table points"@.len() == 12);
    assert(st.0 != "settings"@);
    let (mv, eng) = pt;
    let s = point_line(pt);
    let m = mv.len() as int;
    assert(s.len() == m + 2 + eng.len());
    assert(forall|i: int| 0 <= i < m ==> s[i] == mv[i]);
    assert(s[m] == ',' && s[m + 1] == ' ');
    assert(forall|i: int| 0 <= i < eng.len() ==> s[m + 2 + i] == eng[i]);
    assert(no_newline(s)) by {
        assert forall|i: int| 0 <= i < s.len() implies s[i] != '\n' by {
            if i >= m + 2 {
                assert(s[i] == eng[i - m - 2]);
            }
        }
    }
    lemma_trimmed_first(s);
    let e: int = if eng.len() > 0 { s.len() as int } else { m + 1 };
    if eng.len() > 0 {
        assert(s.last() == eng.last());
    } else {
        assert(is_white_space(s[m + 1]));
    }
    lemma_trailing_end(s, e);
    let t = trimmed(s);
    assert(t =~= s.subrange(0, e));
    assert(t[0] != '#' && t[0] != '[');
    assert forall|j: int| 0 <= j < m implies t[j] != ',' by {
        assert(t[j] == mv[j]);
    }
    lemma_find_char(t, ',', m);
    let kk = t.take(m);
    assert(kk =~= mv);
    if m > 0 {
        lemma_leading_ws(kk, 0);
        lemma_trailing_end(kk, m);
    }
    assert(trimmed(kk) =~= mv);
    let vv = t.skip(m + 1);
    if eng.len() > 0 {
        assert(vv =~= seq![' '] + eng);
        lemma_leading_ws(vv, 1);
        lemma_trailing_end(vv, vv.len() as int);
        assert(trimmed(vv) =~= eng);
    } else {
        assert(vv =~= Seq::<char>::empty());
        assert(trimmed(vv) =~= eng);
    }
}

proof fn lemma_cal_row(
    st: (Seq<char>, Seq<(Seq<char>, Seq<char>)>, Seq<(Seq<char>, Seq<char>)>),
    r: (u8, Seq<char>, Seq<char>, Seq<char>, Seq<char>),
)
    requires
        st.0 == "linearisation table"@,
    ensures
        cal_step(st, row_line(r)) == st,
{
    reveal_strlit("settings");
    reveal_strlit("calibration points");
    reveal_strlit("table points");
    reveal_strlit("linearisation table");
    lemma_decimal_digits(r.0 as nat);
    let d = decimal(r.0 as nat);
    let s = row_line(r);
    assert(s[0] == d[0]);
    assert(crate::text::digit_value(d[0], 10) is Some);
    lemma_trimmed_first(s);
    assert("settings"@.len() == 8 && "calibration points"@.len() == 18 && "table points"@.len() == 12);
    assert("linearisation table"@.len() == 19);
    assert(st.0 != "settings"@);
    assert(!is_points_section(st.0));
}


/// No unit symbol holds a line break.
proof fn lemma_units_label_no_newline(d: DataUnits)
    ensures
        no_newline(units_label(d)),
{
    match d {
        DataUnits::MvPerV => {
            reveal_strlit("mV/V");
        },
        DataUnits::Radians => {
            reveal_strlit("rad");
        },
        DataUnits::Degrees => {
            reveal_strlit("\u{00B0}");
        },
        DataUnits::Circumference => {
            reveal_strlit("circ");
        },
        DataUnits::Grade => {
            reveal_strlit("grade");
        },
        DataUnits::ArcMinutes => {
            reveal_strlit("'");
        },
        DataUnits::ArcSeconds => {
            reveal_strlit("\"");
        },
        DataUnits::Revolutions => {
            reveal_strlit("rev");
        },
        DataUnits::Metres => {
            reveal_strlit("m");
        },
        DataUnits::Angstrom => {
            reveal_strlit("\u{00C5}");
        },
        DataUnits::AstronomicalUnit => {
            reveal_strlit("AU");
        },
        DataUnits::Cm => {
            reveal_strlit("cm");
        },
        DataUnits::ChainsGunters => {
            reveal_strlit("ch");
        },
        DataUnits::Ell => {
            reveal_strlit("ell");
        },
        DataUnits::Em => {
            reveal_strlit("em");
        },
        DataUnits::Fathoms => {
            reveal_strlit("fm");
        },
        DataUnits::Feet => {
            reveal_strlit("ft");
        },
        DataUnits::Furlongs => {
            reveal_strlit("fur");
        },
        DataUnits::Inches => {
            reveal_strlit("in");
        },
        DataUnits::Km => {
            reveal_strlit("km");
        },
        DataUnits::League => {
            reveal_strlit("lea");
        },
        DataUnits::Leagues => {
            reveal_strlit("league");
        },
        DataUnits::LightYears => {
            reveal_strlit("ly");
        },
        DataUnits::Lines => {
            reveal_strlit("ln");
        },
        DataUnits::Microns => {
            reveal_strlit("\u{00B5}");
        },
        DataUnits::NauticalMiles => {
            reveal_strlit("mi n");
        },
        DataUnits::Miles => {
            reveal_strlit("mi");
        },
        DataUnits::Mm => {
            reveal_strlit("mm");
        },
        DataUnits::Mils => {
            reveal_strlit("mil");
        },
        DataUnits::Nanometers => {
            reveal_strlit("nm");
        },
        DataUnits::Parsec => {
            reveal_strlit("pc");
        },
        DataUnits::Yards => {
            reveal_strlit("yd");
        },
        DataUnits::Kg => {
            reveal_strlit("kg");
        },
        DataUnits::Drams => {
            reveal_strlit("dr av");
        },
        DataUnits::Grains => {
            reveal_strlit("gr");
        },
        DataUnits::Grams => {
            reveal_strlit("g");
        },
        DataUnits::Milligrams => {
            reveal_strlit("mg");
        },
        DataUnits::Oz => {
            reveal_strlit("oz");
        },
        DataUnits::Pennyweights => {
            reveal_strlit("pwt");
        },
        DataUnits::Lbs => {
            reveal_strlit("lb");
        },
        DataUnits::Kilopounds => {
            reveal_strlit("klb");
        },
        DataUnits::Scruples => {
            reveal_strlit("s ap");
        },
        DataUnits::Slug => {
            reveal_strlit("slug");
        },
        DataUnits::TonsLong => {
            reveal_strlit("ton");
        },
        DataUnits::TonsMetric => {
            reveal_strlit("T");
        },
        DataUnits::Tonnes => {
            reveal_strlit("tonne");
        },
        DataUnits::TonsShort => {
            reveal_strlit("sh tn");
        },
        DataUnits::Newtons => {
            reveal_strlit("N");
        },
        DataUnits::KiloNewtons => {
            reveal_strlit("kN");
        },
        DataUnits::MilliNewtons => {
            reveal_strlit("mN");
        },
        DataUnits::MegaNewtons => {
            reveal_strlit("MN");
        },
        DataUnits::Crinals => {
            reveal_strlit("crinal");
        },
        DataUnits::Dynes => {
            reveal_strlit("dyn");
        },
        DataUnits::GramsForce => {
            reveal_strlit("gf");
        },
        DataUnits::JoulesPerCm => {
            reveal_strlit("J/cm");
        },
        DataUnits::Kgf => {
            reveal_strlit("kgf");
        },
        DataUnits::KgfKp => {
            reveal_strlit("kp");
        },
        DataUnits::KgMsSquared => {
            reveal_strlit("kg m/s\u{00B2}");
        },
        DataUnits::OuncesForce => {
            reveal_strlit("ozf");
        },
        DataUnits::Lbf => {
            reveal_strlit("lbf");
        },
        DataUnits::Poundals => {
            reveal_strlit("pdl");
        },
        DataUnits::TonsForceLong => {
            reveal_strlit("tonf l");
        },
        DataUnits::TonsForceShort => {
            reveal_strlit("tonf s");
        },
        DataUnits::TonsForceMetric => {
            reveal_strlit("tonf m");
        },
        DataUnits::Bar => {
            reveal_strlit("bar");
        },
        DataUnits::AtmosphereTech => {
            reveal_strlit("at");
        },
        DataUnits::AtmospherePhys => {
            reveal_strlit("atm");
        },
        DataUnits::DynePerCmSq => {
            reveal_strlit("dyn/cm\u{00B2}");
        },
        DataUnits::FtWater => {
            reveal_strlit("ftH\u{2082}O");
        },
        DataUnits::InWater => {
            reveal_strlit("inH\u{2082}O");
        },
        DataUnits::GigaPascal => {
            reveal_strlit("GPa");
        },
        DataUnits::HectoPascal => {
            reveal_strlit("hPa");
        },
        DataUnits::KgfPerCmSq => {
            reveal_strlit("kgf/cm\u{00B2}");
        },
        DataUnits::KgfPerMSq => {
            reveal_strlit("kgf/m\u{00B2}");
        },
        DataUnits::Microbar => {
            reveal_strlit("\u{00B5}bar");
        },
        DataUnits::Pascal => {
            reveal_strlit("Pa");
        },
        DataUnits::NewtonPerMSq => {
            reveal_strlit("N/m\u{00B2}");
        },
        DataUnits::OzPerInSq => {
            reveal_strlit("oz/in\u{00B2}");
        },
        DataUnits::LbPerFtSq => {
            reveal_strlit("lb/ft\u{00B2}");
        },
        DataUnits::Psi => {
            reveal_strlit("psi");
        },
        DataUnits::TonnePerCmSq => {
            reveal_strlit("T/cm\u{00B2}");
        },
        DataUnits::MetresPerSec => {
            reveal_strlit("m/s");
        },
        DataUnits::CmPerSec => {
            reveal_strlit("cm/s");
        },
        DataUnits::FeetPerMin => {
            reveal_strlit("ft/min");
        },
        DataUnits::FeetPerSec => {
            reveal_strlit("ft/s");
        },
        DataUnits::KmPerHr => {
            reveal_strlit("km/h");
        },
        DataUnits::KmPerMin => {
            reveal_strlit("km/min");
        },
        DataUnits::KmPerSec => {
            reveal_strlit("km/s");
        },
        DataUnits::Knots => {
            reveal_strlit("kn");
        },
        DataUnits::MetresPerHr => {
            reveal_strlit("m/h");
        },
        DataUnits::MetresPerMin => {
            reveal_strlit("m/min");
        },
        DataUnits::MilesPerHr => {
            reveal_strlit("mph");
        },
        DataUnits::MilesPerMin => {
            reveal_strlit("mi/min");
        },
        DataUnits::MilesPerSec => {
            reveal_strlit("mi/s");
        },
        DataUnits::NautMilesPerHr => {
            reveal_strlit("n mi/h");
        },
        DataUnits::NautMilesPerMin => {
            reveal_strlit("n mi/min");
        },
        DataUnits::NautMilesPerSec => {
            reveal_strlit("n mi/s");
        },
        DataUnits::NewtonMetre => {
            reveal_strlit("N m");
        },
        DataUnits::MetreKg => {
            reveal_strlit("m kg");
        },
        DataUnits::FootPound => {
            reveal_strlit("ft lbf");
        },
        DataUnits::FootPoundal => {
            reveal_strlit("ft pdl");
        },
        DataUnits::InchPound => {
            reveal_strlit("in lbf");
        },
        DataUnits::Counts => {
            reveal_strlit("counts");
        },
        DataUnits::Undefined => {
            reveal_strlit("undefined");
        },
        DataUnits::Other(_) => {
            reveal_strlit("?");
        },
    }
}


/// Whether `str::to_lowercase` turns the calibration file's section names
/// into the names its reader compares. Checked at run time by
/// `cal_sections_check`.
pub open spec fn cal_sections_lowercase() -> bool {
    &&& lowercase("Settings"@) == "settings"@
    &&& lowercase("Calibration Points"@) == "calibration points"@
    &&& lowercase("Table Points"@) == "table points"@
    &&& lowercase("Linearisation Table"@) == "linearisation table"@
}

fn lowercase_is(text: &str, low: &str) -> (b: bool)
    ensures
        b == (lowercase(text@) == low@),
{
    to_lowercase_text(text) == String::from_str(low)
}

/// Whether `cal_sections_lowercase` holds, found by lowercasing the names.
pub fn cal_sections_check() -> (b: bool)
    ensures
        b == cal_sections_lowercase(),
{
    lowercase_is("Settings", "settings") && lowercase_is("Calibration Points", "calibration points")
        && lowercase_is("Table Points", "table points") && lowercase_is(
        "Linearisation Table",
        "linearisation table",
    )
}

/// Whether an optional setting value can be written and read back as it is
/// (clean, and no '#', which would start a comment).
pub open spec fn setting_clean(v: Option<Seq<char>>) -> bool {
    match v {
        Some(t) => clean_value(t) && forall|i: int| 0 <= i < t.len() ==> t[i] != '#',
        None => true,
    }
}

/// Whether every point of an optional list is clean (see `clean_point`).
pub open spec fn points_clean(p: Option<Seq<(Seq<char>, Seq<char>)>>) -> bool {
    match p {
        Some(x) => forall|i: int| 0 <= i < x.len() ==> clean_point(#[trigger] x[i]),
        None => true,
    }
}

/// Whether no text of the table rows holds a line break.
pub open spec fn rows_clean(rows: Seq<(u8, Seq<char>, Seq<char>, Seq<char>, Seq<char>)>) -> bool {
    forall|i: int|
        0 <= i < rows.len() ==> {
            let r = #[trigger] rows[i];
            no_newline(r.1) && no_newline(r.2) && no_newline(r.3) && no_newline(r.4)
        }
}

/// Whether the texts that go into a calibration export can be read back as
/// they are.
pub open spec fn cal_export_clean(
    at: Seq<char>,
    model: Option<Seq<char>>,
    gain: Option<Seq<char>>,
    offset: Option<Seq<char>>,
    auto_points: Option<Seq<(Seq<char>, Seq<char>)>>,
    table_points: Option<Seq<(Seq<char>, Seq<char>)>>,
    rows: Seq<(u8, Seq<char>, Seq<char>, Seq<char>, Seq<char>)>,
) -> bool {
    &&& no_newline(at)
    &&& opt_no_newline(model)
    &&& setting_clean(gain)
    &&& setting_clean(offset)
    &&& points_clean(auto_points)
    &&& points_clean(table_points)
    &&& rows_clean(rows)
}

/// The points of an optional list (none when absent).
pub open spec fn opt_points(p: Option<Seq<(Seq<char>, Seq<char>)>>) -> Seq<(Seq<char>, Seq<char>)> {
    match p {
        Some(x) => x,
        None => Seq::empty(),
    }
}

/// The settings that the calibration import reads from an export.
pub open spec fn cal_export_settings(cal: CalibrationView, gain: Option<Seq<char>>, offset: Option<Seq<char>>) -> Seq<(Seq<char>, Seq<char>)> {
    let p1 = opt_pair(Seq::empty(), "sensitivity_range"@, dec8(cal.sensitivity_range));
    let p2 = opt_pair(p1, "data_gain"@, gain);
    let p3 = opt_pair(p2, "data_offset"@, offset);
    let p4 = opt_pair(p3, "cal_units"@, dec8(cal.cal_units));
    let p5 = opt_pair(p4, "lin_points"@, dec8(cal.lin_points));
    opt_pair(p5, "lin_repeat"@, dec8(cal.lin_repeat))
}

proof fn lemma_lines_clean_push(l: Seq<Seq<char>>, x: Seq<char>)
    requires
        lines_clean(l),
        no_newline(x),
    ensures
        lines_clean(l.push(x)),
{
    assert forall|i: int| 0 <= i < l.push(x).len() implies no_newline(#[trigger] l.push(x)[i]) by {
        if i < l.len() {
            assert(l.push(x)[i] == l[i]);
        }
    }
}

proof fn lemma_no_newline_concat(a: Seq<char>, b: Seq<char>)
    requires
        no_newline(a),
        no_newline(b),
    ensures
        no_newline(a + b),
{
    assert forall|i: int| 0 <= i < (a + b).len() implies (a + b)[i] != '\n' by {
        if i >= a.len() {
            assert((a + b)[i] == b[i - a.len()]);
        }
    }
}

proof fn lemma_push_skip(l: Seq<Seq<char>>, x: Seq<char>)
    requires
        lines_clean(l),
        no_newline(x),
        x.len() == 0 || x[0] == '#',
    ensures
        cal_fold(l.push(x)) == cal_fold(l),
        lines_clean(l.push(x)),
{
    lemma_cal_fold_push(l, x);
    lemma_cal_skip(cal_fold(l), x);
    lemma_lines_clean_push(l, x);
}

proof fn lemma_push_header(l: Seq<Seq<char>>, line: Seq<char>, name: Seq<char>)
    requires
        lines_clean(l),
        line == seq!['['] + name + seq![']'],
        no_newline(line),
    ensures
        cal_fold(l.push(line)) == (lowercase(name), cal_fold(l).1, cal_fold(l).2),
        lines_clean(l.push(line)),
{
    lemma_cal_fold_push(l, line);
    lemma_cal_header(cal_fold(l), line, name);
    lemma_lines_clean_push(l, line);
}

proof fn lemma_opt_setting(l: Seq<Seq<char>>, k: Seq<char>, v: Option<Seq<char>>)
    requires
        lines_clean(l),
        cal_fold(l).0 == "settings"@,
        clean_key(k),
        setting_clean(v),
    ensures
        cal_fold(opt_line(l, k, v)) == (cal_fold(l).0, opt_pair(cal_fold(l).1, k, v), cal_fold(l).2),
        lines_clean(opt_line(l, k, v)),
{
    if let Some(t) = v {
        lemma_cal_fold_push(l, key_value_line(k, t));
        lemma_cal_kv(cal_fold(l), k, t);
        lemma_line_pair_kv(k, t);
        lemma_lines_clean_push(l, key_value_line(k, t));
    }
}

proof fn lemma_points(l: Seq<Seq<char>>, pts: Seq<(Seq<char>, Seq<char>)>)
    requires
        lines_clean(l),
        is_points_section(cal_fold(l).0),
        forall|i: int| 0 <= i < pts.len() ==> clean_point(#[trigger] pts[i]),
    ensures
        cal_fold(point_lines(l, pts)) == (cal_fold(l).0, cal_fold(l).1, cal_fold(l).2 + pts),
        lines_clean(point_lines(l, pts)),
    decreases pts.len(),
{
    if pts.len() == 0 {
        assert(cal_fold(l).2 + pts =~= cal_fold(l).2);
    } else {
        let init = pts.drop_last();
        assert forall|i: int| 0 <= i < init.len() implies clean_point(#[trigger] init[i]) by {
            assert(init[i] == pts[i]);
        }
        lemma_points(l, init);
        let m = point_lines(l, init);
        assert(clean_point(pts.last())) by {
            assert(pts.last() == pts[pts.len() - 1]);
        }
        lemma_cal_fold_push(m, point_line(pts.last()));
        lemma_cal_point(cal_fold(m), pts.last());
        lemma_lines_clean_push(m, point_line(pts.last()));
        assert(cal_fold(l).2 + init + seq![pts.last()] =~= cal_fold(l).2 + pts);
        assert((cal_fold(l).2 + init).push(pts.last()) =~= cal_fold(l).2 + pts);
    }
}

proof fn lemma_points_section(l: Seq<Seq<char>>, line: Seq<char>, name: Seq<char>, pts: Option<Seq<(Seq<char>, Seq<char>)>>)
    requires
        lines_clean(l),
        line == seq!['['] + name + seq![']'],
        no_newline(line),
        is_points_section(lowercase(name)),
        points_clean(pts),
    ensures
        lines_clean(points_section(l, line, pts)),
        cal_fold(points_section(l, line, pts)).1 == cal_fold(l).1,
        cal_fold(points_section(l, line, pts)).2 == cal_fold(l).2 + opt_points(pts),
        pts is Some ==> cal_fold(points_section(l, line, pts)).0 == lowercase(name),
        pts is None ==> cal_fold(points_section(l, line, pts)).0 == cal_fold(l).0,
{
    if let Some(p) = pts {
        reveal_strlit("# mV/V, Engineering Value");
        lemma_push_header(l, line, name);
        let l1 = l.push(line);
        let c = "# mV/V, Engineering Value"@;
        lemma_push_skip(l1, c);
        let l2 = l1.push(c);
        lemma_points(l2, p);
        let l3 = point_lines(l2, p);
        lemma_push_skip(l3, Seq::empty());
    } else {
        assert(cal_fold(l).2 + opt_points(pts) =~= cal_fold(l).2);
    }
}

proof fn lemma_rows(l: Seq<Seq<char>>, rows: Seq<(u8, Seq<char>, Seq<char>, Seq<char>, Seq<char>)>)
    requires
        lines_clean(l),
        cal_fold(l).0 == "linearisation table"@,
        rows_clean(rows),
    ensures
        cal_fold(row_lines(l, rows)) == cal_fold(l),
        lines_clean(row_lines(l, rows)),
    decreases rows.len(),
{
    if rows.len() > 0 {
        let init = rows.drop_last();
        assert forall|i: int| 0 <= i < init.len() implies {
            let r = #[trigger] init[i];
            no_newline(r.1) && no_newline(r.2) && no_newline(r.3) && no_newline(r.4)
        } by {
            assert(init[i] == rows[i]);
        }
        lemma_rows(l, init);
        let m = row_lines(l, init);
        let r = rows.last();
        assert(r == rows[rows.len() - 1]);
        lemma_cal_fold_push(m, row_line(r));
        lemma_cal_row(cal_fold(m), r);
        reveal_strlit(", ");
        lemma_decimal_clean(r.0 as nat);
        let sep = ", "@;
        assert(no_newline(sep));
        lemma_no_newline_concat(decimal(r.0 as nat), sep);
        lemma_no_newline_concat(decimal(r.0 as nat) + sep, r.1);
        lemma_no_newline_concat(decimal(r.0 as nat) + sep + r.1, sep);
        lemma_no_newline_concat(decimal(r.0 as nat) + sep + r.1 + sep, r.2);
        lemma_no_newline_concat(decimal(r.0 as nat) + sep + r.1 + sep + r.2, sep);
        lemma_no_newline_concat(decimal(r.0 as nat) + sep + r.1 + sep + r.2 + sep, r.3);
        lemma_no_newline_concat(decimal(r.0 as nat) + sep + r.1 + sep + r.2 + sep + r.3, sep);
        lemma_no_newline_concat(decimal(r.0 as nat) + sep + r.1 + sep + r.2 + sep + r.3 + sep, r.4);
        lemma_lines_clean_push(m, row_line(r));
    }
}


proof fn lemma_dec8_setting(v: Option<u8>)
    ensures
        setting_clean(dec8(v)),
{
    if let Some(x) = v {
        lemma_decimal_clean(x as nat);
        lemma_decimal_digits(x as nat);
        let d = decimal(x as nat);
        assert forall|i: int| 0 <= i < d.len() implies d[i] != '#' by {
            assert(crate::text::digit_value(d[i], 10) is Some);
        }
    }
}

proof fn lemma_prefixed_comment(prefix: Seq<char>, t: Seq<char>)
    requires
        prefix.len() > 0,
        prefix[0] == '#',
        no_newline(prefix),
        no_newline(t),
    ensures
        no_newline(prefix + t),
        (prefix + t)[0] == '#',
{
    lemma_no_newline_concat(prefix, t);
}

proof fn lemma_cal_header_fold(at: Seq<char>, model: Option<Seq<char>>, serial: Option<u32>)
    requires
        no_newline(at),
        opt_no_newline(model),
    ensures
        lines_clean(cal_header_lines(at, model, serial).push(Seq::empty())),
        cal_fold(cal_header_lines(at, model, serial).push(Seq::empty())) == (
            Seq::<char>::empty(),
            Seq::<(Seq<char>, Seq<char>)>::empty(),
            Seq::<(Seq<char>, Seq<char>)>::empty(),
        ),
{
    reveal_strlit("# B24 Calibration Export");
    reveal_strlit("# Exported: ");
    reveal_strlit("# Model: ");
    reveal_strlit("# Serial: ");
    let e = Seq::<Seq<char>>::empty();
    assert(lines_clean(e));
    let a = "# B24 Calibration Export"@;
    let b = "# Exported: "@ + at;
    lemma_prefixed_comment("# Exported: "@, at);
    lemma_push_skip(e, a);
    lemma_push_skip(e.push(a), b);
    let h0 = seq![a, b];
    assert(h0 =~= e.push(a).push(b));
    let h1 = match model {
        Some(m) => h0.push("# Model: "@ + m),
        None => h0,
    };
    if let Some(m) = model {
        lemma_prefixed_comment("# Model: "@, m);
        lemma_push_skip(h0, "# Model: "@ + m);
    }
    if let Some(n) = serial {
        lemma_decimal_clean(n as nat);
        lemma_prefixed_comment("# Serial: "@, decimal(n as nat));
        lemma_push_skip(h1, "# Serial: "@ + decimal(n as nat));
    }
    let h2 = cal_header_lines(at, model, serial);
    lemma_push_skip(h2, Seq::empty());
}

proof fn lemma_cal_settings_fold(l: Seq<Seq<char>>, cal: CalibrationView, gain: Option<Seq<char>>, offset: Option<Seq<char>>)
    requires
        lines_clean(l),
        cal_fold(l).1 == Seq::<(Seq<char>, Seq<char>)>::empty(),
        cal_sections_lowercase(),
        setting_clean(gain),
        setting_clean(offset),
    ensures
        lines_clean(cal_settings_lines(l, cal, gain, offset)),
        cal_fold(cal_settings_lines(l, cal, gain, offset)).0 == "settings"@,
        cal_fold(cal_settings_lines(l, cal, gain, offset)).1 == cal_export_settings(cal, gain, offset),
        cal_fold(cal_settings_lines(l, cal, gain, offset)).2 == cal_fold(l).2,
{
    reveal_strlit("[Settings]");
    reveal_strlit("Settings");
    reveal_strlit("sensitivity_range");
    reveal_strlit("data_gain");
    reveal_strlit("data_offset");
    reveal_strlit("cal_units");
    reveal_strlit("lin_points");
    reveal_strlit("lin_repeat");
    reveal_strlit(" # ");
    reveal_strlit(" = ");
    assert("[Settings]"@ =~= seq!['['] + "Settings"@ + seq![']']);
    lemma_push_header(l, "[Settings]"@, "Settings"@);
    let s0 = l.push("[Settings]"@);
    assert(clean_key("sensitivity_range"@));
    assert(clean_key("data_gain"@));
    assert(clean_key("data_offset"@));
    assert(clean_key("lin_points"@));
    assert(clean_key("lin_repeat"@));
    lemma_dec8_setting(cal.sensitivity_range);
    lemma_opt_setting(s0, "sensitivity_range"@, dec8(cal.sensitivity_range));
    let s1 = opt_line(s0, "sensitivity_range"@, dec8(cal.sensitivity_range));
    lemma_opt_setting(s1, "data_gain"@, gain);
    let s2 = opt_line(s1, "data_gain"@, gain);
    lemma_opt_setting(s2, "data_offset"@, offset);
    let s3 = opt_line(s2, "data_offset"@, offset);
    let s4 = match cal.cal_units {
        Some(u) => s3.push(cal_units_line(u)),
        None => s3,
    };
    if let Some(u) = cal.cal_units {
        let label = units_label(units_from_byte(u));
        lemma_cal_fold_push(s3, cal_units_line(u));
        lemma_cal_units(cal_fold(s3), u, label);
        lemma_units_label_no_newline(units_from_byte(u));
        lemma_decimal_clean(u as nat);
        let d = decimal(u as nat);
        lemma_no_newline_concat(d, " # "@);
        lemma_no_newline_concat(d + " # "@, label);
        lemma_no_newline_concat("cal_units"@, " = "@);
        lemma_no_newline_concat("cal_units"@ + " = "@, d + " # "@ + label);
        lemma_lines_clean_push(s3, cal_units_line(u));
    }
    lemma_dec8_setting(cal.lin_points);
    lemma_opt_setting(s4, "lin_points"@, dec8(cal.lin_points));
    let s5 = opt_line(s4, "lin_points"@, dec8(cal.lin_points));
    lemma_dec8_setting(cal.lin_repeat);
    lemma_opt_setting(s5, "lin_repeat"@, dec8(cal.lin_repeat));
}

proof fn lemma_cal_import_settings(cal: CalibrationView, gain: Option<Seq<char>>, offset: Option<Seq<char>>)
    ensures
        cal_setting_write(cal_export_settings(cal, gain, offset), "sensitivity_range"@, Register::SensitivityRange)
            == opt_u8_write(Register::SensitivityRange, cal.sensitivity_range),
        cal_setting_write(cal_export_settings(cal, gain, offset), "cal_units"@, Register::CalUnits)
            == opt_u8_write(Register::CalUnits, cal.cal_units),
{
    reveal_strlit("sensitivity_range");
    reveal_strlit("data_gain");
    reveal_strlit("data_offset");
    reveal_strlit("cal_units");
    reveal_strlit("lin_points");
    reveal_strlit("lin_repeat");
    assert("sensitivity_range"@.len() == 17 && "data_gain"@.len() == 9 && "data_offset"@.len() == 11);
    assert("cal_units"@.len() == 9 && "lin_points"@.len() == 10 && "lin_repeat"@.len() == 10);
    assert("cal_units"@[0] == 'c' && "data_gain"@[0] == 'd');
    lemma_pair_value_opt_all();
    let e = Seq::<(Seq<char>, Seq<char>)>::empty();
    assert(pair_value(e, "sensitivity_range"@) is None);
    assert(pair_value(e, "cal_units"@) is None);
    let st = cal_export_settings(cal, gain, offset);
    assert(pair_value(st, "sensitivity_range"@) == dec8(cal.sensitivity_range));
    assert(pair_value(st, "cal_units"@) == dec8(cal.cal_units));
    if let Some(x) = cal.sensitivity_range {
        lemma_decimal_digits(x as nat);
    }
    if let Some(x) = cal.cal_units {
        lemma_decimal_digits(x as nat);
    }
}

/// Saving a calibration and loading it back restores its settings and
/// points. Take the text that `export_calibration_text` writes, read as
/// `parse_calibration_text` reads it: the settings read are those exported
/// (the units without their symbol comment), the calibration points read are
/// the captured points followed by the table points, and the import writes
/// the sensitivity range and the calibration units back with the values
/// exported. This holds where the texts hold no line breaks and no white
/// space at their ends (setting values no '#', point mV/V texts no ','),
/// and where `str::to_lowercase` turns the section names as
/// `cal_sections_check` finds.
pub proof fn lemma_calibration_export_import(
    at: Seq<char>,
    model: Option<Seq<char>>,
    serial: Option<u32>,
    cal: CalibrationView,
    gain: Option<Seq<char>>,
    offset: Option<Seq<char>>,
    auto_points: Option<Seq<(Seq<char>, Seq<char>)>>,
    table_points: Option<Seq<(Seq<char>, Seq<char>)>>,
    rows: Seq<(u8, Seq<char>, Seq<char>, Seq<char>, Seq<char>)>,
)
    requires
        cal_sections_lowercase(),
        cal_export_clean(at, model, gain, offset, auto_points, table_points, rows),
    ensures
        ({
            let st = cal_fold(
                split_lines(
                    join_lines(cal_export_lines(at, model, serial, cal, gain, offset, auto_points, table_points, rows)),
                ),
            );
            &&& st.1 == cal_export_settings(cal, gain, offset)
            &&& st.2 == opt_points(auto_points) + opt_points(table_points)
            &&& cal_setting_write(st.1, "sensitivity_range"@, Register::SensitivityRange) == opt_u8_write(
                Register::SensitivityRange,
                cal.sensitivity_range,
            )
            &&& cal_setting_write(st.1, "cal_units"@, Register::CalUnits) == opt_u8_write(
                Register::CalUnits,
                cal.cal_units,
            )
        }),
{
    reveal_strlit("[Calibration Points]");
    reveal_strlit("Calibration Points");
    reveal_strlit("[Table Points]");
    reveal_strlit("Table Points");
    reveal_strlit("[Linearisation Table]");
    reveal_strlit("Linearisation Table");
    reveal_strlit("# Index, Valid From, Gain, Offset, Valid To");
    reveal_strlit("calibration points");
    reveal_strlit("table points");
    lemma_cal_header_fold(at, model, serial);
    let h = cal_header_lines(at, model, serial).push(Seq::empty());
    lemma_cal_settings_fold(h, cal, gain, offset);
    let s6 = cal_settings_lines(h, cal, gain, offset);
    lemma_push_skip(s6, Seq::empty());
    let s7 = s6.push(Seq::empty());
    assert("[Calibration Points]"@ =~= seq!['['] + "Calibration Points"@ + seq![']']);
    lemma_points_section(s7, "[Calibration Points]"@, "Calibration Points"@, auto_points);
    let pa = points_section(s7, "[Calibration Points]"@, auto_points);
    assert("[Table Points]"@ =~= seq!['['] + "Table Points"@ + seq![']']);
    lemma_points_section(pa, "[Table Points]"@, "Table Points"@, table_points);
    let pt = points_section(pa, "[Table Points]"@, table_points);
    assert(cal_fold(pt).2 =~= opt_points(auto_points) + opt_points(table_points));
    let lines = cal_export_lines(at, model, serial, cal, gain, offset, auto_points, table_points, rows);
    if rows.len() > 0 {
        assert("[Linearisation Table]"@ =~= seq!['['] + "Linearisation Table"@ + seq![']']);
        lemma_push_header(pt, "[Linearisation Table]"@, "Linearisation Table"@);
        let r1 = pt.push("[Linearisation Table]"@);
        let c = "# Index, Valid From, Gain, Offset, Valid To"@;
        lemma_push_skip(r1, c);
        let r2 = r1.push(c);
        lemma_rows(r2, rows);
        let r3 = row_lines(r2, rows);
        lemma_push_skip(r3, Seq::empty());
        assert(lines == r3.push(Seq::empty()));
    } else {
        assert(lines == pt);
    }
    lemma_split_join(lines);
    lemma_cal_import_settings(cal, gain, offset);
}

} // verus!
