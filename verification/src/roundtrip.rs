//! A configuration export read back by the configuration import: the text
//! that `export_config_text` writes, split into lines and key/value pairs as
//! `parse_config_text` reads it, makes `import_config_text` write back the
//! values that were exported.

use vstd::prelude::*;

use vstd::string::StringExecFns;
use vstd::utf8::encode_utf8;

use crate::codec::be32_bytes;
use crate::export::{
    adv_float_text, adv_value_text, advanced_lines, calibration_lines, config_lines, dec32, dec8,
    export_lines, header_lines, is_read_only, join_lines, opt_line, FloatTexts,
};
use crate::plans::{
    add_write, adv_float, adv_key, adv_write, adv_writes, f32_write, kv_u32_write, kv_u8_write,
    opt_u32_write, opt_u8_write, replace_spaces_of_lowercase, tag_write, text_import_writes,
    view_pin_write, TextFloats,
};
use crate::registers::{opt_view, CalibrationView, ConfigView};
use crate::session::Register;
use crate::state::{adv_u32, adv_u8};
use crate::text::{
    config_pairs, decimal, digit_value, find_char, is_white_space, key_value_line,
    lemma_decimal_digits, lemma_decimal_roundtrip, lemma_find_char, lemma_leading_ws, lemma_split_lines_nonempty,
    lemma_trailing_end, line_pair, lines_pairs, lowercase, normalize_key, pair_value,
    replace_char, split_lines, to_lowercase_text, trailing_end, trimmed,
};
use crate::types::{all_advanced_params, param_index, param_label, param_type, AdvancedParam, ParamType};
use crate::uuids::gap_device_name_value;

verus! {

/// Whether a text holds no line break.
pub open spec fn no_newline(s: Seq<char>) -> bool {
    forall|i: int| 0 <= i < s.len() ==> s[i] != '\n'
}

/// Whether a value can stand in a "key = value" line and be read back as it
/// is: no line break, no white space at either end.
pub open spec fn clean_value(v: Seq<char>) -> bool {
    &&& no_newline(v)
    &&& v.len() > 0 ==> !is_white_space(v[0]) && !is_white_space(v.last())
}

/// Whether a key can open a "key = value" line and be read back: not empty,
/// no line break or '=', no white space at either end, and not starting a
/// comment or a section header.
pub open spec fn clean_key(k: Seq<char>) -> bool {
    &&& k.len() > 0
    &&& !is_white_space(k[0])
    &&& !is_white_space(k.last())
    &&& k[0] != '#'
    &&& k[0] != '['
    &&& forall|i: int| 0 <= i < k.len() ==> k[i] != '=' && k[i] != '\n'
}

/// Whether no line of a list holds a line break.
pub open spec fn lines_clean(lines: Seq<Seq<char>>) -> bool {
    forall|i: int| 0 <= i < lines.len() ==> no_newline(#[trigger] lines[i])
}

proof fn lemma_split_append_text(x: Seq<char>, t: Seq<char>)
    requires
        no_newline(t),
    ensures
        split_lines(x).len() >= 1,
        split_lines(x + t) == split_lines(x).update(
            split_lines(x).len() - 1,
            split_lines(x).last() + t,
        ),
    decreases t.len(),
{
    lemma_split_lines_nonempty(x);
    let p = split_lines(x);
    if t.len() == 0 {
        assert(x + t =~= x);
        assert(p.last() + t =~= p.last());
        assert(p.update(p.len() - 1, p.last()) =~= p);
    } else {
        let t0 = t.drop_last();
        let c = t.last();
        assert(no_newline(t0)) by {
            assert forall|i: int| 0 <= i < t0.len() implies t0[i] != '\n' by {
                assert(t0[i] == t[i]);
            }
        }
        lemma_split_append_text(x, t0);
        assert((x + t).drop_last() =~= x + t0);
        assert((x + t).last() == c);
        assert(c != '\n');
        lemma_split_lines_nonempty(x + t0);
        let q = split_lines(x + t0);
        assert(q == p.update(p.len() - 1, p.last() + t0));
        assert(split_lines(x + t) == q.update(q.len() - 1, q.last().push(c)));
        assert(q.last().push(c) =~= p.last() + t);
        assert(q.update(q.len() - 1, q.last().push(c)) =~= p.update(p.len() - 1, p.last() + t));
    }
}

/// Lines without line breaks, joined with '\n', split back into the same lines.
pub proof fn lemma_split_join(lines: Seq<Seq<char>>)
    requires
        lines.len() >= 1,
        lines_clean(lines),
    ensures
        split_lines(join_lines(lines)) == lines,
    decreases lines.len(),
{
    if lines.len() == 1 {
        let e = Seq::<char>::empty();
        lemma_split_append_text(e, lines[0]);
        assert(e + lines[0] =~= lines[0]);
        assert(split_lines(e) == seq![e]);
        assert(seq![e].update(0, e + lines[0]) =~= lines);
    } else {
        let init = lines.drop_last();
        assert(lines_clean(init)) by {
            assert forall|i: int| 0 <= i < init.len() implies no_newline(#[trigger] init[i]) by {
                assert(init[i] == lines[i]);
            }
        }
        lemma_split_join(init);
        let a = join_lines(init);
        let an = a + seq!['\n'];
        assert(an.drop_last() =~= a);
        assert(an.last() == '\n');
        assert(split_lines(an) == init.push(Seq::empty()));
        assert(no_newline(lines.last())) by {
            assert(lines.last() == lines[lines.len() - 1]);
        }
        lemma_split_append_text(an, lines.last());
        assert(join_lines(lines) == an + lines.last());
        let p = split_lines(an);
        assert(Seq::<char>::empty() + lines.last() =~= lines.last());
        assert(p.update(p.len() - 1, p.last() + lines.last()) =~= lines);
    }
}

/// The pairs of lines with one more line.
pub proof fn lemma_lines_pairs_push(l: Seq<Seq<char>>, x: Seq<char>)
    ensures
        lines_pairs(l.push(x)) == (match line_pair(x) {
            Some(kv) => lines_pairs(l).push(kv),
            None => lines_pairs(l),
        }),
{
    assert(l.push(x).drop_last() =~= l);
    assert(l.push(x).last() == x);
}

pub(crate) proof fn lemma_trailing_end_le(s: Seq<char>)
    ensures
        0 <= trailing_end(s) <= s.len(),
    decreases s.len(),
{
    if s.len() > 0 && is_white_space(s.last()) {
        lemma_trailing_end_le(s.drop_last());
    }
}

pub(crate) proof fn lemma_trailing_end_gt(s: Seq<char>, i: int)
    requires
        0 <= i < s.len(),
        !is_white_space(s[i]),
    ensures
        trailing_end(s) > i,
    decreases s.len(),
{
    if is_white_space(s.last()) {
        assert(s.drop_last()[i] == s[i]);
        lemma_trailing_end_gt(s.drop_last(), i);
    }
}

/// A line that starts with '#' or '[' gives no pair.
pub proof fn lemma_line_pair_skipped(s: Seq<char>)
    requires
        s.len() > 0,
        s[0] == '#' || s[0] == '[',
    ensures
        line_pair(s) is None,
{
    assert(!is_white_space(s[0]));
    lemma_leading_ws(s, 0);
    lemma_trailing_end_gt(s, 0);
    lemma_trailing_end_le(s);
    let b = trailing_end(s);
    assert(crate::text::leading_ws(s) == 0);
    assert(trimmed(s) == s.subrange(0, b));
    assert(trimmed(s)[0] == s[0]);
}

/// A line "key = value" gives the normalized key and the value.
pub proof fn lemma_line_pair_kv(k: Seq<char>, v: Seq<char>)
    requires
        clean_key(k),
        clean_value(v),
    ensures
        line_pair(key_value_line(k, v)) == Some((normalize_key(k), v)),
        no_newline(key_value_line(k, v)),
{
    reveal_strlit(" = ");
    let s = key_value_line(k, v);
    let n = k.len() as int;
    assert(s.len() == n + 3 + v.len());
    assert(s[n] == ' ');
    assert(s[n + 1] == '=');
    assert(s[n + 2] == ' ');
    assert(forall|i: int| 0 <= i < n ==> s[i] == k[i]);
    assert(forall|i: int| 0 <= i < v.len() ==> s[n + 3 + i] == v[i]);
    assert(no_newline(s)) by {
        assert forall|i: int| 0 <= i < s.len() implies s[i] != '\n' by {
            if i >= n + 3 {
                assert(s[i] == v[i - n - 3]);
            }
        }
    }
    lemma_leading_ws(s, 0);
    let e: int = if v.len() > 0 { s.len() as int } else { n + 2 };
    if v.len() > 0 {
        assert(s.last() == v.last());
        lemma_trailing_end(s, e);
    } else {
        assert(is_white_space(s[n + 2]));
        lemma_trailing_end(s, e);
    }
    let t = trimmed(s);
    assert(t =~= s.subrange(0, e));
    assert(t.len() > 0 && t[0] == k[0]);
    assert forall|j: int| 0 <= j < n + 1 implies t[j] != '=' by {
        if j < n {
            assert(t[j] == k[j]);
        }
    }
    lemma_find_char(t, '=', n + 1);
    assert(find_char(t, '=') == Some(n + 1));
    lemma_leading_ws(k, 0);
    lemma_trailing_end(k, n);
    assert(trimmed(k) =~= k);
    let kk = t.take(n + 1);
    assert(kk =~= k.push(' '));
    lemma_leading_ws(kk, 0);
    lemma_trailing_end(kk, n);
    assert(trimmed(kk) =~= k);
    let vv = t.skip(n + 2);
    if v.len() > 0 {
        assert(vv =~= seq![' '] + v);
        lemma_leading_ws(vv, 1);
        lemma_trailing_end(vv, vv.len() as int);
        assert(trimmed(vv) =~= v);
    } else {
        assert(vv =~= Seq::<char>::empty());
        assert(trimmed(vv) =~= v);
    }
    assert(normalize_key(kk) == normalize_key(k));
}

/// A key of lowercase letters, digits and '_' that `str::to_lowercase`
/// leaves alone is its own normalized form.
pub proof fn lemma_normalize_plain_key(k: Seq<char>)
    requires
        clean_key(k),
        lowercase(k) == k,
        forall|i: int| 0 <= i < k.len() ==> k[i] != ' ',
    ensures
        normalize_key(k) == k,
{
    lemma_leading_ws(k, 0);
    lemma_trailing_end(k, k.len() as int);
    assert(trimmed(k) =~= k);
    assert(replace_char(k, ' ', '_') =~= k);
}


/// `kv` with the pair (key, value) added when there is a value.
pub open spec fn opt_pair(kv: Seq<(Seq<char>, Seq<char>)>, key: Seq<char>, v: Option<Seq<char>>) -> Seq<(Seq<char>, Seq<char>)> {
    match v {
        Some(t) => kv.push((key, t)),
        None => kv,
    }
}

/// Whether an optional value is clean (see `clean_value`).
pub open spec fn opt_clean(v: Option<Seq<char>>) -> bool {
    match v {
        Some(t) => clean_value(t),
        None => true,
    }
}

/// Whether an optional text holds no line break.
pub open spec fn opt_no_newline(v: Option<Seq<char>>) -> bool {
    match v {
        Some(t) => no_newline(t),
        None => true,
    }
}

/// Whether the texts that go into an export can be read back as they are:
/// no line breaks in the comment texts, and clean text values.
pub open spec fn export_texts_clean(at: Seq<char>, firmware: Option<Seq<char>>, c: ConfigView, f: FloatTexts) -> bool {
    &&& no_newline(at)
    &&& opt_no_newline(firmware)
    &&& opt_no_newline(c.model_name)
    &&& opt_clean(c.view_pin)
    &&& opt_clean(c.data_tag)
    &&& opt_clean(c.local_name)
    &&& opt_clean(opt_view(f.battery_threshold))
    &&& opt_clean(opt_view(f.system_zero))
    &&& opt_clean(opt_view(f.data_gain))
    &&& opt_clean(opt_view(f.data_offset))
    &&& opt_clean(opt_view(f.display_min))
    &&& opt_clean(opt_view(f.display_max))
    &&& opt_clean(opt_view(f.filter_level))
    &&& opt_clean(opt_view(f.fast_level))
}

/// Whether `str::to_lowercase` leaves the configuration keys as they are and
/// turns the advanced parameters' labels into the keys that the export's
/// reader expects. Checked at run time by `text_keys_check`.
pub open spec fn text_keys_lowercase() -> bool {
    &&& lowercase("data_rate"@) == "data_rate"@
    &&& lowercase("resolution"@) == "resolution"@
    &&& lowercase("battery_threshold"@) == "battery_threshold"@
    &&& lowercase("view_pin"@) == "view_pin"@
    &&& lowercase("system_zero"@) == "system_zero"@
    &&& lowercase("config_pin"@) == "config_pin"@
    &&& lowercase("data_tag"@) == "data_tag"@
    &&& lowercase("local_name"@) == "local_name"@
    &&& lowercase("data_units"@) == "data_units"@
    &&& lowercase("sensitivity_range"@) == "sensitivity_range"@
    &&& lowercase("data_gain"@) == "data_gain"@
    &&& lowercase("data_offset"@) == "data_offset"@
    &&& lowercase("cal_pin"@) == "cal_pin"@
    &&& lowercase("cal_units"@) == "cal_units"@
    &&& adv_key(AdvancedParam::DisplayMin) == "display_min"@
    &&& adv_key(AdvancedParam::DisplayMax) == "display_max"@
    &&& adv_key(AdvancedParam::FilterLevel) == "filter_level"@
    &&& adv_key(AdvancedParam::FilterSteps) == "filter_steps"@
    &&& adv_key(AdvancedParam::LinDirection) == "lin_direction"@
    &&& adv_key(AdvancedParam::DigitalOutputFunction) == "digital_output_func"@
    &&& adv_key(AdvancedParam::FastMode) == "fast_mode"@
    &&& adv_key(AdvancedParam::FastDataRate) == "fast_data_rate"@
    &&& adv_key(AdvancedParam::FastDuration) == "fast_duration"@
    &&& adv_key(AdvancedParam::FastLevel) == "fast_level"@
}

fn lowercase_keeps(key: &str) -> (b: bool)
    ensures
        b == (lowercase(key@) == key@),
{
    let low = to_lowercase_text(key);
    low == String::from_str(key)
}

fn adv_key_is(p: AdvancedParam, key: &str) -> (b: bool)
    ensures
        b == (adv_key(p) == key@),
{
    let k = replace_spaces_of_lowercase(p.label());
    k == String::from_str(key)
}

/// Whether `text_keys_lowercase` holds, found by lowercasing the keys.
pub fn text_keys_check() -> (b: bool)
    ensures
        b == text_keys_lowercase(),
{
    lowercase_keeps("data_rate") && lowercase_keeps("resolution") && lowercase_keeps("battery_threshold")
        && lowercase_keeps("view_pin") && lowercase_keeps("system_zero") && lowercase_keeps("config_pin")
        && lowercase_keeps("data_tag") && lowercase_keeps("local_name") && lowercase_keeps("data_units")
        && lowercase_keeps("sensitivity_range") && lowercase_keeps("data_gain") && lowercase_keeps(
        "data_offset",
    ) && lowercase_keeps("cal_pin") && lowercase_keeps("cal_units") && adv_key_is(
        AdvancedParam::DisplayMin,
        "display_min",
    ) && adv_key_is(AdvancedParam::DisplayMax, "display_max") && adv_key_is(
        AdvancedParam::FilterLevel,
        "filter_level",
    ) && adv_key_is(AdvancedParam::FilterSteps, "filter_steps") && adv_key_is(
        AdvancedParam::LinDirection,
        "lin_direction",
    ) && adv_key_is(AdvancedParam::DigitalOutputFunction, "digital_output_func") && adv_key_is(
        AdvancedParam::FastMode,
        "fast_mode",
    ) && adv_key_is(AdvancedParam::FastDataRate, "fast_data_rate") && adv_key_is(
        AdvancedParam::FastDuration,
        "fast_duration",
    ) && adv_key_is(AdvancedParam::FastLevel, "fast_level")
}


/// A key that is clean and holds no space.
pub open spec fn plain_key(k: Seq<char>) -> bool {
    &&& clean_key(k)
    &&& forall|i: int| 0 <= i < k.len() ==> k[i] != ' '
}

pub(crate) proof fn lemma_decimal_clean(n: nat)
    ensures
        clean_value(decimal(n)),
{
    lemma_decimal_digits(n);
    let d = decimal(n);
    assert forall|i: int| 0 <= i < d.len() implies d[i] != '\n' && !is_white_space(d[i]) by {
        assert(digit_value(d[i], 10) is Some);
    }
}

proof fn lemma_dec_clean(v: Option<u32>, w: Option<u8>)
    ensures
        opt_clean(dec32(v)),
        opt_clean(dec8(w)),
{
    if let Some(x) = v {
        lemma_decimal_clean(x as nat);
    }
    if let Some(x) = w {
        lemma_decimal_clean(x as nat);
    }
}

proof fn lemma_push_skipped(l: Seq<Seq<char>>, x: Seq<char>)
    requires
        lines_clean(l),
        no_newline(x),
        x.len() == 0 || x[0] == '#' || x[0] == '[',
    ensures
        lines_pairs(l.push(x)) == lines_pairs(l),
        lines_clean(l.push(x)),
{
    lemma_lines_pairs_push(l, x);
    if x.len() > 0 {
        lemma_line_pair_skipped(x);
    } else {
        assert(trimmed(x).len() == 0);
    }
    assert forall|i: int| 0 <= i < l.push(x).len() implies no_newline(#[trigger] l.push(x)[i]) by {
        if i < l.len() {
            assert(l.push(x)[i] == l[i]);
        }
    }
}

proof fn lemma_opt_line(l: Seq<Seq<char>>, key: Seq<char>, v: Option<Seq<char>>)
    requires
        lines_clean(l),
        clean_key(key),
        opt_clean(v),
    ensures
        lines_pairs(opt_line(l, key, v)) == opt_pair(lines_pairs(l), normalize_key(key), v),
        lines_clean(opt_line(l, key, v)),
{
    if let Some(t) = v {
        lemma_line_pair_kv(key, t);
        lemma_lines_pairs_push(l, key_value_line(key, t));
        let m = l.push(key_value_line(key, t));
        assert forall|i: int| 0 <= i < m.len() implies no_newline(#[trigger] m[i]) by {
            if i < l.len() {
                assert(m[i] == l[i]);
            }
        }
    }
}

proof fn lemma_config_keys_plain()
    ensures
        plain_key("data_rate"@),
        plain_key("resolution"@),
        plain_key("battery_threshold"@),
        plain_key("view_pin"@),
        plain_key("system_zero"@),
        plain_key("config_pin"@),
        plain_key("data_tag"@),
        plain_key("local_name"@),
        plain_key("data_units"@),
        plain_key("sensitivity_range"@),
        plain_key("data_gain"@),
        plain_key("data_offset"@),
        plain_key("cal_pin"@),
        plain_key("cal_units"@),
{
    reveal_strlit("data_rate");
    reveal_strlit("resolution");
    reveal_strlit("battery_threshold");
    reveal_strlit("view_pin");
    reveal_strlit("system_zero");
    reveal_strlit("config_pin");
    reveal_strlit("data_tag");
    reveal_strlit("local_name");
    reveal_strlit("data_units");
    reveal_strlit("sensitivity_range");
    reveal_strlit("data_gain");
    reveal_strlit("data_offset");
    reveal_strlit("cal_pin");
    reveal_strlit("cal_units");
}

/// The label of an exported advanced parameter is read back as its key.
proof fn lemma_label_key(p: AdvancedParam)
    requires
        !is_read_only(p),
    ensures
        clean_key(param_label(p)),
        normalize_key(param_label(p)) == adv_key(p),
{
    reveal_strlit("Display Min");
    reveal_strlit("Display Max");
    reveal_strlit("Filter Level");
    reveal_strlit("Filter Steps");
    reveal_strlit("Lin Direction");
    reveal_strlit("Digital Output Func");
    reveal_strlit("Fast Mode");
    reveal_strlit("Fast Data Rate");
    reveal_strlit("Fast Duration");
    reveal_strlit("Fast Level");
    let k = param_label(p);
    assert(clean_key(k));
    lemma_leading_ws(k, 0);
    lemma_trailing_end(k, k.len() as int);
    assert(trimmed(k) =~= k);
}

proof fn lemma_header(at: Seq<char>, model: Option<Seq<char>>, serial: Option<u32>, firmware: Option<Seq<char>>)
    requires
        no_newline(at),
        opt_no_newline(model),
        opt_no_newline(firmware),
    ensures
        lines_clean(header_lines(at, model, serial, firmware)),
        lines_pairs(header_lines(at, model, serial, firmware)) == Seq::<(Seq<char>, Seq<char>)>::empty(),
{
    reveal_strlit("# B24 Configuration Export");
    reveal_strlit("# Exported: ");
    reveal_strlit("# Model: ");
    reveal_strlit("# Serial: ");
    reveal_strlit("# Firmware: ");
    let e = Seq::<Seq<char>>::empty();
    let a = "# B24 Configuration Export"@;
    let b = "# Exported: "@ + at;
    assert(no_newline(b)) by {
        assert forall|i: int| 0 <= i < b.len() implies b[i] != '\n' by {
            if i >= 12 {
                assert(b[i] == at[i - 12]);
            }
        }
    }
    assert(lines_pairs(e) == Seq::<(Seq<char>, Seq<char>)>::empty());
    lemma_push_skipped(e, a);
    lemma_push_skipped(e.push(a), b);
    let h0 = seq![a, b];
    assert(h0 =~= e.push(a).push(b));
    let h1 = match model {
        Some(m) => h0.push("# Model: "@ + m),
        None => h0,
    };
    if let Some(m) = model {
        let x = "# Model: "@ + m;
        assert(no_newline(x)) by {
            assert forall|i: int| 0 <= i < x.len() implies x[i] != '\n' by {
                if i >= 9 {
                    assert(x[i] == m[i - 9]);
                }
            }
        }
        lemma_push_skipped(h0, x);
    }
    let h2 = match serial {
        Some(n) => h1.push("# Serial: "@ + decimal(n as nat)),
        None => h1,
    };
    if let Some(n) = serial {
        lemma_decimal_clean(n as nat);
        let d = decimal(n as nat);
        let x = "# Serial: "@ + d;
        assert(no_newline(x)) by {
            assert forall|i: int| 0 <= i < x.len() implies x[i] != '\n' by {
                if i >= 10 {
                    assert(x[i] == d[i - 10]);
                }
            }
        }
        lemma_push_skipped(h1, x);
    }
    let h3 = match firmware {
        Some(t) => h2.push("# Firmware: "@ + t),
        None => h2,
    };
    if let Some(t) = firmware {
        let x = "# Firmware: "@ + t;
        assert(no_newline(x)) by {
            assert forall|i: int| 0 <= i < x.len() implies x[i] != '\n' by {
                if i >= 12 {
                    assert(x[i] == t[i - 12]);
                }
            }
        }
        lemma_push_skipped(h2, x);
    }
    lemma_push_skipped(h3, Seq::empty());
}

/// The pairs of the configuration section.
pub open spec fn config_section_pairs(c: ConfigView, f: FloatTexts) -> Seq<(Seq<char>, Seq<char>)> {
    let p1 = opt_pair(Seq::empty(), "data_rate"@, dec32(c.data_rate));
    let p2 = opt_pair(p1, "resolution"@, dec8(c.resolution));
    let p3 = opt_pair(p2, "battery_threshold"@, opt_view(f.battery_threshold));
    let p4 = opt_pair(p3, "view_pin"@, c.view_pin);
    let p5 = opt_pair(p4, "system_zero"@, opt_view(f.system_zero));
    let p6 = opt_pair(p5, "config_pin"@, dec32(c.config_pin));
    let p7 = opt_pair(p6, "data_tag"@, c.data_tag);
    let p8 = opt_pair(p7, "local_name"@, c.local_name);
    opt_pair(p8, "data_units"@, dec8(c.data_units))
}

/// `kv` with the pairs of the calibration section added.
pub open spec fn calibration_section_pairs(
    kv: Seq<(Seq<char>, Seq<char>)>,
    cal: CalibrationView,
    f: FloatTexts,
) -> Seq<(Seq<char>, Seq<char>)> {
    let p1 = opt_pair(kv, "sensitivity_range"@, dec8(cal.sensitivity_range));
    let p2 = opt_pair(p1, "data_gain"@, opt_view(f.data_gain));
    let p3 = opt_pair(p2, "data_offset"@, opt_view(f.data_offset));
    let p4 = opt_pair(p3, "cal_pin"@, dec32(cal.cal_pin));
    opt_pair(p4, "cal_units"@, dec8(cal.cal_units))
}

/// `kv` with the pairs of the first `n` advanced parameters added.
pub open spec fn advanced_section_pairs(
    kv: Seq<(Seq<char>, Seq<char>)>,
    values: Map<u8, Vec<u8>>,
    f: FloatTexts,
    n: int,
) -> Seq<(Seq<char>, Seq<char>)>
    decreases n,
{
    if n <= 0 {
        kv
    } else {
        let q = advanced_section_pairs(kv, values, f, n - 1);
        let p = all_advanced_params()[n - 1];
        if is_read_only(p) {
            q
        } else {
            opt_pair(q, adv_key(p), adv_value_text(values, f, p))
        }
    }
}

/// The key/value pairs that the configuration import reads from an export.
pub open spec fn export_pairs(
    c: ConfigView,
    cal: CalibrationView,
    values: Map<u8, Vec<u8>>,
    f: FloatTexts,
) -> Seq<(Seq<char>, Seq<char>)> {
    advanced_section_pairs(calibration_section_pairs(config_section_pairs(c, f), cal, f), values, f, 12)
}

proof fn lemma_config_section(h: Seq<Seq<char>>, c: ConfigView, f: FloatTexts)
    requires
        lines_clean(h),
        lines_pairs(h) == Seq::<(Seq<char>, Seq<char>)>::empty(),
        text_keys_lowercase(),
        opt_clean(c.view_pin),
        opt_clean(c.data_tag),
        opt_clean(c.local_name),
        opt_clean(opt_view(f.battery_threshold)),
        opt_clean(opt_view(f.system_zero)),
    ensures
        lines_clean(config_lines(h, c, f)),
        lines_pairs(config_lines(h, c, f)) == config_section_pairs(c, f),
{
    reveal_strlit("[Configuration]");
    lemma_config_keys_plain();
    lemma_dec_clean(c.data_rate, c.resolution);
    lemma_dec_clean(c.config_pin, c.data_units);
    lemma_normalize_plain_key("data_rate"@);
    lemma_normalize_plain_key("resolution"@);
    lemma_normalize_plain_key("battery_threshold"@);
    lemma_normalize_plain_key("view_pin"@);
    lemma_normalize_plain_key("system_zero"@);
    lemma_normalize_plain_key("config_pin"@);
    lemma_normalize_plain_key("data_tag"@);
    lemma_normalize_plain_key("local_name"@);
    lemma_normalize_plain_key("data_units"@);
    let l0 = h.push("[Configuration]"@);
    lemma_push_skipped(h, "[Configuration]"@);
    let l1 = opt_line(l0, "data_rate"@, dec32(c.data_rate));
    lemma_opt_line(l0, "data_rate"@, dec32(c.data_rate));
    let l2 = opt_line(l1, "resolution"@, dec8(c.resolution));
    lemma_opt_line(l1, "resolution"@, dec8(c.resolution));
    let l3 = opt_line(l2, "battery_threshold"@, opt_view(f.battery_threshold));
    lemma_opt_line(l2, "battery_threshold"@, opt_view(f.battery_threshold));
    let l4 = opt_line(l3, "view_pin"@, c.view_pin);
    lemma_opt_line(l3, "view_pin"@, c.view_pin);
    let l5 = opt_line(l4, "system_zero"@, opt_view(f.system_zero));
    lemma_opt_line(l4, "system_zero"@, opt_view(f.system_zero));
    let l6 = opt_line(l5, "config_pin"@, dec32(c.config_pin));
    lemma_opt_line(l5, "config_pin"@, dec32(c.config_pin));
    let l7 = opt_line(l6, "data_tag"@, c.data_tag);
    lemma_opt_line(l6, "data_tag"@, c.data_tag);
    let l8 = opt_line(l7, "local_name"@, c.local_name);
    lemma_opt_line(l7, "local_name"@, c.local_name);
    let l9 = opt_line(l8, "data_units"@, dec8(c.data_units));
    lemma_opt_line(l8, "data_units"@, dec8(c.data_units));
    lemma_push_skipped(l9, Seq::empty());
}

proof fn lemma_calibration_section(l: Seq<Seq<char>>, kv: Seq<(Seq<char>, Seq<char>)>, cal: CalibrationView, f: FloatTexts)
    requires
        lines_clean(l),
        lines_pairs(l) == kv,
        text_keys_lowercase(),
        opt_clean(opt_view(f.data_gain)),
        opt_clean(opt_view(f.data_offset)),
    ensures
        lines_clean(calibration_lines(l, cal, f)),
        lines_pairs(calibration_lines(l, cal, f)) == calibration_section_pairs(kv, cal, f),
{
    reveal_strlit("[Calibration]");
    lemma_config_keys_plain();
    lemma_dec_clean(cal.cal_pin, cal.sensitivity_range);
    lemma_dec_clean(cal.cal_pin, cal.cal_units);
    lemma_normalize_plain_key("sensitivity_range"@);
    lemma_normalize_plain_key("data_gain"@);
    lemma_normalize_plain_key("data_offset"@);
    lemma_normalize_plain_key("cal_pin"@);
    lemma_normalize_plain_key("cal_units"@);
    let l0 = l.push("[Calibration]"@);
    lemma_push_skipped(l, "[Calibration]"@);
    let l1 = opt_line(l0, "sensitivity_range"@, dec8(cal.sensitivity_range));
    lemma_opt_line(l0, "sensitivity_range"@, dec8(cal.sensitivity_range));
    let l2 = opt_line(l1, "data_gain"@, opt_view(f.data_gain));
    lemma_opt_line(l1, "data_gain"@, opt_view(f.data_gain));
    let l3 = opt_line(l2, "data_offset"@, opt_view(f.data_offset));
    lemma_opt_line(l2, "data_offset"@, opt_view(f.data_offset));
    let l4 = opt_line(l3, "cal_pin"@, dec32(cal.cal_pin));
    lemma_opt_line(l3, "cal_pin"@, dec32(cal.cal_pin));
    let l5 = opt_line(l4, "cal_units"@, dec8(cal.cal_units));
    lemma_opt_line(l4, "cal_units"@, dec8(cal.cal_units));
    lemma_push_skipped(l5, Seq::empty());
}

proof fn lemma_advanced_section(
    l: Seq<Seq<char>>,
    kv: Seq<(Seq<char>, Seq<char>)>,
    values: Map<u8, Vec<u8>>,
    f: FloatTexts,
    n: int,
)
    requires
        0 <= n <= 12,
        lines_clean(l),
        lines_pairs(l) == kv,
        opt_clean(opt_view(f.display_min)),
        opt_clean(opt_view(f.display_max)),
        opt_clean(opt_view(f.filter_level)),
        opt_clean(opt_view(f.fast_level)),
    ensures
        lines_clean(advanced_lines(l, values, f, n)),
        lines_pairs(advanced_lines(l, values, f, n)) == advanced_section_pairs(kv, values, f, n),
    decreases n,
{
    if n == 0 {
        reveal_strlit("[Advanced]");
        lemma_push_skipped(l, "[Advanced]"@);
    } else {
        lemma_advanced_section(l, kv, values, f, n - 1);
        let p = all_advanced_params()[n - 1];
        if !is_read_only(p) {
            lemma_label_key(p);
            let idx = param_index(p);
            lemma_dec_clean(adv_u32(values, idx), adv_u8(values, idx));
            assert(opt_clean(adv_value_text(values, f, p)));
            lemma_opt_line(advanced_lines(l, values, f, n - 1), param_label(p), adv_value_text(values, f, p));
        }
    }
}

/// The pairs that the configuration import reads from an export.
proof fn lemma_export_pairs(
    at: Seq<char>,
    firmware: Option<Seq<char>>,
    c: ConfigView,
    cal: CalibrationView,
    values: Map<u8, Vec<u8>>,
    f: FloatTexts,
)
    requires
        text_keys_lowercase(),
        export_texts_clean(at, firmware, c, f),
    ensures
        config_pairs(join_lines(export_lines(at, firmware, c, cal, values, f))) == export_pairs(c, cal, values, f),
{
    let h = header_lines(at, c.model_name, c.serial_number, firmware);
    lemma_header(at, c.model_name, c.serial_number, firmware);
    lemma_config_section(h, c, f);
    let l1 = config_lines(h, c, f);
    lemma_calibration_section(l1, config_section_pairs(c, f), cal, f);
    let l2 = calibration_lines(l1, cal, f);
    lemma_advanced_section(l2, calibration_section_pairs(config_section_pairs(c, f), cal, f), values, f, 12);
    let l3 = advanced_lines(l2, values, f, 12);
    lemma_push_skipped(l3, Seq::empty());
    let lines = l3.push(Seq::empty());
    assert(lines == export_lines(at, firmware, c, cal, values, f));
    lemma_split_join(lines);
}


proof fn lemma_pair_value_opt(kv: Seq<(Seq<char>, Seq<char>)>, key: Seq<char>, v: Option<Seq<char>>, k: Seq<char>)
    ensures
        pair_value(opt_pair(kv, key, v), k) == (if v is Some && key == k {
            v
        } else {
            pair_value(kv, k)
        }),
{
    if let Some(t) = v {
        assert(kv.push((key, t)).drop_last() =~= kv);
    }
}

pub(crate) proof fn lemma_pair_value_opt_all()
    ensures
        forall|kv: Seq<(Seq<char>, Seq<char>)>, key: Seq<char>, v: Option<Seq<char>>, k: Seq<char>|
            #[trigger] pair_value(opt_pair(kv, key, v), k) == (if v is Some && key == k {
                v
            } else {
                pair_value(kv, k)
            }),
{
    assert forall|kv: Seq<(Seq<char>, Seq<char>)>, key: Seq<char>, v: Option<Seq<char>>, k: Seq<char>|
        #[trigger] pair_value(opt_pair(kv, key, v), k) == (if v is Some && key == k {
            v
        } else {
            pair_value(kv, k)
        }) by {
        lemma_pair_value_opt(kv, key, v, k);
    }
}



/// The value the import finds for each key of an export.
proof fn lemma_export_lookups(c: ConfigView, cal: CalibrationView, values: Map<u8, Vec<u8>>, f: FloatTexts)
    requires
        text_keys_lowercase(),
    ensures
        ({
            let kv = export_pairs(c, cal, values, f);
            &&& pair_value(kv, "data_rate"@) == dec32(c.data_rate)
            &&& pair_value(kv, "resolution"@) == dec8(c.resolution)
            &&& pair_value(kv, "battery_threshold"@) == opt_view(f.battery_threshold)
            &&& pair_value(kv, "view_pin"@) == c.view_pin
            &&& pair_value(kv, "system_zero"@) == opt_view(f.system_zero)
            &&& pair_value(kv, "config_pin"@) == dec32(c.config_pin)
            &&& pair_value(kv, "data_tag"@) == c.data_tag
            &&& pair_value(kv, "local_name"@) == c.local_name
            &&& pair_value(kv, "data_units"@) == dec8(c.data_units)
            &&& pair_value(kv, "sensitivity_range"@) == dec8(cal.sensitivity_range)
            &&& pair_value(kv, "data_gain"@) == opt_view(f.data_gain)
            &&& pair_value(kv, "data_offset"@) == opt_view(f.data_offset)
            &&& pair_value(kv, "cal_pin"@) == dec32(cal.cal_pin)
            &&& pair_value(kv, "cal_units"@) == dec8(cal.cal_units)
            &&& pair_value(kv, "display_min"@) == adv_value_text(values, f, AdvancedParam::DisplayMin)
            &&& pair_value(kv, "display_max"@) == adv_value_text(values, f, AdvancedParam::DisplayMax)
            &&& pair_value(kv, "filter_level"@) == adv_value_text(values, f, AdvancedParam::FilterLevel)
            &&& pair_value(kv, "filter_steps"@) == adv_value_text(values, f, AdvancedParam::FilterSteps)
            &&& pair_value(kv, "lin_direction"@) == adv_value_text(values, f, AdvancedParam::LinDirection)
            &&& pair_value(kv, "digital_output_func"@) == adv_value_text(values, f, AdvancedParam::DigitalOutputFunction)
            &&& pair_value(kv, "fast_mode"@) == adv_value_text(values, f, AdvancedParam::FastMode)
            &&& pair_value(kv, "fast_data_rate"@) == adv_value_text(values, f, AdvancedParam::FastDataRate)
            &&& pair_value(kv, "fast_duration"@) == adv_value_text(values, f, AdvancedParam::FastDuration)
            &&& pair_value(kv, "fast_level"@) == adv_value_text(values, f, AdvancedParam::FastLevel)
        }),
{
    lemma_text_keys_distinct();
    let kv0 = config_section_pairs(c, f);
    let kv1 = calibration_section_pairs(kv0, cal, f);
    lemma_advanced_unrolled(kv1, values, f);
    lemma_config_own(c, f);
    lemma_advanced_other(kv1, values, f, "data_rate"@);
    lemma_calibration_other(kv0, cal, f, "data_rate"@);
    lemma_advanced_other(kv1, values, f, "resolution"@);
    lemma_calibration_other(kv0, cal, f, "resolution"@);
    lemma_advanced_other(kv1, values, f, "battery_threshold"@);
    lemma_calibration_other(kv0, cal, f, "battery_threshold"@);
    lemma_advanced_other(kv1, values, f, "view_pin"@);
    lemma_calibration_other(kv0, cal, f, "view_pin"@);
    lemma_advanced_other(kv1, values, f, "system_zero"@);
    lemma_calibration_other(kv0, cal, f, "system_zero"@);
    lemma_advanced_other(kv1, values, f, "config_pin"@);
    lemma_calibration_other(kv0, cal, f, "config_pin"@);
    lemma_advanced_other(kv1, values, f, "data_tag"@);
    lemma_calibration_other(kv0, cal, f, "data_tag"@);
    lemma_advanced_other(kv1, values, f, "local_name"@);
    lemma_calibration_other(kv0, cal, f, "local_name"@);
    lemma_advanced_other(kv1, values, f, "data_units"@);
    lemma_calibration_other(kv0, cal, f, "data_units"@);
    lemma_advanced_other(kv1, values, f, "sensitivity_range"@);
    lemma_config_other(c, f, "sensitivity_range"@);
    lemma_advanced_other(kv1, values, f, "data_gain"@);
    lemma_config_other(c, f, "data_gain"@);
    lemma_advanced_other(kv1, values, f, "data_offset"@);
    lemma_config_other(c, f, "data_offset"@);
    lemma_advanced_other(kv1, values, f, "cal_pin"@);
    lemma_config_other(c, f, "cal_pin"@);
    lemma_advanced_other(kv1, values, f, "cal_units"@);
    lemma_config_other(c, f, "cal_units"@);
    lemma_calibration_other(kv0, cal, f, "display_min"@);
    lemma_config_other(c, f, "display_min"@);
    lemma_calibration_other(kv0, cal, f, "display_max"@);
    lemma_config_other(c, f, "display_max"@);
    lemma_calibration_other(kv0, cal, f, "filter_level"@);
    lemma_config_other(c, f, "filter_level"@);
    lemma_calibration_other(kv0, cal, f, "filter_steps"@);
    lemma_config_other(c, f, "filter_steps"@);
    lemma_calibration_other(kv0, cal, f, "lin_direction"@);
    lemma_config_other(c, f, "lin_direction"@);
    lemma_calibration_other(kv0, cal, f, "digital_output_func"@);
    lemma_config_other(c, f, "digital_output_func"@);
    lemma_calibration_other(kv0, cal, f, "fast_mode"@);
    lemma_config_other(c, f, "fast_mode"@);
    lemma_calibration_other(kv0, cal, f, "fast_data_rate"@);
    lemma_config_other(c, f, "fast_data_rate"@);
    lemma_calibration_other(kv0, cal, f, "fast_duration"@);
    lemma_config_other(c, f, "fast_duration"@);
    lemma_calibration_other(kv0, cal, f, "fast_level"@);
    lemma_config_other(c, f, "fast_level"@);
    lemma_calibration_own(kv0, cal, f);
    lemma_advanced_own(kv1, values, f);
}

proof fn lemma_kv_dec(r: Register, a: Option<u32>, b: Option<u8>)
    ensures
        kv_u32_write(r, dec32(a)) == opt_u32_write(r, a),
        kv_u8_write(r, dec8(b)) == opt_u8_write(r, b),
{
    if let Some(x) = a {
        lemma_decimal_roundtrip(x);
    }
    if let Some(x) = b {
        lemma_decimal_digits(x as nat);
    }
}

/// The register writes that restore a configuration: each configuration
/// and calibration register that was read written back with its value, the
/// float registers with the values `tf` read from their texts, in the
/// order of the configuration import.
pub open spec fn restored_writes(c: ConfigView, cal: CalibrationView, tf: TextFloats) -> Seq<(u128, Seq<u8>)> {
    let w0 = Seq::<(u128, Seq<u8>)>::empty();
    let w1 = add_write(w0, opt_u32_write(Register::DataRate, c.data_rate));
    let w2 = add_write(w1, opt_u8_write(Register::Resolution, c.resolution));
    let w3 = add_write(w2, f32_write(Register::BatteryThreshold, tf.battery_threshold));
    let w4 = match c.view_pin {
        Some(v) => w3.push(view_pin_write(v)),
        None => w3,
    };
    let w5 = add_write(w4, f32_write(Register::SystemZero, tf.system_zero));
    let w6 = add_write(w5, opt_u32_write(Register::ConfigPin, c.config_pin));
    let w7 = match c.data_tag {
        Some(v) => add_write(w6, tag_write(v)),
        None => w6,
    };
    let w8 = match c.local_name {
        Some(v) => w7.push((gap_device_name_value() as u128, encode_utf8(v))),
        None => w7,
    };
    let w9 = add_write(w8, opt_u8_write(Register::DataUnits, c.data_units));
    let w10 = add_write(w9, opt_u8_write(Register::SensitivityRange, cal.sensitivity_range));
    let w11 = add_write(w10, f32_write(Register::DataGain, tf.data_gain));
    let w12 = add_write(w11, f32_write(Register::DataOffset, tf.data_offset));
    let w13 = add_write(w12, opt_u32_write(Register::CalPin, cal.cal_pin));
    add_write(w13, opt_u8_write(Register::CalUnits, cal.cal_units))
}

/// The advanced write that restores a parameter: its stored value written
/// back (a float one with the value `tf` read from its text, when it was
/// exported); the read-only parameters are never written.
pub open spec fn restored_adv_write(values: Map<u8, Vec<u8>>, f: FloatTexts, tf: TextFloats, p: AdvancedParam) -> Option<(u8, Seq<u8>)> {
    if is_read_only(p) {
        None
    } else {
        match param_type(p) {
            ParamType::Float => match adv_float_text(f, p) {
                Some(_) => match adv_float(tf, p) {
                    Some(b) => Some((param_index(p), be32_bytes(b))),
                    None => None,
                },
                None => None,
            },
            ParamType::Uint32 => match adv_u32(values, param_index(p)) {
                Some(v) => Some((param_index(p), be32_bytes(v))),
                None => None,
            },
            ParamType::Uint8 => match adv_u8(values, param_index(p)) {
                Some(v) => Some((param_index(p), seq![v])),
                None => None,
            },
        }
    }
}

/// The advanced writes that restore the first `n` parameters, in order.
pub open spec fn restored_adv_writes(values: Map<u8, Vec<u8>>, f: FloatTexts, tf: TextFloats, n: int) -> Seq<(u8, Seq<u8>)>
    decreases n,
{
    if n <= 0 {
        Seq::empty()
    } else {
        let w = restored_adv_writes(values, f, tf, n - 1);
        match restored_adv_write(values, f, tf, all_advanced_params()[n - 1]) {
            Some(x) => w.push(x),
            None => w,
        }
    }
}

proof fn lemma_adv_write_restored(
    kv: Seq<(Seq<char>, Seq<char>)>,
    values: Map<u8, Vec<u8>>,
    f: FloatTexts,
    tf: TextFloats,
    p: AdvancedParam,
)
    requires
        !is_read_only(p) ==> pair_value(kv, adv_key(p)) == adv_value_text(values, f, p),
    ensures
        adv_write(kv, tf, p) == restored_adv_write(values, f, tf, p),
{
    let idx = param_index(p);
    if let Some(v) = adv_u32(values, idx) {
        lemma_decimal_roundtrip(v);
    }
    if let Some(v) = adv_u8(values, idx) {
        lemma_decimal_digits(v as nat);
    }
}

proof fn lemma_adv_writes_restored(
    kv: Seq<(Seq<char>, Seq<char>)>,
    values: Map<u8, Vec<u8>>,
    f: FloatTexts,
    tf: TextFloats,
    n: int,
)
    requires
        0 <= n <= 12,
        forall|p: AdvancedParam|
            !is_read_only(p) ==> pair_value(kv, #[trigger] adv_key(p)) == adv_value_text(values, f, p),
    ensures
        adv_writes(kv, tf, n) == restored_adv_writes(values, f, tf, n),
    decreases n,
{
    if n > 0 {
        lemma_adv_writes_restored(kv, values, f, tf, n - 1);
        let p = all_advanced_params()[n - 1];
        if !is_read_only(p) {
            assert(pair_value(kv, adv_key(p)) == adv_value_text(values, f, p));
        }
        lemma_adv_write_restored(kv, values, f, tf, p);
    }
}

/// Saving a configuration and loading it back restores it. Take the text
/// that `export_config_text` writes (from the registers `c` and `cal`, the
/// advanced values and the caller's float texts `f`), read as
/// `parse_config_text` reads it: the import finds each float text as it was
/// written, and, with `tf` the float values read from those texts, writes
/// every register and advanced parameter that was exported back with its
/// value (`restored_writes`, `restored_adv_writes`). This holds where the
/// texts hold no line breaks and no white space at their ends, and where
/// `str::to_lowercase` leaves the keys as `text_keys_check` finds.
pub proof fn lemma_config_export_import(
    at: Seq<char>,
    firmware: Option<Seq<char>>,
    c: ConfigView,
    cal: CalibrationView,
    values: Map<u8, Vec<u8>>,
    f: FloatTexts,
    tf: TextFloats,
)
    requires
        text_keys_lowercase(),
        export_texts_clean(at, firmware, c, f),
    ensures
        ({
            let kv = config_pairs(join_lines(export_lines(at, firmware, c, cal, values, f)));
            &&& text_import_writes(kv, tf) == restored_writes(c, cal, tf)
            &&& adv_writes(kv, tf, 12) == restored_adv_writes(values, f, tf, 12)
            &&& pair_value(kv, "battery_threshold"@) == opt_view(f.battery_threshold)
            &&& pair_value(kv, "system_zero"@) == opt_view(f.system_zero)
            &&& pair_value(kv, "data_gain"@) == opt_view(f.data_gain)
            &&& pair_value(kv, "data_offset"@) == opt_view(f.data_offset)
            &&& pair_value(kv, "display_min"@) == opt_view(f.display_min)
            &&& pair_value(kv, "display_max"@) == opt_view(f.display_max)
            &&& pair_value(kv, "filter_level"@) == opt_view(f.filter_level)
            &&& pair_value(kv, "fast_level"@) == opt_view(f.fast_level)
        }),
{
    lemma_export_pairs(at, firmware, c, cal, values, f);
    lemma_export_lookups(c, cal, values, f);
    let kv = export_pairs(c, cal, values, f);
    lemma_kv_dec(Register::DataRate, c.data_rate, c.resolution);
    lemma_kv_dec(Register::Resolution, c.data_rate, c.resolution);
    lemma_kv_dec(Register::ConfigPin, c.config_pin, c.data_units);
    lemma_kv_dec(Register::DataUnits, c.config_pin, c.data_units);
    lemma_kv_dec(Register::SensitivityRange, cal.cal_pin, cal.sensitivity_range);
    lemma_kv_dec(Register::CalPin, cal.cal_pin, cal.cal_units);
    lemma_kv_dec(Register::CalUnits, cal.cal_pin, cal.cal_units);
    assert forall|p: AdvancedParam| !is_read_only(p) implies pair_value(kv, #[trigger] adv_key(p))
        == adv_value_text(values, f, p) by {
        assert(p == AdvancedParam::DisplayMin || p == AdvancedParam::DisplayMax || p == AdvancedParam::FilterLevel
            || p == AdvancedParam::FilterSteps || p == AdvancedParam::LinDirection
            || p == AdvancedParam::DigitalOutputFunction || p == AdvancedParam::FastMode
            || p == AdvancedParam::FastDataRate || p == AdvancedParam::FastDuration || p == AdvancedParam::FastLevel);
    }
    lemma_adv_writes_restored(kv, values, f, tf, 12);
}


/// The lengths and some characters of the text format's keys, enough to
/// tell any two of them apart.
proof fn lemma_text_keys_distinct()
    ensures
        "data_rate"@.len() == 9,
        "data_rate"@[0] == 'd',
        "data_rate"@[5] == 'r',
        "resolution"@.len() == 10,
        "resolution"@[0] == 'r',
        "battery_threshold"@.len() == 17,
        "battery_threshold"@[0] == 'b',
        "view_pin"@.len() == 8,
        "view_pin"@[0] == 'v',
        "system_zero"@.len() == 11,
        "system_zero"@[0] == 's',
        "config_pin"@.len() == 10,
        "config_pin"@[0] == 'c',
        "data_tag"@.len() == 8,
        "data_tag"@[0] == 'd',
        "local_name"@.len() == 10,
        "local_name"@[0] == 'l',
        "data_units"@.len() == 10,
        "data_units"@[0] == 'd',
        "sensitivity_range"@.len() == 17,
        "sensitivity_range"@[0] == 's',
        "data_gain"@.len() == 9,
        "data_gain"@[0] == 'd',
        "data_gain"@[5] == 'g',
        "data_offset"@.len() == 11,
        "data_offset"@[0] == 'd',
        "data_offset"@[1] == 'a',
        "cal_pin"@.len() == 7,
        "cal_pin"@[0] == 'c',
        "cal_units"@.len() == 9,
        "cal_units"@[0] == 'c',
        "display_min"@.len() == 11,
        "display_min"@[0] == 'd',
        "display_min"@[1] == 'i',
        "display_min"@[9] == 'i',
        "display_max"@.len() == 11,
        "display_max"@[0] == 'd',
        "display_max"@[1] == 'i',
        "display_max"@[9] == 'a',
        "filter_level"@.len() == 12,
        "filter_level"@[0] == 'f',
        "filter_level"@[7] == 'l',
        "filter_steps"@.len() == 12,
        "filter_steps"@[0] == 'f',
        "filter_steps"@[7] == 's',
        "lin_direction"@.len() == 13,
        "lin_direction"@[0] == 'l',
        "digital_output_func"@.len() == 19,
        "digital_output_func"@[0] == 'd',
        "fast_mode"@.len() == 9,
        "fast_mode"@[0] == 'f',
        "fast_data_rate"@.len() == 14,
        "fast_data_rate"@[0] == 'f',
        "fast_duration"@.len() == 13,
        "fast_duration"@[0] == 'f',
        "fast_level"@.len() == 10,
        "fast_level"@[0] == 'f',
{
    reveal_strlit("data_rate");
    reveal_strlit("resolution");
    reveal_strlit("battery_threshold");
    reveal_strlit("view_pin");
    reveal_strlit("system_zero");
    reveal_strlit("config_pin");
    reveal_strlit("data_tag");
    reveal_strlit("local_name");
    reveal_strlit("data_units");
    reveal_strlit("sensitivity_range");
    reveal_strlit("data_gain");
    reveal_strlit("data_offset");
    reveal_strlit("cal_pin");
    reveal_strlit("cal_units");
    reveal_strlit("display_min");
    reveal_strlit("display_max");
    reveal_strlit("filter_level");
    reveal_strlit("filter_steps");
    reveal_strlit("lin_direction");
    reveal_strlit("digital_output_func");
    reveal_strlit("fast_mode");
    reveal_strlit("fast_data_rate");
    reveal_strlit("fast_duration");
    reveal_strlit("fast_level");
}


/// The advanced pairs of an export, written out parameter by parameter.
pub open spec fn advanced_pairs_unrolled(
    kv: Seq<(Seq<char>, Seq<char>)>,
    values: Map<u8, Vec<u8>>,
    f: FloatTexts,
) -> Seq<(Seq<char>, Seq<char>)> {
    let q0 = opt_pair(kv, "display_min"@, adv_value_text(values, f, AdvancedParam::DisplayMin));
    let q1 = opt_pair(q0, "display_max"@, adv_value_text(values, f, AdvancedParam::DisplayMax));
    let q2 = opt_pair(q1, "filter_level"@, adv_value_text(values, f, AdvancedParam::FilterLevel));
    let q3 = opt_pair(q2, "filter_steps"@, adv_value_text(values, f, AdvancedParam::FilterSteps));
    let q4 = opt_pair(q3, "lin_direction"@, adv_value_text(values, f, AdvancedParam::LinDirection));
    let q5 = opt_pair(q4, "digital_output_func"@, adv_value_text(values, f, AdvancedParam::DigitalOutputFunction));
    let q6 = opt_pair(q5, "fast_mode"@, adv_value_text(values, f, AdvancedParam::FastMode));
    let q7 = opt_pair(q6, "fast_data_rate"@, adv_value_text(values, f, AdvancedParam::FastDataRate));
    let q8 = opt_pair(q7, "fast_duration"@, adv_value_text(values, f, AdvancedParam::FastDuration));
    opt_pair(q8, "fast_level"@, adv_value_text(values, f, AdvancedParam::FastLevel))
}

proof fn lemma_advanced_unrolled(kv: Seq<(Seq<char>, Seq<char>)>, values: Map<u8, Vec<u8>>, f: FloatTexts)
    requires
        text_keys_lowercase(),
    ensures
        advanced_section_pairs(kv, values, f, 12) == advanced_pairs_unrolled(kv, values, f),
{
    reveal_with_fuel(advanced_section_pairs, 13);
}

proof fn lemma_advanced_other(kv: Seq<(Seq<char>, Seq<char>)>, values: Map<u8, Vec<u8>>, f: FloatTexts, k: Seq<char>)
    requires
        k != "display_min"@,
        k != "display_max"@,
        k != "filter_level"@,
        k != "filter_steps"@,
        k != "lin_direction"@,
        k != "digital_output_func"@,
        k != "fast_mode"@,
        k != "fast_data_rate"@,
        k != "fast_duration"@,
        k != "fast_level"@,
    ensures
        pair_value(advanced_pairs_unrolled(kv, values, f), k) == pair_value(kv, k),
{
    lemma_pair_value_opt_all();
}

proof fn lemma_calibration_other(kv: Seq<(Seq<char>, Seq<char>)>, cal: CalibrationView, f: FloatTexts, k: Seq<char>)
    requires
        k != "sensitivity_range"@,
        k != "data_gain"@,
        k != "data_offset"@,
        k != "cal_pin"@,
        k != "cal_units"@,
    ensures
        pair_value(calibration_section_pairs(kv, cal, f), k) == pair_value(kv, k),
{
    lemma_pair_value_opt_all();
}

proof fn lemma_config_other(c: ConfigView, f: FloatTexts, k: Seq<char>)
    requires
        k != "data_rate"@,
        k != "resolution"@,
        k != "battery_threshold"@,
        k != "view_pin"@,
        k != "system_zero"@,
        k != "config_pin"@,
        k != "data_tag"@,
        k != "local_name"@,
        k != "data_units"@,
    ensures
        pair_value(config_section_pairs(c, f), k) is None,
{
    lemma_pair_value_opt_all();
    assert(pair_value(Seq::<(Seq<char>, Seq<char>)>::empty(), k) is None);
}

proof fn lemma_config_own(c: ConfigView, f: FloatTexts)
    ensures
        pair_value(config_section_pairs(c, f), "data_rate"@) == dec32(c.data_rate),
        pair_value(config_section_pairs(c, f), "resolution"@) == dec8(c.resolution),
        pair_value(config_section_pairs(c, f), "battery_threshold"@) == opt_view(f.battery_threshold),
        pair_value(config_section_pairs(c, f), "view_pin"@) == c.view_pin,
        pair_value(config_section_pairs(c, f), "system_zero"@) == opt_view(f.system_zero),
        pair_value(config_section_pairs(c, f), "config_pin"@) == dec32(c.config_pin),
        pair_value(config_section_pairs(c, f), "data_tag"@) == c.data_tag,
        pair_value(config_section_pairs(c, f), "local_name"@) == c.local_name,
        pair_value(config_section_pairs(c, f), "data_units"@) == dec8(c.data_units),
{
    lemma_text_keys_distinct();
    lemma_pair_value_opt_all();
    let e = Seq::<(Seq<char>, Seq<char>)>::empty();
    assert(pair_value(e, "data_rate"@) is None);
    assert(pair_value(e, "resolution"@) is None);
    assert(pair_value(e, "battery_threshold"@) is None);
    assert(pair_value(e, "view_pin"@) is None);
    assert(pair_value(e, "system_zero"@) is None);
    assert(pair_value(e, "config_pin"@) is None);
    assert(pair_value(e, "data_tag"@) is None);
    assert(pair_value(e, "local_name"@) is None);
    assert(pair_value(e, "data_units"@) is None);
}

proof fn lemma_calibration_own(kv: Seq<(Seq<char>, Seq<char>)>, cal: CalibrationView, f: FloatTexts)
    requires
        pair_value(kv, "sensitivity_range"@) is None,
        pair_value(kv, "data_gain"@) is None,
        pair_value(kv, "data_offset"@) is None,
        pair_value(kv, "cal_pin"@) is None,
        pair_value(kv, "cal_units"@) is None,
    ensures
        pair_value(calibration_section_pairs(kv, cal, f), "sensitivity_range"@) == dec8(cal.sensitivity_range),
        pair_value(calibration_section_pairs(kv, cal, f), "data_gain"@) == opt_view(f.data_gain),
        pair_value(calibration_section_pairs(kv, cal, f), "data_offset"@) == opt_view(f.data_offset),
        pair_value(calibration_section_pairs(kv, cal, f), "cal_pin"@) == dec32(cal.cal_pin),
        pair_value(calibration_section_pairs(kv, cal, f), "cal_units"@) == dec8(cal.cal_units),
{
    lemma_text_keys_distinct();
    lemma_pair_value_opt_all();
}

proof fn lemma_advanced_own(kv: Seq<(Seq<char>, Seq<char>)>, values: Map<u8, Vec<u8>>, f: FloatTexts)
    requires
        pair_value(kv, "display_min"@) is None,
        pair_value(kv, "display_max"@) is None,
        pair_value(kv, "filter_level"@) is None,
        pair_value(kv, "filter_steps"@) is None,
        pair_value(kv, "lin_direction"@) is None,
        pair_value(kv, "digital_output_func"@) is None,
        pair_value(kv, "fast_mode"@) is None,
        pair_value(kv, "fast_data_rate"@) is None,
        pair_value(kv, "fast_duration"@) is None,
        pair_value(kv, "fast_level"@) is None,
    ensures
        pair_value(advanced_pairs_unrolled(kv, values, f), "display_min"@) == adv_value_text(values, f, AdvancedParam::DisplayMin),
        pair_value(advanced_pairs_unrolled(kv, values, f), "display_max"@) == adv_value_text(values, f, AdvancedParam::DisplayMax),
        pair_value(advanced_pairs_unrolled(kv, values, f), "filter_level"@) == adv_value_text(values, f, AdvancedParam::FilterLevel),
        pair_value(advanced_pairs_unrolled(kv, values, f), "filter_steps"@) == adv_value_text(values, f, AdvancedParam::FilterSteps),
        pair_value(advanced_pairs_unrolled(kv, values, f), "lin_direction"@) == adv_value_text(values, f, AdvancedParam::LinDirection),
        pair_value(advanced_pairs_unrolled(kv, values, f), "digital_output_func"@) == adv_value_text(values, f, AdvancedParam::DigitalOutputFunction),
        pair_value(advanced_pairs_unrolled(kv, values, f), "fast_mode"@) == adv_value_text(values, f, AdvancedParam::FastMode),
        pair_value(advanced_pairs_unrolled(kv, values, f), "fast_data_rate"@) == adv_value_text(values, f, AdvancedParam::FastDataRate),
        pair_value(advanced_pairs_unrolled(kv, values, f), "fast_duration"@) == adv_value_text(values, f, AdvancedParam::FastDuration),
        pair_value(advanced_pairs_unrolled(kv, values, f), "fast_level"@) == adv_value_text(values, f, AdvancedParam::FastLevel),
{
    lemma_text_keys_distinct();
    lemma_pair_value_opt_all();
}

} // verus!
