//! The linearisation table: the register read sequence, the assembly of
//! table rows from the coefficients read back, the upload of a
//! piecewise-linear calibration, and the calibration file reader and import.

use vstd::prelude::*;

use crate::ble::{is_write, BleCommand};
use crate::codec::{be32, be32_bytes, encode_u32_be, encode_u8, lemma_u32_roundtrip};
use crate::plans::{add_write, push_write, reg_uuid, writes_ok};
use crate::session::{all_calibration_uuid_values, Register};
use crate::text::{
    char_index, chars_of, config_value, find_char, lemma_split_lines_nonempty, lowercase, pair_texts,
    pair_value, parse_u8, parse_unsigned, split_lines, string_of_chars, to_lowercase_text, trim,
    trimmed,
};
use crate::types::DeviceAction;
use crate::uuids::{all_calibration_uuids, char_cal_units, char_sens_range, char_coeff_at_idx, char_data_gain, char_data_offset, char_lin_index, char_lin_points, char_lin_repeat};

verus! {

/// The name of the `j`-th coefficient read for a table of `n` points:
/// three per point (valid_from, gain, offset) and a final valid_to.
pub open spec fn lin_coefficient_name(j: int, n: int) -> Seq<char> {
    if j == 3 * n {
        "final_valid_to"@
    } else if j % 3 == 0 {
        "valid_from"@
    } else if j % 3 == 1 {
        "gain"@
    } else {
        "offset"@
    }
}

/// The sequence of (linearisation index to write, coefficient name) reads
/// that fetch a table of `num_points` points: for each point its valid_from,
/// gain and offset at indices 3i, 3i+1, 3i+2, then the final valid_to at
/// index 3 * num_points. The indices must fit in a byte.
pub fn linearisation_read_sequence(num_points: u8) -> (ops: Vec<(u8, &'static str)>)
    requires
        num_points <= 85,
    ensures
        ops@.len() == 3 * num_points + 1,
        forall|j: int|
            0 <= j < ops@.len() ==> #[trigger] ops@[j].0 == j && ops@[j].1@
                == lin_coefficient_name(j, num_points as int),
{
    let mut ops: Vec<(u8, &'static str)> = Vec::new();
    let mut i: u8 = 0;
    while i < num_points
        invariant
            i <= num_points <= 85,
            ops@.len() == 3 * i,
            forall|j: int|
                0 <= j < ops@.len() ==> #[trigger] ops@[j].0 == j && ops@[j].1@
                    == lin_coefficient_name(j, num_points as int),
        decreases num_points - i,
    {
        let base: u8 = i * 3;
        ops.push((base, "valid_from"));
        ops.push((base + 1, "gain"));
        ops.push((base + 2, "offset"));
        i = i + 1;
    }
    ops.push((num_points * 3, "final_valid_to"));
    ops
}

/// One row of the linearisation table, each coefficient carried as the bit
/// pattern of its IEEE 754 single-precision value.
#[derive(Debug, Clone, Copy, PartialEq, Eq, Structural)]
pub struct LinearisationRow {
    pub index: u8,
    pub valid_from: u32,
    pub gain: u32,
    pub offset: u32,
    pub valid_to: u32,
}

/// The number of rows that the coefficients `buf` fill for a table of
/// `num_points` points: those whose three coefficients were all read.
pub open spec fn lin_row_count(buf_len: int, num_points: int) -> int {
    if num_points < buf_len / 3 {
        num_points
    } else {
        buf_len / 3
    }
}

/// Row `i` assembled from the coefficients read: index i+1, coefficients
/// 3i..3i+2, and valid_to from coefficient 3i+3 (zero when it was not read).
pub open spec fn lin_row(buf: Seq<u32>, i: int) -> LinearisationRow {
    LinearisationRow {
        index: (i + 1) as u8,
        valid_from: buf[3 * i],
        gain: buf[3 * i + 1],
        offset: buf[3 * i + 2],
        valid_to: if 3 * i + 3 < buf.len() {
            buf[3 * i + 3]
        } else {
            0
        },
    }
}

/// Assemble the linearisation table from the coefficients read in the order
/// of `linearisation_read_sequence`; rows whose coefficients are missing are
/// left out.
pub fn build_linearisation_table(buf: &Vec<u32>, num_points: u8) -> (table: Vec<LinearisationRow>)
    ensures
        table@.len() == lin_row_count(buf@.len() as int, num_points as int),
        forall|i: int| 0 <= i < table@.len() ==> #[trigger] table@[i] == lin_row(buf@, i),
{
    let mut table: Vec<LinearisationRow> = Vec::new();
    let np = num_points as usize;
    let mut i: usize = 0;
    while i < np
        invariant
            np == num_points,
            i <= np,
            table@.len() == lin_row_count(buf@.len() as int, i as int),
            forall|k: int| 0 <= k < table@.len() ==> #[trigger] table@[k] == lin_row(buf@, k),
        decreases np - i,
    {
        let base = i * 3;
        if base + 2 < buf.len() {
            let valid_to: u32 = if base + 3 < buf.len() {
                buf[base + 3]
            } else {
                0
            };
            table.push(
                LinearisationRow {
                    index: (i + 1) as u8,
                    valid_from: buf[base],
                    gain: buf[base + 1],
                    offset: buf[base + 2],
                    valid_to,
                },
            );
        }
        i = i + 1;
    }
    table
}


/// One segment of a piecewise-linear calibration: the mV/V value from which
/// it applies, and its gain and offset, each carried as the bit pattern of
/// its IEEE 754 single-precision value.
#[derive(Debug, Clone, Copy, PartialEq, Eq, Structural)]
pub struct LinearisationSegment {
    pub valid_from: u32,
    pub gain: u32,
    pub offset: u32,
}

/// The `j`-th coefficient of the linearisation table that holds `segs`:
/// valid_from, gain and offset of segment `j / 3`, and at index
/// `3 * segs.len()` the final valid_to `last`.
pub open spec fn segment_coefficient(segs: Seq<LinearisationSegment>, last: u32, j: int) -> u32 {
    if j == 3 * segs.len() {
        last
    } else if j % 3 == 0 {
        segs[j / 3].valid_from
    } else if j % 3 == 1 {
        segs[j / 3].gain
    } else {
        segs[j / 3].offset
    }
}

/// All coefficients of the linearisation table that holds `segs`, in index order.
pub open spec fn segment_coefficients(segs: Seq<LinearisationSegment>, last: u32) -> Seq<u32> {
    Seq::new((3 * segs.len() + 1) as nat, |j: int| segment_coefficient(segs, last, j))
}

/// The bit pattern of the f32 value 1.0.
pub open spec fn unit_gain_bits() -> u32 {
    0x3F80_0000
}

/// The `k`-th register write that uploads a linearisation table: the repeat
/// count 3; for each coefficient index `j` the index, then the coefficient;
/// the number of segments; then a data gain of 1.0 and a data offset of 0.0.
pub open spec fn lin_plan_write(segs: Seq<LinearisationSegment>, last: u32, k: int) -> (u128, Seq<u8>) {
    let n = segs.len() as int;
    if k == 0 {
        (reg_uuid(Register::LinRepeat), seq![3u8])
    } else if k <= 6 * n + 2 {
        let j = (k - 1) / 2;
        if (k - 1) % 2 == 0 {
            (reg_uuid(Register::LinIndex), seq![j as u8])
        } else {
            (reg_uuid(Register::CoefficientAtIndex), be32_bytes(segment_coefficient(segs, last, j)))
        }
    } else if k == 6 * n + 3 {
        (reg_uuid(Register::LinPoints), seq![n as u8])
    } else if k == 6 * n + 4 {
        (reg_uuid(Register::DataGain), be32_bytes(unit_gain_bits()))
    } else {
        (reg_uuid(Register::DataOffset), be32_bytes(0))
    }
}

/// The register writes that upload a linearisation table, in order.
pub open spec fn lin_plan_writes(segs: Seq<LinearisationSegment>, last: u32) -> Seq<(u128, Seq<u8>)> {
    Seq::new((6 * segs.len() + 6) as nat, |k: int| lin_plan_write(segs, last, k))
}

proof fn lemma_take_push<A>(s: Seq<A>, m: int)
    requires
        0 <= m < s.len(),
    ensures
        s.take(m).push(s[m]) == s.take(m + 1),
{
    assert(s.take(m).push(s[m]) =~= s.take(m + 1));
}

fn push_plan_write(
    cmds: &mut Vec<BleCommand>,
    uuid: u128,
    data: Vec<u8>,
    Ghost(plan): Ghost<Seq<(u128, Seq<u8>)>>,
)
    requires
        old(cmds)@.len() < plan.len(),
        writes_ok(old(cmds)@, plan.take(old(cmds)@.len() as int)),
        (uuid, data@) == plan[old(cmds)@.len() as int],
    ensures
        final(cmds)@.len() == old(cmds)@.len() + 1,
        writes_ok(final(cmds)@, plan.take(final(cmds)@.len() as int)),
{
    let ghost m = cmds@.len() as int;
    proof {
        lemma_take_push(plan, m);
    }
    push_write(cmds, uuid, data, Ghost(plan.take(m)));
}

/// Appends, after the writes `w` already in `cmds`, the writes that upload
/// the table and the action that makes the device calculate its coefficients.
fn push_linearisation_plan(
    cmds: &mut Vec<BleCommand>,
    segments: &Vec<LinearisationSegment>,
    final_valid_to: u32,
    Ghost(w): Ghost<Seq<(u128, Seq<u8>)>>,
)
    requires
        segments@.len() <= 85,
        old(cmds)@.len() == w.len(),
        writes_ok(old(cmds)@, w),
    ensures
        final(cmds)@.len() == w.len() + 6 * segments@.len() + 7,
        writes_ok(final(cmds)@, w + lin_plan_writes(segments@, final_valid_to)),
        final(cmds)@[w.len() as int + 6 * segments@.len() + 6] == BleCommand::ExecuteAction(
            DeviceAction::CalculateCoefficients,
        ),
{
    let ghost segs = segments@;
    let ghost full = w + lin_plan_writes(segs, final_valid_to);
    let ghost m = w.len() as int;
    let n: usize = segments.len();
    assert(full.take(m) =~= w);
    push_plan_write(cmds, char_lin_repeat(), encode_u8(3), Ghost(full));
    let mut i: usize = 0;
    while i < n
        invariant
            segs == segments@,
            n == segs.len() <= 85,
            full == w + lin_plan_writes(segs, final_valid_to),
            m == w.len(),
            i <= n,
            cmds@.len() == m + 6 * i + 1,
            writes_ok(cmds@, full.take(cmds@.len() as int)),
        decreases n - i,
    {
        let seg = segments[i];
        let base: u8 = (i as u8) * 3;
        assert(segment_coefficient(segs, final_valid_to, 3 * i) == seg.valid_from);
        assert(segment_coefficient(segs, final_valid_to, 3 * i + 1) == seg.gain);
        assert(segment_coefficient(segs, final_valid_to, 3 * i + 2) == seg.offset);
        push_plan_write(cmds, char_lin_index(), encode_u8(base), Ghost(full));
        push_plan_write(cmds, char_coeff_at_idx(), encode_u32_be(seg.valid_from), Ghost(full));
        push_plan_write(cmds, char_lin_index(), encode_u8(base + 1), Ghost(full));
        push_plan_write(cmds, char_coeff_at_idx(), encode_u32_be(seg.gain), Ghost(full));
        push_plan_write(cmds, char_lin_index(), encode_u8(base + 2), Ghost(full));
        push_plan_write(cmds, char_coeff_at_idx(), encode_u32_be(seg.offset), Ghost(full));
        i = i + 1;
    }
    let last_index: u8 = (n as u8) * 3;
    push_plan_write(cmds, char_lin_index(), encode_u8(last_index), Ghost(full));
    push_plan_write(cmds, char_coeff_at_idx(), encode_u32_be(final_valid_to), Ghost(full));
    push_plan_write(cmds, char_lin_points(), encode_u8(n as u8), Ghost(full));
    push_plan_write(cmds, char_data_gain(), encode_u32_be(0x3F80_0000), Ghost(full));
    push_plan_write(cmds, char_data_offset(), encode_u32_be(0), Ghost(full));
    assert(full.take(full.len() as int) =~= full);
    let ghost before = cmds@;
    cmds.push(BleCommand::ExecuteAction(DeviceAction::CalculateCoefficients));
    assert forall|k: int| 0 <= k < full.len() implies is_write(#[trigger] cmds@[k], full[k].0, full[k].1) by {
        assert(cmds@[k] == before[k]);
    }
}

/// The commands that upload a piecewise-linear calibration of
/// `segments` (at most 85, so that every coefficient index fits in a byte)
/// whose last segment ends at `final_valid_to`: the writes of
/// `lin_plan_writes`, then the action that makes the device calculate its
/// coefficients.
pub fn linearisation_write_plan(segments: &Vec<LinearisationSegment>, final_valid_to: u32) -> (cmds: Vec<BleCommand>)
    requires
        segments@.len() <= 85,
    ensures
        cmds@.len() == 6 * segments@.len() + 7,
        writes_ok(cmds@, lin_plan_writes(segments@, final_valid_to)),
        cmds@[6 * segments@.len() as int + 6] == BleCommand::ExecuteAction(DeviceAction::CalculateCoefficients),
{
    let mut cmds: Vec<BleCommand> = Vec::new();
    let ghost w = Seq::<(u128, Seq<u8>)>::empty();
    push_linearisation_plan(&mut cmds, segments, final_valid_to, Ghost(w));
    assert(w + lin_plan_writes(segments@, final_valid_to) =~= lin_plan_writes(segments@, final_valid_to));
    cmds
}

/// Uploading a table and reading it back gives the segments back: the
/// upload sets the repeat count to 3, writes each index `j` to the
/// linearisation index register and then, to the coefficient register, a
/// value that decodes to the table's `j`-th coefficient, and sets the
/// number of points to the number of segments; and the table assembled
/// from those coefficients has one row per segment, with that segment's
/// valid_from, gain and offset and, as valid_to, the next segment's
/// valid_from (the final valid_to for the last segment).
pub proof fn lemma_linearisation_readback(segs: Seq<LinearisationSegment>, last: u32)
    requires
        segs.len() <= 85,
    ensures
        forall|j: int|
            0 <= j <= 3 * segs.len() ==> {
                let d = #[trigger] lin_plan_writes(segs, last)[2 * j + 2].1;
                &&& lin_plan_writes(segs, last)[2 * j + 1] == (reg_uuid(Register::LinIndex), seq![j as u8])
                &&& lin_plan_writes(segs, last)[2 * j + 2].0 == reg_uuid(Register::CoefficientAtIndex)
                &&& be32(d[0], d[1], d[2], d[3]) == segment_coefficients(segs, last)[j]
            },
        lin_plan_writes(segs, last)[0] == (reg_uuid(Register::LinRepeat), seq![3u8]),
        lin_plan_writes(segs, last)[6 * segs.len() as int + 3] == (reg_uuid(Register::LinPoints), seq![segs.len() as u8]),
        lin_row_count(3 * segs.len() as int + 1, segs.len() as int) == segs.len(),
        forall|i: int|
            0 <= i < segs.len() ==> #[trigger] lin_row(segment_coefficients(segs, last), i)
                == (LinearisationRow {
                index: (i + 1) as u8,
                valid_from: segs[i].valid_from,
                gain: segs[i].gain,
                offset: segs[i].offset,
                valid_to: if i + 1 < segs.len() {
                    segs[i + 1].valid_from
                } else {
                    last
                },
            }),
{
    let c = segment_coefficients(segs, last);
    let n = segs.len() as int;
    assert forall|j: int| 0 <= j <= 3 * n implies {
        let d = #[trigger] lin_plan_writes(segs, last)[2 * j + 2].1;
        &&& lin_plan_writes(segs, last)[2 * j + 1] == (reg_uuid(Register::LinIndex), seq![j as u8])
        &&& lin_plan_writes(segs, last)[2 * j + 2].0 == reg_uuid(Register::CoefficientAtIndex)
        &&& be32(d[0], d[1], d[2], d[3]) == c[j]
    } by {
        lemma_u32_roundtrip(segment_coefficient(segs, last, j));
        assert((2 * j + 1 - 1) / 2 == j);
        assert((2 * j + 2 - 1) / 2 == j);
    }
    assert forall|i: int| 0 <= i < n implies #[trigger] lin_row(c, i) == (LinearisationRow {
        index: (i + 1) as u8,
        valid_from: segs[i].valid_from,
        gain: segs[i].gain,
        offset: segs[i].offset,
        valid_to: if i + 1 < n {
            segs[i + 1].valid_from
        } else {
            last
        },
    }) by {
        assert((3 * i) / 3 == i);
        assert((3 * i + 1) / 3 == i);
        assert((3 * i + 2) / 3 == i);
        assert((3 * i + 3) / 3 == i + 1);
        assert(c[3 * i] == segs[i].valid_from);
        assert(c[3 * i + 1] == segs[i].gain);
        assert(c[3 * i + 2] == segs[i].offset);
        if i + 1 < n {
            assert(c[3 * i + 3] == segs[i + 1].valid_from);
        } else {
            assert(c[3 * i + 3] == last);
        }
    }
}


/// The part of `s` before the first `c` (all of `s` when there is none).
pub open spec fn before_char(s: Seq<char>, c: char) -> Seq<char> {
    match find_char(s, c) {
        Some(i) => s.take(i),
        None => s,
    }
}

/// Whether a (lowercased) section name is one that lists calibration points.
pub open spec fn is_points_section(section: Seq<char>) -> bool {
    section == "calibration points"@ || section == "table points"@
}

/// One line of a calibration file read into the state (current section,
/// settings, points). Blank lines and '#' comments are skipped; "[Name]"
/// starts the section named in lowercase; in "settings" a "key = value"
/// line gives the trimmed key and the trimmed value before any '#'; in
/// "calibration points" and "table points" a "mV/V, value" line gives the
/// trimmed texts before and after the first ','.
pub open spec fn cal_step(
    st: (Seq<char>, Seq<(Seq<char>, Seq<char>)>, Seq<(Seq<char>, Seq<char>)>),
    line: Seq<char>,
) -> (Seq<char>, Seq<(Seq<char>, Seq<char>)>, Seq<(Seq<char>, Seq<char>)>) {
    let t = trimmed(line);
    if t.len() == 0 || t[0] == '#' {
        st
    } else if t[0] == '[' && t.last() == ']' {
        (lowercase(t.subrange(1, t.len() - 1)), st.1, st.2)
    } else if st.0 == "settings"@ {
        match find_char(t, '=') {
            Some(i) => (st.0, st.1.push((trimmed(t.take(i)), trimmed(before_char(t.skip(i + 1), '#')))), st.2),
            None => st,
        }
    } else if is_points_section(st.0) {
        match find_char(t, ',') {
            Some(i) => (st.0, st.1, st.2.push((trimmed(t.take(i)), trimmed(t.skip(i + 1))))),
            None => st,
        }
    } else {
        st
    }
}

/// The state after reading `lines` in order, from no section and nothing read.
pub open spec fn cal_fold(lines: Seq<Seq<char>>) -> (Seq<char>, Seq<(Seq<char>, Seq<char>)>, Seq<(Seq<char>, Seq<char>)>)
    decreases lines.len(),
{
    if lines.len() == 0 {
        (Seq::empty(), Seq::empty(), Seq::empty())
    } else {
        cal_step(cal_fold(lines.drop_last()), lines.last())
    }
}

/// What a calibration file holds: its settings as (key, value) texts and its
/// calibration points as (mV/V, engineering value) texts, each in file order.
pub struct CalibrationText {
    pub settings: Vec<(String, String)>,
    pub points: Vec<(String, String)>,
}

fn cal_line_step(
    section: &mut String,
    settings: &mut Vec<(String, String)>,
    points: &mut Vec<(String, String)>,
    line: &Vec<char>,
)
    ensures
        (final(section)@, pair_texts(final(settings)@), pair_texts(final(points)@)) == cal_step(
            (old(section)@, pair_texts(old(settings)@), pair_texts(old(points)@)),
            line@,
        ),
{
    let s = string_of_chars(line);
    let t = trim(s.as_str());
    let n = t.unicode_len();
    if n == 0 {
        return;
    }
    let c0 = t.get_char(0);
    if c0 == '#' {
        return;
    }
    if c0 == '[' && t.get_char(n - 1) == ']' {
        let inner = t.substring_char(1, n - 1);
        *section = to_lowercase_text(inner);
        return;
    }
    let settings_name = String::from_str("settings");
    let calibration_points = String::from_str("calibration points");
    let table_points = String::from_str("table points");
    if *section == settings_name {
        if let Some(i) = char_index(t, '=') {
            let key = String::from_str(trim(t.substring_char(0, i)));
            let rest = t.substring_char(i + 1, n);
            let before = match char_index(rest, '#') {
                Some(j) => rest.substring_char(0, j),
                None => rest,
            };
            let val = String::from_str(trim(before));
            assert(t@.take(i as int) =~= t@.subrange(0, i as int));
            assert(t@.skip(i + 1) =~= rest@);
            assert(before@ == before_char(rest@, '#')) by {
                if let Some(j) = find_char(rest@, '#') {
                    assert(rest@.take(j) =~= rest@.subrange(0, j));
                }
            }
            settings.push((key, val));
            assert(pair_texts(settings@) =~= pair_texts(old(settings)@).push((key@, val@)));
        }
    } else if *section == calibration_points || *section == table_points {
        if let Some(i) = char_index(t, ',') {
            let mv = String::from_str(trim(t.substring_char(0, i)));
            let eng = String::from_str(trim(t.substring_char(i + 1, n)));
            assert(t@.take(i as int) =~= t@.subrange(0, i as int));
            assert(t@.skip(i + 1) =~= t@.subrange(i + 1, n as int));
            points.push((mv, eng));
            assert(pair_texts(points@) =~= pair_texts(old(points)@).push((mv@, eng@)));
        }
    }
}

/// Read a calibration file, as exported by the calibration tab: the
/// settings and the calibration points of `cal_fold` over its lines.
pub fn parse_calibration_text(text: &str) -> (r: CalibrationText)
    ensures
        pair_texts(r.settings@) == cal_fold(split_lines(text@)).1,
        pair_texts(r.points@) == cal_fold(split_lines(text@)).2,
{
    let cs = chars_of(text);
    let n = cs.len();
    let mut section = String::new();
    let mut settings: Vec<(String, String)> = Vec::new();
    let mut points: Vec<(String, String)> = Vec::new();
    let mut cur: Vec<char> = Vec::new();
    let mut i: usize = 0;
    proof {
        lemma_split_lines_nonempty(Seq::empty());
    }
    assert(text@.take(0) =~= Seq::<char>::empty());
    assert(settings@.len() == 0 ==> pair_texts(settings@) =~= Seq::empty());
    assert(points@.len() == 0 ==> pair_texts(points@) =~= Seq::empty());
    while i < n
        invariant
            n == cs@.len(),
            cs@ == text@,
            i <= n,
            split_lines(text@.take(i as int)).last() == cur@,
            (section@, pair_texts(settings@), pair_texts(points@)) == cal_fold(
                split_lines(text@.take(i as int)).drop_last(),
            ),
        decreases n - i,
    {
        let c = cs[i];
        let ghost pre = text@.take(i as int);
        let ghost next = text@.take(i + 1);
        assert(next.drop_last() =~= pre);
        assert(next.last() == c);
        proof {
            lemma_split_lines_nonempty(pre);
        }
        if c == '\n' {
            cal_line_step(&mut section, &mut settings, &mut points, &cur);
            cur = Vec::new();
            let ghost p = split_lines(pre);
            assert(split_lines(next) == p.push(Seq::empty()));
            assert(split_lines(next).drop_last() =~= p);
        } else {
            cur.push(c);
            let ghost p = split_lines(pre);
            let ghost q = split_lines(next);
            assert(q == p.update(p.len() - 1, p.last().push(c)));
            assert(q.drop_last() =~= p.drop_last());
        }
        i = i + 1;
    }
    assert(text@.take(n as int) =~= text@);
    proof {
        lemma_split_lines_nonempty(text@);
    }
    cal_line_step(&mut section, &mut settings, &mut points, &cur);
    CalibrationText { settings, points }
}

/// The write of a byte setting of a calibration file, when its value parses
/// as a u8.
pub open spec fn cal_setting_write(settings: Seq<(Seq<char>, Seq<char>)>, key: Seq<char>, r: Register) -> Option<(u128, Seq<u8>)> {
    match pair_value(settings, key) {
        Some(v) => match parse_unsigned(v, 10, u8::MAX as int) {
            Some(x) => Some((reg_uuid(r), seq![x as u8])),
            None => None,
        },
        None => None,
    }
}

/// The writes that importing a calibration file sends: its sensitivity
/// range and calibration units settings, then, when there are segments, the
/// upload of the linearisation table.
pub open spec fn cal_import_writes(
    settings: Seq<(Seq<char>, Seq<char>)>,
    segs: Seq<LinearisationSegment>,
    last: u32,
) -> Seq<(u128, Seq<u8>)> {
    let w1 = add_write(Seq::empty(), cal_setting_write(settings, "sensitivity_range"@, Register::SensitivityRange));
    let w2 = add_write(w1, cal_setting_write(settings, "cal_units"@, Register::CalUnits));
    if segs.len() > 0 {
        w2 + lin_plan_writes(segs, last)
    } else {
        w2
    }
}

fn push_setting_write(
    cmds: &mut Vec<BleCommand>,
    settings: &Vec<(String, String)>,
    key: &str,
    r_uuid: u128,
    Ghost(r): Ghost<Register>,
    Ghost(w): Ghost<Seq<(u128, Seq<u8>)>>,
)
    requires
        r_uuid == reg_uuid(r),
        writes_ok(old(cmds)@, w),
        old(cmds)@.len() == w.len(),
    ensures
        writes_ok(final(cmds)@, add_write(w, cal_setting_write(pair_texts(settings@), key@, r))),
        final(cmds)@.len() == add_write(w, cal_setting_write(pair_texts(settings@), key@, r)).len(),
{
    if let Some(v) = config_value(settings, key) {
        if let Some(x) = parse_u8(v.as_str()) {
            push_write(cmds, r_uuid, encode_u8(x), Ghost(w));
        }
    }
}

/// The commands that import a calibration file read by
/// `parse_calibration_text`: the writes of `cal_import_writes`, where
/// `segments` (at most 85) are the segments between the file's calibration
/// points sorted by mV/V, ending at `final_valid_to` (no segments when the
/// file has fewer than two points); after an upload the action that makes
/// the device calculate its coefficients; and last a read of every
/// calibration register.
pub fn import_calibration_plan(cal: &CalibrationText, segments: &Vec<LinearisationSegment>, final_valid_to: u32) -> (cmds: Vec<BleCommand>)
    requires
        segments@.len() <= 85,
    ensures
        ({
            let w = cal_import_writes(pair_texts(cal.settings@), segments@, final_valid_to);
            let extra: int = if segments@.len() > 0 { 1 } else { 0 };
            &&& writes_ok(cmds@, w)
            &&& cmds@.len() == w.len() + extra + 1
            &&& segments@.len() > 0 ==> cmds@[w.len() as int] == BleCommand::ExecuteAction(
                DeviceAction::CalculateCoefficients,
            )
            &&& cmds@.last() matches BleCommand::ReadAll(v) && v@ == all_calibration_uuid_values()
        }),
{
    let ghost st = pair_texts(cal.settings@);
    let mut cmds: Vec<BleCommand> = Vec::new();
    let ghost w0 = Seq::<(u128, Seq<u8>)>::empty();
    push_setting_write(&mut cmds, &cal.settings, "sensitivity_range", char_sens_range(), Ghost(Register::SensitivityRange), Ghost(w0));
    let ghost w1 = add_write(w0, cal_setting_write(st, "sensitivity_range"@, Register::SensitivityRange));
    push_setting_write(&mut cmds, &cal.settings, "cal_units", char_cal_units(), Ghost(Register::CalUnits), Ghost(w1));
    let ghost w2 = add_write(w1, cal_setting_write(st, "cal_units"@, Register::CalUnits));
    let ghost w = cal_import_writes(st, segments@, final_valid_to);
    if segments.len() > 0 {
        push_linearisation_plan(&mut cmds, segments, final_valid_to, Ghost(w2));
    }
    let ghost before = cmds@;
    cmds.push(BleCommand::ReadAll(all_calibration_uuids()));
    assert forall|k: int| 0 <= k < w.len() implies is_write(#[trigger] cmds@[k], w[k].0, w[k].1) by {
        assert(cmds@[k] == before[k]);
    }
    cmds
}

} // verus!
