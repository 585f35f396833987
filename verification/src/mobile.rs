//! The project that the mobile app imports: one dashboard tile per
//! transmitter, the display format, the timeout, and the defaults taken
//! from the connected device.

use vstd::prelude::*;
use vstd::string::StringExecFns;

use crate::text::{hex2, push_hex2, replace_char, replace_spaces_text, trim, trimmed};
use crate::types::{units_byte, units_from_byte, DataUnits};

verus! {

/// One transmitter row of a mobile-app project.
#[derive(Debug)]
pub struct TransmitterRow {
    pub data_tag: String,
    pub description: String,
    pub unit_byte: Option<u8>,
}

/// The settings of a mobile-app project.
#[derive(Debug)]
pub struct MobileExport {
    pub project_name: String,
    pub view_pin: String,
    /// The position of the chosen timeout in the timeout list.
    pub timeout_index: usize,
    pub decimal_places: u8,
    pub transmitters: Vec<TransmitterRow>,
    /// Whether the defaults were already taken from the connected device.
    pub populated_from_device: bool,
}

/// One dashboard tile of the project: a transmitter whose data tag is not
/// blank.
#[derive(Debug)]
pub struct ProjectTile {
    /// The data tag, trimmed and upper case.
    pub tag: String,
    pub description: String,
    pub unit: DataUnits,
    /// The position on the dashboard: the row's place in the list, from 1.
    pub position: usize,
}

/// The timeouts offered, in seconds.
pub open spec fn timeout_options() -> Seq<u32> {
    seq![5u32, 10u32, 12u32, 15u32, 20u32, 30u32, 60u32]
}

/// The display format for a number of decimal places (two when out of
/// range).
pub open spec fn decimal_format_text(places: u8) -> Seq<char> {
    if places <= 6 {
        seq!['0'] + if places == 0 {
            Seq::empty()
        } else {
            seq!['.'] + Seq::new(places as nat, |i: int| '0')
        }
    } else {
        seq!['0', '.', '0', '0']
    }
}

/// The display format shows exactly the decimal places asked for: "0" for
/// none, and for one to six places "0", a point and that many zeros; any
/// other number gets the two-place format.
pub proof fn lemma_decimal_format_places(places: u8)
    ensures
        decimal_format_text(places).len() > 0,
        decimal_format_text(places)[0] == '0',
        places == 0 ==> decimal_format_text(places).len() == 1,
        1 <= places <= 6 ==> {
            let f = decimal_format_text(places);
            &&& f.len() == places + 2
            &&& f[1] == '.'
            &&& forall|i: int| 2 <= i < f.len() ==> f[i] == '0'
        },
        places > 6 ==> decimal_format_text(places) == seq!['0', '.', '0', '0'],
{
}

/// What `str::to_uppercase` makes of a text (Unicode uppercase mapping).
pub uninterp spec fn uppercase(s: Seq<char>) -> Seq<char>;

/// Calls `str::to_uppercase`. Claimed: the result is `uppercase` of the
/// text, a function of the text alone.
#[verifier::external_body]
fn to_uppercase_text(s: &str) -> (r: String)
    ensures
        r@ == uppercase(s@),
{
    s.to_uppercase()
}

/// The tag a row shows on the dashboard.
pub open spec fn row_tag(r: TransmitterRow) -> Seq<char> {
    uppercase(trimmed(r.data_tag@))
}

/// The description of a tile: the row's trimmed description, or "TX "
/// and the tag when it is blank.
pub open spec fn tile_description(r: TransmitterRow) -> Seq<char> {
    if trimmed(r.description@).len() == 0 {
        seq!['T', 'X', ' '] + row_tag(r)
    } else {
        trimmed(r.description@)
    }
}

/// The unit of a row: the units of its byte, undefined when none is set.
pub open spec fn row_unit(r: TransmitterRow) -> DataUnits {
    match r.unit_byte {
        Some(b) => units_from_byte(b),
        None => DataUnits::Undefined,
    }
}

/// The tiles of the first `n` rows: one per row whose trimmed tag is not
/// empty, in order.
pub open spec fn tiles_of(rows: Seq<TransmitterRow>, n: int) -> Seq<(Seq<char>, Seq<char>, DataUnits, int)>
    decreases n,
{
    if n <= 0 {
        Seq::empty()
    } else {
        let prev = tiles_of(rows, n - 1);
        let r = rows[n - 1];
        if trimmed(r.data_tag@).len() == 0 {
            prev
        } else {
            prev.push((row_tag(r), tile_description(r), row_unit(r), n))
        }
    }
}

/// Each tile stands for one row with a non-blank data tag and shows that
/// row: its position is the row's place in the list counted from 1, the
/// positions rise from tile to tile, and every row with a non-blank tag
/// gets a tile.
pub proof fn lemma_tiles_rows(rows: Seq<TransmitterRow>, n: int)
    requires
        0 <= n <= rows.len(),
    ensures
        ({
            let t = tiles_of(rows, n);
            &&& forall|k: int|
                0 <= k < t.len() ==> {
                    let p = (#[trigger] t[k]).3;
                    &&& 1 <= p <= n
                    &&& trimmed(rows[p - 1].data_tag@).len() > 0
                    &&& t[k].0 == row_tag(rows[p - 1])
                    &&& t[k].1 == tile_description(rows[p - 1])
                    &&& t[k].2 == row_unit(rows[p - 1])
                }
            &&& forall|j: int, k: int| 0 <= j < k < t.len() ==> t[j].3 < t[k].3
            &&& forall|i: int|
                0 <= i < n && trimmed(#[trigger] rows[i].data_tag@).len() > 0 ==> exists|k: int|
                    0 <= k < t.len() && t[k].3 == i + 1
        }),
    decreases n,
{
    if n > 0 {
        lemma_tiles_rows(rows, n - 1);
        let prev = tiles_of(rows, n - 1);
        let t = tiles_of(rows, n);
        let r = rows[n - 1];
        if trimmed(r.data_tag@).len() > 0 {
            assert(t == prev.push((row_tag(r), tile_description(r), row_unit(r), n)));
            assert forall|i: int|
                0 <= i < n && trimmed(#[trigger] rows[i].data_tag@).len() > 0 implies exists|k: int|
                    0 <= k < t.len() && t[k].3 == i + 1 by {
                if i == n - 1 {
                    assert(t[prev.len() as int].3 == i + 1);
                } else {
                    let k = choose|k: int| 0 <= k < prev.len() && prev[k].3 == i + 1;
                    assert(t[k] == prev[k]);
                }
            }
        } else {
            assert(t == prev);
        }
    }
}

/// The view of a tile: tag, description, unit and position.
pub open spec fn tile_view(t: ProjectTile) -> (Seq<char>, Seq<char>, DataUnits, int) {
    (t.tag@, t.description@, t.unit, t.position as int)
}

/// The hexadecimal text of a units byte, as the app shows it: "0x" and two
/// upper-case digits.
pub open spec fn units_hex_text(u: DataUnits) -> Seq<char> {
    seq!['0', 'x'] + hex2(units_byte(u))
}

/// The hexadecimal text of a unit's byte.
pub fn units_hex(u: DataUnits) -> (s: String)
    ensures
        s@ == units_hex_text(u),
{
    let mut s = String::from_str("0x");
    push_hex2(&mut s, u.to_byte());
    proof {
        reveal_strlit("0x");
    }
    assert(s@ =~= units_hex_text(u));
    s
}

fn is_default_pin(s: &str) -> (b: bool)
    ensures
        b == (s@ == seq!['0', '0', '0', '0']),
{
    let n = s.unicode_len();
    if n != 4 {
        return false;
    }
    let r = s.get_char(0) == '0' && s.get_char(1) == '0' && s.get_char(2) == '0' && s.get_char(3) == '0';
    assert(r ==> s@ =~= seq!['0', '0', '0', '0']);
    r
}

impl MobileExport {
    /// The timeout in seconds: the chosen option, twelve when the index is
    /// out of range.
    pub fn timeout_seconds(&self) -> (t: u32)
        ensures
            t == if self.timeout_index < timeout_options().len() {
                timeout_options()[self.timeout_index as int]
            } else {
                12u32
            },
    {
        let options: [u32; 7] = [5, 10, 12, 15, 20, 30, 60];
        assert(options@ =~= timeout_options());
        if self.timeout_index < 7 {
            options[self.timeout_index]
        } else {
            12
        }
    }

    /// The display format of the values: "0", "0.0", ... up to six decimal
    /// places; "0.00" for any other number.
    pub fn format_text(&self) -> (s: &'static str)
        ensures
            s@ == decimal_format_text(self.decimal_places),
    {
        let s = match self.decimal_places {
            0 => "0",
            1 => "0.0",
            2 => "0.00",
            3 => "0.000",
            4 => "0.0000",
            5 => "0.00000",
            6 => "0.000000",
            _ => "0.00",
        };
        proof {
            reveal_strlit("0");
            reveal_strlit("0.0");
            reveal_strlit("0.00");
            reveal_strlit("0.000");
            reveal_strlit("0.0000");
            reveal_strlit("0.00000");
            reveal_strlit("0.000000");
            assert(s@ =~= decimal_format_text(self.decimal_places));
        }
        s
    }

    /// The project's tiles: one per transmitter row whose trimmed tag is
    /// not empty, in order (`tiles_of`).
    pub fn tiles(&self) -> (r: Vec<ProjectTile>)
        ensures
            r@.map_values(|t: ProjectTile| tile_view(t)) == tiles_of(
                self.transmitters@,
                self.transmitters@.len() as int,
            ),
    {
        let rows = &self.transmitters;
        let n = rows.len();
        let mut r: Vec<ProjectTile> = Vec::new();
        let mut i: usize = 0;
        while i < n
            invariant
                n == rows@.len(),
                i <= n,
                r@.map_values(|t: ProjectTile| tile_view(t)) == tiles_of(rows@, i as int),
            decreases n - i,
        {
            let row = &rows[i];
            let trimmed_tag = trim(row.data_tag.as_str());
            if trimmed_tag.unicode_len() > 0 {
                let tag = to_uppercase_text(trimmed_tag);
                let d = trim(row.description.as_str());
                let description = if d.unicode_len() == 0 {
                    let mut s = String::from_str("TX ");
                    s.append(tag.as_str());
                    proof {
                        reveal_strlit("TX ");
                        assert(s@ =~= seq!['T', 'X', ' '] + tag@);
                    }
                    s
                } else {
                    String::from_str(d)
                };
                let unit = match row.unit_byte {
                    Some(b) => DataUnits::from_byte(b),
                    None => DataUnits::Undefined,
                };
                let ghost before = r@;
                let tile = ProjectTile { tag, description, unit, position: i + 1 };
                assert(tile_view(tile) == (row_tag(rows@[i as int]), tile_description(rows@[i as int]), row_unit(
                    rows@[i as int],
                ), i + 1));
                r.push(tile);
                assert(r@.map_values(|t: ProjectTile| tile_view(t)) =~= before.map_values(
                    |t: ProjectTile| tile_view(t),
                ).push(tile_view(tile)));
            }
            i = i + 1;
        }
        r
    }

    /// The project's name: the trimmed name, or "B24 Project" when blank.
    pub fn display_name(&self) -> (s: String)
        ensures
            trimmed(self.project_name@).len() > 0 ==> s@ == trimmed(self.project_name@),
            trimmed(self.project_name@).len() == 0 ==> s@ == "B24 Project"@,
    {
        let t = trim(self.project_name.as_str());
        if t.unicode_len() == 0 {
            String::from_str("B24 Project")
        } else {
            String::from_str(t)
        }
    }

    /// The name of the exported file: the trimmed project name (or
    /// "b24_project" when blank) with spaces as underscores, and ".json".
    pub fn file_name(&self) -> (s: String)
        ensures
            trimmed(self.project_name@).len() > 0 ==> s@ == replace_char(trimmed(self.project_name@), ' ', '_') + ".json"@,
            trimmed(self.project_name@).len() == 0 ==> s@ == replace_char("b24_project"@, ' ', '_') + ".json"@,
    {
        let t = trim(self.project_name.as_str());
        let base = if t.unicode_len() == 0 {
            "b24_project"
        } else {
            t
        };
        let mut s = replace_spaces_text(base);
        s.append(".json");
        s
    }

    /// Take defaults from the connected device, once: when it reports a
    /// data tag, the first row gets the tag, the model name (or "Load
    /// Cell") as description and the calibration units, each only where
    /// the row's own is blank; the default view PIN "0000" gives way to the
    /// device's. Nothing happens unless connected and not done before.
    pub fn populate_from_device(
        &mut self,
        connected: bool,
        data_tag: &Option<String>,
        model_name: &Option<String>,
        cal_units: Option<u8>,
        device_view_pin: &Option<String>,
    )
        requires
            connected && !old(self).populated_from_device && data_tag is Some ==> old(self).transmitters@.len() > 0,
        ensures
            !(connected && !old(self).populated_from_device) ==> *final(self) == *old(self),
            connected && !old(self).populated_from_device ==> {
                let o = old(self).transmitters@;
                let f = final(self).transmitters@;
                &&& final(self).populated_from_device
                &&& final(self).project_name == old(self).project_name
                &&& final(self).timeout_index == old(self).timeout_index
                &&& final(self).decimal_places == old(self).decimal_places
                &&& f.len() == o.len()
                &&& forall|i: int| 1 <= i < o.len() ==> #[trigger] f[i] == o[i]
                &&& data_tag is None ==> f == o
                &&& data_tag matches Some(t) ==> {
                    &&& f[0].data_tag@ == (if o[0].data_tag@.len() == 0 { t@ } else { o[0].data_tag@ })
                    &&& f[0].description@ == (if o[0].description@.len() == 0 {
                        match model_name {
                            Some(m) => m@,
                            None => "Load Cell"@,
                        }
                    } else {
                        o[0].description@
                    })
                    &&& f[0].unit_byte == (if o[0].unit_byte is None { cal_units } else { o[0].unit_byte })
                }
                &&& final(self).view_pin@ == (if old(self).view_pin@ == seq!['0', '0', '0', '0'] {
                    match device_view_pin {
                        Some(p) => p@,
                        None => old(self).view_pin@,
                    }
                } else {
                    old(self).view_pin@
                })
            },
    {
        if !connected || self.populated_from_device {
            return;
        }
        if let Some(tag) = data_tag {
            let first = &self.transmitters[0];
            let data_tag = if first.data_tag.unicode_len() == 0 {
                tag.clone()
            } else {
                first.data_tag.clone()
            };
            let description = if first.description.unicode_len() == 0 {
                match model_name {
                    Some(m) => m.clone(),
                    None => String::from_str("Load Cell"),
                }
            } else {
                first.description.clone()
            };
            let unit_byte = if first.unit_byte.is_none() {
                cal_units
            } else {
                first.unit_byte
            };
            self.transmitters.set(0, TransmitterRow { data_tag, description, unit_byte });
        }
        if is_default_pin(self.view_pin.as_str()) {
            if let Some(pin) = device_view_pin {
                self.view_pin = pin.clone();
            }
        }
        self.populated_from_device = true;
    }
}

} // verus!
