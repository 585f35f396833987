//! View mode: a full-screen display of one device's reading, either of the
//! connected device or of an advertising device decoded with its View PIN.

use std::collections::{HashMap, VecDeque};
use vstd::prelude::*;
use vstd::string::StringExecFns;
use vstd::utf8::encode_utf8;

use crate::codec::{be16, be32, decode_advertising, decoded_advert, xor_seed_for, xor_with_seed};
use crate::session::{bounded_push, push_history, MANTRACOURT_COMPANY_ID};
use crate::state::Tab;
use crate::types::{status_from_byte, StatusByte};

verus! {

broadcast use vstd::std_specs::hash::group_hash_axioms;

/// Where view mode takes its reading from.
#[derive(Debug, Clone, Copy, PartialEq, Eq, Structural)]
pub enum ViewSource {
    Connected,
    Advertising,
}

/// The most samples the view-mode history keeps.
pub const VIEW_HISTORY_POINTS: usize = 2000;

/// The state of view mode.
#[derive(Debug)]
pub struct ViewMode {
    pub active: bool,
    pub source: ViewSource,
    /// The advertising device shown, when the source is advertising.
    pub peripheral_id: Option<String>,
    pub device_name: String,
    /// The View PIN with which advertising data is decoded.
    pub view_pin: String,
    pub data_tag: Option<u16>,
    /// The reading (bit pattern of its f32 value), units and status last
    /// decoded.
    pub current_value: Option<u32>,
    pub current_units: Option<u8>,
    pub current_status: Option<StatusByte>,
    /// (elapsed seconds as f64 bits, value bits) samples, at most
    /// `VIEW_HISTORY_POINTS`.
    pub history: VecDeque<(u64, u32)>,
}

/// Whether view mode is off with nothing shown.
pub open spec fn view_off(v: ViewMode) -> bool {
    &&& !v.active
    &&& v.source == ViewSource::Connected
    &&& v.peripheral_id is None
    &&& v.device_name@.len() == 0
    &&& v.view_pin@.len() == 0
    &&& v.data_tag is None
    &&& v.current_value is None
    &&& v.current_units is None
    &&& v.current_status is None
    &&& v.history@.len() == 0
}

impl ViewMode {
    /// View mode off, nothing shown.
    pub fn new() -> (v: Self)
        ensures
            view_off(v),
    {
        ViewMode {
            active: false,
            source: ViewSource::Connected,
            peripheral_id: None,
            device_name: String::new(),
            view_pin: String::new(),
            data_tag: None,
            current_value: None,
            current_units: None,
            current_status: None,
            history: VecDeque::new(),
        }
    }

    /// "View Mode" on the live tab: view mode shows the connected device,
    /// and the connect tab (where view mode is displayed) is shown.
    pub fn view_connected(&mut self, tab: &mut Tab)
        ensures
            final(self).active,
            final(self).source == ViewSource::Connected,
            final(self).device_name@ == "Connected Device"@,
            *final(tab) == Tab::Connect,
            final(self).peripheral_id == old(self).peripheral_id,
            final(self).view_pin == old(self).view_pin,
            final(self).data_tag == old(self).data_tag,
            final(self).current_value == old(self).current_value,
            final(self).current_units == old(self).current_units,
            final(self).current_status == old(self).current_status,
            final(self).history == old(self).history,
    {
        self.active = true;
        self.source = ViewSource::Connected;
        self.device_name = String::from_str("Connected Device");
        *tab = Tab::Connect;
    }
}

/// Whether view mode follows the advertisements of `pid`.
pub open spec fn follows(v: ViewMode, pid: Seq<char>) -> bool {
    &&& v.active
    &&& v.source == ViewSource::Advertising
    &&& v.peripheral_id matches Some(p) && p@ == pid
}

/// View mode after new manufacturer data from `pid` arrived at
/// `elapsed_bits`: when it follows that device and the data under
/// Mantracourt's company id decodes with its View PIN, the reading, units,
/// status and data tag are taken and the reading joins the history
/// (dropping the oldest beyond `VIEW_HISTORY_POINTS`); otherwise nothing
/// changes.
pub open spec fn view_after_advert(
    pre: ViewMode,
    post: ViewMode,
    pid: Seq<char>,
    m: Map<u16, Vec<u8>>,
    elapsed_bits: u64,
) -> bool {
    &&& post.active == pre.active
    &&& post.source == pre.source
    &&& post.peripheral_id == pre.peripheral_id
    &&& post.device_name == pre.device_name
    &&& post.view_pin == pre.view_pin
    &&& if follows(pre, pid) && m.dom().contains(MANTRACOURT_COMPANY_ID) && decoded_advert(
        m[MANTRACOURT_COMPANY_ID]@,
        encode_utf8(pre.view_pin@),
    ) is Some {
        let a = decoded_advert(m[MANTRACOURT_COMPANY_ID]@, encode_utf8(pre.view_pin@))->0;
        &&& post.current_value == Some(a.value_bits)
        &&& post.current_units == Some(a.units)
        &&& post.current_status == Some(status_from_byte(a.status))
        &&& post.data_tag == Some(a.data_tag)
        &&& post.history@ == bounded_push(pre.history@, (elapsed_bits, a.value_bits), VIEW_HISTORY_POINTS as nat)
    } else {
        &&& post.current_value == pre.current_value
        &&& post.current_units == pre.current_units
        &&& post.current_status == pre.current_status
        &&& post.data_tag == pre.data_tag
        &&& post.history == pre.history
    }
}

/// Take new manufacturer data from `pid` (see `view_after_advert`).
pub fn view_on_advert(view: &mut ViewMode, pid: &String, manufacturer_data: &HashMap<u16, Vec<u8>>, elapsed_bits: u64)
    ensures
        view_after_advert(*old(view), *final(view), pid@, manufacturer_data@, elapsed_bits),
{
    if !view.active || view.source != ViewSource::Advertising {
        return;
    }
    let follows = match &view.peripheral_id {
        Some(p) => *p == *pid,
        None => false,
    };
    if !follows {
        return;
    }
    if let Some(raw) = manufacturer_data.get(&MANTRACOURT_COMPANY_ID) {
        if let Some(a) = decode_advertising(raw.as_slice(), view.view_pin.as_str()) {
            view.current_value = Some(a.value_bits);
            view.current_units = Some(a.units);
            view.current_status = Some(StatusByte::from_byte(a.status));
            view.data_tag = Some(a.data_tag);
            push_history(&mut view.history, (elapsed_bits, a.value_bits), VIEW_HISTORY_POINTS);
        }
    }
}

/// What view mode shows of an advertisement is the packet's content: when
/// it follows the device and the packet under Mantracourt's company id
/// decodes with its View PIN, the status is the status byte (byte 3) of the
/// XOR-decoded packet, the units the units byte (byte 4), the data tag the
/// big-endian bytes 1-2, the reading the big-endian bytes 5-8, and the
/// newest history sample is that reading; nothing about the display
/// changes.
pub proof fn lemma_view_shows_packet(pre: ViewMode, post: ViewMode, pid: Seq<char>, m: Map<u16, Vec<u8>>, elapsed_bits: u64)
    requires
        view_after_advert(pre, post, pid, m, elapsed_bits),
        follows(pre, pid),
        m.dom().contains(0x04C3u16),
        decoded_advert(m[0x04C3u16]@, encode_utf8(pre.view_pin@)) is Some,
    ensures
        ({
            let d = xor_with_seed(m[0x04C3u16]@, xor_seed_for(encode_utf8(pre.view_pin@)));
            &&& d.len() >= 9
            &&& d[0] == 0x01
            &&& post.current_status == Some(status_from_byte(d[3]))
            &&& post.current_units == Some(d[4])
            &&& post.data_tag == Some(be16(d[1], d[2]) as u16)
            &&& post.current_value == Some(be32(d[5], d[6], d[7], d[8]) as u32)
            &&& post.history@.len() > 0
            &&& post.history@.last() == (elapsed_bits, be32(d[5], d[6], d[7], d[8]) as u32)
        }),
        post.active == pre.active,
        post.view_pin == pre.view_pin,
        post.peripheral_id == pre.peripheral_id,
{
    let raw = m[0x04C3u16]@;
    let d = xor_with_seed(raw, xor_seed_for(encode_utf8(pre.view_pin@)));
    assert(d.len() == raw.len());
}

} // verus!
