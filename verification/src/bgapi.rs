//! BGAPI (Bluegiga BLED112 dongle) packet framing and the parsing of GAP
//! scan responses and their advertising data.

use std::collections::HashMap;
use vstd::prelude::*;
use vstd::string::StringExecFns;
use vstd::utf8::{decode_utf8, encode_utf8, encode_utf8_decode_utf8, encode_utf8_valid_utf8, valid_utf8};

use crate::ble::BleEvent;
use crate::text::{hex2, push_char, push_hex2};

verus! {

broadcast use vstd::std_specs::hash::group_hash_axioms;

/// Bit 7 of the first header byte marks an event (clear for a response).
pub const BGAPI_EVENT: u8 = 0x80;
/// Message class of system commands and events.
pub const CLASS_SYSTEM: u8 = 0x00;
/// Message class of GAP commands and events.
pub const CLASS_GAP: u8 = 0x06;
/// System event: boot.
pub const EVT_SYSTEM_BOOT: u8 = 0x00;
/// GAP event: scan response.
pub const EVT_GAP_SCAN_RESPONSE: u8 = 0x00;
/// Advertising data type: manufacturer specific data.
pub const AD_TYPE_MANUFACTURER_DATA: u8 = 0xFF;
/// Advertising data type: complete local name.
pub const AD_TYPE_COMPLETE_NAME: u8 = 0x09;
/// Advertising data type: shortened local name.
pub const AD_TYPE_SHORT_NAME: u8 = 0x08;

/// GAP command: end the current procedure (stops a scan).
pub const GAP_END_PROCEDURE: u8 = 0x04;
/// GAP command: set the scan parameters.
pub const GAP_SET_SCAN_PARAMETERS: u8 = 0x07;
/// GAP command: discover devices.
pub const GAP_DISCOVER: u8 = 0x02;
/// USB vendor id of the BLED112 dongle.
pub const BLED112_VID: u16 = 0x2458;
/// USB product id of the BLED112 dongle.
pub const BLED112_PID: u16 = 0x0001;

/// Whether a USB serial port is a BLED112 dongle, by its vendor and
/// product ids.
pub fn is_bled112(vid: u16, pid: u16) -> (b: bool)
    ensures
        b == (vid == BLED112_VID && pid == BLED112_PID),
{
    vid == BLED112_VID && pid == BLED112_PID
}

/// The payload of "set scan parameters" for the scanner: scan interval
/// and window of 200 units of 0.625 ms (125 ms), little endian, then
/// passive scanning.
pub fn scan_parameters_payload() -> (p: Vec<u8>)
    ensures
        p@ == seq![0xC8u8, 0x00u8, 0xC8u8, 0x00u8, 0x00u8],
{
    let p = vec![0xC8u8, 0x00u8, 0xC8u8, 0x00u8, 0x00u8];
    assert(p@ =~= seq![0xC8u8, 0x00u8, 0xC8u8, 0x00u8, 0x00u8]);
    p
}

/// The payload of "discover" for the scanner: observation mode (every
/// advertiser, no filtering).
pub fn discover_observation_payload() -> (p: Vec<u8>)
    ensures
        p@ == seq![0x02u8],
{
    let p = vec![0x02u8];
    assert(p@ =~= seq![0x02u8]);
    p
}

/// The payload length that a BGAPI header announces: the low three bits of
/// the first byte are the high bits, the second byte the low bits.
pub open spec fn header_payload_len(h0: u8, h1: u8) -> int {
    (h0 % 8) * 256 + h1
}

/// The payload length that a BGAPI header announces.
pub fn payload_length(header: &[u8; 4]) -> (n: usize)
    ensures
        n == header_payload_len(header@[0], header@[1]),
{
    ((header[0] % 8) as usize) * 256 + (header[1] as usize)
}

/// The header of a BGAPI command: message type 0, the payload length (as a
/// byte, truncated), class and command id.
pub fn command_header(payload_len: usize, class: u8, cmd: u8) -> (h: [u8; 4])
    ensures
        h@ == seq![0u8, (payload_len % 256) as u8, class, cmd],
{
    let h: [u8; 4] = [0u8, (payload_len % 256) as u8, class, cmd];
    assert(h@ =~= seq![0u8, (payload_len % 256) as u8, class, cmd]);
    h
}

/// The header that `command_header` builds (first byte 0, second byte the
/// length) announces the payload length it was built for (below 256,
/// the length a one-byte field holds).
pub proof fn lemma_command_header_length(payload_len: usize)
    requires
        payload_len < 256,
    ensures
        header_payload_len(0u8, (payload_len % 256) as u8) == payload_len,
{
}

/// Whether a header is that of a GAP scan response event.
pub fn is_scan_response_event(header: &[u8; 4]) -> (b: bool)
    ensures
        b == (header@[0] >= 0x80 && header@[2] == CLASS_GAP && header@[3]
            == EVT_GAP_SCAN_RESPONSE),
{
    header[0] >= 0x80 && header[2] == CLASS_GAP && header[3] == EVT_GAP_SCAN_RESPONSE
}

/// Whether a header is that of the response to a given command.
pub fn is_response_to(header: &[u8; 4], class: u8, cmd: u8) -> (b: bool)
    ensures
        b == (header@[0] < 0x80 && header@[2] == class && header@[3] == cmd),
{
    header[0] < 0x80 && header[2] == class && header[3] == cmd
}

/// Calls `std::str::from_utf8`. Claimed (as its documentation states): it
/// succeeds exactly on valid UTF-8, and the text is then the decoded bytes.
#[verifier::external_body]
fn str_from_utf8(v: &[u8]) -> (r: Option<&str>)
    ensures
        r is Some <==> valid_utf8(v@),
        r matches Some(s) ==> s@ == decode_utf8(v@),
{
    std::str::from_utf8(v).ok()
}

/// A little-endian 16-bit value.
pub open spec fn le16(b0: u8, b1: u8) -> u16 {
    (b0 + b1 * 256) as u16
}

/// One step of advertising-data parsing: the structure at `offset` (length
/// byte, type byte, payload) applied to the manufacturer data found so far
/// and the name found so far. Manufacturer data is keyed by the company id
/// (first two payload bytes, little endian; a later entry replaces an
/// earlier one); a complete or short name that is valid UTF-8 replaces the
/// name; other structures are skipped.
pub open spec fn ad_step(ad_type: u8, p: Seq<u8>, m: Map<u16, Seq<u8>>, name: Seq<char>) -> (
    Map<u16, Seq<u8>>,
    Seq<char>,
) {
    if ad_type == AD_TYPE_MANUFACTURER_DATA && p.len() >= 2 {
        (m.insert(le16(p[0], p[1]), p.subrange(2, p.len() as int)), name)
    } else if (ad_type == AD_TYPE_COMPLETE_NAME || ad_type == AD_TYPE_SHORT_NAME) && valid_utf8(p) {
        (m, decode_utf8(p))
    } else {
        (m, name)
    }
}

/// The manufacturer data and name that the advertising structures of `data`
/// from `offset` on add to `m` and `name`; parsing stops at a zero length or
/// at a structure that runs past the end.
pub open spec fn ad_fold(data: Seq<u8>, offset: int, m: Map<u16, Seq<u8>>, name: Seq<char>) -> (
    Map<u16, Seq<u8>>,
    Seq<char>,
)
    decreases data.len() - offset,
{
    if offset < 0 || offset >= data.len() {
        (m, name)
    } else {
        let len = data[offset] as int;
        if len == 0 || len > data.len() - offset - 1 {
            (m, name)
        } else {
            let step = ad_step(data[offset + 1], data.subrange(offset + 2, offset + 1 + len), m, name);
            ad_fold(data, offset + 1 + len, step.0, step.1)
        }
    }
}

/// The manufacturer data (company id to bytes) and local name in an
/// advertising data block.
pub open spec fn ad_structures(data: Seq<u8>) -> (Map<u16, Seq<u8>>, Seq<char>) {
    ad_fold(data, 0, Map::empty(), Seq::empty())
}

/// A local name, complete (type 0x09) or shortened (type 0x08), advertised
/// alone is the name parsed: the structure of length byte, type byte and
/// the name's UTF-8 gives that name and no manufacturer data.
pub proof fn lemma_name_structure(s: Seq<char>, t: u8)
    requires
        t == 0x08 || t == 0x09,
        encode_utf8(s).len() <= 254,
    ensures
        ({
            let e = encode_utf8(s);
            ad_structures(seq![(e.len() + 1) as u8, t] + e) == (Map::<u16, Seq<u8>>::empty(), s)
        }),
{
    let e = encode_utf8(s);
    encode_utf8_valid_utf8(s);
    encode_utf8_decode_utf8(s);
    let data = seq![(e.len() + 1) as u8, t] + e;
    assert(data[0] as int == e.len() + 1);
    assert(data[1] == t);
    assert(data.subrange(2, 2 + e.len() as int) =~= e);
    reveal_with_fuel(ad_fold, 2);
}

/// Manufacturer data advertised alone is what is parsed: the structure of
/// length byte, type 0xFF, the company id (little endian) and the payload
/// gives the payload under that company id, and no name.
pub proof fn lemma_manufacturer_structure(company: u16, payload: Seq<u8>)
    requires
        payload.len() <= 252,
    ensures
        ad_structures(seq![(payload.len() + 3) as u8, 0xFFu8, (company % 256) as u8, (company / 256) as u8] + payload)
            == (Map::<u16, Seq<u8>>::empty().insert(company, payload), Seq::<char>::empty()),
{
    let data = seq![(payload.len() + 3) as u8, 0xFFu8, (company % 256) as u8, (company / 256) as u8] + payload;
    assert(data[0] as int == payload.len() + 3);
    assert(data[1] == 0xFFu8);
    let p = data.subrange(2, 4 + payload.len() as int);
    assert(p[0] == (company % 256) as u8);
    assert(p[1] == (company / 256) as u8);
    assert(le16(p[0], p[1]) == company);
    assert(p.subrange(2, p.len() as int) =~= payload);
    reveal_with_fuel(ad_fold, 2);
}

/// The bytes held by each entry of a map of byte vectors.
pub open spec fn byte_map_view(m: Map<u16, Vec<u8>>) -> Map<u16, Seq<u8>> {
    m.map_values(|v: Vec<u8>| v@)
}

fn copy_range(data: &[u8], from: usize, to: usize) -> (r: Vec<u8>)
    requires
        from <= to <= data@.len(),
    ensures
        r@ == data@.subrange(from as int, to as int),
{
    let mut r: Vec<u8> = Vec::new();
    let mut i = from;
    while i < to
        invariant
            from <= i <= to <= data@.len(),
            r@ == data@.subrange(from as int, i as int),
        decreases to - i,
    {
        r.push(data[i]);
        i = i + 1;
        assert(r@ =~= data@.subrange(from as int, i as int));
    }
    r
}

/// Parse the advertising structures of a scan response: manufacturer data by
/// company id, and the (last) valid complete or short local name.
pub fn parse_ad_structures(data: &[u8]) -> (r: (HashMap<u16, Vec<u8>>, String))
    ensures
        byte_map_view(r.0@) == ad_structures(data@).0,
        r.1@ == ad_structures(data@).1,
{
    let mut manufacturer_data: HashMap<u16, Vec<u8>> = HashMap::new();
    let mut name = String::new();
    let mut offset: usize = 0;
    assert(byte_map_view(manufacturer_data@) =~= Map::<u16, Seq<u8>>::empty());
    while offset < data.len()
        invariant_except_break
            offset <= data@.len(),
            ad_fold(data@, offset as int, byte_map_view(manufacturer_data@), name@)
                == ad_structures(data@),
        ensures
            ad_fold(data@, offset as int, byte_map_view(manufacturer_data@), name@)
                == ad_structures(data@),
            offset >= data@.len() || data@[offset as int] == 0 || offset + 1 + data@[offset as int]
                > data@.len(),
        decreases data@.len() - offset,
    {
        let len = data[offset] as usize;
        if len == 0 || len > data.len() - offset - 1 {
            break;
        }
        let ad_type = data[offset + 1];
        let ghost p = data@.subrange(offset + 2, offset + 1 + len);
        let ghost old_m = byte_map_view(manufacturer_data@);
        let ghost old_name = name@;
        if ad_type == AD_TYPE_MANUFACTURER_DATA && len >= 3 {
            let company_id: u16 = (data[offset + 2] as u16) + (data[offset + 3] as u16) * 256;
            let value = copy_range(data, offset + 4, offset + 1 + len);
            manufacturer_data.insert(company_id, value);
            assert(p.subrange(2, p.len() as int) =~= value@);
            assert(byte_map_view(manufacturer_data@) =~= old_m.insert(
                le16(p[0], p[1]),
                p.subrange(2, p.len() as int),
            ));
        } else if ad_type == AD_TYPE_COMPLETE_NAME || ad_type == AD_TYPE_SHORT_NAME {
            let payload = copy_range(data, offset + 2, offset + 1 + len);
            match str_from_utf8(payload.as_slice()) {
                Some(n) => {
                    name = String::from_str(n);
                },
                None => {},
            }
        }
        assert(ad_step(ad_type, p, old_m, old_name) == (
            byte_map_view(manufacturer_data@),
            name@,
        ));
        offset = offset + 1 + len;
    }
    (manufacturer_data, name)
}

/// A device seen in a GAP scan response.
pub struct ScanResult {
    pub rssi: i16,
    pub mac: String,
    pub name: String,
    pub manufacturer_data: HashMap<u16, Vec<u8>>,
}

/// A byte read as a two's-complement signed value.
pub open spec fn signed_byte(b: u8) -> int {
    if b < 128 {
        b as int
    } else {
        b - 256
    }
}

/// The signal strength byte is read in two's complement: the value lies
/// in -128..=127, is congruent to the byte modulo 256, and is the byte's
/// value as an `i8`.
pub proof fn lemma_signed_byte(b: u8)
    ensures
        -128 <= signed_byte(b) < 128,
        (signed_byte(b) + 256) % 256 == b as int,
        signed_byte(b) == (b as i8) as int,
{
    assert((b < 128 ==> (b as i8) as int == b as int) && (b >= 128 ==> (b as i8) as int == b as int - 256))
        by (bit_vector);
}

/// The MAC address text of a little-endian 6-byte address: the bytes from
/// last to first, as two upper-case hexadecimal digits each, joined by ':'.
pub open spec fn mac_text(a: Seq<u8>) -> Seq<char> {
    hex2(a[5]) + ":"@ + hex2(a[4]) + ":"@ + hex2(a[3]) + ":"@ + hex2(a[2]) + ":"@ + hex2(a[1])
        + ":"@ + hex2(a[0])
}

/// Format a 6-byte little-endian Bluetooth address as "AA:BB:CC:DD:EE:FF".
pub fn format_mac(addr: &[u8]) -> (s: String)
    requires
        addr@.len() >= 6,
    ensures
        s@ == mac_text(addr@),
{
    let mut s = String::new();
    push_hex2(&mut s, addr[5]);
    push_char(&mut s, ':');
    push_hex2(&mut s, addr[4]);
    push_char(&mut s, ':');
    push_hex2(&mut s, addr[3]);
    push_char(&mut s, ':');
    push_hex2(&mut s, addr[2]);
    push_char(&mut s, ':');
    push_hex2(&mut s, addr[1]);
    push_char(&mut s, ':');
    push_hex2(&mut s, addr[0]);
    proof {
        reveal_strlit(":");
    }
    assert(s@ =~= mac_text(addr@));
    s
}

/// Whether a GAP scan response payload is complete: at least the 11 fixed
/// bytes (rssi, packet type, address, address type, bond, data length) and
/// the advertising data that the length byte announces.
pub open spec fn scan_response_complete(p: Seq<u8>) -> bool {
    p.len() >= 11 && p.len() >= 11 + p[10]
}

/// Parse a GAP scan response payload: rssi (signed byte 0), the address
/// (bytes 2..8, little endian) and the advertising data (bytes 11.., length
/// in byte 10). `None` when the payload is incomplete.
pub fn parse_scan_response(payload: &[u8]) -> (r: Option<ScanResult>)
    ensures
        r is Some <==> scan_response_complete(payload@),
        r matches Some(s) ==> {
            &&& s.rssi == signed_byte(payload@[0])
            &&& s.mac@ == mac_text(payload@.subrange(2, 8))
            &&& s.name@ == ad_structures(payload@.subrange(11, 11 + payload@[10])).1
            &&& byte_map_view(s.manufacturer_data@) == ad_structures(
                payload@.subrange(11, 11 + payload@[10]),
            ).0
        },
{
    if payload.len() < 11 {
        return None;
    }
    let b0 = payload[0];
    let rssi: i16 = if b0 < 128 {
        b0 as i16
    } else {
        (b0 as i16) - 256
    };
    let addr = copy_range(payload, 2, 8);
    let mac = format_mac(addr.as_slice());
    assert(addr@ == payload@.subrange(2, 8));
    let data_len = payload[10] as usize;
    if payload.len() < 11 + data_len {
        return None;
    }
    let ad_data = copy_range(payload, 11, 11 + data_len);
    let (manufacturer_data, name) = parse_ad_structures(ad_data.as_slice());
    Some(ScanResult { rssi, mac, name, manufacturer_data })
}


/// Whether `events` are what a GAP scan response payload reports: a device
/// discovery (its MAC address as peripheral id, its name unless empty, its
/// signal strength, its manufacturer data, no service UUIDs), followed by a
/// manufacturer data update when it carries manufacturer data.
pub open spec fn scan_events_ok(payload: Seq<u8>, events: Seq<BleEvent>) -> bool {
    let ad = ad_structures(payload.subrange(11, 11 + payload[10]));
    &&& events.len() == (if ad.0.dom().len() > 0 { 2int } else { 1int })
    &&& events[0] matches BleEvent::DeviceDiscovered { peripheral_id, name, rssi, manufacturer_data, service_uuids }
        && peripheral_id@ == mac_text(payload.subrange(2, 8)) && (if ad.1.len() == 0 {
        name is None
    } else {
        name matches Some(n) && n@ == ad.1
    }) && rssi == Some(signed_byte(payload[0]) as i16) && byte_map_view(manufacturer_data@) == ad.0
        && service_uuids@.len() == 0
    &&& ad.0.dom().len() > 0 ==> (events[1] matches BleEvent::ManufacturerDataUpdate { peripheral_id, manufacturer_data }
        && peripheral_id@ == mac_text(payload.subrange(2, 8)) && byte_map_view(manufacturer_data@) == ad.0)
}

/// The events that one received BGAPI packet reports: for a complete GAP
/// scan response those of `scan_events_ok`, for any other packet none.
pub fn scan_packet_events(header: &[u8; 4], payload: &[u8]) -> (events: Vec<BleEvent>)
    ensures
        (is_scan_response_event_spec(header@) && scan_response_complete(payload@)) ==> scan_events_ok(payload@, events@),
        !(is_scan_response_event_spec(header@) && scan_response_complete(payload@)) ==> events@.len() == 0,
{
    let mut events: Vec<BleEvent> = Vec::new();
    if !is_scan_response_event(header) {
        return events;
    }
    match parse_scan_response(payload) {
        None => events,
        Some(scan) => {
            let has_data = scan.manufacturer_data.len() > 0;
            let name = if scan.name.as_str().is_empty() {
                None
            } else {
                Some(scan.name)
            };
            let mac_copy = scan.mac.clone();
            let data_copy = scan.manufacturer_data.clone();
            let ghost view_map = byte_map_view(scan.manufacturer_data@);
            proof {
                assert(view_map.dom() =~= scan.manufacturer_data@.dom());
            }
            events.push(BleEvent::DeviceDiscovered {
                peripheral_id: mac_copy,
                name,
                rssi: Some(scan.rssi),
                manufacturer_data: data_copy,
                service_uuids: Vec::new(),
            });
            if has_data {
                events.push(BleEvent::ManufacturerDataUpdate {
                    peripheral_id: scan.mac,
                    manufacturer_data: scan.manufacturer_data,
                });
            }
            events
        },
    }
}

/// Whether a header is that of a GAP scan response event.
pub open spec fn is_scan_response_event_spec(h: Seq<u8>) -> bool {
    h[0] >= 0x80 && h[2] == CLASS_GAP && h[3] == EVT_GAP_SCAN_RESPONSE
}

} // verus!
