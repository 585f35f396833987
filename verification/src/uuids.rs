//! UUIDs of the B24 services and characteristics, as 128-bit values.

use vstd::prelude::*;

verus! {

/// The big-endian value of eight bytes.
pub open spec fn be64(b: Seq<u8>) -> int {
    b[0] * 0x100_0000_0000_0000 + b[1] * 0x1_0000_0000_0000 + b[2] * 0x100_0000_0000 + b[3]
        * 0x1_0000_0000 + b[4] * 0x100_0000 + b[5] * 0x1_0000 + b[6] * 0x100 + b[7]
}

/// The 128-bit value of the UUID with fields d1-d2-d3-d4: the fields'
/// big-endian bytes in order.
pub open spec fn uuid_fields_value(d1: u32, d2: u16, d3: u16, d4: Seq<u8>) -> int {
    d1 * 0x1_0000_0000_0000_0000_0000_0000 + d2 * 0x1_0000_0000_0000_0000_0000 + d3
        * 0x1_0000_0000_0000_0000 + be64(d4)
}

/// Calls `uuid::Uuid::from_fields` and takes the UUID's 128-bit value with
/// `Uuid::as_u128`. Claimed (as the crate's source builds it): the value is
/// d1, d2 and d3 in big-endian order followed by the eight bytes of d4.
#[verifier::external_body]
fn uuid_from_fields(d1: u32, d2: u16, d3: u16, d4: &[u8; 8]) -> (v: u128)
    ensures
        v == uuid_fields_value(d1, d2, d3, d4@),
{
    uuid::Uuid::from_fields(d1, d2, d3, d4).as_u128()
}

/// A lower-case hexadecimal digit.
pub open spec fn lower_hex_char(d: nat) -> char {
    if d < 10 {
        (48 + d) as char
    } else {
        (87 + d) as char
    }
}

/// The `n` lowest hexadecimal digits of `v`, lower case, most significant
/// first.
pub open spec fn lower_hex_digits(v: nat, n: nat) -> Seq<char>
    decreases n,
{
    if n == 0 {
        Seq::empty()
    } else {
        lower_hex_digits(v / 16, (n - 1) as nat).push(lower_hex_char(v % 16))
    }
}

/// The hyphenated text of a UUID: its 32 lower-case hexadecimal digits,
/// most significant first, in groups of 8-4-4-4-12.
pub open spec fn uuid_text_value(v: u128) -> Seq<char> {
    let h = lower_hex_digits(v as nat, 32);
    h.subrange(0, 8) + seq!['-'] + h.subrange(8, 12) + seq!['-'] + h.subrange(12, 16) + seq!['-']
        + h.subrange(16, 20) + seq!['-'] + h.subrange(20, 32)
}

/// Calls `uuid::Uuid::from_u128` and formats the UUID with `to_string`
/// (its `Display`). Claimed (as the crate's source writes it: `Display`
/// is `LowerHex`, which writes the hyphenated form): the text is
/// `uuid_text_value(v)`.
#[verifier::external_body]
pub(crate) fn uuid_text(v: u128) -> (s: String)
    ensures
        s@ == uuid_text_value(v),
{
    uuid::Uuid::from_u128(v).to_string()
}

/// The trailing bytes shared by all B24 UUIDs.
pub open spec fn b24_tail() -> Seq<u8> {
    seq![0xbdu8, 0xf4u8, 0x08u8, 0x00u8, 0x20u8, 0x0cu8, 0x9au8, 0x66u8]
}

/// The B24 UUID with a given short identifier:
/// XXXXXXXX-a0e8-11e6-bdf4-0800200c9a66.
pub open spec fn b24_uuid_value(short: u32) -> int {
    uuid_fields_value(short, 0xa0e8, 0x11e6, b24_tail())
}

/// Construct a B24 UUID from the short identifier.
pub fn b24_uuid(short: u32) -> (v: u128)
    ensures
        v == b24_uuid_value(short),
{
    let tail: [u8; 8] = [0xbd, 0xf4, 0x08, 0x00, 0x20, 0x0c, 0x9a, 0x66];
    assert(tail@ =~= b24_tail());
    uuid_from_fields(short, 0xa0e8, 0x11e6, &tail)
}

/// Different short identifiers give different B24 UUIDs.
pub proof fn lemma_b24_uuid_injective(a: u32, b: u32)
    ensures
        a != b ==> b24_uuid_value(a) != b24_uuid_value(b),
{
}

/// The standard BLE GAP Device Name characteristic (0x2A00).
pub open spec fn gap_device_name_value() -> int {
    uuid_fields_value(0x00002a00, 0x0000, 0x1000, seq![0x80u8, 0x00u8, 0x00u8, 0x80u8, 0x5fu8, 0x9bu8, 0x34u8, 0xfbu8])
}

/// Standard BLE GAP Device Name characteristic (0x2A00).
pub fn char_gap_device_name() -> (v: u128)
    ensures
        v == gap_device_name_value(),
{
    let tail: [u8; 8] = [0x80, 0x00, 0x00, 0x80, 0x5f, 0x9b, 0x34, 0xfb];
    assert(tail@ =~= seq![0x80u8, 0x00u8, 0x00u8, 0x80u8, 0x5fu8, 0x9bu8, 0x34u8, 0xfbu8]);
    uuid_from_fields(0x00002a00, 0x0000, 0x1000, &tail)
}

/// Configuration service.
pub fn svc_config() -> (v: u128)
    ensures
        v == b24_uuid_value(0xa970fd30),
{
    b24_uuid(0xa970fd30)
}

/// Data rate.
pub fn char_data_rate() -> (v: u128)
    ensures
        v == b24_uuid_value(0xa970fd31),
{
    b24_uuid(0xa970fd31)
}

/// Resolution.
pub fn char_resolution() -> (v: u128)
    ensures
        v == b24_uuid_value(0xa970fd32),
{
    b24_uuid(0xa970fd32)
}

/// Battery threshold.
pub fn char_battery_thresh() -> (v: u128)
    ensures
        v == b24_uuid_value(0xa970fd33),
{
    b24_uuid(0xa970fd33)
}

/// View PIN.
pub fn char_view_pin() -> (v: u128)
    ensures
        v == b24_uuid_value(0xa970fd34),
{
    b24_uuid(0xa970fd34)
}

/// Serial number.
pub fn char_serial_number() -> (v: u128)
    ensures
        v == b24_uuid_value(0xa970fd35),
{
    b24_uuid(0xa970fd35)
}

/// Data tag.
pub fn char_data_tag() -> (v: u128)
    ensures
        v == b24_uuid_value(0xa970fd36),
{
    b24_uuid(0xa970fd36)
}

/// Battery value.
pub fn char_battery_value() -> (v: u128)
    ensures
        v == b24_uuid_value(0xa970fd37),
{
    b24_uuid(0xa970fd37)
}

/// System zero.
pub fn char_system_zero() -> (v: u128)
    ensures
        v == b24_uuid_value(0xa970fd38),
{
    b24_uuid(0xa970fd38)
}

/// Configuration PIN.
pub fn char_config_pin() -> (v: u128)
    ensures
        v == b24_uuid_value(0xa970fd39),
{
    b24_uuid(0xa970fd39)
}

/// Model name.
pub fn char_model_name() -> (v: u128)
    ensures
        v == b24_uuid_value(0xa970fd3a),
{
    b24_uuid(0xa970fd3a)
}

/// Firmware version.
pub fn char_firmware_ver() -> (v: u128)
    ensures
        v == b24_uuid_value(0xa970fd3b),
{
    b24_uuid(0xa970fd3b)
}

/// Data service.
pub fn svc_data() -> (v: u128)
    ensures
        v == b24_uuid_value(0xa9712440),
{
    b24_uuid(0xa9712440)
}

/// Status.
pub fn char_status() -> (v: u128)
    ensures
        v == b24_uuid_value(0xa9712441),
{
    b24_uuid(0xa9712441)
}

/// Data value.
pub fn char_data_value() -> (v: u128)
    ensures
        v == b24_uuid_value(0xa9712442),
{
    b24_uuid(0xa9712442)
}

/// Data units.
pub fn char_data_units() -> (v: u128)
    ensures
        v == b24_uuid_value(0xa9712443),
{
    b24_uuid(0xa9712443)
}

/// Sensitivity range.
pub fn char_sens_range() -> (v: u128)
    ensures
        v == b24_uuid_value(0xa9717261),
{
    b24_uuid(0xa9717261)
}

/// Coefficient at the linearisation index.
pub fn char_coeff_at_idx() -> (v: u128)
    ensures
        v == b24_uuid_value(0xa9717262),
{
    b24_uuid(0xa9717262)
}

/// Linearisation index.
pub fn char_lin_index() -> (v: u128)
    ensures
        v == b24_uuid_value(0xa9717263),
{
    b24_uuid(0xa9717263)
}

/// Linearisation repeat.
pub fn char_lin_repeat() -> (v: u128)
    ensures
        v == b24_uuid_value(0xa9717264),
{
    b24_uuid(0xa9717264)
}

/// Linearisation points.
pub fn char_lin_points() -> (v: u128)
    ensures
        v == b24_uuid_value(0xa9717265),
{
    b24_uuid(0xa9717265)
}

/// Base value.
pub fn char_base_value() -> (v: u128)
    ensures
        v == b24_uuid_value(0xa9717266),
{
    b24_uuid(0xa9717266)
}

/// Base units.
pub fn char_base_units() -> (v: u128)
    ensures
        v == b24_uuid_value(0xa9717267),
{
    b24_uuid(0xa9717267)
}

/// Data gain.
pub fn char_data_gain() -> (v: u128)
    ensures
        v == b24_uuid_value(0xa9717268),
{
    b24_uuid(0xa9717268)
}

/// Data offset.
pub fn char_data_offset() -> (v: u128)
    ensures
        v == b24_uuid_value(0xa9717269),
{
    b24_uuid(0xa9717269)
}

/// Calibration PIN.
pub fn char_cal_pin() -> (v: u128)
    ensures
        v == b24_uuid_value(0xa971726a),
{
    b24_uuid(0xa971726a)
}

/// Calibration units.
pub fn char_cal_units() -> (v: u128)
    ensures
        v == b24_uuid_value(0xa971726b),
{
    b24_uuid(0xa971726b)
}

/// Advanced index.
pub fn char_adv_index() -> (v: u128)
    ensures
        v == b24_uuid_value(0xa971726c),
{
    b24_uuid(0xa971726c)
}

/// Advanced data.
pub fn char_adv_data() -> (v: u128)
    ensures
        v == b24_uuid_value(0xa971726d),
{
    b24_uuid(0xa971726d)
}

/// All configuration characteristic UUIDs, in the order "Read All Registers" reads them.
pub fn all_config_uuids() -> (r: Vec<u128>)
    ensures
        r@ == seq![
            b24_uuid_value(0xa970fd39) as u128,
            b24_uuid_value(0xa970fd31) as u128,
            b24_uuid_value(0xa970fd32) as u128,
            b24_uuid_value(0xa970fd33) as u128,
            b24_uuid_value(0xa970fd34) as u128,
            b24_uuid_value(0xa970fd35) as u128,
            b24_uuid_value(0xa970fd36) as u128,
            b24_uuid_value(0xa970fd37) as u128,
            b24_uuid_value(0xa970fd38) as u128,
            b24_uuid_value(0xa970fd3a) as u128,
            b24_uuid_value(0xa970fd3b) as u128,
        ],
{
    let mut r: Vec<u128> = Vec::new();
    r.push(char_config_pin());
    r.push(char_data_rate());
    r.push(char_resolution());
    r.push(char_battery_thresh());
    r.push(char_view_pin());
    r.push(char_serial_number());
    r.push(char_data_tag());
    r.push(char_battery_value());
    r.push(char_system_zero());
    r.push(char_model_name());
    r.push(char_firmware_ver());
    assert(r@ =~= seq![
        b24_uuid_value(0xa970fd39) as u128,
        b24_uuid_value(0xa970fd31) as u128,
        b24_uuid_value(0xa970fd32) as u128,
        b24_uuid_value(0xa970fd33) as u128,
        b24_uuid_value(0xa970fd34) as u128,
        b24_uuid_value(0xa970fd35) as u128,
        b24_uuid_value(0xa970fd36) as u128,
        b24_uuid_value(0xa970fd37) as u128,
        b24_uuid_value(0xa970fd38) as u128,
        b24_uuid_value(0xa970fd3a) as u128,
        b24_uuid_value(0xa970fd3b) as u128,
    ]);
    r
}

/// All calibration characteristic UUIDs, in the order "Read All Registers" reads them.
pub fn all_calibration_uuids() -> (r: Vec<u128>)
    ensures
        r@ == seq![
            b24_uuid_value(0xa9717261) as u128,
            b24_uuid_value(0xa9717262) as u128,
            b24_uuid_value(0xa9717263) as u128,
            b24_uuid_value(0xa9717264) as u128,
            b24_uuid_value(0xa9717265) as u128,
            b24_uuid_value(0xa9717266) as u128,
            b24_uuid_value(0xa9717267) as u128,
            b24_uuid_value(0xa9717268) as u128,
            b24_uuid_value(0xa9717269) as u128,
            b24_uuid_value(0xa971726a) as u128,
            b24_uuid_value(0xa971726b) as u128,
        ],
{
    let mut r: Vec<u128> = Vec::new();
    r.push(char_sens_range());
    r.push(char_coeff_at_idx());
    r.push(char_lin_index());
    r.push(char_lin_repeat());
    r.push(char_lin_points());
    r.push(char_base_value());
    r.push(char_base_units());
    r.push(char_data_gain());
    r.push(char_data_offset());
    r.push(char_cal_pin());
    r.push(char_cal_units());
    assert(r@ =~= seq![
        b24_uuid_value(0xa9717261) as u128,
        b24_uuid_value(0xa9717262) as u128,
        b24_uuid_value(0xa9717263) as u128,
        b24_uuid_value(0xa9717264) as u128,
        b24_uuid_value(0xa9717265) as u128,
        b24_uuid_value(0xa9717266) as u128,
        b24_uuid_value(0xa9717267) as u128,
        b24_uuid_value(0xa9717268) as u128,
        b24_uuid_value(0xa9717269) as u128,
        b24_uuid_value(0xa971726a) as u128,
        b24_uuid_value(0xa971726b) as u128,
    ]);
    r
}

} // verus!
