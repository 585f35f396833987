//! The register writes that saving edited fields, or importing a saved
//! configuration, sends to the device.

use vstd::prelude::*;
use vstd::string::StringSliceAdditionalSpecFns;
use vstd::utf8::encode_utf8;

use crate::ble::{is_adv_write, is_write, BleCommand};
use crate::codec::{be16_bytes, be32_bytes, encode_string, encode_u16_be, encode_u32_be, encode_u8, padded};
use crate::session::{all_calibration_uuid_values, all_config_uuid_values, register_short, Register};
use crate::state::EditBuffers;
use crate::text::{
    config_value, lowercase, pair_texts, pair_value, parse_data_tag, parse_u32, parse_u8,
    parse_unsigned, replace_char, trim, trimmed,
};
use crate::types::{all_advanced_params, param_index, param_label, param_type, AdvancedParam, ParamType};
use crate::uuids::{
    all_calibration_uuids, all_config_uuids, b24_uuid, b24_uuid_value, char_data_units,
    char_gap_device_name, char_lin_points, gap_device_name_value,
};

verus! {

/// The UUID of a register's characteristic.
pub open spec fn reg_uuid(r: Register) -> u128 {
    b24_uuid_value(register_short(r)) as u128
}

/// Whether the first commands of `cmds` are the characteristic writes
/// `writes` (UUID and data), in order.
pub open spec fn writes_ok(cmds: Seq<BleCommand>, writes: Seq<(u128, Seq<u8>)>) -> bool {
    &&& cmds.len() >= writes.len()
    &&& forall|i: int|
        0 <= i < writes.len() ==> is_write(#[trigger] cmds[i], writes[i].0, writes[i].1)
}

/// `w` with one more write when there is one.
pub open spec fn add_write(w: Seq<(u128, Seq<u8>)>, x: Option<(u128, Seq<u8>)>) -> Seq<(u128, Seq<u8>)> {
    match x {
        Some(p) => w.push(p),
        None => w,
    }
}

/// The write of a u32 register typed in decimal, if the text parses.
pub open spec fn u32_write(r: Register, text: Seq<char>) -> Option<(u128, Seq<u8>)> {
    match parse_unsigned(text, 10, u32::MAX as int) {
        Some(v) => Some((reg_uuid(r), be32_bytes(v as u32))),
        None => None,
    }
}

/// The write of a u8 register typed in decimal, if the text parses.
pub open spec fn u8_write(r: Register, text: Seq<char>) -> Option<(u128, Seq<u8>)> {
    match parse_unsigned(text, 10, u8::MAX as int) {
        Some(v) => Some((reg_uuid(r), seq![v as u8])),
        None => None,
    }
}

/// The write of a float register given the bit pattern of its value.
pub open spec fn f32_write(r: Register, bits: Option<u32>) -> Option<(u128, Seq<u8>)> {
    match bits {
        Some(b) => Some((reg_uuid(r), be32_bytes(b))),
        None => None,
    }
}

/// The write of the data tag typed in hexadecimal, if the trimmed text parses.
pub open spec fn tag_write(text: Seq<char>) -> Option<(u128, Seq<u8>)> {
    match parse_unsigned(trimmed(text), 16, u16::MAX as int) {
        Some(v) => Some((reg_uuid(Register::DataTag), be16_bytes(v as u16))),
        None => None,
    }
}

/// The write of the View PIN: its UTF-8 bytes zero padded (or truncated) to
/// five bytes.
pub open spec fn view_pin_write(text: Seq<char>) -> (u128, Seq<u8>) {
    (reg_uuid(Register::ViewPin), padded(encode_utf8(text), 5))
}

/// The values of the float edit buffers, parsed by the caller: for each,
/// the bit pattern of the f32 typed in, or `None` when the buffer is empty
/// or does not hold a number.
pub struct FloatEdits {
    pub battery_threshold: Option<u32>,
    pub system_zero: Option<u32>,
    pub data_gain: Option<u32>,
    pub data_offset: Option<u32>,
}

/// The writes that saving the edited fields sends, in order.
pub open spec fn save_writes(e: EditBuffers, f: FloatEdits) -> Seq<(u128, Seq<u8>)> {
    let w0 = Seq::<(u128, Seq<u8>)>::empty();
    let w1 = add_write(w0, u32_write(Register::DataRate, e.data_rate@));
    let w2 = add_write(w1, u8_write(Register::Resolution, e.resolution@));
    let w3 = add_write(w2, tag_write(e.data_tag@));
    let w4 = add_write(w3, u32_write(Register::ConfigPin, e.config_pin@));
    let w5 = if e.view_pin@.len() > 0 {
        w4.push(view_pin_write(e.view_pin@))
    } else {
        w4
    };
    let w6 = add_write(w5, f32_write(Register::BatteryThreshold, f.battery_threshold));
    let w7 = add_write(w6, f32_write(Register::SystemZero, f.system_zero));
    let w7a = if e.local_name@.len() > 0 {
        w7.push((gap_device_name_value() as u128, encode_utf8(trimmed(e.local_name@))))
    } else {
        w7
    };
    let w7b = add_write(w7a, u8_write(Register::DataUnits, e.data_units_display@));
    let w8 = add_write(w7b, u8_write(Register::SensitivityRange, e.sensitivity_range@));
    let w9 = add_write(w8, f32_write(Register::DataGain, f.data_gain));
    let w10 = add_write(w9, f32_write(Register::DataOffset, f.data_offset));
    let w11 = add_write(w10, u32_write(Register::CalPin, e.cal_pin@));
    add_write(w11, u8_write(Register::CalUnits, e.cal_units_display@))
}

/// The reads that follow a save: all configuration and calibration
/// registers, the data units and the device name.
pub open spec fn save_reads_ok(cmds: Seq<BleCommand>) -> bool {
    &&& cmds.len() == 4
    &&& cmds[0] matches BleCommand::ReadAll(v) && v@ == all_config_uuid_values()
    &&& cmds[1] matches BleCommand::ReadAll(v) && v@ == all_calibration_uuid_values()
    &&& cmds[2] == BleCommand::ReadCharacteristic(reg_uuid(Register::DataUnits))
    &&& cmds[3] == BleCommand::ReadCharacteristic(gap_device_name_value() as u128)
}

pub(crate) fn push_write(cmds: &mut Vec<BleCommand>, uuid: u128, data: Vec<u8>, Ghost(w): Ghost<Seq<(u128, Seq<u8>)>>)
    requires
        writes_ok(old(cmds)@, w),
        old(cmds)@.len() == w.len(),
    ensures
        writes_ok(final(cmds)@, w.push((uuid, data@))),
        final(cmds)@.len() == w.len() + 1,
{
    cmds.push(BleCommand::WriteCharacteristic { uuid, data });
    assert forall|i: int| 0 <= i < w.len() + 1 implies is_write(
        #[trigger] cmds@[i],
        w.push((uuid, data@))[i].0,
        w.push((uuid, data@))[i].1,
    ) by {
        if i < w.len() {
            assert(cmds@[i] == old(cmds)@[i]);
        }
    }
}

fn push_u32_write(cmds: &mut Vec<BleCommand>, r_uuid: u128, text: &String, Ghost(r): Ghost<Register>, Ghost(w): Ghost<Seq<(u128, Seq<u8>)>>)
    requires
        r_uuid == reg_uuid(r),
        writes_ok(old(cmds)@, w),
        old(cmds)@.len() == w.len(),
    ensures
        writes_ok(final(cmds)@, add_write(w, u32_write(r, text@))),
        final(cmds)@.len() == add_write(w, u32_write(r, text@)).len(),
{
    if let Some(v) = parse_u32(text.as_str()) {
        push_write(cmds, r_uuid, encode_u32_be(v), Ghost(w));
    }
}

fn push_u8_write(cmds: &mut Vec<BleCommand>, r_uuid: u128, text: &String, Ghost(r): Ghost<Register>, Ghost(w): Ghost<Seq<(u128, Seq<u8>)>>)
    requires
        r_uuid == reg_uuid(r),
        writes_ok(old(cmds)@, w),
        old(cmds)@.len() == w.len(),
    ensures
        writes_ok(final(cmds)@, add_write(w, u8_write(r, text@))),
        final(cmds)@.len() == add_write(w, u8_write(r, text@)).len(),
{
    if let Some(v) = parse_u8(text.as_str()) {
        push_write(cmds, r_uuid, encode_u8(v), Ghost(w));
    }
}

fn push_f32_write(cmds: &mut Vec<BleCommand>, r_uuid: u128, bits: Option<u32>, Ghost(r): Ghost<Register>, Ghost(w): Ghost<Seq<(u128, Seq<u8>)>>)
    requires
        r_uuid == reg_uuid(r),
        writes_ok(old(cmds)@, w),
        old(cmds)@.len() == w.len(),
    ensures
        writes_ok(final(cmds)@, add_write(w, f32_write(r, bits))),
        final(cmds)@.len() == add_write(w, f32_write(r, bits)).len(),
{
    if let Some(b) = bits {
        push_write(cmds, r_uuid, encode_u32_be(b), Ghost(w));
    }
}

fn push_reads_after_save(cmds: &mut Vec<BleCommand>, Ghost(w): Ghost<Seq<(u128, Seq<u8>)>>)
    requires
        writes_ok(old(cmds)@, w),
        old(cmds)@.len() == w.len(),
    ensures
        writes_ok(final(cmds)@, w),
        final(cmds)@.len() == w.len() + 4,
        save_reads_ok(final(cmds)@.skip(w.len() as int)),
{
    cmds.push(BleCommand::ReadAll(all_config_uuids()));
    cmds.push(BleCommand::ReadAll(all_calibration_uuids()));
    cmds.push(BleCommand::ReadCharacteristic(char_data_units()));
    cmds.push(BleCommand::ReadCharacteristic(char_gap_device_name()));
    assert forall|i: int| 0 <= i < w.len() implies is_write(#[trigger] cmds@[i], w[i].0, w[i].1) by {
        assert(cmds@[i] == old(cmds)@[i]);
    }
    let ghost tail = cmds@.skip(w.len() as int);
    assert(tail[0] == cmds@[w.len() as int]);
    assert(tail[1] == cmds@[w.len() as int + 1]);
    assert(tail[2] == cmds@[w.len() as int + 2]);
    assert(tail[3] == cmds@[w.len() as int + 3]);
}

/// The reads of the configuration tab's "Refresh All": all configuration and
/// calibration registers, the data units and the device name.
pub fn refresh_all_reads() -> (cmds: Vec<BleCommand>)
    ensures
        save_reads_ok(cmds@),
{
    let mut cmds: Vec<BleCommand> = Vec::new();
    let ghost w = Seq::<(u128, Seq<u8>)>::empty();
    push_reads_after_save(&mut cmds, Ghost(w));
    assert(cmds@.skip(0) =~= cmds@);
    cmds
}

/// The reads of the calibration tab's "Refresh": all calibration registers,
/// then the number of linearisation points, whose read fetches the table.
pub fn refresh_calibration_reads() -> (cmds: Vec<BleCommand>)
    ensures
        cmds@.len() == 2,
        cmds@[0] matches BleCommand::ReadAll(v) && v@ == all_calibration_uuid_values(),
        cmds@[1] == BleCommand::ReadCharacteristic(reg_uuid(Register::LinPoints)),
{
    let mut cmds: Vec<BleCommand> = Vec::new();
    cmds.push(BleCommand::ReadAll(all_calibration_uuids()));
    cmds.push(BleCommand::ReadCharacteristic(char_lin_points()));
    cmds
}

/// Save the edited fields: each non-empty field that parses is written to
/// its register (in the order of `save_writes`), every register is read back,
/// and the edit buffers of the saved fields are cleared.
pub fn save_all_changes(edit: &mut EditBuffers, floats: FloatEdits) -> (cmds: Vec<BleCommand>)
    ensures
        ({
            let w = save_writes(*old(edit), floats);
            &&& writes_ok(cmds@, w)
            &&& cmds@.len() == w.len() + 4
            &&& save_reads_ok(cmds@.skip(w.len() as int))
        }),
        final(edit).data_rate@.len() == 0,
        final(edit).resolution@.len() == 0,
        final(edit).data_tag@.len() == 0,
        final(edit).config_pin@.len() == 0,
        final(edit).view_pin@.len() == 0,
        final(edit).battery_threshold@.len() == 0,
        final(edit).system_zero@.len() == 0,
        final(edit).local_name@.len() == 0,
        final(edit).data_units_display@.len() == 0,
        final(edit).cal_units@.len() == 0,
        final(edit).sensitivity_range@.len() == 0,
        final(edit).data_gain@.len() == 0,
        final(edit).data_offset@.len() == 0,
        final(edit).cal_pin@.len() == 0,
        final(edit).cal_units_display@.len() == 0,
        final(edit).lin_index == old(edit).lin_index,
        final(edit).lin_repeat == old(edit).lin_repeat,
        final(edit).lin_points == old(edit).lin_points,
        final(edit).adv_index == old(edit).adv_index,
        final(edit).adv_data == old(edit).adv_data,
{
    let ghost e = *edit;
    let mut cmds: Vec<BleCommand> = Vec::new();
    let ghost w0 = Seq::<(u128, Seq<u8>)>::empty();
    push_u32_write(&mut cmds, b24_uuid(0xa970fd31), &edit.data_rate, Ghost(Register::DataRate), Ghost(w0));
    let ghost w1 = add_write(w0, u32_write(Register::DataRate, e.data_rate@));
    push_u8_write(&mut cmds, b24_uuid(0xa970fd32), &edit.resolution, Ghost(Register::Resolution), Ghost(w1));
    let ghost w2 = add_write(w1, u8_write(Register::Resolution, e.resolution@));
    if let Some(tag) = parse_data_tag(edit.data_tag.as_str()) {
        push_write(&mut cmds, b24_uuid(0xa970fd36), encode_u16_be(tag), Ghost(w2));
    }
    let ghost w3 = add_write(w2, tag_write(e.data_tag@));
    push_u32_write(&mut cmds, b24_uuid(0xa970fd39), &edit.config_pin, Ghost(Register::ConfigPin), Ghost(w3));
    let ghost w4 = add_write(w3, u32_write(Register::ConfigPin, e.config_pin@));
    if edit.view_pin.as_str().is_empty() == false {
        let pin = encode_string(edit.view_pin.as_str(), 5);
        push_write(&mut cmds, b24_uuid(0xa970fd34), pin, Ghost(w4));
    }
    let ghost w5 = if e.view_pin@.len() > 0 {
        w4.push(view_pin_write(e.view_pin@))
    } else {
        w4
    };
    push_f32_write(&mut cmds, b24_uuid(0xa970fd33), floats.battery_threshold, Ghost(Register::BatteryThreshold), Ghost(w5));
    let ghost w6 = add_write(w5, f32_write(Register::BatteryThreshold, floats.battery_threshold));
    push_f32_write(&mut cmds, b24_uuid(0xa970fd38), floats.system_zero, Ghost(Register::SystemZero), Ghost(w6));
    let ghost w7 = add_write(w6, f32_write(Register::SystemZero, floats.system_zero));
    if edit.local_name.as_str().is_empty() == false {
        let name = trim(edit.local_name.as_str());
        push_write(&mut cmds, char_gap_device_name(), utf8_bytes(name), Ghost(w7));
    }
    let ghost w7a = if e.local_name@.len() > 0 {
        w7.push((gap_device_name_value() as u128, encode_utf8(trimmed(e.local_name@))))
    } else {
        w7
    };
    push_u8_write(&mut cmds, b24_uuid(0xa9712443), &edit.data_units_display, Ghost(Register::DataUnits), Ghost(w7a));
    let ghost w7b = add_write(w7a, u8_write(Register::DataUnits, e.data_units_display@));
    push_u8_write(&mut cmds, b24_uuid(0xa9717261), &edit.sensitivity_range, Ghost(Register::SensitivityRange), Ghost(w7b));
    let ghost w8 = add_write(w7b, u8_write(Register::SensitivityRange, e.sensitivity_range@));
    push_f32_write(&mut cmds, b24_uuid(0xa9717268), floats.data_gain, Ghost(Register::DataGain), Ghost(w8));
    let ghost w9 = add_write(w8, f32_write(Register::DataGain, floats.data_gain));
    push_f32_write(&mut cmds, b24_uuid(0xa9717269), floats.data_offset, Ghost(Register::DataOffset), Ghost(w9));
    let ghost w10 = add_write(w9, f32_write(Register::DataOffset, floats.data_offset));
    push_u32_write(&mut cmds, b24_uuid(0xa971726a), &edit.cal_pin, Ghost(Register::CalPin), Ghost(w10));
    let ghost w11 = add_write(w10, u32_write(Register::CalPin, e.cal_pin@));
    push_u8_write(&mut cmds, b24_uuid(0xa971726b), &edit.cal_units_display, Ghost(Register::CalUnits), Ghost(w11));
    let ghost w12 = add_write(w11, u8_write(Register::CalUnits, e.cal_units_display@));
    assert(w12 == save_writes(e, floats));
    push_reads_after_save(&mut cmds, Ghost(w12));
    edit.data_rate = String::new();
    edit.resolution = String::new();
    edit.data_tag = String::new();
    edit.config_pin = String::new();
    edit.view_pin = String::new();
    edit.battery_threshold = String::new();
    edit.system_zero = String::new();
    edit.local_name = String::new();
    edit.data_units_display = String::new();
    edit.cal_units = String::new();
    edit.sensitivity_range = String::new();
    edit.data_gain = String::new();
    edit.data_offset = String::new();
    edit.cal_pin = String::new();
    edit.cal_units_display = String::new();
    cmds
}


/// The fields of a saved configuration that may be imported into a device
/// (nothing device specific). Float registers are carried as the bit
/// patterns of their f32 values.
pub struct ExportableConfig {
    pub data_rate: Option<u32>,
    pub resolution: Option<u8>,
    pub battery_threshold: Option<u32>,
    pub view_pin: Option<String>,
    pub system_zero: Option<u32>,
    pub config_pin: Option<u32>,
    pub cal_units: Option<u8>,
    pub data_tag: Option<String>,
    pub sensitivity_range: Option<u8>,
    pub data_gain: Option<u32>,
    pub data_offset: Option<u32>,
    pub cal_pin: Option<u32>,
    pub local_name: Option<String>,
    pub data_units: Option<u8>,
}

/// The write of a u32 register holding `v`, when there is a value.
pub open spec fn opt_u32_write(r: Register, v: Option<u32>) -> Option<(u128, Seq<u8>)> {
    match v {
        Some(x) => Some((reg_uuid(r), be32_bytes(x))),
        None => None,
    }
}

/// The write of a u8 register holding `v`, when there is a value.
pub open spec fn opt_u8_write(r: Register, v: Option<u8>) -> Option<(u128, Seq<u8>)> {
    match v {
        Some(x) => Some((reg_uuid(r), seq![x])),
        None => None,
    }
}

/// The writes that importing a saved configuration sends, in order.
pub open spec fn import_writes(c: ExportableConfig) -> Seq<(u128, Seq<u8>)> {
    let w0 = Seq::<(u128, Seq<u8>)>::empty();
    let w1 = add_write(w0, opt_u32_write(Register::DataRate, c.data_rate));
    let w2 = add_write(w1, opt_u8_write(Register::Resolution, c.resolution));
    let w3 = add_write(w2, opt_u32_write(Register::BatteryThreshold, c.battery_threshold));
    let w4 = match c.view_pin {
        Some(p) => w3.push(view_pin_write(p@)),
        None => w3,
    };
    let w5 = add_write(w4, opt_u32_write(Register::SystemZero, c.system_zero));
    let w6 = add_write(w5, opt_u32_write(Register::ConfigPin, c.config_pin));
    let w7 = add_write(w6, opt_u8_write(Register::CalUnits, c.cal_units));
    let w8 = match c.data_tag {
        Some(t) => add_write(w7, tag_write(t@)),
        None => w7,
    };
    let w9 = add_write(w8, opt_u8_write(Register::SensitivityRange, c.sensitivity_range));
    let w10 = add_write(w9, opt_u32_write(Register::DataGain, c.data_gain));
    let w11 = add_write(w10, opt_u32_write(Register::DataOffset, c.data_offset));
    let w12 = add_write(w11, opt_u32_write(Register::CalPin, c.cal_pin));
    let w13 = match c.local_name {
        Some(n) => w12.push((gap_device_name_value() as u128, encode_utf8(n@))),
        None => w12,
    };
    add_write(w13, opt_u8_write(Register::DataUnits, c.data_units))
}

/// Whether `cmds` are the two "Read All Registers" batches.
pub open spec fn read_all_ok(cmds: Seq<BleCommand>) -> bool {
    &&& cmds.len() == 2
    &&& cmds[0] matches BleCommand::ReadAll(v) && v@ == all_config_uuid_values()
    &&& cmds[1] matches BleCommand::ReadAll(v) && v@ == all_calibration_uuid_values()
}

fn push_opt_u32(cmds: &mut Vec<BleCommand>, r_uuid: u128, v: Option<u32>, Ghost(r): Ghost<Register>, Ghost(w): Ghost<Seq<(u128, Seq<u8>)>>)
    requires
        r_uuid == reg_uuid(r),
        writes_ok(old(cmds)@, w),
        old(cmds)@.len() == w.len(),
    ensures
        writes_ok(final(cmds)@, add_write(w, opt_u32_write(r, v))),
        final(cmds)@.len() == add_write(w, opt_u32_write(r, v)).len(),
{
    if let Some(x) = v {
        push_write(cmds, r_uuid, encode_u32_be(x), Ghost(w));
    }
}

fn push_opt_u8(cmds: &mut Vec<BleCommand>, r_uuid: u128, v: Option<u8>, Ghost(r): Ghost<Register>, Ghost(w): Ghost<Seq<(u128, Seq<u8>)>>)
    requires
        r_uuid == reg_uuid(r),
        writes_ok(old(cmds)@, w),
        old(cmds)@.len() == w.len(),
    ensures
        writes_ok(final(cmds)@, add_write(w, opt_u8_write(r, v))),
        final(cmds)@.len() == add_write(w, opt_u8_write(r, v)).len(),
{
    if let Some(x) = v {
        push_write(cmds, r_uuid, encode_u8(x), Ghost(w));
    }
}

fn push_read_all(cmds: &mut Vec<BleCommand>, Ghost(w): Ghost<Seq<(u128, Seq<u8>)>>)
    requires
        writes_ok(old(cmds)@, w),
        old(cmds)@.len() == w.len(),
    ensures
        writes_ok(final(cmds)@, w),
        final(cmds)@.len() == w.len() + 2,
        read_all_ok(final(cmds)@.skip(w.len() as int)),
{
    cmds.push(BleCommand::ReadAll(all_config_uuids()));
    cmds.push(BleCommand::ReadAll(all_calibration_uuids()));
    assert forall|i: int| 0 <= i < w.len() implies is_write(#[trigger] cmds@[i], w[i].0, w[i].1) by {
        assert(cmds@[i] == old(cmds)@[i]);
    }
    let ghost tail = cmds@.skip(w.len() as int);
    assert(tail[0] == cmds@[w.len() as int]);
    assert(tail[1] == cmds@[w.len() as int + 1]);
}

/// The UTF-8 bytes of a text.
fn utf8_bytes(s: &str) -> (r: Vec<u8>)
    ensures
        r@ == encode_utf8(s@),
{
    vstd::slice::slice_to_vec(s.as_bytes())
}

/// Import a saved configuration: each field present is written to its
/// register (in the order of `import_writes`), then every configuration and
/// calibration register is read back.
pub fn import_from_exportable(cfg: &ExportableConfig) -> (cmds: Vec<BleCommand>)
    ensures
        writes_ok(cmds@, import_writes(*cfg)),
        cmds@.len() == import_writes(*cfg).len() + 2,
        read_all_ok(cmds@.skip(import_writes(*cfg).len() as int)),
{
    let ghost c = *cfg;
    let mut cmds: Vec<BleCommand> = Vec::new();
    let ghost w0 = Seq::<(u128, Seq<u8>)>::empty();
    push_opt_u32(&mut cmds, b24_uuid(0xa970fd31), cfg.data_rate, Ghost(Register::DataRate), Ghost(w0));
    let ghost w1 = add_write(w0, opt_u32_write(Register::DataRate, c.data_rate));
    push_opt_u8(&mut cmds, b24_uuid(0xa970fd32), cfg.resolution, Ghost(Register::Resolution), Ghost(w1));
    let ghost w2 = add_write(w1, opt_u8_write(Register::Resolution, c.resolution));
    push_opt_u32(&mut cmds, b24_uuid(0xa970fd33), cfg.battery_threshold, Ghost(Register::BatteryThreshold), Ghost(w2));
    let ghost w3 = add_write(w2, opt_u32_write(Register::BatteryThreshold, c.battery_threshold));
    if let Some(pin) = &cfg.view_pin {
        push_write(&mut cmds, b24_uuid(0xa970fd34), encode_string(pin.as_str(), 5), Ghost(w3));
    }
    let ghost w4 = match c.view_pin {
        Some(p) => w3.push(view_pin_write(p@)),
        None => w3,
    };
    push_opt_u32(&mut cmds, b24_uuid(0xa970fd38), cfg.system_zero, Ghost(Register::SystemZero), Ghost(w4));
    let ghost w5 = add_write(w4, opt_u32_write(Register::SystemZero, c.system_zero));
    push_opt_u32(&mut cmds, b24_uuid(0xa970fd39), cfg.config_pin, Ghost(Register::ConfigPin), Ghost(w5));
    let ghost w6 = add_write(w5, opt_u32_write(Register::ConfigPin, c.config_pin));
    push_opt_u8(&mut cmds, b24_uuid(0xa971726b), cfg.cal_units, Ghost(Register::CalUnits), Ghost(w6));
    let ghost w7 = add_write(w6, opt_u8_write(Register::CalUnits, c.cal_units));
    if let Some(tag) = &cfg.data_tag {
        if let Some(v) = parse_data_tag(tag.as_str()) {
            push_write(&mut cmds, b24_uuid(0xa970fd36), encode_u16_be(v), Ghost(w7));
        }
    }
    let ghost w8 = match c.data_tag {
        Some(t) => add_write(w7, tag_write(t@)),
        None => w7,
    };
    push_opt_u8(&mut cmds, b24_uuid(0xa9717261), cfg.sensitivity_range, Ghost(Register::SensitivityRange), Ghost(w8));
    let ghost w9 = add_write(w8, opt_u8_write(Register::SensitivityRange, c.sensitivity_range));
    push_opt_u32(&mut cmds, b24_uuid(0xa9717268), cfg.data_gain, Ghost(Register::DataGain), Ghost(w9));
    let ghost w10 = add_write(w9, opt_u32_write(Register::DataGain, c.data_gain));
    push_opt_u32(&mut cmds, b24_uuid(0xa9717269), cfg.data_offset, Ghost(Register::DataOffset), Ghost(w10));
    let ghost w11 = add_write(w10, opt_u32_write(Register::DataOffset, c.data_offset));
    push_opt_u32(&mut cmds, b24_uuid(0xa971726a), cfg.cal_pin, Ghost(Register::CalPin), Ghost(w11));
    let ghost w12 = add_write(w11, opt_u32_write(Register::CalPin, c.cal_pin));
    if let Some(name) = &cfg.local_name {
        push_write(&mut cmds, char_gap_device_name(), utf8_bytes(name.as_str()), Ghost(w12));
    }
    let ghost w13 = match c.local_name {
        Some(n) => w12.push((gap_device_name_value() as u128, encode_utf8(n@))),
        None => w12,
    };
    push_opt_u8(&mut cmds, b24_uuid(0xa9712443), cfg.data_units, Ghost(Register::DataUnits), Ghost(w13));
    let ghost w14 = add_write(w13, opt_u8_write(Register::DataUnits, c.data_units));
    assert(w14 == import_writes(c));
    push_read_all(&mut cmds, Ghost(w14));
    cmds
}


/// The float values of a configuration text, parsed by the caller: for each
/// float key, the bit pattern of its value read as an f32, or `None` when
/// the key is missing or its value is not a number.
pub struct TextFloats {
    pub battery_threshold: Option<u32>,
    pub system_zero: Option<u32>,
    pub data_gain: Option<u32>,
    pub data_offset: Option<u32>,
    pub display_min: Option<u32>,
    pub display_max: Option<u32>,
    pub filter_level: Option<u32>,
    pub fast_level: Option<u32>,
}

/// The float value given for a float advanced parameter.
pub open spec fn adv_float(f: TextFloats, p: AdvancedParam) -> Option<u32> {
    match p {
        AdvancedParam::DisplayMin => f.display_min,
        AdvancedParam::DisplayMax => f.display_max,
        AdvancedParam::FilterLevel => f.filter_level,
        AdvancedParam::FastLevel => f.fast_level,
        _ => None,
    }
}

/// The text-format key of an advanced parameter: its label lowercased, with
/// spaces written as '_'.
pub open spec fn adv_key(p: AdvancedParam) -> Seq<char> {
    replace_char(lowercase(param_label(p)), ' ', '_')
}

/// The write of a u32 register from an optional text value.
pub open spec fn kv_u32_write(r: Register, v: Option<Seq<char>>) -> Option<(u128, Seq<u8>)> {
    match v {
        Some(t) => u32_write(r, t),
        None => None,
    }
}

/// The write of a u8 register from an optional text value.
pub open spec fn kv_u8_write(r: Register, v: Option<Seq<char>>) -> Option<(u128, Seq<u8>)> {
    match v {
        Some(t) => u8_write(r, t),
        None => None,
    }
}

/// The characteristic writes that importing a configuration text sends,
/// in order.
pub open spec fn text_import_writes(kv: Seq<(Seq<char>, Seq<char>)>, f: TextFloats) -> Seq<(u128, Seq<u8>)> {
    let w0 = Seq::<(u128, Seq<u8>)>::empty();
    let w1 = add_write(w0, kv_u32_write(Register::DataRate, pair_value(kv, "data_rate"@)));
    let w2 = add_write(w1, kv_u8_write(Register::Resolution, pair_value(kv, "resolution"@)));
    let w3 = add_write(w2, f32_write(Register::BatteryThreshold, f.battery_threshold));
    let w4 = match pair_value(kv, "view_pin"@) {
        Some(v) => w3.push(view_pin_write(v)),
        None => w3,
    };
    let w5 = add_write(w4, f32_write(Register::SystemZero, f.system_zero));
    let w6 = add_write(w5, kv_u32_write(Register::ConfigPin, pair_value(kv, "config_pin"@)));
    let w7 = match pair_value(kv, "data_tag"@) {
        Some(v) => add_write(w6, tag_write(v)),
        None => w6,
    };
    let w8 = match pair_value(kv, "local_name"@) {
        Some(v) => w7.push((gap_device_name_value() as u128, encode_utf8(v))),
        None => w7,
    };
    let w9 = add_write(w8, kv_u8_write(Register::DataUnits, pair_value(kv, "data_units"@)));
    let w10 = add_write(w9, kv_u8_write(Register::SensitivityRange, pair_value(kv, "sensitivity_range"@)));
    let w11 = add_write(w10, f32_write(Register::DataGain, f.data_gain));
    let w12 = add_write(w11, f32_write(Register::DataOffset, f.data_offset));
    let w13 = add_write(w12, kv_u32_write(Register::CalPin, pair_value(kv, "cal_pin"@)));
    add_write(w13, kv_u8_write(Register::CalUnits, pair_value(kv, "cal_units"@)))
}

/// The advanced write for one parameter of a configuration text, if its key
/// is present and its value reads as the parameter's type; the read-only
/// peak and trough values are never written.
pub open spec fn adv_write(kv: Seq<(Seq<char>, Seq<char>)>, f: TextFloats, p: AdvancedParam) -> Option<(u8, Seq<u8>)> {
    if p == AdvancedParam::PeakValue || p == AdvancedParam::TroughValue {
        None
    } else {
        match pair_value(kv, adv_key(p)) {
            None => None,
            Some(t) => match param_type(p) {
                ParamType::Float => match adv_float(f, p) {
                    Some(b) => Some((param_index(p), be32_bytes(b))),
                    None => None,
                },
                ParamType::Uint32 => match parse_unsigned(t, 10, u32::MAX as int) {
                    Some(v) => Some((param_index(p), be32_bytes(v as u32))),
                    None => None,
                },
                ParamType::Uint8 => match parse_unsigned(t, 10, u8::MAX as int) {
                    Some(v) => Some((param_index(p), seq![v as u8])),
                    None => None,
                },
            },
        }
    }
}

/// The advanced writes for the first `n` parameters, in order.
pub open spec fn adv_writes(kv: Seq<(Seq<char>, Seq<char>)>, f: TextFloats, n: int) -> Seq<(u8, Seq<u8>)>
    decreases n,
{
    if n <= 0 {
        Seq::empty()
    } else {
        let p = adv_writes(kv, f, n - 1);
        match adv_write(kv, f, all_advanced_params()[n - 1]) {
            Some(x) => p.push(x),
            None => p,
        }
    }
}

/// The reads that follow a text import: both "Read All Registers" batches,
/// then every advanced parameter.
pub open spec fn text_import_reads_ok(cmds: Seq<BleCommand>) -> bool {
    &&& cmds.len() == 2 + all_advanced_params().len()
    &&& cmds[0] matches BleCommand::ReadAll(v) && v@ == all_config_uuid_values()
    &&& cmds[1] matches BleCommand::ReadAll(v) && v@ == all_calibration_uuid_values()
    &&& forall|i: int|
        0 <= i < all_advanced_params().len() ==> #[trigger] cmds[2 + i]
            == (BleCommand::ReadAdvanced { index: param_index(all_advanced_params()[i]) })
}

fn push_kv_u32(cmds: &mut Vec<BleCommand>, r_uuid: u128, v: &Option<String>, Ghost(r): Ghost<Register>, Ghost(w): Ghost<Seq<(u128, Seq<u8>)>>)
    requires
        r_uuid == reg_uuid(r),
        writes_ok(old(cmds)@, w),
        old(cmds)@.len() == w.len(),
    ensures
        writes_ok(final(cmds)@, add_write(w, kv_u32_write(r, opt_text(*v)))),
        final(cmds)@.len() == add_write(w, kv_u32_write(r, opt_text(*v))).len(),
{
    if let Some(t) = v {
        push_u32_write(cmds, r_uuid, t, Ghost(r), Ghost(w));
    }
}

fn push_kv_u8(cmds: &mut Vec<BleCommand>, r_uuid: u128, v: &Option<String>, Ghost(r): Ghost<Register>, Ghost(w): Ghost<Seq<(u128, Seq<u8>)>>)
    requires
        r_uuid == reg_uuid(r),
        writes_ok(old(cmds)@, w),
        old(cmds)@.len() == w.len(),
    ensures
        writes_ok(final(cmds)@, add_write(w, kv_u8_write(r, opt_text(*v)))),
        final(cmds)@.len() == add_write(w, kv_u8_write(r, opt_text(*v))).len(),
{
    if let Some(t) = v {
        push_u8_write(cmds, r_uuid, t, Ghost(r), Ghost(w));
    }
}

/// The view of an optional text.
pub open spec fn opt_text(v: Option<String>) -> Option<Seq<char>> {
    match v {
        Some(s) => Some(s@),
        None => None,
    }
}

fn lookup(kvs: &Vec<(String, String)>, key: &str) -> (r: Option<String>)
    ensures
        opt_text(r) == pair_value(pair_texts(kvs@), key@),
{
    config_value(kvs, key)
}

/// Import a configuration exported as text: each register key present
/// whose value reads as the register's type is written (in the order of
/// `text_import_writes`), then each writable advanced parameter present
/// (`adv_writes`), then every register and advanced parameter is read back.
pub fn import_config_text(kvs: &Vec<(String, String)>, floats: &TextFloats) -> (cmds: Vec<BleCommand>)
    ensures
        ({
            let kv = pair_texts(kvs@);
            let w = text_import_writes(kv, *floats);
            let a = adv_writes(kv, *floats, all_advanced_params().len() as int);
            &&& writes_ok(cmds@, w)
            &&& cmds@.len() == w.len() + a.len() + 2 + all_advanced_params().len()
            &&& forall|i: int| 0 <= i < a.len() ==> is_adv_write(#[trigger] cmds@[w.len() + i], a[i].0, a[i].1)
            &&& text_import_reads_ok(cmds@.skip(w.len() + a.len() as int))
        }),
{
    let ghost kv = pair_texts(kvs@);
    let ghost f = *floats;
    let mut cmds: Vec<BleCommand> = Vec::new();
    let ghost w0 = Seq::<(u128, Seq<u8>)>::empty();
    push_kv_u32(&mut cmds, b24_uuid(0xa970fd31), &lookup(kvs, "data_rate"), Ghost(Register::DataRate), Ghost(w0));
    let ghost w1 = add_write(w0, kv_u32_write(Register::DataRate, pair_value(kv, "data_rate"@)));
    push_kv_u8(&mut cmds, b24_uuid(0xa970fd32), &lookup(kvs, "resolution"), Ghost(Register::Resolution), Ghost(w1));
    let ghost w2 = add_write(w1, kv_u8_write(Register::Resolution, pair_value(kv, "resolution"@)));
    push_f32_write(&mut cmds, b24_uuid(0xa970fd33), floats.battery_threshold, Ghost(Register::BatteryThreshold), Ghost(w2));
    let ghost w3 = add_write(w2, f32_write(Register::BatteryThreshold, f.battery_threshold));
    if let Some(v) = lookup(kvs, "view_pin") {
        push_write(&mut cmds, b24_uuid(0xa970fd34), encode_string(v.as_str(), 5), Ghost(w3));
    }
    let ghost w4 = match pair_value(kv, "view_pin"@) {
        Some(v) => w3.push(view_pin_write(v)),
        None => w3,
    };
    push_f32_write(&mut cmds, b24_uuid(0xa970fd38), floats.system_zero, Ghost(Register::SystemZero), Ghost(w4));
    let ghost w5 = add_write(w4, f32_write(Register::SystemZero, f.system_zero));
    push_kv_u32(&mut cmds, b24_uuid(0xa970fd39), &lookup(kvs, "config_pin"), Ghost(Register::ConfigPin), Ghost(w5));
    let ghost w6 = add_write(w5, kv_u32_write(Register::ConfigPin, pair_value(kv, "config_pin"@)));
    if let Some(v) = lookup(kvs, "data_tag") {
        if let Some(t) = parse_data_tag(v.as_str()) {
            push_write(&mut cmds, b24_uuid(0xa970fd36), encode_u16_be(t), Ghost(w6));
        }
    }
    let ghost w7 = match pair_value(kv, "data_tag"@) {
        Some(v) => add_write(w6, tag_write(v)),
        None => w6,
    };
    if let Some(v) = lookup(kvs, "local_name") {
        push_write(&mut cmds, char_gap_device_name(), utf8_bytes(v.as_str()), Ghost(w7));
    }
    let ghost w8 = match pair_value(kv, "local_name"@) {
        Some(v) => w7.push((gap_device_name_value() as u128, encode_utf8(v))),
        None => w7,
    };
    push_kv_u8(&mut cmds, b24_uuid(0xa9712443), &lookup(kvs, "data_units"), Ghost(Register::DataUnits), Ghost(w8));
    let ghost w9 = add_write(w8, kv_u8_write(Register::DataUnits, pair_value(kv, "data_units"@)));
    push_kv_u8(&mut cmds, b24_uuid(0xa9717261), &lookup(kvs, "sensitivity_range"), Ghost(Register::SensitivityRange), Ghost(w9));
    let ghost w10 = add_write(w9, kv_u8_write(Register::SensitivityRange, pair_value(kv, "sensitivity_range"@)));
    push_f32_write(&mut cmds, b24_uuid(0xa9717268), floats.data_gain, Ghost(Register::DataGain), Ghost(w10));
    let ghost w11 = add_write(w10, f32_write(Register::DataGain, f.data_gain));
    push_f32_write(&mut cmds, b24_uuid(0xa9717269), floats.data_offset, Ghost(Register::DataOffset), Ghost(w11));
    let ghost w12 = add_write(w11, f32_write(Register::DataOffset, f.data_offset));
    push_kv_u32(&mut cmds, b24_uuid(0xa971726a), &lookup(kvs, "cal_pin"), Ghost(Register::CalPin), Ghost(w12));
    let ghost w13 = add_write(w12, kv_u32_write(Register::CalPin, pair_value(kv, "cal_pin"@)));
    push_kv_u8(&mut cmds, b24_uuid(0xa971726b), &lookup(kvs, "cal_units"), Ghost(Register::CalUnits), Ghost(w13));
    let ghost w = add_write(w13, kv_u8_write(Register::CalUnits, pair_value(kv, "cal_units"@)));
    assert(w == text_import_writes(kv, f));
    push_advanced_writes(&mut cmds, kvs, floats, Ghost(w));
    let ghost a = adv_writes(kv, f, all_advanced_params().len() as int);
    push_text_import_reads(&mut cmds, Ghost(w), Ghost(a));
    cmds
}

fn push_advanced_writes(cmds: &mut Vec<BleCommand>, kvs: &Vec<(String, String)>, floats: &TextFloats, Ghost(w): Ghost<Seq<(u128, Seq<u8>)>>)
    requires
        writes_ok(old(cmds)@, w),
        old(cmds)@.len() == w.len(),
    ensures
        ({
            let a = adv_writes(pair_texts(kvs@), *floats, all_advanced_params().len() as int);
            &&& writes_ok(final(cmds)@, w)
            &&& final(cmds)@.len() == w.len() + a.len()
            &&& forall|i: int| 0 <= i < a.len() ==> is_adv_write(#[trigger] final(cmds)@[w.len() + i], a[i].0, a[i].1)
        }),
{
    let ghost kv = pair_texts(kvs@);
    let params = AdvancedParam::all();
    let n = params.len();
    let mut k: usize = 0;
    while k < n
        invariant
            n == params@.len(),
            params@ == all_advanced_params(),
            k <= n,
            kv == pair_texts(kvs@),
            writes_ok(cmds@, w),
            cmds@.len() == w.len() + adv_writes(kv, *floats, k as int).len(),
            forall|i: int| 0 <= i < adv_writes(kv, *floats, k as int).len() ==> is_adv_write(
                #[trigger] cmds@[w.len() + i],
                adv_writes(kv, *floats, k as int)[i].0,
                adv_writes(kv, *floats, k as int)[i].1,
            ),
        decreases n - k,
    {
        let p = params[k];
        let ghost before = cmds@;
        let ghost prev = adv_writes(kv, *floats, k as int);
        if p != AdvancedParam::PeakValue && p != AdvancedParam::TroughValue {
            let label = p.label();
            let key = replace_spaces_of_lowercase(label);
            if let Some(t) = config_value(kvs, key.as_str()) {
                let index = p.index();
                match p.data_type() {
                    ParamType::Float => {
                        let b = match p {
                            AdvancedParam::DisplayMin => floats.display_min,
                            AdvancedParam::DisplayMax => floats.display_max,
                            AdvancedParam::FilterLevel => floats.filter_level,
                            AdvancedParam::FastLevel => floats.fast_level,
                            _ => None,
                        };
                        if let Some(bits) = b {
                            cmds.push(BleCommand::WriteAdvanced { index, data: encode_u32_be(bits) });
                        }
                    },
                    ParamType::Uint32 => {
                        if let Some(v) = parse_u32(t.as_str()) {
                            cmds.push(BleCommand::WriteAdvanced { index, data: encode_u32_be(v) });
                        }
                    },
                    ParamType::Uint8 => {
                        if let Some(v) = parse_u8(t.as_str()) {
                            cmds.push(BleCommand::WriteAdvanced { index, data: encode_u8(v) });
                        }
                    },
                }
            }
        }
        proof {
            let cur = adv_writes(kv, *floats, k + 1);
            assert(cur == match adv_write(kv, *floats, all_advanced_params()[k as int]) {
                Some(x) => prev.push(x),
                None => prev,
            });
            assert forall|i: int| 0 <= i < w.len() implies is_write(#[trigger] cmds@[i], w[i].0, w[i].1) by {
                assert(cmds@[i] == before[i]);
            }
            assert forall|i: int| 0 <= i < cur.len() implies is_adv_write(
                #[trigger] cmds@[w.len() + i],
                cur[i].0,
                cur[i].1,
            ) by {
                if i < prev.len() {
                    assert(cmds@[w.len() + i] == before[w.len() + i]);
                }
            }
        }
        k = k + 1;
    }
}

pub(crate) fn replace_spaces_of_lowercase(label: &str) -> (key: String)
    ensures
        key@ == replace_char(lowercase(label@), ' ', '_'),
{
    let low = crate::text::to_lowercase_text(label);
    crate::text::replace_spaces_text(low.as_str())
}

fn push_text_import_reads(cmds: &mut Vec<BleCommand>, Ghost(w): Ghost<Seq<(u128, Seq<u8>)>>, Ghost(a): Ghost<Seq<(u8, Seq<u8>)>>)
    requires
        writes_ok(old(cmds)@, w),
        old(cmds)@.len() == w.len() + a.len(),
        forall|i: int| 0 <= i < a.len() ==> is_adv_write(#[trigger] old(cmds)@[w.len() + i], a[i].0, a[i].1),
    ensures
        writes_ok(final(cmds)@, w),
        final(cmds)@.len() == w.len() + a.len() + 2 + all_advanced_params().len(),
        forall|i: int| 0 <= i < a.len() ==> is_adv_write(#[trigger] final(cmds)@[w.len() + i], a[i].0, a[i].1),
        text_import_reads_ok(final(cmds)@.skip(w.len() + a.len() as int)),
{
    let ghost start: int = cmds@.len() as int;
    cmds.push(BleCommand::ReadAll(all_config_uuids()));
    cmds.push(BleCommand::ReadAll(all_calibration_uuids()));
    let params = AdvancedParam::all();
    let n = params.len();
    let mut k: usize = 0;
    while k < n
        invariant
            n == params@.len(),
            params@ == all_advanced_params(),
            k <= n,
            start == w.len() + a.len(),
            cmds@.len() == start + 2 + k,
            forall|i: int| 0 <= i < start ==> #[trigger] cmds@[i] == old(cmds)@[i],
            cmds@[start] matches BleCommand::ReadAll(v) && v@ == all_config_uuid_values(),
            cmds@[start + 1] matches BleCommand::ReadAll(v) && v@ == all_calibration_uuid_values(),
            forall|i: int|
                0 <= i < k ==> #[trigger] cmds@[start + 2 + i]
                    == (BleCommand::ReadAdvanced { index: param_index(all_advanced_params()[i]) }),
        decreases n - k,
    {
        cmds.push(BleCommand::ReadAdvanced { index: params[k].index() });
        k = k + 1;
    }
    assert forall|i: int| 0 <= i < w.len() implies is_write(#[trigger] cmds@[i], w[i].0, w[i].1) by {
        assert(cmds@[i] == old(cmds)@[i]);
    }
    assert forall|i: int| 0 <= i < a.len() implies is_adv_write(#[trigger] cmds@[w.len() + i], a[i].0, a[i].1) by {
        assert(cmds@[w.len() + i] == old(cmds)@[w.len() + i]);
    }
    let ghost tail = cmds@.skip(start as int);
    assert(tail[0] == cmds@[start]);
    assert(tail[1] == cmds@[start + 1]);
    assert forall|i: int| 0 <= i < all_advanced_params().len() implies #[trigger] tail[2 + i]
        == (BleCommand::ReadAdvanced { index: param_index(all_advanced_params()[i]) }) by {
        assert(tail[2 + i] == cmds@[start + 2 + i]);
    }
}


/// The write of one advanced parameter from the text typed for it: a float
/// parameter takes the caller's parsed f32 (its bit pattern), an integer
/// parameter the text read as its type; nothing when it does not read.
pub open spec fn adv_param_write(p: AdvancedParam, input: Seq<char>, float_bits: Option<u32>) -> Option<(u8, Seq<u8>)> {
    match param_type(p) {
        ParamType::Float => match float_bits {
            Some(b) => Some((param_index(p), be32_bytes(b))),
            None => None,
        },
        ParamType::Uint32 => match parse_unsigned(input, 10, u32::MAX as int) {
            Some(v) => Some((param_index(p), be32_bytes(v as u32))),
            None => None,
        },
        ParamType::Uint8 => match parse_unsigned(input, 10, u8::MAX as int) {
            Some(v) => Some((param_index(p), seq![v as u8])),
            None => None,
        },
    }
}

/// The command that writes an advanced parameter with the encoding of its
/// data type, if the input reads as that type.
pub fn write_adv_param(param: AdvancedParam, input: &str, float_bits: Option<u32>) -> (r: Option<BleCommand>)
    ensures
        r is Some <==> adv_param_write(param, input@, float_bits) is Some,
        r matches Some(c) ==> ({
            let w = adv_param_write(param, input@, float_bits).unwrap();
            is_adv_write(c, w.0, w.1)
        }),
{
    let index = param.index();
    match param.data_type() {
        ParamType::Float => match float_bits {
            Some(b) => Some(BleCommand::WriteAdvanced { index, data: encode_u32_be(b) }),
            None => None,
        },
        ParamType::Uint32 => match parse_u32(input) {
            Some(v) => Some(BleCommand::WriteAdvanced { index, data: encode_u32_be(v) }),
            None => None,
        },
        ParamType::Uint8 => match parse_u8(input) {
            Some(v) => Some(BleCommand::WriteAdvanced { index, data: encode_u8(v) }),
            None => None,
        },
    }
}

/// The commands of "Read All Advanced": a read of every advanced
/// parameter, in the order of `AdvancedParam::all`.
pub fn read_all_advanced() -> (cmds: Vec<BleCommand>)
    ensures
        cmds@.len() == all_advanced_params().len(),
        forall|i: int|
            0 <= i < all_advanced_params().len() ==> #[trigger] cmds@[i]
                == (BleCommand::ReadAdvanced { index: param_index(all_advanced_params()[i]) }),
{
    let params = AdvancedParam::all();
    let n = params.len();
    let mut cmds: Vec<BleCommand> = Vec::new();
    let mut k: usize = 0;
    while k < n
        invariant
            n == params@.len(),
            params@ == all_advanced_params(),
            k <= n,
            cmds@.len() == k,
            forall|i: int|
                0 <= i < k ==> #[trigger] cmds@[i]
                    == (BleCommand::ReadAdvanced { index: param_index(all_advanced_params()[i]) }),
        decreases n - k,
    {
        cmds.push(BleCommand::ReadAdvanced { index: params[k].index() });
        k = k + 1;
    }
    cmds
}

/// The command of a linearisation register's "Write" button (index,
/// repeat or points): the typed text read as a u8 and written to the
/// register; nothing when the text does not read as a u8.
pub fn write_lin_register(reg: Register, input: &str) -> (r: Option<BleCommand>)
    requires
        reg == Register::LinIndex || reg == Register::LinRepeat || reg == Register::LinPoints,
    ensures
        r is Some <==> u8_write(reg, input@) is Some,
        r matches Some(c) ==> ({
            let w = u8_write(reg, input@).unwrap();
            is_write(c, w.0, w.1)
        }),
{
    let uuid = match reg {
        Register::LinIndex => b24_uuid(0xa9717263),
        Register::LinRepeat => b24_uuid(0xa9717264),
        _ => b24_uuid(0xa9717265),
    };
    match parse_u8(input) {
        Some(v) => Some(BleCommand::WriteCharacteristic { uuid, data: encode_u8(v) }),
        None => None,
    }
}

} // verus!
