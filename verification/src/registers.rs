//! The register values read from a device and how a characteristic read or
//! a notification updates them. Float registers hold the bit patterns of
//! their IEEE 754 single-precision values.

use std::collections::VecDeque;
use vstd::prelude::*;

use crate::ble::BleCommand;
use crate::calibration::LinearisationRow;
use crate::codec::{
    be16, be16_bytes, be32, be32_bytes, decode_string, decode_u16_be, decode_u32_be, decode_u8,
    first_nul, lemma_u16_roundtrip, lemma_u32_roundtrip, utf8_lossy,
};
use crate::plans::reg_uuid;
use crate::session::{
    bounded_push, coefficient_step, coefficient_table, lemma_history_bounded,
    lemma_register_uuid_roundtrip, lin_points_step, log_status_byte, log_units_label, logged_units,
    push_history, register_for_uuid, register_of_uuid, LinearisationReader, Register,
};
use crate::text::{format_hex4, hex4};
use crate::types::{status_byte, status_from_byte, StatusByte};

verus! {

/// The configuration registers read so far.
pub struct ConfigRegisters {
    pub config_pin: Option<u32>,
    pub data_rate: Option<u32>,
    pub resolution: Option<u8>,
    pub battery_threshold: Option<u32>,
    pub view_pin: Option<String>,
    pub serial_number: Option<u32>,
    pub data_tag: Option<String>,
    pub battery_value: Option<u32>,
    pub system_zero: Option<u32>,
    pub model_name: Option<String>,
    pub firmware_version: Option<u32>,
    pub local_name: Option<String>,
    pub data_units: Option<u8>,
}

/// The configuration registers with texts as character sequences.
pub struct ConfigView {
    pub config_pin: Option<u32>,
    pub data_rate: Option<u32>,
    pub resolution: Option<u8>,
    pub battery_threshold: Option<u32>,
    pub view_pin: Option<Seq<char>>,
    pub serial_number: Option<u32>,
    pub data_tag: Option<Seq<char>>,
    pub battery_value: Option<u32>,
    pub system_zero: Option<u32>,
    pub model_name: Option<Seq<char>>,
    pub firmware_version: Option<u32>,
    pub local_name: Option<Seq<char>>,
    pub data_units: Option<u8>,
}

/// The view of an optional text.
pub open spec fn opt_view(s: Option<String>) -> Option<Seq<char>> {
    match s {
        Some(t) => Some(t@),
        None => None,
    }
}

impl View for ConfigRegisters {
    type V = ConfigView;

    open spec fn view(&self) -> ConfigView {
        ConfigView {
            config_pin: self.config_pin,
            data_rate: self.data_rate,
            resolution: self.resolution,
            battery_threshold: self.battery_threshold,
            view_pin: opt_view(self.view_pin),
            serial_number: self.serial_number,
            data_tag: opt_view(self.data_tag),
            battery_value: self.battery_value,
            system_zero: self.system_zero,
            model_name: opt_view(self.model_name),
            firmware_version: self.firmware_version,
            local_name: opt_view(self.local_name),
            data_units: self.data_units,
        }
    }
}

impl Default for ConfigRegisters {
    fn default() -> (r: Self)
        ensures
            r@ == (ConfigView {
                config_pin: None,
                data_rate: None,
                resolution: None,
                battery_threshold: None,
                view_pin: None,
                serial_number: None,
                data_tag: None,
                battery_value: None,
                system_zero: None,
                model_name: None,
                firmware_version: None,
                local_name: None,
                data_units: None,
            }),
    {
        ConfigRegisters {
            config_pin: None,
            data_rate: None,
            resolution: None,
            battery_threshold: None,
            view_pin: None,
            serial_number: None,
            data_tag: None,
            battery_value: None,
            system_zero: None,
            model_name: None,
            firmware_version: None,
            local_name: None,
            data_units: None,
        }
    }
}

/// The calibration registers read so far, and the linearisation table.
pub struct CalibrationRegisters {
    pub sensitivity_range: Option<u8>,
    pub coefficient: Option<u32>,
    pub lin_index: Option<u8>,
    pub lin_repeat: Option<u8>,
    pub lin_points: Option<u8>,
    pub base_value: Option<u32>,
    pub base_units: Option<u8>,
    pub data_gain: Option<u32>,
    pub data_offset: Option<u32>,
    pub cal_pin: Option<u32>,
    pub cal_units: Option<u8>,
    pub linearisation_table: Vec<LinearisationRow>,
}

/// The calibration registers with the table as a sequence.
pub struct CalibrationView {
    pub sensitivity_range: Option<u8>,
    pub coefficient: Option<u32>,
    pub lin_index: Option<u8>,
    pub lin_repeat: Option<u8>,
    pub lin_points: Option<u8>,
    pub base_value: Option<u32>,
    pub base_units: Option<u8>,
    pub data_gain: Option<u32>,
    pub data_offset: Option<u32>,
    pub cal_pin: Option<u32>,
    pub cal_units: Option<u8>,
    pub linearisation_table: Seq<LinearisationRow>,
}

impl View for CalibrationRegisters {
    type V = CalibrationView;

    open spec fn view(&self) -> CalibrationView {
        CalibrationView {
            sensitivity_range: self.sensitivity_range,
            coefficient: self.coefficient,
            lin_index: self.lin_index,
            lin_repeat: self.lin_repeat,
            lin_points: self.lin_points,
            base_value: self.base_value,
            base_units: self.base_units,
            data_gain: self.data_gain,
            data_offset: self.data_offset,
            cal_pin: self.cal_pin,
            cal_units: self.cal_units,
            linearisation_table: self.linearisation_table@,
        }
    }
}

impl Default for CalibrationRegisters {
    fn default() -> (r: Self)
        ensures
            r@ == (CalibrationView {
                sensitivity_range: None,
                coefficient: None,
                lin_index: None,
                lin_repeat: None,
                lin_points: None,
                base_value: None,
                base_units: None,
                data_gain: None,
                data_offset: None,
                cal_pin: None,
                cal_units: None,
                linearisation_table: Seq::empty(),
            }),
    {
        CalibrationRegisters {
            sensitivity_range: None,
            coefficient: None,
            lin_index: None,
            lin_repeat: None,
            lin_points: None,
            base_value: None,
            base_units: None,
            data_gain: None,
            data_offset: None,
            cal_pin: None,
            cal_units: None,
            linearisation_table: Vec::new(),
        }
    }
}

/// The live reading: current value, status and units, and the history of
/// (elapsed seconds as f64 bits, value bits) samples, bounded by
/// `history_max_points`.
pub struct LiveData {
    pub current_value: Option<u32>,
    pub current_status: Option<StatusByte>,
    pub current_units: Option<u8>,
    pub history: VecDeque<(u64, u32)>,
    pub history_max_points: usize,
}

impl Default for LiveData {
    fn default() -> (r: Self)
        ensures
            r.current_value is None,
            r.current_status is None,
            r.current_units is None,
            r.history@.len() == 0,
            r.history_max_points == 2000,
    {
        LiveData {
            current_value: None,
            current_status: None,
            current_units: None,
            history: VecDeque::new(),
            history_max_points: 2000,
        }
    }
}

impl LiveData {
    /// "Clear History": the plotted history is emptied; the current
    /// reading stays.
    pub fn clear_history(&mut self)
        ensures
            final(self).history@.len() == 0,
            final(self).current_value == old(self).current_value,
            final(self).current_status == old(self).current_status,
            final(self).current_units == old(self).current_units,
            final(self).history_max_points == old(self).history_max_points,
    {
        self.history = VecDeque::new();
    }
}

/// A big-endian u32 register value, when at least four bytes were read.
pub open spec fn u32_read(d: Seq<u8>) -> Option<u32> {
    if d.len() >= 4 {
        Some(be32(d[0], d[1], d[2], d[3]) as u32)
    } else {
        None
    }
}

/// A u8 register value, when at least one byte was read.
pub open spec fn u8_read(d: Seq<u8>) -> Option<u8> {
    if d.len() >= 1 {
        Some(d[0])
    } else {
        None
    }
}

/// A big-endian u16 register value, when at least two bytes were read.
pub open spec fn u16_read(d: Seq<u8>) -> Option<u16> {
    if d.len() >= 2 {
        Some(be16(d[0], d[1]) as u16)
    } else {
        None
    }
}

/// A text register: the bytes before the first NUL, decoded as UTF-8.
pub open spec fn text_read(d: Seq<u8>) -> Seq<char> {
    utf8_lossy(d.take(first_nul(d)))
}

/// The configuration registers after reading `d` from the characteristic
/// `uuid`. A data tag is kept as four uppercase hex digits, and only a
/// readable one replaces the one held; every other register takes the value
/// read, or none when the data is too short.
pub open spec fn config_after_read(c: ConfigView, uuid: u128, d: Seq<u8>) -> ConfigView {
    match register_of_uuid(uuid) {
        Some(Register::ConfigPin) => ConfigView { config_pin: u32_read(d), ..c },
        Some(Register::DataRate) => ConfigView { data_rate: u32_read(d), ..c },
        Some(Register::Resolution) => ConfigView { resolution: u8_read(d), ..c },
        Some(Register::BatteryThreshold) => ConfigView { battery_threshold: u32_read(d), ..c },
        Some(Register::ViewPin) => ConfigView { view_pin: Some(text_read(d)), ..c },
        Some(Register::SerialNumber) => ConfigView { serial_number: u32_read(d), ..c },
        Some(Register::DataTag) => match u16_read(d) {
            Some(t) => ConfigView { data_tag: Some(hex4(t)), ..c },
            None => c,
        },
        Some(Register::BatteryValue) => ConfigView { battery_value: u32_read(d), ..c },
        Some(Register::SystemZero) => ConfigView { system_zero: u32_read(d), ..c },
        Some(Register::ModelName) => ConfigView { model_name: Some(text_read(d)), ..c },
        Some(Register::FirmwareVersion) => ConfigView { firmware_version: u32_read(d), ..c },
        _ => c,
    }
}

/// The calibration registers after reading `d` from the characteristic
/// `uuid` (the linearisation table aside): each takes the value read, or
/// none when the data is too short.
pub open spec fn calibration_after_read(c: CalibrationView, uuid: u128, d: Seq<u8>) -> CalibrationView {
    match register_of_uuid(uuid) {
        Some(Register::SensitivityRange) => CalibrationView { sensitivity_range: u8_read(d), ..c },
        Some(Register::CoefficientAtIndex) => CalibrationView { coefficient: u32_read(d), ..c },
        Some(Register::LinIndex) => CalibrationView { lin_index: u8_read(d), ..c },
        Some(Register::LinRepeat) => CalibrationView { lin_repeat: u8_read(d), ..c },
        Some(Register::LinPoints) => CalibrationView { lin_points: u8_read(d), ..c },
        Some(Register::BaseValue) => CalibrationView { base_value: u32_read(d), ..c },
        Some(Register::BaseUnits) => CalibrationView { base_units: u8_read(d), ..c },
        Some(Register::DataGain) => CalibrationView { data_gain: u32_read(d), ..c },
        Some(Register::DataOffset) => CalibrationView { data_offset: u32_read(d), ..c },
        Some(Register::CalPin) => CalibrationView { cal_pin: u32_read(d), ..c },
        Some(Register::CalUnits) => CalibrationView { cal_units: u8_read(d), ..c },
        _ => c,
    }
}


/// The live value, status and units after reading `d` from the
/// characteristic `uuid`: a readable status or value replaces the one held;
/// the units take the value read, or none when nothing was read.
pub open spec fn live_after_read(
    v: Option<u32>,
    st: Option<StatusByte>,
    u: Option<u8>,
    uuid: u128,
    d: Seq<u8>,
) -> (Option<u32>, Option<StatusByte>, Option<u8>) {
    match register_of_uuid(uuid) {
        Some(Register::Status) => if d.len() >= 1 {
            (v, Some(status_from_byte(d[0])), u)
        } else {
            (v, st, u)
        },
        Some(Register::DataValue) => if d.len() >= 4 {
            (u32_read(d), st, u)
        } else {
            (v, st, u)
        },
        Some(Register::DataUnits) => (v, st, u8_read(d)),
        _ => (v, st, u),
    }
}

/// The live value, status and units after a notification of `d` from the
/// characteristic `uuid`: each is replaced only by a readable value.
pub open spec fn live_after_notification(
    v: Option<u32>,
    st: Option<StatusByte>,
    u: Option<u8>,
    uuid: u128,
    d: Seq<u8>,
) -> (Option<u32>, Option<StatusByte>, Option<u8>) {
    match register_of_uuid(uuid) {
        Some(Register::DataValue) => if d.len() >= 4 {
            (u32_read(d), st, u)
        } else {
            (v, st, u)
        },
        Some(Register::Status) => if d.len() >= 1 {
            (v, Some(status_from_byte(d[0])), u)
        } else {
            (v, st, u)
        },
        Some(Register::DataUnits) => if d.len() >= 1 {
            (v, st, Some(d[0]))
        } else {
            (v, st, u)
        },
        _ => (v, st, u),
    }
}

/// The table held after a read: a table the read completed, else the old one.
pub open spec fn table_after(old_table: Seq<LinearisationRow>, t: Option<Seq<LinearisationRow>>) -> Seq<LinearisationRow> {
    match t {
        Some(x) => x,
        None => old_table,
    }
}

/// Whether a reader is unchanged.
pub open spec fn reader_unchanged(pre: LinearisationReader, post: LinearisationReader) -> bool {
    &&& post.queue == pre.queue
    &&& post.buf == pre.buf
    &&& post.num_points == pre.num_points
}

/// The state after reading `d` from the characteristic `uuid`, with the
/// commands that the read sets off: the register it belongs to is updated
/// (see `config_after_read`, `calibration_after_read`, `live_after_read`);
/// the number of linearisation points starts the transfer of the table; a
/// coefficient read while a transfer runs fetches the next one or, after the
/// last, stores the assembled table; any other read sets nothing off.
pub open spec fn read_applied(
    pre_config: ConfigRegisters,
    post_config: ConfigRegisters,
    pre_cal: CalibrationRegisters,
    post_cal: CalibrationRegisters,
    pre_live: LiveData,
    post_live: LiveData,
    pre_reader: LinearisationReader,
    post_reader: LinearisationReader,
    uuid: u128,
    d: Seq<u8>,
    cmds: Seq<BleCommand>,
) -> bool {
    let points_read = register_of_uuid(uuid) == Some(Register::LinPoints) && d.len() >= 1;
    let coefficient_read = register_of_uuid(uuid) == Some(Register::CoefficientAtIndex) && d.len() >= 4;
    &&& post_config@ == config_after_read(pre_config@, uuid, d)
    &&& (post_live.current_value, post_live.current_status, post_live.current_units)
        == live_after_read(pre_live.current_value, pre_live.current_status, pre_live.current_units, uuid, d)
    &&& post_live.history == pre_live.history
    &&& post_live.history_max_points == pre_live.history_max_points
    &&& points_read ==> {
        &&& post_cal@ == calibration_after_read(pre_cal@, uuid, d)
        &&& lin_points_step(pre_reader, post_reader, d[0], cmds)
    }
    &&& coefficient_read ==> {
        let bits = u32_read(d)->0;
        &&& post_cal@ == (CalibrationView {
            linearisation_table: table_after(pre_cal@.linearisation_table, coefficient_table(pre_reader, bits)),
            ..calibration_after_read(pre_cal@, uuid, d)
        })
        &&& coefficient_step(pre_reader, post_reader, bits, cmds)
    }
    &&& !points_read && !coefficient_read ==> {
        &&& post_cal@ == calibration_after_read(pre_cal@, uuid, d)
        &&& reader_unchanged(pre_reader, post_reader)
        &&& cmds.len() == 0
    }
}

/// Apply a characteristic read to the registers it belongs to, returning the
/// commands it sets off (see `read_applied`).
pub fn apply_characteristic_read(
    config: &mut ConfigRegisters,
    cal: &mut CalibrationRegisters,
    live: &mut LiveData,
    reader: &mut LinearisationReader,
    uuid: u128,
    data: &[u8],
) -> (cmds: Vec<BleCommand>)
    requires
        old(reader).wf(),
    ensures
        final(reader).wf(),
        read_applied(
            *old(config),
            *final(config),
            *old(cal),
            *final(cal),
            *old(live),
            *final(live),
            *old(reader),
            *final(reader),
            uuid,
            data@,
            cmds@,
        ),
{
    let mut cmds: Vec<BleCommand> = Vec::new();
    match register_for_uuid(uuid) {
        Some(Register::ConfigPin) => config.config_pin = decode_u32_be(data).ok(),
        Some(Register::DataRate) => config.data_rate = decode_u32_be(data).ok(),
        Some(Register::Resolution) => config.resolution = decode_u8(data).ok(),
        Some(Register::BatteryThreshold) => config.battery_threshold = decode_u32_be(data).ok(),
        Some(Register::ViewPin) => config.view_pin = Some(decode_string(data)),
        Some(Register::SerialNumber) => config.serial_number = decode_u32_be(data).ok(),
        Some(Register::DataTag) => {
            if let Ok(tag) = decode_u16_be(data) {
                config.data_tag = Some(format_hex4(tag));
            }
        },
        Some(Register::BatteryValue) => config.battery_value = decode_u32_be(data).ok(),
        Some(Register::SystemZero) => config.system_zero = decode_u32_be(data).ok(),
        Some(Register::ModelName) => config.model_name = Some(decode_string(data)),
        Some(Register::FirmwareVersion) => config.firmware_version = decode_u32_be(data).ok(),
        Some(Register::SensitivityRange) => cal.sensitivity_range = decode_u8(data).ok(),
        Some(Register::CoefficientAtIndex) => {
            cal.coefficient = decode_u32_be(data).ok();
            if let Some(bits) = cal.coefficient {
                let (next, table) = reader.on_coefficient(bits);
                cmds = next;
                if let Some(t) = table {
                    cal.linearisation_table = t;
                }
            }
        },
        Some(Register::LinIndex) => cal.lin_index = decode_u8(data).ok(),
        Some(Register::LinRepeat) => cal.lin_repeat = decode_u8(data).ok(),
        Some(Register::LinPoints) => {
            cal.lin_points = decode_u8(data).ok();
            if let Some(n) = cal.lin_points {
                cmds = reader.on_lin_points(n);
            }
        },
        Some(Register::BaseValue) => cal.base_value = decode_u32_be(data).ok(),
        Some(Register::BaseUnits) => cal.base_units = decode_u8(data).ok(),
        Some(Register::DataGain) => cal.data_gain = decode_u32_be(data).ok(),
        Some(Register::DataOffset) => cal.data_offset = decode_u32_be(data).ok(),
        Some(Register::CalPin) => cal.cal_pin = decode_u32_be(data).ok(),
        Some(Register::CalUnits) => cal.cal_units = decode_u8(data).ok(),
        Some(Register::Status) => {
            if let Ok(b) = decode_u8(data) {
                live.current_status = Some(StatusByte::from_byte(b));
            }
        },
        Some(Register::DataValue) => {
            if let Ok(v) = decode_u32_be(data) {
                live.current_value = Some(v);
            }
        },
        Some(Register::DataUnits) => live.current_units = decode_u8(data).ok(),
        None => {},
    }
    cmds
}

/// The live reading after a notification of `d` from the characteristic
/// `uuid` (see `live_after_notification`), and the value handed back: the
/// data value received, if any.
pub open spec fn notification_applied(pre: LiveData, post: LiveData, uuid: u128, d: Seq<u8>, r: Option<u32>) -> bool {
    &&& (post.current_value, post.current_status, post.current_units)
        == live_after_notification(pre.current_value, pre.current_status, pre.current_units, uuid, d)
    &&& post.history == pre.history
    &&& post.history_max_points == pre.history_max_points
    &&& r == (if register_of_uuid(uuid) == Some(Register::DataValue) {
        u32_read(d)
    } else {
        None::<u32>
    })
}

/// Update the current reading from a notification. Returns the value (its bit
/// pattern) when a data value was received; `apply_notification` also
/// records it in the history and the log.
pub fn update_reading(live: &mut LiveData, uuid: u128, data: &[u8]) -> (r: Option<u32>)
    ensures
        notification_applied(*old(live), *final(live), uuid, data@, r),
{
    match register_for_uuid(uuid) {
        Some(Register::DataValue) => match decode_u32_be(data) {
            Ok(v) => {
                live.current_value = Some(v);
                Some(v)
            },
            Err(_) => None,
        },
        Some(Register::Status) => {
            if let Ok(b) = decode_u8(data) {
                live.current_status = Some(StatusByte::from_byte(b));
            }
            None
        },
        Some(Register::DataUnits) => {
            if let Ok(b) = decode_u8(data) {
                live.current_units = Some(b);
            }
            None
        },
        _ => None,
    }
}


/// A register read gives back what a write wrote: reading from a register's
/// characteristic the bytes written to it (four big-endian bytes for a u32
/// or float register, the serial number, battery value and firmware version
/// among them; one byte for a u8 register; two for the data tag)
/// sets that register to the value written (the data tag as its four hex
/// digits), and leaves the other registers alone.
pub proof fn lemma_register_write_read(c: ConfigView, cal: CalibrationView, v: u32, b: u8, t: u16)
    ensures
        config_after_read(c, reg_uuid(Register::ConfigPin), be32_bytes(v)) == (ConfigView { config_pin: Some(v), ..c }),
        config_after_read(c, reg_uuid(Register::DataRate), be32_bytes(v)) == (ConfigView { data_rate: Some(v), ..c }),
        config_after_read(c, reg_uuid(Register::Resolution), seq![b]) == (ConfigView { resolution: Some(b), ..c }),
        config_after_read(c, reg_uuid(Register::BatteryThreshold), be32_bytes(v)) == (ConfigView { battery_threshold: Some(v), ..c }),
        config_after_read(c, reg_uuid(Register::SystemZero), be32_bytes(v)) == (ConfigView { system_zero: Some(v), ..c }),
        config_after_read(c, reg_uuid(Register::DataTag), be16_bytes(t)) == (ConfigView { data_tag: Some(hex4(t)), ..c }),
        config_after_read(c, reg_uuid(Register::SerialNumber), be32_bytes(v)) == (ConfigView { serial_number: Some(v), ..c }),
        config_after_read(c, reg_uuid(Register::BatteryValue), be32_bytes(v)) == (ConfigView { battery_value: Some(v), ..c }),
        config_after_read(c, reg_uuid(Register::FirmwareVersion), be32_bytes(v)) == (ConfigView { firmware_version: Some(v), ..c }),
        calibration_after_read(cal, reg_uuid(Register::CoefficientAtIndex), be32_bytes(v)) == (CalibrationView { coefficient: Some(v), ..cal }),
        calibration_after_read(cal, reg_uuid(Register::BaseValue), be32_bytes(v)) == (CalibrationView { base_value: Some(v), ..cal }),
        calibration_after_read(cal, reg_uuid(Register::BaseUnits), seq![b]) == (CalibrationView { base_units: Some(b), ..cal }),
        calibration_after_read(cal, reg_uuid(Register::SensitivityRange), seq![b]) == (CalibrationView { sensitivity_range: Some(b), ..cal }),
        calibration_after_read(cal, reg_uuid(Register::DataGain), be32_bytes(v)) == (CalibrationView { data_gain: Some(v), ..cal }),
        calibration_after_read(cal, reg_uuid(Register::DataOffset), be32_bytes(v)) == (CalibrationView { data_offset: Some(v), ..cal }),
        calibration_after_read(cal, reg_uuid(Register::CalPin), be32_bytes(v)) == (CalibrationView { cal_pin: Some(v), ..cal }),
        calibration_after_read(cal, reg_uuid(Register::CalUnits), seq![b]) == (CalibrationView { cal_units: Some(b), ..cal }),
        calibration_after_read(cal, reg_uuid(Register::LinIndex), seq![b]) == (CalibrationView { lin_index: Some(b), ..cal }),
        calibration_after_read(cal, reg_uuid(Register::LinRepeat), seq![b]) == (CalibrationView { lin_repeat: Some(b), ..cal }),
        calibration_after_read(cal, reg_uuid(Register::LinPoints), seq![b]) == (CalibrationView { lin_points: Some(b), ..cal }),
{
    lemma_u32_roundtrip(v);
    lemma_u16_roundtrip(t);
    lemma_register_uuid_roundtrip(Register::ConfigPin);
    lemma_register_uuid_roundtrip(Register::DataRate);
    lemma_register_uuid_roundtrip(Register::Resolution);
    lemma_register_uuid_roundtrip(Register::BatteryThreshold);
    lemma_register_uuid_roundtrip(Register::SystemZero);
    lemma_register_uuid_roundtrip(Register::DataTag);
    lemma_register_uuid_roundtrip(Register::SerialNumber);
    lemma_register_uuid_roundtrip(Register::BatteryValue);
    lemma_register_uuid_roundtrip(Register::FirmwareVersion);
    lemma_register_uuid_roundtrip(Register::CoefficientAtIndex);
    lemma_register_uuid_roundtrip(Register::BaseValue);
    lemma_register_uuid_roundtrip(Register::BaseUnits);
    lemma_register_uuid_roundtrip(Register::SensitivityRange);
    lemma_register_uuid_roundtrip(Register::DataGain);
    lemma_register_uuid_roundtrip(Register::DataOffset);
    lemma_register_uuid_roundtrip(Register::CalPin);
    lemma_register_uuid_roundtrip(Register::CalUnits);
    lemma_register_uuid_roundtrip(Register::LinIndex);
    lemma_register_uuid_roundtrip(Register::LinRepeat);
    lemma_register_uuid_roundtrip(Register::LinPoints);
}

/// The live registers show what the device sends: reading or being
/// notified of four big-endian bytes on the data value characteristic makes
/// that value the reading, one byte on the status characteristic makes its
/// flags the status, and one byte on the data units characteristic makes it
/// the units; the other two stay as they were.
pub proof fn lemma_live_register_values(
    v: Option<u32>,
    st: Option<StatusByte>,
    u: Option<u8>,
    x: u32,
    b: u8,
)
    ensures
        live_after_read(v, st, u, reg_uuid(Register::DataValue), be32_bytes(x)) == (Some(x), st, u),
        live_after_read(v, st, u, reg_uuid(Register::Status), seq![b]) == (v, Some(status_from_byte(b)), u),
        live_after_read(v, st, u, reg_uuid(Register::DataUnits), seq![b]) == (v, st, Some(b)),
        live_after_notification(v, st, u, reg_uuid(Register::DataValue), be32_bytes(x)) == (Some(x), st, u),
        live_after_notification(v, st, u, reg_uuid(Register::Status), seq![b]) == (v, Some(status_from_byte(b)), u),
        live_after_notification(v, st, u, reg_uuid(Register::DataUnits), seq![b]) == (v, st, Some(b)),
{
    lemma_u32_roundtrip(x);
    lemma_register_uuid_roundtrip(Register::DataValue);
    lemma_register_uuid_roundtrip(Register::Status);
    lemma_register_uuid_roundtrip(Register::DataUnits);
}

/// A logged reading: when it arrived (milliseconds since the Unix epoch,
/// as the caller's clock gave it), its value (the bit pattern of its f32
/// value), the status byte and the units text at that time.
#[derive(Debug)]
pub struct LogEntry {
    pub timestamp_ms: i64,
    pub value_bits: u32,
    pub status: u8,
    pub units: String,
}

/// The data log: whether logging runs, and the readings logged.
#[derive(Debug)]
pub struct DataLog {
    pub is_logging: bool,
    pub entries: Vec<LogEntry>,
}

impl Default for DataLog {
    fn default() -> (r: Self)
        ensures
            !r.is_logging,
            r.entries@.len() == 0,
    {
        DataLog { is_logging: false, entries: Vec::new() }
    }
}

impl DataLog {
    /// "Start/Stop Logging": logging is switched over; the entries stay.
    pub fn toggle(&mut self)
        ensures
            final(self).is_logging == !old(self).is_logging,
            final(self).entries == old(self).entries,
    {
        self.is_logging = !self.is_logging;
    }

    /// Log a reading received at `now_ms` with the given status and units,
    /// while logging runs; otherwise nothing changes.
    pub fn record(&mut self, now_ms: i64, value_bits: u32, status: Option<StatusByte>, units: Option<u8>)
        ensures
            final(self).is_logging == old(self).is_logging,
            old(self).is_logging ==> {
                &&& final(self).entries@.len() == old(self).entries@.len() + 1
                &&& final(self).entries@.drop_last() == old(self).entries@
                &&& entry_records(final(self).entries@.last(), now_ms, value_bits, status, units)
            },
            !old(self).is_logging ==> final(self).entries == old(self).entries,
    {
        if self.is_logging {
            let s = log_status_byte(status);
            let u = log_units_label(units);
            self.entries.push(LogEntry { timestamp_ms: now_ms, value_bits, status: s, units: u });
            assert(self.entries@.drop_last() =~= old(self).entries@);
        }
    }

    /// "Clear": the entries are dropped; logging goes on or stays off.
    pub fn clear(&mut self)
        ensures
            final(self).is_logging == old(self).is_logging,
            final(self).entries@.len() == 0,
    {
        self.entries = Vec::new();
    }
}

/// Whether a log entry records `value` at `now_ms` with the status byte
/// and units text of the given live reading.
pub open spec fn entry_records(e: LogEntry, now_ms: i64, value: u32, status: Option<StatusByte>, units: Option<u8>) -> bool {
    &&& e.timestamp_ms == now_ms
    &&& e.value_bits == value
    &&& e.status == (match status {
        Some(s) => status_byte(s) as u8,
        None => 0u8,
    })
    &&& e.units@ == logged_units(units)
}

/// What a notification does to the live reading and the log (see
/// `apply_notification`).
pub open spec fn notification_recorded(
    pre: LiveData,
    post: LiveData,
    log0: DataLog,
    log1: DataLog,
    uuid: u128,
    d: Seq<u8>,
    elapsed_bits: u64,
    now_ms: i64,
    r: Option<u32>,
) -> bool {
    &&& (post.current_value, post.current_status, post.current_units) == live_after_notification(
        pre.current_value,
        pre.current_status,
        pre.current_units,
        uuid,
        d,
    )
    &&& post.history_max_points == pre.history_max_points
    &&& r == (if register_of_uuid(uuid) == Some(Register::DataValue) {
        u32_read(d)
    } else {
        None::<u32>
    })
    &&& log1.is_logging == log0.is_logging
    &&& match r {
        Some(v) => {
            &&& post.history@ == bounded_push(pre.history@, (elapsed_bits, v), pre.history_max_points as nat)
            &&& log0.is_logging ==> {
                &&& log1.entries@.len() == log0.entries@.len() + 1
                &&& log1.entries@.drop_last() == log0.entries@
                &&& entry_records(log1.entries@.last(), now_ms, v, post.current_status, post.current_units)
            }
            &&& !log0.is_logging ==> log1.entries == log0.entries
        },
        None => post.history == pre.history && log1.entries == log0.entries,
    }
}

/// Take a notification from the device: the current reading is updated
/// (`live_after_notification`); a data value that arrives is also recorded
/// in the history, at `elapsed_bits` (the f64 bits of the seconds since the
/// first sample), dropping the oldest sample beyond `history_max_points`,
/// and, while logging runs, in the log at `now_ms` with the current status
/// and units (see `notification_recorded`). Returns the value received, if
/// any. A history within its bound (of at least one sample) stays within
/// it.
pub fn apply_notification(
    live: &mut LiveData,
    log: &mut DataLog,
    uuid: u128,
    data: &[u8],
    elapsed_bits: u64,
    now_ms: i64,
) -> (r: Option<u32>)
    ensures
        notification_recorded(*old(live), *final(live), *old(log), *final(log), uuid, data@, elapsed_bits, now_ms, r),
        old(live).history@.len() <= old(live).history_max_points && old(live).history_max_points >= 1
            ==> final(live).history@.len() <= final(live).history_max_points,
{
    let r = update_reading(live, uuid, data);
    if let Some(v) = r {
        let max = live.history_max_points;
        push_history(&mut live.history, (elapsed_bits, v), max);
        proof {
            if old(live).history@.len() <= max && max >= 1 {
                lemma_history_bounded(old(live).history@, (elapsed_bits, v), max as nat);
            }
        }
        log.record(now_ms, v, live.current_status, live.current_units);
    }
    r
}

} // verus!
