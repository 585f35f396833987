//! The application's plain state: connection, scanned devices, advanced
//! registers, tabs and text edit buffers.

use std::collections::HashMap;
use vstd::prelude::*;

use crate::codec::DecodedAdvert;

verus! {

broadcast use vstd::std_specs::hash::group_hash_axioms;

/// Where the link to a device stands.
#[derive(Debug, Clone, Copy, PartialEq, Eq, Structural)]
pub enum ConnectionPhase {
    Disconnected,
    Scanning,
    Connecting,
    Connected,
}

impl Default for ConnectionPhase {
    fn default() -> (r: Self)
        ensures
            r == ConnectionPhase::Disconnected,
    {
        ConnectionPhase::Disconnected
    }
}

/// The text the status bar shows for a connection phase.
pub open spec fn phase_text(p: ConnectionPhase) -> Seq<char> {
    match p {
        ConnectionPhase::Disconnected => "Disconnected"@,
        ConnectionPhase::Scanning => "Scanning..."@,
        ConnectionPhase::Connecting => "Connecting..."@,
        ConnectionPhase::Connected => "Connected"@,
    }
}

impl ConnectionPhase {
    /// The text the status bar shows for the phase.
    pub fn status_text(self) -> (s: &'static str)
        ensures
            s@ == phase_text(self),
    {
        match self {
            ConnectionPhase::Disconnected => "Disconnected",
            ConnectionPhase::Scanning => "Scanning...",
            ConnectionPhase::Connecting => "Connecting...",
            ConnectionPhase::Connected => "Connected",
        }
    }
}

/// A device found while scanning.
pub struct ScannedDevice {
    pub name: String,
    pub data_tag: Option<String>,
    pub rssi: Option<i16>,
    pub peripheral_id: String,
    /// The manufacturer data last advertised, by company id.
    pub manufacturer_data: HashMap<u16, Vec<u8>>,
    /// The service UUIDs advertised when the device was first seen.
    pub service_uuids: Vec<u128>,
    /// Whether the device ever advertised itself as a B24 (the B24
    /// configuration service, or manufacturer data under Mantracourt's
    /// company id).
    pub is_b24: bool,
    /// The reading of its advertising data, decoded with the default View
    /// PIN, as last decoded.
    pub advert: Option<DecodedAdvert>,
}

/// The connection part of the application state.
pub struct ConnectionState {
    pub phase: ConnectionPhase,
    pub scanned_devices: Vec<ScannedDevice>,
    pub config_pin: String,
    pub selected_device_index: Option<usize>,
    pub error_message: Option<String>,
    pub status_text: String,
}

impl Default for ConnectionState {
    fn default() -> (r: Self)
        ensures
            r.phase == ConnectionPhase::Disconnected,
            r.scanned_devices@.len() == 0,
            r.config_pin@.len() == 0,
            r.selected_device_index is None,
            r.error_message is None,
            r.status_text@.len() == 0,
    {
        ConnectionState {
            phase: ConnectionPhase::Disconnected,
            scanned_devices: Vec::new(),
            config_pin: String::new(),
            selected_device_index: None,
            error_message: None,
            status_text: String::new(),
        }
    }
}

/// The advanced registers read so far: raw data bytes by advanced index.
pub struct AdvancedRegisters {
    pub values: HashMap<u8, Vec<u8>>,
}

impl Default for AdvancedRegisters {
    fn default() -> (r: Self)
        ensures
            r.values@ == Map::<u8, Vec<u8>>::empty(),
    {
        AdvancedRegisters { values: HashMap::new() }
    }
}

/// The first byte stored for an advanced index, if any.
pub open spec fn adv_u8(values: Map<u8, Vec<u8>>, index: u8) -> Option<u8> {
    if values.contains_key(index) && values[index]@.len() >= 1 {
        Some(values[index]@[0])
    } else {
        None
    }
}

/// The first four bytes stored for an advanced index read as a big-endian
/// u32, if at least four are stored.
pub open spec fn adv_u32(values: Map<u8, Vec<u8>>, index: u8) -> Option<u32> {
    if values.contains_key(index) && values[index]@.len() >= 4 {
        Some(
            crate::codec::be32(values[index]@[0], values[index]@[1], values[index]@[2], values[index]@[3]) as u32,
        )
    } else {
        None
    }
}

impl AdvancedRegisters {
    /// The first byte stored for an index, if any.
    pub fn get_u8(&self, index: u8) -> (r: Option<u8>)
        ensures
            r == adv_u8(self.values@, index),
    {
        match self.values.get(&index) {
            Some(d) => if d.len() >= 1 {
                Some(d[0])
            } else {
                None
            },
            None => None,
        }
    }

    /// The first four bytes stored for an index read as a big-endian u32,
    /// if at least four are stored.
    pub fn get_u32(&self, index: u8) -> (r: Option<u32>)
        ensures
            r == adv_u32(self.values@, index),
    {
        match self.values.get(&index) {
            Some(d) => match crate::codec::decode_u32_be(d.as_slice()) {
                Ok(v) => Some(v),
                Err(_) => None,
            },
            None => None,
        }
    }

    /// Store the data read for an advanced index (replacing earlier data).
    pub fn store(&mut self, index: u8, data: Vec<u8>)
        ensures
            final(self).values@ == old(self).values@.insert(index, data),
    {
        self.values.insert(index, data);
    }
}

/// The main tabs of the application.
#[derive(Debug, Clone, Copy, PartialEq, Eq, Structural)]
pub enum Tab {
    Connect,
    Configuration,
    Calibration,
    Log,
    Live,
}

impl Default for Tab {
    fn default() -> (r: Self)
        ensures
            r == Tab::Connect,
    {
        Tab::Connect
    }
}

/// The sub-tabs of the calibration tab.
#[derive(Debug, Clone, Copy, PartialEq, Eq, Structural)]
pub enum CalSubTab {
    AutoCal,
    Multipoint,
}

impl Default for CalSubTab {
    fn default() -> (r: Self)
        ensures
            r == CalSubTab::AutoCal,
    {
        CalSubTab::AutoCal
    }
}

/// Edit buffers for text input fields.
pub struct EditBuffers {
    pub config_pin: String,
    pub data_rate: String,
    pub resolution: String,
    pub battery_threshold: String,
    pub view_pin: String,
    pub data_tag: String,
    pub system_zero: String,
    pub local_name: String,
    pub data_units_display: String,
    pub sensitivity_range: String,
    pub lin_index: String,
    pub lin_repeat: String,
    pub lin_points: String,
    pub data_gain: String,
    pub data_offset: String,
    pub cal_pin: String,
    pub cal_units: String,
    pub cal_units_display: String,
    pub adv_index: String,
    pub adv_data: String,
}

/// Whether every edit buffer is empty.
pub open spec fn edit_buffers_clear(e: EditBuffers) -> bool {
    &&& e.config_pin@.len() == 0
    &&& e.data_rate@.len() == 0
    &&& e.resolution@.len() == 0
    &&& e.battery_threshold@.len() == 0
    &&& e.view_pin@.len() == 0
    &&& e.data_tag@.len() == 0
    &&& e.system_zero@.len() == 0
    &&& e.local_name@.len() == 0
    &&& e.data_units_display@.len() == 0
    &&& e.sensitivity_range@.len() == 0
    &&& e.lin_index@.len() == 0
    &&& e.lin_repeat@.len() == 0
    &&& e.lin_points@.len() == 0
    &&& e.data_gain@.len() == 0
    &&& e.data_offset@.len() == 0
    &&& e.cal_pin@.len() == 0
    &&& e.cal_units@.len() == 0
    &&& e.cal_units_display@.len() == 0
    &&& e.adv_index@.len() == 0
    &&& e.adv_data@.len() == 0
}

impl Default for EditBuffers {
    fn default() -> (r: Self)
        ensures
            r.config_pin@.len() == 0,
            r.data_rate@.len() == 0,
            r.resolution@.len() == 0,
            r.battery_threshold@.len() == 0,
            r.view_pin@.len() == 0,
            r.data_tag@.len() == 0,
            r.system_zero@.len() == 0,
            r.local_name@.len() == 0,
            r.data_units_display@.len() == 0,
            r.sensitivity_range@.len() == 0,
            r.lin_index@.len() == 0,
            r.lin_repeat@.len() == 0,
            r.lin_points@.len() == 0,
            r.data_gain@.len() == 0,
            r.data_offset@.len() == 0,
            r.cal_pin@.len() == 0,
            r.cal_units@.len() == 0,
            r.cal_units_display@.len() == 0,
            r.adv_index@.len() == 0,
            r.adv_data@.len() == 0,
    {
        EditBuffers {
            config_pin: String::new(),
            data_rate: String::new(),
            resolution: String::new(),
            battery_threshold: String::new(),
            view_pin: String::new(),
            data_tag: String::new(),
            system_zero: String::new(),
            local_name: String::new(),
            data_units_display: String::new(),
            sensitivity_range: String::new(),
            lin_index: String::new(),
            lin_repeat: String::new(),
            lin_points: String::new(),
            data_gain: String::new(),
            data_offset: String::new(),
            cal_pin: String::new(),
            cal_units: String::new(),
            cal_units_display: String::new(),
            adv_index: String::new(),
            adv_data: String::new(),
        }
    }
}

} // verus!
