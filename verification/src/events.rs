//! The application state and how each event from the BLE worker changes it:
//! a step from state and event to the next state and the commands to send.

use vstd::prelude::*;

use crate::pending::{
    add_index, add_uuid, add_uuids, clear_pending_index, no_pending, track_all, track_one,
    without_item, PendingView,
};
use crate::view::{view_after_advert, view_off, view_on_advert, ViewMode};
use crate::autocal::{auto_cal_initial, base_value_captured, AutoCalState};
use crate::ble::{ble_error_message, is_write, BleCommand, BleEvent};
use crate::codec::{be32_bytes, encode_u32_be};
use crate::types::{units_from_byte, units_label, DataUnits};
use crate::uuids::{b24_uuid_value, char_base_value, char_data_gain, char_data_offset};
use crate::registers::{
    apply_characteristic_read, apply_notification, notification_recorded, read_applied,
    CalibrationRegisters, CalibrationView, ConfigRegisters, ConfigView, DataLog, LiveData,
};
use crate::session::{
    clear_pending_uuid, connect_reads_ok, device_position, find_device, connected_ok, disconnected_ok, discovered_ok, error_ok,
    manufacturer_update_ok, on_connected, on_device_discovered, on_disconnected, on_error,
    on_manufacturer_data, on_scan_stopped,
    scan_stopped_ok, unique_ids, without_uuid, LinearisationReader,
};
use crate::state::{
    edit_buffers_clear, AdvancedRegisters, CalSubTab, ConnectionState, EditBuffers, ScannedDevice, Tab,
};

verus! {

/// The two-point calibration wizard: the texts typed for the low and high
/// points, the base values acquired for them (bit patterns of their f32
/// values) and the point being captured.
pub struct CalWizardState {
    pub low_value: String,
    pub high_value: String,
    pub low_acquired: Option<u32>,
    pub high_acquired: Option<u32>,
    pub current_point: u32,
}

impl Default for CalWizardState {
    fn default() -> (r: Self)
        ensures
            r.low_value@.len() == 0,
            r.high_value@.len() == 0,
            r.low_acquired is None,
            r.high_acquired is None,
            r.current_point == 0,
    {
        CalWizardState {
            low_value: String::new(),
            high_value: String::new(),
            low_acquired: None,
            high_acquired: None,
            current_point: 0,
        }
    }
}

impl CalWizardState {
    /// "Acquire Low Input": the base value last read becomes the low
    /// point's, and the base value is read again.
    pub fn acquire_low(&mut self, base_value: Option<u32>) -> (cmd: BleCommand)
        ensures
            cmd == BleCommand::ReadCharacteristic(b24_uuid_value(0xa9717266) as u128),
            final(self).low_acquired == base_value,
            final(self).low_value == old(self).low_value,
            final(self).high_value == old(self).high_value,
            final(self).high_acquired == old(self).high_acquired,
            final(self).current_point == old(self).current_point,
    {
        self.low_acquired = base_value;
        BleCommand::ReadCharacteristic(char_base_value())
    }

    /// "Acquire High Input": the base value last read becomes the high
    /// point's, and the base value is read again.
    pub fn acquire_high(&mut self, base_value: Option<u32>) -> (cmd: BleCommand)
        ensures
            cmd == BleCommand::ReadCharacteristic(b24_uuid_value(0xa9717266) as u128),
            final(self).high_acquired == base_value,
            final(self).low_value == old(self).low_value,
            final(self).high_value == old(self).high_value,
            final(self).low_acquired == old(self).low_acquired,
            final(self).current_point == old(self).current_point,
    {
        self.high_acquired = base_value;
        BleCommand::ReadCharacteristic(char_base_value())
    }

    /// "Reset": both points cleared, back to the first point.
    pub fn reset(&mut self)
        ensures
            final(self).low_value@.len() == 0,
            final(self).high_value@.len() == 0,
            final(self).low_acquired is None,
            final(self).high_acquired is None,
            final(self).current_point == 0,
    {
        self.low_acquired = None;
        self.high_acquired = None;
        self.low_value = String::new();
        self.high_value = String::new();
        self.current_point = 0;
    }

    /// "Add Point": on to the next point, whose low point is the current
    /// high point; the high point is cleared.
    pub fn add_point(&mut self)
        requires
            old(self).current_point < u32::MAX,
        ensures
            final(self).current_point == old(self).current_point + 1,
            final(self).low_value@ == old(self).high_value@,
            final(self).low_acquired == old(self).high_acquired,
            final(self).high_value@.len() == 0,
            final(self).high_acquired is None,
    {
        self.current_point = self.current_point + 1;
        self.low_value = self.high_value.clone();
        self.low_acquired = self.high_acquired;
        self.high_value = String::new();
        self.high_acquired = None;
    }
}

/// "Apply Calibration" of the wizard: the computed gain and offset (bit
/// patterns of their f32 values), big endian, to the data gain and data
/// offset registers.
pub fn wizard_apply_writes(gain_bits: u32, offset_bits: u32) -> (cmds: Vec<BleCommand>)
    ensures
        cmds@.len() == 2,
        is_write(cmds@[0], b24_uuid_value(0xa9717268) as u128, be32_bytes(gain_bits)),
        is_write(cmds@[1], b24_uuid_value(0xa9717269) as u128, be32_bytes(offset_bits)),
{
    let mut cmds: Vec<BleCommand> = Vec::new();
    cmds.push(BleCommand::WriteCharacteristic { uuid: char_data_gain(), data: encode_u32_be(gain_bits) });
    cmds.push(BleCommand::WriteCharacteristic { uuid: char_data_offset(), data: encode_u32_be(offset_bits) });
    cmds
}

/// The user interface state: tabs, edit buffers, the wizards, view mode,
/// and the requests sent and not yet answered.
pub struct UiState {
    pub active_tab: Tab,
    pub cal_sub_tab: CalSubTab,
    pub edit: EditBuffers,
    pub cal_wizard: CalWizardState,
    pub auto_cal: AutoCalState,
    pub view_mode: ViewMode,
    pub pending_reads: Vec<u128>,
    pub pending_writes: Vec<u128>,
    pub pending_adv_reads: Vec<u8>,
    pub pending_adv_writes: Vec<u8>,
}

/// The requests of a user interface state still waiting for an answer.
pub open spec fn pending_of(ui: UiState) -> PendingView {
    PendingView {
        reads: ui.pending_reads@,
        writes: ui.pending_writes@,
        adv_reads: ui.pending_adv_reads@,
        adv_writes: ui.pending_adv_writes@,
    }
}

/// Whether two user interface states agree but for what is pending.
pub open spec fn ui_same_but_pending(pre: UiState, post: UiState) -> bool {
    &&& post.active_tab == pre.active_tab
    &&& post.cal_sub_tab == pre.cal_sub_tab
    &&& post.edit == pre.edit
    &&& post.cal_wizard == pre.cal_wizard
    &&& post.auto_cal == pre.auto_cal
    &&& post.view_mode == pre.view_mode
}

impl Default for UiState {
    fn default() -> (r: Self)
        ensures
            r.active_tab == Tab::Connect,
            r.cal_sub_tab == CalSubTab::AutoCal,
            edit_buffers_clear(r.edit),
            r.cal_wizard.low_value@.len() == 0,
            r.cal_wizard.high_value@.len() == 0,
            r.cal_wizard.low_acquired is None,
            r.cal_wizard.high_acquired is None,
            r.cal_wizard.current_point == 0,
            auto_cal_initial(r.auto_cal),
            view_off(r.view_mode),
            pending_of(r) == no_pending(),
    {
        UiState {
            active_tab: Tab::Connect,
            cal_sub_tab: CalSubTab::AutoCal,
            edit: EditBuffers::default(),
            cal_wizard: CalWizardState::default(),
            auto_cal: AutoCalState::new(),
            view_mode: ViewMode::new(),
            pending_reads: Vec::new(),
            pending_writes: Vec::new(),
            pending_adv_reads: Vec::new(),
            pending_adv_writes: Vec::new(),
        }
    }
}

impl UiState {
    /// Record a command about to be sent as pending (see `track_one`).
    pub fn track_send(&mut self, cmd: &BleCommand)
        ensures
            pending_of(*final(self)) == track_one(pending_of(*old(self)), *cmd),
            ui_same_but_pending(*old(self), *final(self)),
    {
        match cmd {
            BleCommand::ReadCharacteristic(u) => add_uuid(&mut self.pending_reads, *u),
            BleCommand::ReadAll(v) => add_uuids(&mut self.pending_reads, v),
            BleCommand::WriteCharacteristic { uuid, .. } => add_uuid(&mut self.pending_writes, *uuid),
            BleCommand::ReadAdvanced { index } => add_index(&mut self.pending_adv_reads, *index),
            BleCommand::WriteAdvanced { index, .. } => add_index(&mut self.pending_adv_writes, *index),
            _ => {},
        }
    }

    /// Record commands about to be sent, in order, as pending (see
    /// `track_all`).
    pub fn track_sends(&mut self, cmds: &Vec<BleCommand>)
        ensures
            pending_of(*final(self)) == track_all(pending_of(*old(self)), cmds@),
            ui_same_but_pending(*old(self), *final(self)),
    {
        let n = cmds.len();
        let mut k: usize = 0;
        while k < n
            invariant
                n == cmds@.len(),
                k <= n,
                pending_of(*self) == track_all(pending_of(*old(self)), cmds@.take(k as int)),
                ui_same_but_pending(*old(self), *self),
            decreases n - k,
        {
            proof {
                assert(cmds@.take(k + 1).drop_last() =~= cmds@.take(k as int));
            }
            self.track_send(&cmds[k]);
            k = k + 1;
        }
        assert(cmds@.take(n as int) =~= cmds@);
    }

    /// Forget every pending request (the link is gone).
    pub fn clear_pending(&mut self)
        ensures
            pending_of(*final(self)) == no_pending(),
            ui_same_but_pending(*old(self), *final(self)),
    {
        self.pending_reads = Vec::new();
        self.pending_writes = Vec::new();
        self.pending_adv_reads = Vec::new();
        self.pending_adv_writes = Vec::new();
    }

    /// Whether any request is waiting for an answer.
    pub fn has_pending(&self) -> (b: bool)
        ensures
            b == (self.pending_reads@.len() > 0 || self.pending_writes@.len() > 0
                || self.pending_adv_reads@.len() > 0 || self.pending_adv_writes@.len() > 0),
    {
        self.pending_reads.len() > 0 || self.pending_writes.len() > 0 || self.pending_adv_reads.len() > 0
            || self.pending_adv_writes.len() > 0
    }

    /// Whether a read or a write of the characteristic `uuid` is waiting
    /// for an answer.
    pub fn is_pending(&self, uuid: u128) -> (b: bool)
        ensures
            b == (self.pending_reads@.contains(uuid) || self.pending_writes@.contains(uuid)),
    {
        contains_uuid(&self.pending_reads, uuid) || contains_uuid(&self.pending_writes, uuid)
    }

    /// Whether a read or a write of the advanced parameter `index` is
    /// waiting for an answer.
    pub fn is_adv_pending(&self, index: u8) -> (b: bool)
        ensures
            b == (self.pending_adv_reads@.contains(index) || self.pending_adv_writes@.contains(index)),
    {
        contains_index(&self.pending_adv_reads, index) || contains_index(&self.pending_adv_writes, index)
    }
}

fn contains_uuid(v: &Vec<u128>, u: u128) -> (b: bool)
    ensures
        b == v@.contains(u),
{
    let n = v.len();
    let mut i: usize = 0;
    while i < n
        invariant
            n == v@.len(),
            i <= n,
            forall|j: int| 0 <= j < i ==> v@[j] != u,
        decreases n - i,
    {
        if v[i] == u {
            assert(v@[i as int] == u);
            return true;
        }
        i = i + 1;
    }
    false
}

fn contains_index(v: &Vec<u8>, x: u8) -> (b: bool)
    ensures
        b == v@.contains(x),
{
    let n = v.len();
    let mut i: usize = 0;
    while i < n
        invariant
            n == v@.len(),
            i <= n,
            forall|j: int| 0 <= j < i ==> v@[j] != x,
        decreases n - i,
    {
        if v[i] == x {
            assert(v@[i as int] == x);
            return true;
        }
        i = i + 1;
    }
    false
}

/// The application state owned by the user interface.
pub struct AppState {
    pub connection: ConnectionState,
    pub config: ConfigRegisters,
    pub calibration: CalibrationRegisters,
    pub advanced: AdvancedRegisters,
    pub live_data: LiveData,
    pub log: DataLog,
    pub ui: UiState,
    pub lin_reader: LinearisationReader,
}

impl AppState {
    /// The state's invariant: the table transfer is well formed and no two
    /// scanned devices share a peripheral id.
    pub open spec fn wf(&self) -> bool {
        &&& self.lin_reader.wf()
        &&& unique_ids(self.connection.scanned_devices@)
    }

    /// The state at start-up: disconnected, nothing scanned or read, on the
    /// connect tab.
    pub fn new() -> (r: Self)
        ensures
            r.wf(),
            r.connection.phase == crate::state::ConnectionPhase::Disconnected,
            r.connection.scanned_devices@.len() == 0,
            r.connection.config_pin@.len() == 0,
            r.connection.selected_device_index is None,
            r.connection.error_message is None,
            r.connection.status_text@.len() == 0,
            r.config@ == (ConfigView {
                config_pin: None,
                data_rate: None,
                resolution: None,
                battery_threshold: None,
                view_pin: None,
                serial_number: None,
                data_tag: None,
                battery_value: None,
                system_zero: None,
                model_name: None,
                firmware_version: None,
                local_name: None,
                data_units: None,
            }),
            r.calibration@ == (CalibrationView {
                sensitivity_range: None,
                coefficient: None,
                lin_index: None,
                lin_repeat: None,
                lin_points: None,
                base_value: None,
                base_units: None,
                data_gain: None,
                data_offset: None,
                cal_pin: None,
                cal_units: None,
                linearisation_table: Seq::empty(),
            }),
            r.advanced.values@ == Map::<u8, Vec<u8>>::empty(),
            r.live_data.current_value is None,
            r.live_data.current_status is None,
            r.live_data.current_units is None,
            r.live_data.history@.len() == 0,
            r.live_data.history_max_points == 2000,
            !r.log.is_logging,
            r.log.entries@.len() == 0,
            r.ui.active_tab == Tab::Connect,
            r.ui.cal_sub_tab == CalSubTab::AutoCal,
            edit_buffers_clear(r.ui.edit),
            r.ui.cal_wizard.low_value@.len() == 0,
            r.ui.cal_wizard.high_value@.len() == 0,
            r.ui.cal_wizard.low_acquired is None,
            r.ui.cal_wizard.high_acquired is None,
            r.ui.cal_wizard.current_point == 0,
            auto_cal_initial(r.ui.auto_cal),
            view_off(r.ui.view_mode),
            pending_of(r.ui) == no_pending(),
            r.lin_reader.queue@.len() == 0,
            r.lin_reader.buf@.len() == 0,
            r.lin_reader.num_points == 0,
    {
        AppState {
            connection: ConnectionState::default(),
            config: ConfigRegisters::default(),
            calibration: CalibrationRegisters::default(),
            advanced: AdvancedRegisters::default(),
            live_data: LiveData::default(),
            log: DataLog::default(),
            ui: UiState::default(),
            lin_reader: LinearisationReader::new(),
        }
    }
}

/// Whether the registers, the live data and the table transfer are unchanged.
pub open spec fn registers_unchanged(pre: AppState, post: AppState) -> bool {
    &&& post.config == pre.config
    &&& post.calibration == pre.calibration
    &&& post.advanced == pre.advanced
    &&& post.live_data == pre.live_data
    &&& post.log == pre.log
    &&& post.lin_reader == pre.lin_reader
}

/// Whether the user interface state is unchanged but for the tab shown and
/// the pending reads.
pub open spec fn ui_rest_unchanged(pre: AppState, post: AppState) -> bool {
    &&& post.ui.cal_sub_tab == pre.ui.cal_sub_tab
    &&& post.ui.edit == pre.ui.edit
    &&& post.ui.cal_wizard == pre.ui.cal_wizard
    &&& post.ui.auto_cal == pre.ui.auto_cal
    &&& post.ui.view_mode == pre.ui.view_mode
}

/// When an event is handled, as the caller's clocks give it: the seconds
/// since the first live sample and since the first view-mode sample (as
/// f64 bits), and the wall-clock time in milliseconds since the Unix epoch.
#[derive(Debug, Clone, Copy, PartialEq, Eq, Structural)]
pub struct EventTime {
    pub live_elapsed_bits: u64,
    pub view_elapsed_bits: u64,
    pub now_ms: i64,
}

/// Whether two user interface states agree but for view mode.
pub open spec fn ui_same_but_view(pre: UiState, post: UiState) -> bool {
    &&& post.active_tab == pre.active_tab
    &&& post.cal_sub_tab == pre.cal_sub_tab
    &&& post.edit == pre.edit
    &&& post.cal_wizard == pre.cal_wizard
    &&& post.auto_cal == pre.auto_cal
    &&& pending_of(post) == pending_of(pre)
}

/// What an event from the BLE worker, handled at `time`, does to the
/// state, the commands it sets off and the live value it hands back (see
/// `process_event`).
pub open spec fn event_step(
    pre: AppState,
    post: AppState,
    event: BleEvent,
    time: EventTime,
    cmds: Seq<BleCommand>,
    value: Option<u32>,
) -> bool {
    match event {
        BleEvent::DeviceDiscovered { peripheral_id, name, rssi, manufacturer_data, service_uuids } => {
            &&& discovered_ok(
                pre.connection,
                post.connection,
                peripheral_id@,
                name,
                rssi,
                manufacturer_data@,
                service_uuids@,
            )
            &&& registers_unchanged(pre, post)
            &&& ui_same_but_view(pre.ui, post.ui)
            &&& view_after_advert(
                pre.ui.view_mode,
                post.ui.view_mode,
                peripheral_id@,
                manufacturer_data@,
                time.view_elapsed_bits,
            )
            &&& cmds.len() == 0
            &&& value is None
        },
        BleEvent::ManufacturerDataUpdate { peripheral_id, manufacturer_data } => {
            &&& manufacturer_update_ok(pre.connection, post.connection, peripheral_id@, manufacturer_data@)
            &&& registers_unchanged(pre, post)
            &&& ui_same_but_view(pre.ui, post.ui)
            &&& if device_position(pre.connection.scanned_devices@, peripheral_id@)
                < pre.connection.scanned_devices@.len() {
                view_after_advert(
                    pre.ui.view_mode,
                    post.ui.view_mode,
                    peripheral_id@,
                    manufacturer_data@,
                    time.view_elapsed_bits,
                )
            } else {
                post.ui.view_mode == pre.ui.view_mode
            }
            &&& cmds.len() == 0
            &&& value is None
        },
        BleEvent::ScanStopped => {
            &&& scan_stopped_ok(pre.connection, post.connection)
            &&& registers_unchanged(pre, post)
            &&& post.ui == pre.ui
            &&& cmds.len() == 0
            &&& value is None
        },
        BleEvent::Connected => {
            &&& connected_ok(pre.connection, post.connection, post.ui.active_tab)
            &&& connect_reads_ok(cmds)
            &&& registers_unchanged(pre, post)
            &&& ui_rest_unchanged(pre, post)
            &&& pending_of(post.ui) == track_all(pending_of(pre.ui), cmds)
            &&& value is None
        },
        BleEvent::Disconnected { reason } => {
            &&& disconnected_ok(pre.connection, post.connection, post.ui.active_tab, post.ui.pending_reads@, reason)
            &&& pending_of(post.ui) == no_pending()
            &&& registers_unchanged(pre, post)
            &&& ui_rest_unchanged(pre, post)
            &&& cmds.len() == 0
            &&& value is None
        },
        BleEvent::CharacteristicRead { uuid, data } => {
            &&& post.ui.pending_reads@ == without_uuid(pre.ui.pending_reads@, uuid)
            &&& post.ui.pending_writes == pre.ui.pending_writes
            &&& post.ui.pending_adv_reads == pre.ui.pending_adv_reads
            &&& post.ui.pending_adv_writes == pre.ui.pending_adv_writes
            &&& read_applied(
                pre.config,
                post.config,
                pre.calibration,
                post.calibration,
                pre.live_data,
                post.live_data,
                pre.lin_reader,
                post.lin_reader,
                uuid,
                data@,
                cmds,
            )
            &&& post.connection == pre.connection
            &&& post.advanced == pre.advanced
            &&& post.log == pre.log
            &&& post.ui.cal_sub_tab == pre.ui.cal_sub_tab
            &&& post.ui.edit == pre.ui.edit
            &&& post.ui.cal_wizard == pre.ui.cal_wizard
            &&& post.ui.view_mode == pre.ui.view_mode
            &&& if uuid == b24_uuid_value(0xa9717266) as u128 {
                base_value_captured(pre.ui.auto_cal, post.ui.auto_cal, post.calibration.base_value)
            } else {
                post.ui.auto_cal == pre.ui.auto_cal
            }
            &&& post.ui.active_tab == pre.ui.active_tab
            &&& value is None
        },
        BleEvent::CharacteristicWritten { uuid } => {
            &&& post.ui.pending_writes@ == without_uuid(pre.ui.pending_writes@, uuid)
            &&& post.ui.pending_reads == pre.ui.pending_reads
            &&& post.ui.pending_adv_reads == pre.ui.pending_adv_reads
            &&& post.ui.pending_adv_writes == pre.ui.pending_adv_writes
            &&& ui_same_but_pending(pre.ui, post.ui)
            &&& post.connection == pre.connection
            &&& registers_unchanged(pre, post)
            &&& cmds.len() == 0
            &&& value is None
        },
        BleEvent::Notification { uuid, data } => {
            &&& notification_recorded(
                pre.live_data,
                post.live_data,
                pre.log,
                post.log,
                uuid,
                data@,
                time.live_elapsed_bits,
                time.now_ms,
                value,
            )
            &&& post.connection == pre.connection
            &&& post.config == pre.config
            &&& post.calibration == pre.calibration
            &&& post.advanced == pre.advanced
            &&& post.lin_reader == pre.lin_reader
            &&& post.ui == pre.ui
            &&& cmds.len() == 0
        },
        BleEvent::AdvancedRead { index, data } => {
            &&& post.advanced.values@ == pre.advanced.values@.insert(index, data)
            &&& post.ui.pending_adv_reads@ == without_item(pre.ui.pending_adv_reads@, index)
            &&& post.ui.pending_reads == pre.ui.pending_reads
            &&& post.ui.pending_writes == pre.ui.pending_writes
            &&& post.ui.pending_adv_writes == pre.ui.pending_adv_writes
            &&& ui_same_but_pending(pre.ui, post.ui)
            &&& post.log == pre.log
            &&& post.connection == pre.connection
            &&& post.config == pre.config
            &&& post.calibration == pre.calibration
            &&& post.live_data == pre.live_data
            &&& post.lin_reader == pre.lin_reader
            &&& cmds.len() == 0
            &&& value is None
        },
        BleEvent::AdvancedWritten { index } => {
            &&& post.ui.pending_adv_writes@ == without_item(pre.ui.pending_adv_writes@, index)
            &&& post.ui.pending_reads == pre.ui.pending_reads
            &&& post.ui.pending_writes == pre.ui.pending_writes
            &&& post.ui.pending_adv_reads == pre.ui.pending_adv_reads
            &&& ui_same_but_pending(pre.ui, post.ui)
            &&& post.connection == pre.connection
            &&& registers_unchanged(pre, post)
            &&& cmds.len() == 0
            &&& value is None
        },
        BleEvent::Error(e) => {
            &&& error_ok(
                pre.connection,
                post.connection,
                pre.ui.active_tab,
                post.ui.active_tab,
                post.ui.pending_reads@,
                ble_error_message(e),
            )
            &&& pending_of(post.ui) == no_pending()
            &&& registers_unchanged(pre, post)
            &&& ui_rest_unchanged(pre, post)
            &&& cmds.len() == 0
            &&& value is None
        },
        _ => {
            &&& post == pre
            &&& cmds.len() == 0
            &&& value is None
        },
    }
}

/// Handle one event from the BLE worker at `time` (see `event_step`):
/// returns the commands to send (already recorded as pending) and, for a
/// data value notification, the value received.
pub fn process_event(state: &mut AppState, event: BleEvent, time: EventTime) -> (r: (Vec<BleCommand>, Option<u32>))
    requires
        old(state).wf(),
    ensures
        final(state).wf(),
        event_step(*old(state), *final(state), event, time, r.0@, r.1),
{
    match event {
        BleEvent::DeviceDiscovered { peripheral_id, name, rssi, manufacturer_data, service_uuids } => {
            view_on_advert(&mut state.ui.view_mode, &peripheral_id, &manufacturer_data, time.view_elapsed_bits);
            on_device_discovered(&mut state.connection, peripheral_id, name, rssi, manufacturer_data, service_uuids);
            (Vec::new(), None)
        },
        BleEvent::ManufacturerDataUpdate { peripheral_id, manufacturer_data } => {
            if find_device(&state.connection.scanned_devices, &peripheral_id) < state.connection.scanned_devices.len() {
                view_on_advert(&mut state.ui.view_mode, &peripheral_id, &manufacturer_data, time.view_elapsed_bits);
            }
            on_manufacturer_data(&mut state.connection, &peripheral_id, manufacturer_data);
            (Vec::new(), None)
        },
        BleEvent::ScanStopped => {
            on_scan_stopped(&mut state.connection);
            (Vec::new(), None)
        },
        BleEvent::Connected => {
            let cmds = on_connected(&mut state.connection, &mut state.ui.active_tab);
            state.ui.track_sends(&cmds);
            (cmds, None)
        },
        BleEvent::Disconnected { reason } => {
            on_disconnected(&mut state.connection, &mut state.ui.active_tab, &mut state.ui.pending_reads, reason);
            state.ui.clear_pending();
            (Vec::new(), None)
        },
        BleEvent::CharacteristicRead { uuid, data } => {
            clear_pending_uuid(&mut state.ui.pending_reads, uuid);
            let cmds = apply_characteristic_read(
                &mut state.config,
                &mut state.calibration,
                &mut state.live_data,
                &mut state.lin_reader,
                uuid,
                data.as_slice(),
            );
            if uuid == char_base_value() {
                state.ui.auto_cal.on_base_value(state.calibration.base_value);
            }
            (cmds, None)
        },
        BleEvent::CharacteristicWritten { uuid } => {
            clear_pending_uuid(&mut state.ui.pending_writes, uuid);
            (Vec::new(), None)
        },
        BleEvent::Notification { uuid, data } => {
            let v = apply_notification(
                &mut state.live_data,
                &mut state.log,
                uuid,
                data.as_slice(),
                time.live_elapsed_bits,
                time.now_ms,
            );
            (Vec::new(), v)
        },
        BleEvent::AdvancedRead { index, data } => {
            clear_pending_index(&mut state.ui.pending_adv_reads, index);
            state.advanced.store(index, data);
            (Vec::new(), None)
        },
        BleEvent::AdvancedWritten { index } => {
            clear_pending_index(&mut state.ui.pending_adv_writes, index);
            (Vec::new(), None)
        },
        BleEvent::Error(e) => {
            let msg = e.message();
            on_error(&mut state.connection, &mut state.ui.active_tab, &mut state.ui.pending_reads, msg);
            state.ui.clear_pending();
            (Vec::new(), None)
        },
        _ => (Vec::new(), None),
    }
}


/// The top bar's disconnect button: the link is closed and disconnected,
/// nothing stays pending and the connect tab is shown; returns the command
/// that closes the link.
pub fn disconnect_now(state: &mut AppState) -> (cmd: BleCommand)
    requires
        old(state).wf(),
    ensures
        final(state).wf(),
        cmd == BleCommand::Disconnect,
        final(state).connection.phase == crate::state::ConnectionPhase::Disconnected,
        final(state).connection.scanned_devices == old(state).connection.scanned_devices,
        final(state).connection.error_message == old(state).connection.error_message,
        pending_of(final(state).ui) == no_pending(),
        final(state).ui.active_tab == Tab::Connect,
        registers_unchanged(*old(state), *final(state)),
        ui_rest_unchanged(*old(state), *final(state)),
{
    state.connection.phase = crate::state::ConnectionPhase::Disconnected;
    state.ui.clear_pending();
    state.ui.active_tab = Tab::Connect;
    BleCommand::Disconnect
}

/// Whether the top bar shows the disconnect button: while connected or
/// connecting, on every tab but the connect tab.
pub fn shows_disconnect_button(state: &AppState) -> (b: bool)
    ensures
        b == (state.ui.active_tab != Tab::Connect && (state.connection.phase
            == crate::state::ConnectionPhase::Connected || state.connection.phase
            == crate::state::ConnectionPhase::Connecting)),
{
    let phase = state.connection.phase;
    state.ui.active_tab != Tab::Connect && (phase == crate::state::ConnectionPhase::Connected || phase
        == crate::state::ConnectionPhase::Connecting)
}

/// Whether the window keeps redrawing (every 50 ms): while connected,
/// scanning or connecting, while any request is pending, or in view mode.
pub fn needs_repaint(state: &AppState) -> (b: bool)
    ensures
        b == (state.connection.phase == crate::state::ConnectionPhase::Connected
            || state.connection.phase == crate::state::ConnectionPhase::Scanning
            || state.connection.phase == crate::state::ConnectionPhase::Connecting
            || pending_of(state.ui) != no_pending() || state.ui.view_mode.active),
{
    let phase = state.connection.phase;
    let pending = state.ui.has_pending();
    proof {
        if pending_of(state.ui) != no_pending() {
            if state.ui.pending_reads@.len() == 0 && state.ui.pending_writes@.len() == 0
                && state.ui.pending_adv_reads@.len() == 0 && state.ui.pending_adv_writes@.len() == 0 {
                assert(pending_of(state.ui) =~= no_pending());
            }
        }
    }
    phase == crate::state::ConnectionPhase::Connected || phase == crate::state::ConnectionPhase::Scanning
        || phase == crate::state::ConnectionPhase::Connecting || pending || state.ui.view_mode.active
}

/// The units label beside the live value in the status bar: those of the
/// calibration units when read, else those the device reports with the
/// value, else nothing.
pub fn status_units_label(state: &AppState) -> (s: &'static str)
    ensures
        match state.calibration.cal_units {
            Some(u) => s@ == units_label(units_from_byte(u)),
            None => match state.live_data.current_units {
                Some(u) => s@ == units_label(units_from_byte(u)),
                None => s@ == ""@,
            },
        },
{
    let units = match state.calibration.cal_units {
        Some(u) => Some(u),
        None => state.live_data.current_units,
    };
    match units {
        Some(u) => DataUnits::from_byte(u).label(),
        None => "",
    }
}

/// The peripheral id that a discovery event carries, if it is one.
pub open spec fn discovered_id(ev: BleEvent) -> Option<Seq<char>> {
    match ev {
        BleEvent::DeviceDiscovered { peripheral_id, .. } => Some(peripheral_id@),
        _ => None,
    }
}

/// Whether one of `events` discovers the peripheral `pid`.
pub open spec fn id_discovered(events: Seq<BleEvent>, pid: Seq<char>) -> bool {
    exists|i: int| 0 <= i < events.len() && #[trigger] discovered_id(events[i]) == Some(pid)
}

/// How a batch of events changes the list of scanned devices: every device
/// keeps its place (and id), every device added was discovered by one of
/// the events, and every device discovered is in the list.
pub open spec fn devices_grown(pre: Seq<ScannedDevice>, post: Seq<ScannedDevice>, events: Seq<BleEvent>) -> bool {
    &&& pre.len() <= post.len()
    &&& forall|j: int| 0 <= j < pre.len() ==> #[trigger] post[j].peripheral_id == pre[j].peripheral_id
    &&& forall|j: int| pre.len() <= j < post.len() ==> id_discovered(events, #[trigger] post[j].peripheral_id@)
    &&& forall|i: int|
        0 <= i < events.len() && (#[trigger] discovered_id(events[i])) is Some ==> exists|j: int|
            0 <= j < post.len() && #[trigger] post[j].peripheral_id@ == discovered_id(events[i])->0
}

/// What handling `events` in order does: `states` are the states before,
/// between and after them, and each event takes one state to the next
/// (`event_step`) with the commands `cmds[i]` and the value `values[i]`.
pub open spec fn steps_ok(
    states: Seq<AppState>,
    events: Seq<BleEvent>,
    time: EventTime,
    cmds: Seq<Seq<BleCommand>>,
    values: Seq<Option<u32>>,
) -> bool {
    &&& states.len() == events.len() + 1
    &&& cmds.len() == events.len()
    &&& values.len() == events.len()
    &&& forall|i: int|
        0 <= i < events.len() ==> event_step(#[trigger] states[i], states[i + 1], events[i], time, cmds[i], values[i])
}

/// Whether handling `events` in order takes `pre` to `post`, sets off the
/// commands `cmds` (those of each event, in order) and hands back `values`
/// (one per event): there are states between the events with which each
/// event is one step (`steps_ok`).
pub open spec fn batch_ok(
    pre: AppState,
    post: AppState,
    events: Seq<BleEvent>,
    time: EventTime,
    cmds: Seq<BleCommand>,
    values: Seq<Option<u32>>,
) -> bool {
    exists|states: Seq<AppState>, per_event: Seq<Seq<BleCommand>>|
        #[trigger] steps_ok(states, events, time, per_event, values) && states[0] == pre && states.last() == post
            && cmds == per_event.flatten()
}

proof fn lemma_event_devices(
    pre: AppState,
    post: AppState,
    ev: BleEvent,
    time: EventTime,
    cmds: Seq<BleCommand>,
    value: Option<u32>,
)
    requires
        event_step(pre, post, ev, time, cmds, value),
    ensures
        devices_grown(pre.connection.scanned_devices@, post.connection.scanned_devices@, seq![ev]),
{
    let a = pre.connection.scanned_devices@;
    let b = post.connection.scanned_devices@;
    let evs = seq![ev];
    match ev {
        BleEvent::DeviceDiscovered { peripheral_id, .. } => {
            let pid = peripheral_id@;
            crate::session::lemma_device_position_bounds(a, pid);
            let k = crate::session::device_position(a, pid);
            assert(evs[0] == ev);
            if k < a.len() {
                assert forall|j: int| 0 <= j < a.len() implies #[trigger] b[j].peripheral_id == a[j].peripheral_id by {
                    if j != k {
                        assert(b[j] == a[j]);
                    }
                }
                assert(b[k].peripheral_id@ == pid);
            } else {
                assert(b[k].peripheral_id@ == pid);
                assert(discovered_id(evs[0]) == Some(b[k].peripheral_id@));
            }
            assert forall|i: int| 0 <= i < evs.len() && (#[trigger] discovered_id(evs[i])) is Some implies exists|j: int|
                0 <= j < b.len() && #[trigger] b[j].peripheral_id@ == discovered_id(evs[i])->0 by {
                assert(b[k].peripheral_id@ == pid);
            }
        },
        BleEvent::ManufacturerDataUpdate { peripheral_id, .. } => {
            let pid = peripheral_id@;
            crate::session::lemma_device_position_bounds(a, pid);
            let k = crate::session::device_position(a, pid);
            assert forall|j: int| 0 <= j < a.len() implies #[trigger] b[j].peripheral_id == a[j].peripheral_id by {
                if j != k {
                    assert(b[j] == a[j]);
                }
            }
            assert(discovered_id(evs[0]) is None);
        },
        _ => {
            assert(b == a);
            assert(discovered_id(evs[0]) is None);
        },
    }
}

proof fn lemma_devices_grown_step(
    a: Seq<ScannedDevice>,
    b: Seq<ScannedDevice>,
    c: Seq<ScannedDevice>,
    events: Seq<BleEvent>,
    ev: BleEvent,
)
    requires
        devices_grown(a, b, events),
        devices_grown(b, c, seq![ev]),
    ensures
        devices_grown(a, c, events.push(ev)),
{
    let e2 = events.push(ev);
    assert forall|j: int| a.len() <= j < c.len() implies id_discovered(e2, #[trigger] c[j].peripheral_id@) by {
        if j < b.len() {
            assert(c[j].peripheral_id == b[j].peripheral_id);
            assert(id_discovered(events, b[j].peripheral_id@));
            let i = choose|i: int| 0 <= i < events.len() && #[trigger] discovered_id(events[i]) == Some(b[j].peripheral_id@);
            assert(e2[i] == events[i]);
        } else {
            assert(id_discovered(seq![ev], c[j].peripheral_id@));
            let i = choose|i: int| 0 <= i < 1 && #[trigger] discovered_id(seq![ev][i]) == Some(c[j].peripheral_id@);
            assert(e2[events.len() as int] == ev);
        }
    }
    assert forall|i: int| 0 <= i < e2.len() && (#[trigger] discovered_id(e2[i])) is Some implies exists|j: int|
        0 <= j < c.len() && #[trigger] c[j].peripheral_id@ == discovered_id(e2[i])->0 by {
        if i < events.len() {
            assert(e2[i] == events[i]);
            let j = choose|j: int| 0 <= j < b.len() && #[trigger] b[j].peripheral_id@ == discovered_id(events[i])->0;
            assert(c[j].peripheral_id == b[j].peripheral_id);
        } else {
            assert(e2[i] == ev);
            assert(seq![ev][0] == ev);
            assert(discovered_id(seq![ev][0]) is Some);
        }
    }
}

/// Handle a batch of events from the BLE worker in order, as the user
/// interface drains them each frame (see `steps_ok`): returns the commands
/// they set off, in order, and the value each hands back. The state's
/// invariant holds throughout, so no two scanned devices ever share a
/// peripheral id; every device keeps its place, the devices added are those
/// the events discovered, and every device discovered is in the list.
pub fn process_events(state: &mut AppState, events: Vec<BleEvent>, time: EventTime) -> (r: (
    Vec<BleCommand>,
    Vec<Option<u32>>,
))
    requires
        old(state).wf(),
    ensures
        final(state).wf(),
        batch_ok(*old(state), *final(state), events@, time, r.0@, r.1@),
        devices_grown(old(state).connection.scanned_devices@, final(state).connection.scanned_devices@, events@),
{
    let ghost s0 = *state;
    let ghost evs = events@;
    let mut out: Vec<BleCommand> = Vec::new();
    let mut values: Vec<Option<u32>> = Vec::new();
    let ghost mut states: Seq<AppState> = seq![*state];
    let ghost mut cmd_seqs: Seq<Seq<BleCommand>> = Seq::empty();
    let mut events = events;
    let n = events.len();
    let mut k: usize = 0;
    proof {
        assert(evs.take(0) =~= Seq::<BleEvent>::empty());
        assert(s0.connection.scanned_devices@ =~= s0.connection.scanned_devices@);
    }
    while k < n
        invariant
            n == evs.len(),
            k <= n,
            events@ == evs.skip(k as int),
            state.wf(),
            steps_ok(states, evs.take(k as int), time, cmd_seqs, values@),
            states[0] == s0,
            states.last() == *state,
            out@ == cmd_seqs.flatten(),
            devices_grown(s0.connection.scanned_devices@, state.connection.scanned_devices@, evs.take(k as int)),
        decreases n - k,
    {
        let ev = events.remove(0);
        assert(ev == evs[k as int]);
        assert(events@ =~= evs.skip(k + 1));
        let ghost pre = *state;
        let (mut c, v) = process_event(state, ev, time);
        let ghost cs = c@;
        proof {
            lemma_event_devices(pre, *state, ev, time, cs, v);
            lemma_devices_grown_step(
                s0.connection.scanned_devices@,
                pre.connection.scanned_devices@,
                state.connection.scanned_devices@,
                evs.take(k as int),
                ev,
            );
            assert(evs.take(k as int).push(ev) =~= evs.take(k + 1));
            cmd_seqs.lemma_flatten_push(cs);
            states = states.push(*state);
            cmd_seqs = cmd_seqs.push(cs);
        }
        out.append(&mut c);
        values.push(v);
        k = k + 1;
        proof {
            assert forall|i: int| 0 <= i < k implies event_step(
                #[trigger] states[i],
                states[i + 1],
                evs.take(k as int)[i],
                time,
                cmd_seqs[i],
                values@[i],
            ) by {
                if i < k - 1 {
                    assert(evs.take(k as int)[i] == evs.take(k - 1)[i]);
                }
            }
        }
    }
    proof {
        assert(evs.take(n as int) =~= evs);
        assert(steps_ok(states, evs, time, cmd_seqs, values@) && states[0] == s0 && states.last() == *state
            && out@ == cmd_seqs.flatten());
        assert(batch_ok(s0, *state, evs, time, out@, values@));
    }
    (out, values)
}

/// The peripheral ids of a device list, in order.
pub open spec fn device_ids(devs: Seq<ScannedDevice>) -> Seq<Seq<char>> {
    devs.map_values(|d: ScannedDevice| d.peripheral_id@)
}

/// The peripheral ids that some of `events` discover.
pub open spec fn discovered_ids(events: Seq<BleEvent>) -> Set<Seq<char>> {
    Set::new(|p: Seq<char>| id_discovered(events, p))
}

/// After a batch of events (see `process_events`), the ids of the scanned
/// devices are those known before together with those the events
/// discovered, each once: the list grew by the number of distinct ids
/// discovered that were not known before.
pub proof fn lemma_batch_device_ids(pre: Seq<ScannedDevice>, post: Seq<ScannedDevice>, events: Seq<BleEvent>)
    requires
        devices_grown(pre, post, events),
        unique_ids(post),
    ensures
        device_ids(post).to_set() == device_ids(pre).to_set().union(discovered_ids(events)),
        post.len() == device_ids(pre).to_set().union(discovered_ids(events)).len(),
{
    let ip = device_ids(pre);
    let iq = device_ids(post);
    let target = ip.to_set().union(discovered_ids(events));
    assert forall|p: Seq<char>| iq.to_set().contains(p) <==> target.contains(p) by {
        if iq.to_set().contains(p) {
            let j = choose|j: int| 0 <= j < iq.len() && iq[j] == p;
            assert(iq[j] == post[j].peripheral_id@);
            if j < pre.len() {
                assert(post[j].peripheral_id == pre[j].peripheral_id);
                assert(ip[j] == p);
                assert(ip.to_set().contains(p));
            } else {
                assert(id_discovered(events, post[j].peripheral_id@));
            }
        }
        if ip.to_set().contains(p) {
            let j = choose|j: int| 0 <= j < ip.len() && ip[j] == p;
            assert(post[j].peripheral_id == pre[j].peripheral_id);
            assert(iq[j] == p);
        }
        if discovered_ids(events).contains(p) {
            let i = choose|i: int| 0 <= i < events.len() && #[trigger] discovered_id(events[i]) == Some(p);
            let j = choose|j: int| 0 <= j < post.len() && #[trigger] post[j].peripheral_id@ == discovered_id(events[i])->0;
            assert(iq[j] == p);
        }
    }
    assert(iq.to_set() =~= target);
    assert(iq.no_duplicates()) by {
        assert forall|a: int, b: int| 0 <= a < iq.len() && 0 <= b < iq.len() && a != b implies iq[a] != iq[b] by {
            if a < b {
                assert(post[a].peripheral_id@ != post[b].peripheral_id@);
            } else {
                assert(post[b].peripheral_id@ != post[a].peripheral_id@);
            }
        }
    }
    iq.unique_seq_to_set();
}

} // verus!
