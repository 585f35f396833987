//! Decisions of the user interface on what the BLE worker reports: which
//! register a read belongs to, how the connection state moves, which reads
//! follow a connection, and the step-by-step transfer of the linearisation
//! table.

use std::collections::{HashMap, VecDeque};
use vstd::prelude::*;
use vstd::string::StringExecFns;

use crate::ble::BleCommand;
use crate::codec::{decode_advertising, decoded_advert, DecodedAdvert};
use crate::worker::{find_characteristic, first_position};
use crate::calibration::{
    build_linearisation_table, lin_row, lin_row_count, linearisation_read_sequence,
    LinearisationRow,
};
use crate::state::{ConnectionPhase, ConnectionState, ScannedDevice, Tab};
use crate::text::{parse_u32, parse_unsigned};
use crate::types::{
    all_advanced_params, param_index, status_byte, units_from_byte, units_label, AdvancedParam,
    DataUnits, StatusByte,
};
use crate::uuids::{
    all_calibration_uuids, all_config_uuids, b24_uuid, b24_uuid_value, char_coeff_at_idx,
    char_data_units, char_lin_index, svc_config,
};

verus! {

broadcast use vstd::std_specs::hash::group_hash_axioms;

/// The device registers that the application reads by characteristic.
#[derive(Debug, Clone, Copy, PartialEq, Eq, Structural)]
pub enum Register {
    ConfigPin,
    DataRate,
    Resolution,
    BatteryThreshold,
    ViewPin,
    SerialNumber,
    DataTag,
    BatteryValue,
    SystemZero,
    ModelName,
    FirmwareVersion,
    SensitivityRange,
    CoefficientAtIndex,
    LinIndex,
    LinRepeat,
    LinPoints,
    BaseValue,
    BaseUnits,
    DataGain,
    DataOffset,
    CalPin,
    CalUnits,
    Status,
    DataValue,
    DataUnits,
}

/// The short identifier of a register's characteristic.
pub open spec fn register_short(r: Register) -> u32 {
    match r {
        Register::ConfigPin => 0xa970fd39,
        Register::DataRate => 0xa970fd31,
        Register::Resolution => 0xa970fd32,
        Register::BatteryThreshold => 0xa970fd33,
        Register::ViewPin => 0xa970fd34,
        Register::SerialNumber => 0xa970fd35,
        Register::DataTag => 0xa970fd36,
        Register::BatteryValue => 0xa970fd37,
        Register::SystemZero => 0xa970fd38,
        Register::ModelName => 0xa970fd3a,
        Register::FirmwareVersion => 0xa970fd3b,
        Register::SensitivityRange => 0xa9717261,
        Register::CoefficientAtIndex => 0xa9717262,
        Register::LinIndex => 0xa9717263,
        Register::LinRepeat => 0xa9717264,
        Register::LinPoints => 0xa9717265,
        Register::BaseValue => 0xa9717266,
        Register::BaseUnits => 0xa9717267,
        Register::DataGain => 0xa9717268,
        Register::DataOffset => 0xa9717269,
        Register::CalPin => 0xa971726a,
        Register::CalUnits => 0xa971726b,
        Register::Status => 0xa9712441,
        Register::DataValue => 0xa9712442,
        Register::DataUnits => 0xa9712443,
    }
}

/// The register whose characteristic has a given UUID, if any.
pub open spec fn register_of_uuid(uuid: u128) -> Option<Register> {
    if uuid == b24_uuid_value(0xa970fd39) {
        Some(Register::ConfigPin)
    } else if uuid == b24_uuid_value(0xa970fd31) {
        Some(Register::DataRate)
    } else if uuid == b24_uuid_value(0xa970fd32) {
        Some(Register::Resolution)
    } else if uuid == b24_uuid_value(0xa970fd33) {
        Some(Register::BatteryThreshold)
    } else if uuid == b24_uuid_value(0xa970fd34) {
        Some(Register::ViewPin)
    } else if uuid == b24_uuid_value(0xa970fd35) {
        Some(Register::SerialNumber)
    } else if uuid == b24_uuid_value(0xa970fd36) {
        Some(Register::DataTag)
    } else if uuid == b24_uuid_value(0xa970fd37) {
        Some(Register::BatteryValue)
    } else if uuid == b24_uuid_value(0xa970fd38) {
        Some(Register::SystemZero)
    } else if uuid == b24_uuid_value(0xa970fd3a) {
        Some(Register::ModelName)
    } else if uuid == b24_uuid_value(0xa970fd3b) {
        Some(Register::FirmwareVersion)
    } else if uuid == b24_uuid_value(0xa9717261) {
        Some(Register::SensitivityRange)
    } else if uuid == b24_uuid_value(0xa9717262) {
        Some(Register::CoefficientAtIndex)
    } else if uuid == b24_uuid_value(0xa9717263) {
        Some(Register::LinIndex)
    } else if uuid == b24_uuid_value(0xa9717264) {
        Some(Register::LinRepeat)
    } else if uuid == b24_uuid_value(0xa9717265) {
        Some(Register::LinPoints)
    } else if uuid == b24_uuid_value(0xa9717266) {
        Some(Register::BaseValue)
    } else if uuid == b24_uuid_value(0xa9717267) {
        Some(Register::BaseUnits)
    } else if uuid == b24_uuid_value(0xa9717268) {
        Some(Register::DataGain)
    } else if uuid == b24_uuid_value(0xa9717269) {
        Some(Register::DataOffset)
    } else if uuid == b24_uuid_value(0xa971726a) {
        Some(Register::CalPin)
    } else if uuid == b24_uuid_value(0xa971726b) {
        Some(Register::CalUnits)
    } else if uuid == b24_uuid_value(0xa9712441) {
        Some(Register::Status)
    } else if uuid == b24_uuid_value(0xa9712442) {
        Some(Register::DataValue)
    } else if uuid == b24_uuid_value(0xa9712443) {
        Some(Register::DataUnits)
    } else {
        None
    }
}

/// The register whose characteristic has a given UUID, if any.
pub fn register_for_uuid(uuid: u128) -> (r: Option<Register>)
    ensures
        r == register_of_uuid(uuid),
{
    if uuid == b24_uuid(0xa970fd39) {
        Some(Register::ConfigPin)
    } else if uuid == b24_uuid(0xa970fd31) {
        Some(Register::DataRate)
    } else if uuid == b24_uuid(0xa970fd32) {
        Some(Register::Resolution)
    } else if uuid == b24_uuid(0xa970fd33) {
        Some(Register::BatteryThreshold)
    } else if uuid == b24_uuid(0xa970fd34) {
        Some(Register::ViewPin)
    } else if uuid == b24_uuid(0xa970fd35) {
        Some(Register::SerialNumber)
    } else if uuid == b24_uuid(0xa970fd36) {
        Some(Register::DataTag)
    } else if uuid == b24_uuid(0xa970fd37) {
        Some(Register::BatteryValue)
    } else if uuid == b24_uuid(0xa970fd38) {
        Some(Register::SystemZero)
    } else if uuid == b24_uuid(0xa970fd3a) {
        Some(Register::ModelName)
    } else if uuid == b24_uuid(0xa970fd3b) {
        Some(Register::FirmwareVersion)
    } else if uuid == b24_uuid(0xa9717261) {
        Some(Register::SensitivityRange)
    } else if uuid == b24_uuid(0xa9717262) {
        Some(Register::CoefficientAtIndex)
    } else if uuid == b24_uuid(0xa9717263) {
        Some(Register::LinIndex)
    } else if uuid == b24_uuid(0xa9717264) {
        Some(Register::LinRepeat)
    } else if uuid == b24_uuid(0xa9717265) {
        Some(Register::LinPoints)
    } else if uuid == b24_uuid(0xa9717266) {
        Some(Register::BaseValue)
    } else if uuid == b24_uuid(0xa9717267) {
        Some(Register::BaseUnits)
    } else if uuid == b24_uuid(0xa9717268) {
        Some(Register::DataGain)
    } else if uuid == b24_uuid(0xa9717269) {
        Some(Register::DataOffset)
    } else if uuid == b24_uuid(0xa971726a) {
        Some(Register::CalPin)
    } else if uuid == b24_uuid(0xa971726b) {
        Some(Register::CalUnits)
    } else if uuid == b24_uuid(0xa9712441) {
        Some(Register::Status)
    } else if uuid == b24_uuid(0xa9712442) {
        Some(Register::DataValue)
    } else if uuid == b24_uuid(0xa9712443) {
        Some(Register::DataUnits)
    } else {
        None
    }
}

/// Every register is found again from its characteristic's UUID.
pub proof fn lemma_register_uuid_roundtrip(r: Register)
    ensures
        register_of_uuid(b24_uuid_value(register_short(r)) as u128) == Some(r),
{
}

/// Each register sits at the B24's characteristic for it: the
/// configuration service's a970fd31 to a970fd3b, the calibration
/// service's a9717261 to a971726b and the data service's a9712441 to
/// a9712443 (serial number a970fd35, data value a9712442, ...), and that
/// characteristic's UUID is read back as the register.
pub proof fn lemma_register_uuid_table()
    ensures
        register_short(Register::ConfigPin) == 0xa970fd39u32 && register_of_uuid(b24_uuid_value(0xa970fd39) as u128) == Some(Register::ConfigPin),
        register_short(Register::DataRate) == 0xa970fd31u32 && register_of_uuid(b24_uuid_value(0xa970fd31) as u128) == Some(Register::DataRate),
        register_short(Register::Resolution) == 0xa970fd32u32 && register_of_uuid(b24_uuid_value(0xa970fd32) as u128) == Some(Register::Resolution),
        register_short(Register::BatteryThreshold) == 0xa970fd33u32 && register_of_uuid(b24_uuid_value(0xa970fd33) as u128) == Some(Register::BatteryThreshold),
        register_short(Register::ViewPin) == 0xa970fd34u32 && register_of_uuid(b24_uuid_value(0xa970fd34) as u128) == Some(Register::ViewPin),
        register_short(Register::SerialNumber) == 0xa970fd35u32 && register_of_uuid(b24_uuid_value(0xa970fd35) as u128) == Some(Register::SerialNumber),
        register_short(Register::DataTag) == 0xa970fd36u32 && register_of_uuid(b24_uuid_value(0xa970fd36) as u128) == Some(Register::DataTag),
        register_short(Register::BatteryValue) == 0xa970fd37u32 && register_of_uuid(b24_uuid_value(0xa970fd37) as u128) == Some(Register::BatteryValue),
        register_short(Register::SystemZero) == 0xa970fd38u32 && register_of_uuid(b24_uuid_value(0xa970fd38) as u128) == Some(Register::SystemZero),
        register_short(Register::ModelName) == 0xa970fd3au32 && register_of_uuid(b24_uuid_value(0xa970fd3a) as u128) == Some(Register::ModelName),
        register_short(Register::FirmwareVersion) == 0xa970fd3bu32 && register_of_uuid(b24_uuid_value(0xa970fd3b) as u128) == Some(Register::FirmwareVersion),
        register_short(Register::SensitivityRange) == 0xa9717261u32 && register_of_uuid(b24_uuid_value(0xa9717261) as u128) == Some(Register::SensitivityRange),
        register_short(Register::CoefficientAtIndex) == 0xa9717262u32 && register_of_uuid(b24_uuid_value(0xa9717262) as u128) == Some(Register::CoefficientAtIndex),
        register_short(Register::LinIndex) == 0xa9717263u32 && register_of_uuid(b24_uuid_value(0xa9717263) as u128) == Some(Register::LinIndex),
        register_short(Register::LinRepeat) == 0xa9717264u32 && register_of_uuid(b24_uuid_value(0xa9717264) as u128) == Some(Register::LinRepeat),
        register_short(Register::LinPoints) == 0xa9717265u32 && register_of_uuid(b24_uuid_value(0xa9717265) as u128) == Some(Register::LinPoints),
        register_short(Register::BaseValue) == 0xa9717266u32 && register_of_uuid(b24_uuid_value(0xa9717266) as u128) == Some(Register::BaseValue),
        register_short(Register::BaseUnits) == 0xa9717267u32 && register_of_uuid(b24_uuid_value(0xa9717267) as u128) == Some(Register::BaseUnits),
        register_short(Register::DataGain) == 0xa9717268u32 && register_of_uuid(b24_uuid_value(0xa9717268) as u128) == Some(Register::DataGain),
        register_short(Register::DataOffset) == 0xa9717269u32 && register_of_uuid(b24_uuid_value(0xa9717269) as u128) == Some(Register::DataOffset),
        register_short(Register::CalPin) == 0xa971726au32 && register_of_uuid(b24_uuid_value(0xa971726a) as u128) == Some(Register::CalPin),
        register_short(Register::CalUnits) == 0xa971726bu32 && register_of_uuid(b24_uuid_value(0xa971726b) as u128) == Some(Register::CalUnits),
        register_short(Register::Status) == 0xa9712441u32 && register_of_uuid(b24_uuid_value(0xa9712441) as u128) == Some(Register::Status),
        register_short(Register::DataValue) == 0xa9712442u32 && register_of_uuid(b24_uuid_value(0xa9712442) as u128) == Some(Register::DataValue),
        register_short(Register::DataUnits) == 0xa9712443u32 && register_of_uuid(b24_uuid_value(0xa9712443) as u128) == Some(Register::DataUnits),
{
}


/// The devices list entry index whose peripheral id is `pid`, or the
/// list's length when there is none.
pub open spec fn device_position(devs: Seq<ScannedDevice>, pid: Seq<char>) -> int
    decreases devs.len(),
{
    if devs.len() == 0 {
        0
    } else if devs[0].peripheral_id@ == pid {
        0
    } else {
        1 + device_position(devs.drop_first(), pid)
    }
}

proof fn lemma_device_position(devs: Seq<ScannedDevice>, pid: Seq<char>, i: int)
    requires
        0 <= i <= devs.len(),
        forall|j: int| 0 <= j < i ==> (#[trigger] devs[j]).peripheral_id@ != pid,
        i == devs.len() || devs[i].peripheral_id@ == pid,
    ensures
        device_position(devs, pid) == i,
    decreases devs.len(),
{
    if devs.len() > 0 && i > 0 {
        let t = devs.drop_first();
        assert forall|j: int| 0 <= j < i - 1 implies (#[trigger] t[j]).peripheral_id@ != pid by {
            assert(t[j] == devs[j + 1]);
        }
        if i < devs.len() {
            assert(t[i - 1] == devs[i]);
        }
        assert(devs[0].peripheral_id@ != pid);
        lemma_device_position(t, pid, i - 1);
    }
}

/// The position of a peripheral id in a list is within the list, and an
/// entry there carries the id.
pub(crate) proof fn lemma_device_position_bounds(devs: Seq<ScannedDevice>, pid: Seq<char>)
    ensures
        0 <= device_position(devs, pid) <= devs.len(),
        device_position(devs, pid) < devs.len() ==> devs[device_position(devs, pid)].peripheral_id@ == pid,
    decreases devs.len(),
{
    if devs.len() > 0 && devs[0].peripheral_id@ != pid {
        let t = devs.drop_first();
        lemma_device_position_bounds(t, pid);
        if device_position(t, pid) < t.len() {
            assert(t[device_position(t, pid)] == devs[device_position(devs, pid)]);
        }
    }
}

/// Whether no two devices in a list share a peripheral id.
pub open spec fn unique_ids(devs: Seq<ScannedDevice>) -> bool {
    forall|i: int, j: int|
        0 <= i < j < devs.len() ==> (#[trigger] devs[i]).peripheral_id@ != (#[trigger] devs[j]).peripheral_id@
}

/// The company id under which B24 transmitters advertise (Mantracourt).
pub const MANTRACOURT_COMPANY_ID: u16 = 0x04C3;

/// Whether an advertisement shows a B24: the B24 configuration service is
/// among its services, or it carries manufacturer data under Mantracourt's
/// company id.
pub open spec fn advertises_b24(m: Map<u16, Vec<u8>>, services: Seq<u128>) -> bool {
    ||| first_position(services, b24_uuid_value(0xa970fd30) as u128) is Some
    ||| m.dom().contains(MANTRACOURT_COMPANY_ID)
}

/// The decoded reading of a device after new manufacturer data: the data
/// under Mantracourt's company id decoded with the default View PIN when it
/// decodes, else the reading decoded before.
pub open spec fn advert_after(m: Map<u16, Vec<u8>>, prev: Option<DecodedAdvert>) -> Option<DecodedAdvert> {
    if m.dom().contains(MANTRACOURT_COMPANY_ID) {
        match decoded_advert(m[MANTRACOURT_COMPANY_ID]@, Seq::empty()) {
            Some(a) => Some(a),
            None => prev,
        }
    } else {
        prev
    }
}

/// Whether the connection state is unchanged but for the device list.
pub open spec fn devices_only_changed(pre: ConnectionState, post: ConnectionState) -> bool {
    &&& post.phase == pre.phase
    &&& post.config_pin == pre.config_pin
    &&& post.selected_device_index == pre.selected_device_index
    &&& post.error_message == pre.error_message
    &&& post.status_text == pre.status_text
}

/// The connection state after a device was discovered: an entry with the
/// same peripheral id gets the new name (when one was advertised), signal
/// strength and manufacturer data, becomes a B24 if the advertisement shows
/// one, and its reading is decoded again; otherwise a new entry is added at
/// the end, named "Unknown" when no name was advertised. Nothing else
/// changes.
pub open spec fn discovered_ok(
    pre: ConnectionState,
    post: ConnectionState,
    pid: Seq<char>,
    name: Option<String>,
    rssi: Option<i16>,
    m: Map<u16, Vec<u8>>,
    services: Seq<u128>,
) -> bool {
    let old_devs = pre.scanned_devices@;
    let new_devs = post.scanned_devices@;
    let k = device_position(old_devs, pid);
    &&& k < old_devs.len() ==> {
        &&& new_devs.len() == old_devs.len()
        &&& forall|j: int| 0 <= j < old_devs.len() && j != k ==> new_devs[j] == old_devs[j]
        &&& new_devs[k].name@ == (match name {
            Some(n) => n@,
            None => old_devs[k].name@,
        })
        &&& new_devs[k].rssi == rssi
        &&& new_devs[k].data_tag == old_devs[k].data_tag
        &&& new_devs[k].peripheral_id == old_devs[k].peripheral_id
        &&& new_devs[k].manufacturer_data@ == m
        &&& new_devs[k].service_uuids == old_devs[k].service_uuids
        &&& new_devs[k].is_b24 == (old_devs[k].is_b24 || advertises_b24(m, services))
        &&& new_devs[k].advert == advert_after(m, old_devs[k].advert)
    }
    &&& k == old_devs.len() ==> {
        &&& new_devs.len() == old_devs.len() + 1
        &&& forall|j: int| 0 <= j < old_devs.len() ==> new_devs[j] == old_devs[j]
        &&& new_devs[k].name@ == (match name {
            Some(n) => n@,
            None => "Unknown"@,
        })
        &&& new_devs[k].rssi == rssi
        &&& new_devs[k].data_tag is None
        &&& new_devs[k].peripheral_id@ == pid
        &&& new_devs[k].manufacturer_data@ == m
        &&& new_devs[k].service_uuids@ == services
        &&& new_devs[k].is_b24 == advertises_b24(m, services)
        &&& new_devs[k].advert == advert_after(m, None)
    }
    &&& devices_only_changed(pre, post)
}

fn decode_default_pin(m: &HashMap<u16, Vec<u8>>, prev: Option<DecodedAdvert>) -> (r: Option<DecodedAdvert>)
    ensures
        r == advert_after(m@, prev),
{
    match m.get(&MANTRACOURT_COMPANY_ID) {
        Some(raw) => {
            proof {
                reveal_strlit("");
            }
            match decode_advertising(raw.as_slice(), "") {
                Some(a) => Some(a),
                None => prev,
            }
        },
        None => prev,
    }
}

pub(crate) fn find_device(devs: &Vec<ScannedDevice>, pid: &String) -> (i: usize)
    ensures
        i == device_position(devs@, pid@),
        i <= devs@.len(),
        i < devs@.len() ==> devs@[i as int].peripheral_id@ == pid@,
        forall|j: int| 0 <= j < i ==> (#[trigger] devs@[j]).peripheral_id@ != pid@,
{
    let n = devs.len();
    let mut i: usize = 0;
    while i < n && devs[i].peripheral_id != *pid
        invariant
            n == devs@.len(),
            i <= n,
            forall|j: int| 0 <= j < i ==> (#[trigger] devs@[j]).peripheral_id@ != pid@,
        decreases n - i,
    {
        i = i + 1;
    }
    proof {
        lemma_device_position(devs@, pid@, i as int);
    }
    i
}

/// Record a discovered device (see `discovered_ok`). No two entries ever
/// share a peripheral id.
pub fn on_device_discovered(
    conn: &mut ConnectionState,
    peripheral_id: String,
    name: Option<String>,
    rssi: Option<i16>,
    manufacturer_data: HashMap<u16, Vec<u8>>,
    service_uuids: Vec<u128>,
)
    ensures
        discovered_ok(*old(conn), *final(conn), peripheral_id@, name, rssi, manufacturer_data@, service_uuids@),
        unique_ids(old(conn).scanned_devices@) ==> unique_ids(final(conn).scanned_devices@),
{
    let ghost old_devs = conn.scanned_devices@;
    let is_b24 = find_characteristic(&service_uuids, svc_config()).is_some()
        || manufacturer_data.contains_key(&MANTRACOURT_COMPANY_ID);
    let n = conn.scanned_devices.len();
    let i = find_device(&conn.scanned_devices, &peripheral_id);
    if i < n {
        let mut dev = conn.scanned_devices.remove(i);
        if let Some(nm) = name {
            dev.name = nm;
        }
        dev.rssi = rssi;
        if is_b24 {
            dev.is_b24 = true;
        }
        dev.advert = decode_default_pin(&manufacturer_data, dev.advert);
        dev.manufacturer_data = manufacturer_data;
        conn.scanned_devices.insert(i, dev);
        proof {
            let nd = conn.scanned_devices@;
            assert(nd.len() == old_devs.len());
            assert forall|a: int| 0 <= a < nd.len() implies #[trigger] nd[a].peripheral_id
                == old_devs[a].peripheral_id by {
                if a < i {
                    assert(nd[a] == old_devs[a]);
                } else if a > i {
                    assert(nd[a] == old_devs[a]);
                }
            }
        }
    } else {
        let dev_name = match name {
            Some(nm) => nm,
            None => String::from_str("Unknown"),
        };
        let advert = decode_default_pin(&manufacturer_data, None);
        conn.scanned_devices.push(
            ScannedDevice {
                name: dev_name,
                data_tag: None,
                rssi,
                peripheral_id,
                manufacturer_data,
                service_uuids,
                is_b24,
                advert,
            },
        );
        proof {
            let nd = conn.scanned_devices@;
            assert forall|a: int, b: int| 0 <= a < b < nd.len() && unique_ids(old_devs) implies (#[trigger] nd[a]).peripheral_id@
                != (#[trigger] nd[b]).peripheral_id@ by {
                assert(nd[a] == old_devs[a]);
                if b < old_devs.len() {
                    assert(nd[b] == old_devs[b]);
                }
            }
        }
    }
}

/// The connection state after new manufacturer data from a device: a
/// device in the list takes the data and its reading is decoded again; a
/// device not in the list is not added. Nothing else changes.
pub open spec fn manufacturer_update_ok(
    pre: ConnectionState,
    post: ConnectionState,
    pid: Seq<char>,
    m: Map<u16, Vec<u8>>,
) -> bool {
    let old_devs = pre.scanned_devices@;
    let new_devs = post.scanned_devices@;
    let k = device_position(old_devs, pid);
    &&& new_devs.len() == old_devs.len()
    &&& forall|j: int| 0 <= j < old_devs.len() && j != k ==> new_devs[j] == old_devs[j]
    &&& k < old_devs.len() ==> {
        &&& new_devs[k].manufacturer_data@ == m
        &&& new_devs[k].advert == advert_after(m, old_devs[k].advert)
        &&& new_devs[k].name == old_devs[k].name
        &&& new_devs[k].rssi == old_devs[k].rssi
        &&& new_devs[k].data_tag == old_devs[k].data_tag
        &&& new_devs[k].peripheral_id == old_devs[k].peripheral_id
        &&& new_devs[k].service_uuids == old_devs[k].service_uuids
        &&& new_devs[k].is_b24 == old_devs[k].is_b24
    }
    &&& devices_only_changed(pre, post)
}

/// Take new manufacturer data from a device (see
/// `manufacturer_update_ok`). No two entries ever share a peripheral id.
pub fn on_manufacturer_data(conn: &mut ConnectionState, peripheral_id: &String, manufacturer_data: HashMap<u16, Vec<u8>>)
    ensures
        manufacturer_update_ok(*old(conn), *final(conn), peripheral_id@, manufacturer_data@),
        unique_ids(old(conn).scanned_devices@) ==> unique_ids(final(conn).scanned_devices@),
{
    let ghost old_devs = conn.scanned_devices@;
    let n = conn.scanned_devices.len();
    let i = find_device(&conn.scanned_devices, peripheral_id);
    if i < n {
        let mut dev = conn.scanned_devices.remove(i);
        dev.advert = decode_default_pin(&manufacturer_data, dev.advert);
        dev.manufacturer_data = manufacturer_data;
        conn.scanned_devices.insert(i, dev);
        proof {
            let nd = conn.scanned_devices@;
            assert forall|a: int| 0 <= a < nd.len() implies #[trigger] nd[a].peripheral_id
                == old_devs[a].peripheral_id by {
                if a != i {
                    assert(nd[a] == old_devs[a]);
                }
            }
        }
    }
}

/// The connection state after a scan finished or was stopped: a scanning
/// link returns to disconnected; nothing else changes.
pub open spec fn scan_stopped_ok(pre: ConnectionState, post: ConnectionState) -> bool {
    &&& post.phase == (if pre.phase == ConnectionPhase::Scanning {
        ConnectionPhase::Disconnected
    } else {
        pre.phase
    })
    &&& post.scanned_devices == pre.scanned_devices
    &&& post.error_message == pre.error_message
    &&& post.config_pin == pre.config_pin
    &&& post.selected_device_index == pre.selected_device_index
    &&& post.status_text == pre.status_text
}

/// A finished or stopped scan (see `scan_stopped_ok`).
pub fn on_scan_stopped(conn: &mut ConnectionState)
    ensures
        scan_stopped_ok(*old(conn), *final(conn)),
{
    if conn.phase == ConnectionPhase::Scanning {
        conn.phase = ConnectionPhase::Disconnected;
    }
}

/// The scan button of the connect tab (shown while not connected): a
/// running scan is stopped and the link is disconnected; otherwise the list
/// of devices is cleared and a scan starts. While connected there is no
/// button and nothing changes.
pub fn scan_button(conn: &mut ConnectionState) -> (cmd: Option<BleCommand>)
    ensures
        old(conn).phase == ConnectionPhase::Connected ==> cmd is None && *final(conn) == *old(conn),
        old(conn).phase == ConnectionPhase::Scanning ==> {
            &&& cmd == Some(BleCommand::StopScan)
            &&& final(conn).phase == ConnectionPhase::Disconnected
            &&& final(conn).scanned_devices == old(conn).scanned_devices
        },
        old(conn).phase != ConnectionPhase::Connected && old(conn).phase != ConnectionPhase::Scanning ==> {
            &&& cmd == Some(BleCommand::StartScan)
            &&& final(conn).phase == ConnectionPhase::Scanning
            &&& final(conn).scanned_devices@.len() == 0
        },
        old(conn).phase != ConnectionPhase::Connected ==> {
            &&& final(conn).config_pin == old(conn).config_pin
            &&& final(conn).selected_device_index == old(conn).selected_device_index
            &&& final(conn).error_message == old(conn).error_message
            &&& final(conn).status_text == old(conn).status_text
        },
{
    if conn.phase == ConnectionPhase::Connected {
        None
    } else if conn.phase == ConnectionPhase::Scanning {
        conn.phase = ConnectionPhase::Disconnected;
        Some(BleCommand::StopScan)
    } else {
        conn.scanned_devices.clear();
        conn.phase = ConnectionPhase::Scanning;
        Some(BleCommand::StartScan)
    }
}

/// The disconnect button: the link is closed and disconnected.
pub fn disconnect_button(conn: &mut ConnectionState) -> (cmd: BleCommand)
    ensures
        cmd == BleCommand::Disconnect,
        final(conn).phase == ConnectionPhase::Disconnected,
        final(conn).scanned_devices == old(conn).scanned_devices,
        final(conn).config_pin == old(conn).config_pin,
        final(conn).selected_device_index == old(conn).selected_device_index,
        final(conn).error_message == old(conn).error_message,
        final(conn).status_text == old(conn).status_text,
{
    conn.phase = ConnectionPhase::Disconnected;
    BleCommand::Disconnect
}

/// Whether the scanned devices offer a "Connect" button: not while
/// connected or connecting.
pub fn can_connect(conn: &ConnectionState) -> (b: bool)
    ensures
        b == (conn.phase != ConnectionPhase::Connected && conn.phase != ConnectionPhase::Connecting),
{
    conn.phase != ConnectionPhase::Connected && conn.phase != ConnectionPhase::Connecting
}

/// The configuration PIN used to connect: the PIN typed in, or 9999 when it
/// does not read as a u32.
pub open spec fn connect_pin(typed: Seq<char>) -> u32 {
    match parse_unsigned(typed, 10, u32::MAX as int) {
        Some(v) => v as u32,
        None => 9999,
    }
}

/// Connect to the scanned device at `idx`: it becomes the selected device,
/// the link is connecting and the error cleared; returns the command that
/// connects to its peripheral with the PIN typed in (see `connect_pin`).
pub fn connect_device(conn: &mut ConnectionState, idx: usize) -> (cmd: BleCommand)
    requires
        idx < old(conn).scanned_devices@.len(),
    ensures
        cmd matches BleCommand::Connect { peripheral_id, config_pin }
            && peripheral_id@ == old(conn).scanned_devices@[idx as int].peripheral_id@
            && config_pin == connect_pin(old(conn).config_pin@),
        final(conn).selected_device_index == Some(idx),
        final(conn).phase == ConnectionPhase::Connecting,
        final(conn).error_message is None,
        final(conn).scanned_devices == old(conn).scanned_devices,
        final(conn).config_pin == old(conn).config_pin,
        final(conn).status_text == old(conn).status_text,
{
    let pin = match parse_u32(conn.config_pin.as_str()) {
        Some(v) => v,
        None => 9999,
    };
    let peripheral_id = conn.scanned_devices[idx].peripheral_id.clone();
    conn.selected_device_index = Some(idx);
    conn.phase = ConnectionPhase::Connecting;
    conn.error_message = None;
    BleCommand::Connect { peripheral_id, config_pin: pin }
}

/// The reads issued right after connecting: all configuration registers,
/// all calibration registers, the data units, then every advanced parameter.
pub open spec fn connect_reads_ok(cmds: Seq<BleCommand>) -> bool {
    &&& cmds.len() == 3 + all_advanced_params().len()
    &&& cmds[0] matches BleCommand::ReadAll(v) && v@ == all_config_uuid_values()
    &&& cmds[1] matches BleCommand::ReadAll(v) && v@ == all_calibration_uuid_values()
    &&& cmds[2] == BleCommand::ReadCharacteristic(b24_uuid_value(0xa9712443) as u128)
    &&& forall|i: int|
        0 <= i < all_advanced_params().len() ==> #[trigger] cmds[3 + i]
            == (BleCommand::ReadAdvanced { index: param_index(all_advanced_params()[i]) })
}

/// The configuration characteristics in "Read All Registers" order.
pub open spec fn all_config_uuid_values() -> Seq<u128> {
    seq![
        b24_uuid_value(0xa970fd39) as u128,
        b24_uuid_value(0xa970fd31) as u128,
        b24_uuid_value(0xa970fd32) as u128,
        b24_uuid_value(0xa970fd33) as u128,
        b24_uuid_value(0xa970fd34) as u128,
        b24_uuid_value(0xa970fd35) as u128,
        b24_uuid_value(0xa970fd36) as u128,
        b24_uuid_value(0xa970fd37) as u128,
        b24_uuid_value(0xa970fd38) as u128,
        b24_uuid_value(0xa970fd3a) as u128,
        b24_uuid_value(0xa970fd3b) as u128,
    ]
}

/// The calibration characteristics in "Read All Registers" order.
pub open spec fn all_calibration_uuid_values() -> Seq<u128> {
    seq![
        b24_uuid_value(0xa9717261) as u128,
        b24_uuid_value(0xa9717262) as u128,
        b24_uuid_value(0xa9717263) as u128,
        b24_uuid_value(0xa9717264) as u128,
        b24_uuid_value(0xa9717265) as u128,
        b24_uuid_value(0xa9717266) as u128,
        b24_uuid_value(0xa9717267) as u128,
        b24_uuid_value(0xa9717268) as u128,
        b24_uuid_value(0xa9717269) as u128,
        b24_uuid_value(0xa971726a) as u128,
        b24_uuid_value(0xa971726b) as u128,
    ]
}

/// The state after a completed connection: the link is connected, the
/// error cleared and the configuration tab shown; the rest unchanged.
pub open spec fn connected_ok(pre: ConnectionState, post: ConnectionState, tab: Tab) -> bool {
    &&& post.phase == ConnectionPhase::Connected
    &&& post.error_message is None
    &&& tab == Tab::Configuration
    &&& post.scanned_devices == pre.scanned_devices
    &&& post.config_pin == pre.config_pin
    &&& post.selected_device_index == pre.selected_device_index
    &&& post.status_text == pre.status_text
}

/// A completed connection (see `connected_ok`); returns the reads of every
/// register.
pub fn on_connected(conn: &mut ConnectionState, tab: &mut Tab) -> (cmds: Vec<BleCommand>)
    ensures
        connected_ok(*old(conn), *final(conn), *final(tab)),
        connect_reads_ok(cmds@),
{
    conn.phase = ConnectionPhase::Connected;
    conn.error_message = None;
    *tab = Tab::Configuration;
    let mut cmds: Vec<BleCommand> = Vec::new();
    cmds.push(BleCommand::ReadAll(all_config_uuids()));
    cmds.push(BleCommand::ReadAll(all_calibration_uuids()));
    cmds.push(BleCommand::ReadCharacteristic(char_data_units()));
    let params = AdvancedParam::all();
    let np = params.len();
    let mut i: usize = 0;
    while i < np
        invariant
            np == params@.len(),
            params@ == all_advanced_params(),
            i <= np,
            cmds@.len() == 3 + i,
            cmds@[0] matches BleCommand::ReadAll(v) && v@ == all_config_uuid_values(),
            cmds@[1] matches BleCommand::ReadAll(v) && v@ == all_calibration_uuid_values(),
            cmds@[2] == BleCommand::ReadCharacteristic(b24_uuid_value(0xa9712443) as u128),
            forall|j: int|
                0 <= j < i ==> #[trigger] cmds@[3 + j] == (BleCommand::ReadAdvanced {
                    index: param_index(all_advanced_params()[j]),
                }),
        decreases np - i,
    {
        cmds.push(BleCommand::ReadAdvanced { index: params[i].index() });
        i = i + 1;
    }
    cmds
}

/// The UUIDs still pending after a reply for `uuid`: every entry for it
/// removed.
pub open spec fn without_uuid(pending: Seq<u128>, uuid: u128) -> Seq<u128> {
    pending.filter(|x: u128| x != uuid)
}

/// A reply arrived for a characteristic: it is no longer pending.
pub fn clear_pending_uuid(pending: &mut Vec<u128>, uuid: u128)
    ensures
        final(pending)@ == without_uuid(old(pending)@, uuid),
{
    let ghost orig = pending@;
    let mut kept: Vec<u128> = Vec::new();
    let n = pending.len();
    let mut i: usize = 0;
    while i < n
        invariant
            n == pending@.len(),
            pending@ == orig,
            i <= n,
            kept@ == without_uuid(orig.take(i as int), uuid),
        decreases n - i,
    {
        let x = pending[i];
        proof {
            assert(orig.take(i + 1).drop_last() =~= orig.take(i as int));
            reveal_with_fuel(Seq::<_>::filter, 1);
        }
        if x != uuid {
            kept.push(x);
        }
        i = i + 1;
    }
    assert(orig.take(n as int) =~= orig);
    *pending = kept;
}

/// The state after the link was lost or closed: disconnected, the reason
/// (if any) kept as the error message, nothing pending, and the connect tab
/// shown; the rest unchanged.
pub open spec fn disconnected_ok(
    pre: ConnectionState,
    post: ConnectionState,
    tab: Tab,
    pending: Seq<u128>,
    reason: Option<String>,
) -> bool {
    &&& post.phase == ConnectionPhase::Disconnected
    &&& post.error_message == (match reason {
        Some(r) => Some(r),
        None => pre.error_message,
    })
    &&& pending.len() == 0
    &&& tab == Tab::Connect
    &&& post.scanned_devices == pre.scanned_devices
    &&& post.config_pin == pre.config_pin
    &&& post.selected_device_index == pre.selected_device_index
    &&& post.status_text == pre.status_text
}

/// The link was lost or closed (see `disconnected_ok`).
pub fn on_disconnected(
    conn: &mut ConnectionState,
    tab: &mut Tab,
    pending: &mut Vec<u128>,
    reason: Option<String>,
)
    ensures
        disconnected_ok(*old(conn), *final(conn), *final(tab), final(pending)@, reason),
{
    conn.phase = ConnectionPhase::Disconnected;
    if let Some(r) = reason {
        conn.error_message = Some(r);
    }
    pending.clear();
    *tab = Tab::Connect;
}

/// The state after the worker reported an error: its message is kept; a
/// link that was connecting or connected falls back to disconnected with the
/// connect tab shown; nothing stays pending; the rest unchanged.
pub open spec fn error_ok(
    pre: ConnectionState,
    post: ConnectionState,
    pre_tab: Tab,
    tab: Tab,
    pending: Seq<u128>,
    message: Seq<char>,
) -> bool {
    &&& post.error_message matches Some(m) && m@ == message
    &&& (pre.phase == ConnectionPhase::Connecting || pre.phase == ConnectionPhase::Connected)
        ==> post.phase == ConnectionPhase::Disconnected && tab == Tab::Connect
    &&& !(pre.phase == ConnectionPhase::Connecting || pre.phase == ConnectionPhase::Connected)
        ==> post.phase == pre.phase && tab == pre_tab
    &&& pending.len() == 0
    &&& post.scanned_devices == pre.scanned_devices
    &&& post.config_pin == pre.config_pin
    &&& post.selected_device_index == pre.selected_device_index
    &&& post.status_text == pre.status_text
}

/// The worker reported an error (see `error_ok`).
pub fn on_error(conn: &mut ConnectionState, tab: &mut Tab, pending: &mut Vec<u128>, message: String)
    ensures
        error_ok(*old(conn), *final(conn), *old(tab), *final(tab), final(pending)@, message@),
{
    conn.error_message = Some(message);
    if conn.phase == ConnectionPhase::Connecting || conn.phase == ConnectionPhase::Connected {
        conn.phase = ConnectionPhase::Disconnected;
        *tab = Tab::Connect;
    }
    pending.clear();
}


/// The transfer of the linearisation table, one coefficient at a time: the
/// indices still to read, the coefficients read so far (bit patterns of
/// their f32 values) and the number of points being read.
pub struct LinearisationReader {
    pub queue: Vec<u8>,
    pub buf: Vec<u32>,
    pub num_points: u8,
}

/// The reads that fetch the coefficient at linearisation index `index`:
/// write the index, then read the coefficient register.
pub open spec fn coefficient_reads_ok(cmds: Seq<BleCommand>, index: u8) -> bool {
    &&& cmds.len() == 2
    &&& cmds[0] matches BleCommand::WriteCharacteristic { uuid, data } && uuid == b24_uuid_value(
        0xa9717263,
    ) as u128 && data@ == seq![index]
    &&& cmds[1] == BleCommand::ReadCharacteristic(b24_uuid_value(0xa9717262) as u128)
}

/// The indices from `from` up to and including `last`.
pub open spec fn index_run(from: int, last: int) -> Seq<u8> {
    Seq::new(if last >= from { (last - from + 1) as nat } else { 0 }, |k: int| (from + k) as u8)
}

proof fn lemma_index_run_drop(from: int, last: int)
    requires
        from <= last,
    ensures
        index_run(from, last).drop_first() == index_run(from + 1, last),
{
    let a = index_run(from, last).drop_first();
    let b = index_run(from + 1, last);
    assert(a.len() == b.len());
    assert forall|k: int| 0 <= k < a.len() implies a[k] == b[k] by {
        assert(a[k] == index_run(from, last)[k + 1]);
    }
    assert(a =~= b);
}

/// The reader after the number of points `n` was read, with the commands
/// sent: for 1 to 15 points a transfer starts with the first coefficient
/// (index 0); otherwise nothing changes.
pub open spec fn lin_points_step(pre: LinearisationReader, post: LinearisationReader, n: u8, cmds: Seq<BleCommand>) -> bool {
    if 1 <= n <= 15 {
        &&& post.queue@ == index_run(0, 3 * n)
        &&& post.buf@.len() == 0
        &&& post.num_points == n
        &&& coefficient_reads_ok(cmds, 0)
    } else {
        &&& post.queue == pre.queue
        &&& post.buf == pre.buf
        &&& post.num_points == pre.num_points
        &&& cmds.len() == 0
    }
}

/// The reader after a coefficient `bits` was read, with the commands sent.
/// While a transfer runs the coefficient is kept and the next index is
/// fetched, or, after the last one, the reader becomes idle; without a
/// transfer nothing changes.
pub open spec fn coefficient_step(pre: LinearisationReader, post: LinearisationReader, bits: u32, cmds: Seq<BleCommand>) -> bool {
    &&& post.num_points == pre.num_points
    &&& pre.queue@.len() == 0 ==> {
        &&& post.queue == pre.queue
        &&& post.buf == pre.buf
        &&& cmds.len() == 0
    }
    &&& pre.queue@.len() > 1 ==> {
        &&& post.buf@ == pre.buf@.push(bits)
        &&& post.queue@ == pre.queue@.drop_first()
        &&& coefficient_reads_ok(cmds, post.buf@.len() as u8)
    }
    &&& pre.queue@.len() == 1 ==> {
        &&& post.queue@.len() == 0
        &&& post.buf@.len() == 0
        &&& cmds.len() == 0
    }
}

/// The table assembled when a coefficient `bits` completes the transfer
/// (the rows of `lin_row` over all the coefficients read); none otherwise.
pub open spec fn coefficient_table(pre: LinearisationReader, bits: u32) -> Option<Seq<LinearisationRow>> {
    if pre.queue@.len() == 1 {
        let got = pre.buf@.push(bits);
        Some(Seq::new(lin_row_count(got.len() as int, pre.num_points as int) as nat, |i: int| lin_row(got, i)))
    } else {
        None
    }
}

/// The view of an optional table.
pub open spec fn rows_view(t: Option<Vec<LinearisationRow>>) -> Option<Seq<LinearisationRow>> {
    match t {
        Some(v) => Some(v@),
        None => None,
    }
}

impl LinearisationReader {
    /// The reader's invariant: while a transfer runs, the queue holds the
    /// indices after the coefficients already read, up to the final valid_to
    /// at 3 * num_points; at most 15 points are read; when idle both are empty.
    pub open spec fn wf(&self) -> bool {
        &&& self.num_points <= 15
        &&& self.queue@.len() > 0 ==> self.queue@ == index_run(
            self.buf@.len() as int,
            3 * self.num_points,
        )
        &&& self.queue@.len() == 0 ==> self.buf@.len() == 0
    }

    /// An idle reader.
    pub fn new() -> (r: Self)
        ensures
            r.wf(),
            r.queue@.len() == 0,
            r.buf@.len() == 0,
            r.num_points == 0,
    {
        LinearisationReader { queue: Vec::new(), buf: Vec::new(), num_points: 0 }
    }

    fn fetch(index: u8) -> (cmds: Vec<BleCommand>)
        ensures
            coefficient_reads_ok(cmds@, index),
    {
        let mut data: Vec<u8> = Vec::new();
        data.push(index);
        let mut cmds: Vec<BleCommand> = Vec::new();
        cmds.push(BleCommand::WriteCharacteristic { uuid: char_lin_index(), data });
        cmds.push(BleCommand::ReadCharacteristic(char_coeff_at_idx()));
        cmds
    }

    /// The number of linearisation points was read: for 1 to 15 points a
    /// transfer starts with the first coefficient (index 0); otherwise
    /// nothing changes.
    pub fn on_lin_points(&mut self, num_points: u8) -> (cmds: Vec<BleCommand>)
        requires
            old(self).wf(),
        ensures
            final(self).wf(),
            lin_points_step(*old(self), *final(self), num_points, cmds@),
    {
        if num_points > 0 && num_points <= 15 {
            let seq = linearisation_read_sequence(num_points);
            let mut queue: Vec<u8> = Vec::new();
            let mut i: usize = 0;
            while i < seq.len()
                invariant
                    i <= seq@.len(),
                    seq@.len() == 3 * num_points + 1,
                    forall|j: int| 0 <= j < seq@.len() ==> #[trigger] seq@[j].0 == j,
                    queue@ == index_run(0, i as int - 1),
                decreases seq@.len() - i,
            {
                queue.push(seq[i].0);
                i = i + 1;
                assert(queue@ =~= index_run(0, i as int - 1));
            }
            self.queue = queue;
            self.buf = Vec::new();
            self.num_points = num_points;
            Self::fetch(0)
        } else {
            Vec::new()
        }
    }

    /// A coefficient was read. While a transfer runs it is kept; the next
    /// index is fetched, or, after the last one, the table is assembled and
    /// the reader becomes idle. Without a transfer nothing changes.
    pub fn on_coefficient(&mut self, bits: u32) -> (r: (Vec<BleCommand>, Option<Vec<LinearisationRow>>))
        requires
            old(self).wf(),
        ensures
            final(self).wf(),
            coefficient_step(*old(self), *final(self), bits, r.0@),
            rows_view(r.1) == coefficient_table(*old(self), bits),
    {
        if self.queue.len() == 0 {
            return (Vec::new(), None);
        }
        let ghost old_queue = self.queue@;
        let ghost old_buf = self.buf@;
        proof {
            assert(old_queue == index_run(old_buf.len() as int, 3 * self.num_points));
        }
        self.buf.push(bits);
        self.queue.remove(0);
        if self.queue.len() > 0 {
            let next = self.queue[0];
            proof {
                lemma_index_run_drop(old_buf.len() as int, 3 * self.num_points);
                assert(self.queue@ =~= old_queue.drop_first());
            }
            (Self::fetch(next), None)
        } else {
            let table = build_linearisation_table(&self.buf, self.num_points);
            assert(table@ =~= coefficient_table(*old(self), bits)->0);
            self.buf.clear();
            (Vec::new(), Some(table))
        }
    }
}


/// The history after recording one more sample: the sample appended, and
/// the oldest sample dropped when that makes it longer than `max_points`.
pub open spec fn bounded_push<T>(h: Seq<T>, item: T, max_points: nat) -> Seq<T> {
    if h.len() + 1 > max_points {
        h.push(item).drop_first()
    } else {
        h.push(item)
    }
}

/// Record a sample in a history that keeps at most `max_points` samples
/// (the oldest is dropped first).
pub fn push_history<T>(history: &mut VecDeque<T>, item: T, max_points: usize)
    ensures
        final(history)@ == bounded_push(old(history)@, item, max_points as nat),
{
    history.push_back(item);
    if history.len() > max_points {
        let _ = history.pop_front();
    }
}

/// A history never grows past its bound and keeps the newest samples:
/// recording a sample in a history of at most `max_points` samples (at
/// least one) leaves the last `min(len + 1, max_points)` samples of the
/// history followed by the new one, in order, so at most `max_points`, the
/// newest last.
pub proof fn lemma_history_bounded<T>(h: Seq<T>, item: T, max_points: nat)
    requires
        h.len() <= max_points,
        max_points >= 1,
    ensures
        ({
            let r = bounded_push(h, item, max_points);
            let all = h.push(item);
            &&& r.len() == (if all.len() <= max_points { all.len() } else { max_points })
            &&& r == all.subrange(all.len() - r.len(), all.len() as int)
            &&& r.len() <= max_points
            &&& r.last() == item
        }),
{
    let all = h.push(item);
    assert(all.subrange(0, all.len() as int) =~= all);
    assert(all.drop_first() =~= all.subrange(1, all.len() as int));
}

/// The units text logged with a reading: the symbol of the current units,
/// or empty when the units are not known.
pub open spec fn logged_units(units: Option<u8>) -> Seq<char> {
    match units {
        Some(u) => units_label(units_from_byte(u)),
        None => Seq::empty(),
    }
}

/// The units text logged with a reading.
pub fn log_units_label(units: Option<u8>) -> (s: String)
    ensures
        s@ == logged_units(units),
{
    match units {
        Some(u) => String::from_str(DataUnits::from_byte(u).label()),
        None => String::new(),
    }
}

/// The status byte logged with a reading: the current status re-encoded,
/// or zero when it is not known.
pub fn log_status_byte(status: Option<StatusByte>) -> (b: u8)
    ensures
        b == (match status {
            Some(s) => status_byte(s),
            None => 0,
        }),
{
    match status {
        Some(s) => s.to_byte(),
        None => 0,
    }
}

} // verus!
