//! Decisions of the BLE worker. The worker's outside work (the adapter, the
//! peripheral, the USB dongle) is done by its caller one action at a time;
//! these functions decide, from the worker's state and the outcome of the
//! last action, what comes next: the requests behind a command, the steps
//! of a connection (lookup with rescans, connect, discovery, PIN
//! authentication, subscriptions), scanning, and the events that report
//! each read and write.

use vstd::prelude::*;
use vstd::string::StringExecFns;

use crate::ble::{prefixed, BleCommand, BleError, BleEvent};
use crate::codec::{be32_bytes, encode_u32_be, encode_u8};
use crate::text::{decimal, format_decimal};
use crate::types::{action_index, DeviceAction};
use crate::uuids::{
    b24_uuid_value, char_adv_data, char_adv_index, char_config_pin, char_data_rate,
    char_data_units, char_data_value, char_status, uuid_text, uuid_text_value,
};

verus! {

/// The position of the first characteristic with a given UUID in the list
/// of discovered characteristics, if any.
pub open spec fn first_position(chars: Seq<u128>, uuid: u128) -> Option<int>
    decreases chars.len(),
{
    if chars.len() == 0 {
        None
    } else if chars[0] == uuid {
        Some(0)
    } else {
        match first_position(chars.drop_first(), uuid) {
            Some(i) => Some(i + 1),
            None => None,
        }
    }
}

proof fn lemma_first_position(chars: Seq<u128>, uuid: u128, i: int)
    requires
        0 <= i <= chars.len(),
        forall|j: int| 0 <= j < i ==> chars[j] != uuid,
        i == chars.len() || chars[i] == uuid,
    ensures
        i == chars.len() ==> first_position(chars, uuid) is None,
        i < chars.len() ==> first_position(chars, uuid) == Some(i),
    decreases chars.len(),
{
    if chars.len() > 0 && i > 0 {
        let t = chars.drop_first();
        assert forall|j: int| 0 <= j < i - 1 implies t[j] != uuid by {
            assert(t[j] == chars[j + 1]);
        }
        if i < chars.len() {
            assert(t[i - 1] == chars[i]);
        }
        lemma_first_position(t, uuid, i - 1);
    }
}

/// Find a discovered characteristic by UUID: the position of the first one.
pub fn find_characteristic(chars: &Vec<u128>, uuid: u128) -> (r: Option<usize>)
    ensures
        r matches Some(i) ==> first_position(chars@, uuid) == Some(i as int),
        r is None ==> first_position(chars@, uuid) is None,
{
    let n = chars.len();
    let mut i: usize = 0;
    while i < n && chars[i] != uuid
        invariant
            n == chars@.len(),
            i <= n,
            forall|j: int| 0 <= j < i ==> chars@[j] != uuid,
        decreases n - i,
    {
        i = i + 1;
    }
    proof {
        lemma_first_position(chars@, uuid, i as int);
    }
    if i < n {
        Some(i)
    } else {
        None
    }
}

/// The write that authenticates a connection: the configuration PIN, big
/// endian, to the configuration PIN characteristic (it must arrive within
/// five seconds of connecting).
pub fn pin_write(config_pin: u32) -> (r: (u128, Vec<u8>))
    ensures
        r.0 == b24_uuid_value(0xa970fd39) as u128,
        r.1@ == be32_bytes(config_pin),
{
    (char_config_pin(), encode_u32_be(config_pin))
}

/// Whether the device exposes the configuration PIN characteristic (a B24
/// that can be authenticated).
pub fn can_authenticate(chars: &Vec<u128>) -> (b: bool)
    ensures
        b == (first_position(chars@, b24_uuid_value(0xa970fd39) as u128) is Some),
{
    find_characteristic(chars, char_config_pin()).is_some()
}

/// Whether the PIN was accepted: the B24 characteristics (the data rate
/// among them) are exposed after rediscovery.
pub fn pin_accepted(chars: &Vec<u128>) -> (b: bool)
    ensures
        b == (first_position(chars@, b24_uuid_value(0xa970fd31) as u128) is Some),
{
    find_characteristic(chars, char_data_rate()).is_some()
}

/// The characteristics that carry live data (status, data value, data
/// units), in that order.
pub open spec fn live_data_uuids() -> Seq<u128> {
    seq![
        b24_uuid_value(0xa9712441) as u128,
        b24_uuid_value(0xa9712442) as u128,
        b24_uuid_value(0xa9712443) as u128,
    ]
}

/// The live-data characteristics that the device exposes, in order: those
/// to subscribe to after authentication.
pub open spec fn subscriptions(chars: Seq<u128>) -> Seq<u128> {
    live_data_uuids().filter(|u: u128| first_position(chars, u) is Some)
}

/// After authentication the subscriptions are exactly the live-data
/// characteristics (status a9712441, data value a9712442, data units
/// a9712443) that the device exposes: at most three, and no other
/// characteristic.
pub proof fn lemma_subscriptions_exposed(chars: Seq<u128>, u: u128)
    ensures
        subscriptions(chars).contains(u) <==> ((u == b24_uuid_value(0xa9712441) as u128
            || u == b24_uuid_value(0xa9712442) as u128 || u == b24_uuid_value(0xa9712443) as u128)
            && first_position(chars, u) is Some),
        subscriptions(chars).len() <= 3,
{
    let l = live_data_uuids();
    let pred = |x: u128| first_position(chars, x) is Some;
    assert(subscriptions(chars) == l.filter(pred));
    l.lemma_filter_len(pred);
    if subscriptions(chars).contains(u) {
        l.lemma_filter_contains_rev(pred, u);
        let i = choose|i: int| 0 <= i < l.filter(pred).len() && l.filter(pred)[i] == u;
        l.lemma_filter_pred(pred, i);
    }
    if u == l[0] && pred(u) {
        l.lemma_filter_contains(pred, 0);
    }
    if u == l[1] && pred(u) {
        l.lemma_filter_contains(pred, 1);
    }
    if u == l[2] && pred(u) {
        l.lemma_filter_contains(pred, 2);
    }
}

/// The live-data characteristics to subscribe to after authentication.
pub fn notification_targets(chars: &Vec<u128>) -> (r: Vec<u128>)
    ensures
        r@ == subscriptions(chars@),
{
    let mut r: Vec<u128> = Vec::new();
    let targets: [u128; 3] = [char_status(), char_data_value(), char_data_units()];
    assert(targets@ =~= live_data_uuids());
    let mut k: usize = 0;
    while k < 3
        invariant
            k <= 3,
            targets@ == live_data_uuids(),
            r@ == live_data_uuids().take(k as int).filter(|u: u128| first_position(chars@, u) is Some),
        decreases 3 - k,
    {
        let u = targets[k];
        proof {
            assert(live_data_uuids().take(k + 1).drop_last() =~= live_data_uuids().take(k as int));
            reveal_with_fuel(Seq::<_>::filter, 1);
        }
        if find_characteristic(chars, u).is_some() {
            r.push(u);
        }
        k = k + 1;
    }
    assert(live_data_uuids().take(3) =~= live_data_uuids());
    r
}

/// The first step of an advanced parameter access: the parameter index
/// written to the advanced index characteristic.
pub fn advanced_index_write(index: u8) -> (r: (u128, Vec<u8>))
    ensures
        r.0 == b24_uuid_value(0xa971726c) as u128,
        r.1@ == seq![index],
{
    (char_adv_index(), encode_u8(index))
}

/// The characteristic through which an advanced parameter's data is then
/// read or written.
pub fn advanced_data_uuid() -> (r: u128)
    ensures
        r == b24_uuid_value(0xa971726d) as u128,
{
    char_adv_data()
}

/// What to do about a request on a characteristic: go on with the outside
/// call, skip it silently, or report an error instead.
#[derive(Debug)]
pub enum Access {
    Proceed,
    Skip,
    Refuse(BleError),
}

/// The access decision for a read or a write: refused when no device is
/// connected, or when the device has no characteristic with that UUID.
pub open spec fn read_write_access_ok(connected: bool, chars: Seq<u128>, uuid: u128, a: Access) -> bool {
    if !connected {
        a == Access::Refuse(BleError::NotConnected)
    } else if first_position(chars, uuid) is None {
        a matches Access::Refuse(BleError::CharacteristicNotFound(s)) && s@ == uuid_text_value(uuid)
    } else {
        a == Access::Proceed
    }
}

/// Decide a read or a write of the characteristic `uuid`.
pub fn read_write_access(connected: bool, chars: &Vec<u128>, uuid: u128) -> (a: Access)
    ensures
        read_write_access_ok(connected, chars@, uuid, a),
{
    if !connected {
        Access::Refuse(BleError::NotConnected)
    } else if find_characteristic(chars, uuid).is_none() {
        Access::Refuse(BleError::CharacteristicNotFound(uuid_text(uuid)))
    } else {
        Access::Proceed
    }
}

/// Decide a subscription: refused when no device is connected, skipped
/// when the device lacks the characteristic.
pub fn subscribe_access(connected: bool, chars: &Vec<u128>, uuid: u128) -> (a: Access)
    ensures
        !connected ==> a == Access::Refuse(BleError::NotConnected),
        connected && first_position(chars@, uuid) is None ==> a == Access::Skip,
        connected && first_position(chars@, uuid) is Some ==> a == Access::Proceed,
{
    if !connected {
        Access::Refuse(BleError::NotConnected)
    } else if find_characteristic(chars, uuid).is_none() {
        Access::Skip
    } else {
        Access::Proceed
    }
}

/// Decide an unsubscription: skipped silently unless a device is connected
/// and has the characteristic.
pub fn unsubscribe_access(connected: bool, chars: &Vec<u128>, uuid: u128) -> (a: Access)
    ensures
        connected && first_position(chars@, uuid) is Some ==> a == Access::Proceed,
        !(connected && first_position(chars@, uuid) is Some) ==> a == Access::Skip,
{
    if connected && find_characteristic(chars, uuid).is_some() {
        Access::Proceed
    } else {
        Access::Skip
    }
}

/// Whether the data step of an advanced parameter access goes on after the
/// index write: a device is connected and has the advanced data
/// characteristic (otherwise the access ends silently).
pub fn advanced_data_access(connected: bool, chars: &Vec<u128>) -> (b: bool)
    ensures
        b == (connected && first_position(chars@, b24_uuid_value(0xa971726d) as u128) is Some),
{
    connected && find_characteristic(chars, char_adv_data()).is_some()
}

fn joined(a: &String, sep: &str, b: &String) -> (r: String)
    ensures
        r@ == a@ + sep@ + b@,
{
    let mut r = a.clone();
    r.append(sep);
    r.append(b.as_str());
    r
}

/// The text that names a characteristic in an error: its UUID, a colon,
/// then the outside error's text.
pub open spec fn uuid_error_text(uuid: u128, e: Seq<char>) -> Seq<char> {
    uuid_text_value(uuid) + ": "@ + e
}

/// The text that names an advanced parameter in an error.
pub open spec fn advanced_error_text(index: u8, e: Seq<char>) -> Seq<char> {
    "Advanced["@ + decimal(index as nat) + "]: "@ + e
}

/// The event that reports a read of the characteristic `uuid`, from what
/// the read returned (the data, or the error's text).
pub fn read_event(uuid: u128, result: Result<Vec<u8>, String>) -> (ev: BleEvent)
    ensures
        match result {
            Ok(d) => ev == BleEvent::CharacteristicRead { uuid, data: d },
            Err(e) => ev matches BleEvent::Error(BleError::ReadFailed(s)) && s@ == uuid_error_text(uuid, e@),
        },
{
    match result {
        Ok(data) => BleEvent::CharacteristicRead { uuid, data },
        Err(e) => BleEvent::Error(BleError::ReadFailed(joined(&uuid_text(uuid), ": ", &e))),
    }
}

/// The event that reports a write to the characteristic `uuid`.
pub fn write_event(uuid: u128, result: Result<(), String>) -> (ev: BleEvent)
    ensures
        match result {
            Ok(_) => ev == BleEvent::CharacteristicWritten { uuid },
            Err(e) => ev matches BleEvent::Error(BleError::WriteFailed(s)) && s@ == uuid_error_text(uuid, e@),
        },
{
    match result {
        Ok(_) => BleEvent::CharacteristicWritten { uuid },
        Err(e) => BleEvent::Error(BleError::WriteFailed(joined(&uuid_text(uuid), ": ", &e))),
    }
}

/// The event that reports a failed subscription.
pub fn subscribe_failed_event(uuid: u128, e: &String) -> (ev: BleEvent)
    ensures
        ev matches BleEvent::Error(BleError::Other(s))
            && s@ == "Subscribe failed for "@ + uuid_error_text(uuid, e@),
{
    let t = joined(&uuid_text(uuid), ": ", e);
    BleEvent::Error(BleError::Other(prefixed("Subscribe failed for ", &t)))
}

/// The event that reports the data step of reading an advanced parameter.
pub fn advanced_read_event(index: u8, result: Result<Vec<u8>, String>) -> (ev: BleEvent)
    ensures
        match result {
            Ok(d) => ev == BleEvent::AdvancedRead { index, data: d },
            Err(e) => ev matches BleEvent::Error(BleError::ReadFailed(s)) && s@ == advanced_error_text(index, e@),
        },
{
    match result {
        Ok(data) => BleEvent::AdvancedRead { index, data },
        Err(e) => {
            let head = prefixed("Advanced[", &format_decimal(index as u32));
            BleEvent::Error(BleError::ReadFailed(joined(&head, "]: ", &e)))
        },
    }
}

/// The event that reports the data step of writing an advanced parameter.
pub fn advanced_write_event(index: u8, result: Result<(), String>) -> (ev: BleEvent)
    ensures
        match result {
            Ok(_) => ev == BleEvent::AdvancedWritten { index },
            Err(e) => ev matches BleEvent::Error(BleError::WriteFailed(s)) && s@ == advanced_error_text(index, e@),
        },
{
    match result {
        Ok(_) => BleEvent::AdvancedWritten { index },
        Err(e) => {
            let head = prefixed("Advanced[", &format_decimal(index as u32));
            BleEvent::Error(BleError::WriteFailed(joined(&head, "]: ", &e)))
        },
    }
}

/// One piece of outside work of the BLE worker, in the order the worker
/// performs them.
#[derive(Debug)]
pub enum LinkAction {
    /// Stop the USB dongle scanner and wait for its thread to end.
    StopDongleScan,
    /// Start the USB dongle scanner on its own thread.
    StartDongleScan,
    /// Start an adapter scan whose failure is ignored (it only keeps the
    /// adapter's peripheral cache filled).
    StartQuietAdapterScan,
    /// Start an adapter scan; its result is handed to `on_scan_started`.
    StartAdapterScan,
    /// Stop the adapter's scan.
    StopAdapterScan,
    /// Forward the adapter's discovery events.
    ListenForDiscoveries,
    /// Wait two seconds for a rescan to find the device.
    WaitForRescan,
    /// Look the peripheral up in the adapter's cache.
    LookupPeripheral,
    /// Connect to the peripheral.
    ConnectPeripheral,
    /// Discover the peripheral's services and list its characteristics.
    DiscoverServices,
    /// Write data to a characteristic of the peripheral.
    Write { uuid: u128, data: Vec<u8> },
    /// Disconnect from the peripheral.
    DisconnectPeripheral,
    /// Subscribe to a characteristic's notifications (a failure is ignored).
    Subscribe(u128),
    /// Forward the peripheral's notifications until the stream ends.
    ListenForNotifications,
    /// Report an event to the user interface.
    Emit(BleEvent),
}

/// What a BLE command asks of the worker, one request after another.
#[derive(Debug)]
pub enum WorkerRequest {
    StartScan,
    StopScan,
    Connect { peripheral_id: String, config_pin: u32 },
    Disconnect,
    Read(u128),
    Write { uuid: u128, data: Vec<u8> },
    Subscribe(u128),
    Unsubscribe(u128),
    ReadAdvanced(u8),
    WriteAdvanced { index: u8, data: Vec<u8> },
    /// Report an event once the requests before it are done.
    Emit(BleEvent),
    Shutdown,
}

/// The requests behind a command: a batch read is a read of each
/// characteristic in order, and a device action is a write of its advanced
/// index followed by the report that the action was executed; every other
/// command is one request.
pub open spec fn command_requests_ok(cmd: BleCommand, r: Seq<WorkerRequest>) -> bool {
    match cmd {
        BleCommand::StartScan => r == seq![WorkerRequest::StartScan],
        BleCommand::StopScan => r == seq![WorkerRequest::StopScan],
        BleCommand::Connect { peripheral_id, config_pin } => r == seq![
            WorkerRequest::Connect { peripheral_id, config_pin },
        ],
        BleCommand::Disconnect => r == seq![WorkerRequest::Disconnect],
        BleCommand::ReadCharacteristic(u) => r == seq![WorkerRequest::Read(u)],
        BleCommand::WriteCharacteristic { uuid, data } => r == seq![WorkerRequest::Write { uuid, data }],
        BleCommand::Subscribe(u) => r == seq![WorkerRequest::Subscribe(u)],
        BleCommand::Unsubscribe(u) => r == seq![WorkerRequest::Unsubscribe(u)],
        BleCommand::ReadAdvanced { index } => r == seq![WorkerRequest::ReadAdvanced(index)],
        BleCommand::WriteAdvanced { index, data } => r == seq![WorkerRequest::WriteAdvanced { index, data }],
        BleCommand::ExecuteAction(a) => {
            &&& r.len() == 2
            &&& r[0] matches WorkerRequest::WriteAdvanced { index, data } && index == action_index(a)
                && data@ == seq![0u8]
            &&& r[1] == WorkerRequest::Emit(BleEvent::ActionExecuted(a))
        },
        BleCommand::ReadAll(v) => r.len() == v@.len() && forall|i: int|
            0 <= i < r.len() ==> #[trigger] r[i] == WorkerRequest::Read(v@[i]),
        BleCommand::Shutdown => r == seq![WorkerRequest::Shutdown],
    }
}

/// The requests behind a command.
pub fn handle_command(cmd: BleCommand) -> (r: Vec<WorkerRequest>)
    ensures
        command_requests_ok(cmd, r@),
{
    let mut r: Vec<WorkerRequest> = Vec::new();
    match cmd {
        BleCommand::StartScan => r.push(WorkerRequest::StartScan),
        BleCommand::StopScan => r.push(WorkerRequest::StopScan),
        BleCommand::Connect { peripheral_id, config_pin } => {
            r.push(WorkerRequest::Connect { peripheral_id, config_pin });
        },
        BleCommand::Disconnect => r.push(WorkerRequest::Disconnect),
        BleCommand::ReadCharacteristic(u) => r.push(WorkerRequest::Read(u)),
        BleCommand::WriteCharacteristic { uuid, data } => r.push(WorkerRequest::Write { uuid, data }),
        BleCommand::Subscribe(u) => r.push(WorkerRequest::Subscribe(u)),
        BleCommand::Unsubscribe(u) => r.push(WorkerRequest::Unsubscribe(u)),
        BleCommand::ReadAdvanced { index } => r.push(WorkerRequest::ReadAdvanced(index)),
        BleCommand::WriteAdvanced { index, data } => r.push(WorkerRequest::WriteAdvanced { index, data }),
        BleCommand::ExecuteAction(a) => {
            let (index, data) = a.command();
            r.push(WorkerRequest::WriteAdvanced { index, data });
            r.push(WorkerRequest::Emit(BleEvent::ActionExecuted(a)));
        },
        BleCommand::ReadAll(v) => {
            let n = v.len();
            let mut k: usize = 0;
            while k < n
                invariant
                    n == v@.len(),
                    k <= n,
                    r@.len() == k,
                    forall|i: int| 0 <= i < k ==> #[trigger] r@[i] == WorkerRequest::Read(v@[i]),
                decreases n - k,
            {
                r.push(WorkerRequest::Read(v[k]));
                k = k + 1;
            }
        },
        BleCommand::Shutdown => r.push(WorkerRequest::Shutdown),
    }
    r
}

/// How bringing up the BLE adapter went: the manager could not be
/// created, the adapters could not be listed, or this many adapters were
/// found.
#[derive(Debug)]
pub enum AdapterInit {
    ManagerFailed(String),
    AdaptersFailed(String),
    Adapters(usize),
}

/// The steps of making a connection; each waits for the outcome of the
/// outside work it asked for.
#[derive(Debug, Clone, Copy, PartialEq, Eq, Structural)]
pub enum ConnectStep {
    /// Looking the peripheral up in the adapter's cache (attempt 0 to 2).
    Locating(u8),
    /// Connecting to the peripheral.
    Connecting,
    /// Discovering its services.
    Discovering,
    /// Writing the configuration PIN.
    Authenticating,
    /// Discovering its services again, once the PIN is written.
    Rediscovering,
}

/// A connection being made: to which peripheral, with which PIN, and the
/// step it has reached.
#[derive(Debug)]
pub struct ConnectAttempt {
    pub peripheral_id: String,
    pub config_pin: u32,
    pub step: ConnectStep,
}

/// The outcome of the outside work that a connection step asked for.
#[derive(Debug)]
pub enum ConnectOutcome {
    /// The lookup: whether the peripheral is in the cache, or `None` when
    /// the cache could not be listed.
    Lookup(Option<bool>),
    /// The connect or the PIN write: `Err` with the error's text.
    Done(Result<(), String>),
    /// A discovery: its result and the characteristics listed after it.
    Discovered { result: Result<(), String>, characteristics: Vec<u128> },
}

/// The worker's state as its decisions see it.
#[derive(Debug)]
pub struct BleWorker {
    /// Whether a BLE adapter is available.
    pub has_adapter: bool,
    /// Whether a peripheral is connected and authenticated.
    pub connected: bool,
    /// The UUIDs of the peripheral's characteristics, as last listed.
    pub characteristics: Vec<u128>,
    /// Whether the USB dongle scanner is running.
    pub dongle_scanning: bool,
    /// The connection being made, if any.
    pub connecting: Option<ConnectAttempt>,
}

/// The message of a connection whose PIN was not accepted.
pub open spec fn pin_refused_text() -> Seq<char> {
    "Could not connect \u{2014} check Configuration PIN is correct"@
}

/// Whether `a` reports the error "connection failed" with `text`.
pub open spec fn emits_connection_failed(a: LinkAction, text: Seq<char>) -> bool {
    a matches LinkAction::Emit(BleEvent::Error(BleError::ConnectionFailed(s))) && s@ == text
}

/// Whether `a` reports that the device `id` was not found.
pub open spec fn emits_device_not_found(a: LinkAction, id: Seq<char>) -> bool {
    a matches LinkAction::Emit(BleEvent::Error(BleError::DeviceNotFound(s))) && s@ == id
}

/// Whether `acts` are the subscriptions to `targets`, then the listening
/// for notifications, then the report that the device is connected.
pub open spec fn connected_actions_ok(acts: Seq<LinkAction>, targets: Seq<u128>) -> bool {
    &&& acts.len() == targets.len() + 2
    &&& forall|i: int| 0 <= i < targets.len() ==> #[trigger] acts[i] == LinkAction::Subscribe(targets[i])
    &&& acts[targets.len() as int] == LinkAction::ListenForNotifications
    &&& acts[targets.len() + 1int] == LinkAction::Emit(BleEvent::Connected)
}

/// The dongle scanner's stop, when it runs.
pub open spec fn dongle_stop(scanning: bool) -> Seq<LinkAction> {
    if scanning {
        seq![LinkAction::StopDongleScan]
    } else {
        Seq::empty()
    }
}

/// The step a connection is at, if one is being made.
pub open spec fn step_of(c: Option<ConnectAttempt>) -> Option<ConnectStep> {
    match c {
        Some(a) => Some(a.step),
        None => None,
    }
}

/// One step of making a connection to `id` with `pin`: from the step
/// reached, the outcome of its outside work and the characteristics and
/// connection known before, to the next step (`None` once the attempt has
/// ended), the characteristics and connection after, and the outside work
/// to do. An outcome that does not belong to the step changes nothing.
pub open spec fn connect_transition_ok(
    id: Seq<char>,
    pin: u32,
    step: ConnectStep,
    outcome: ConnectOutcome,
    chars0: Seq<u128>,
    connected0: bool,
    next: Option<ConnectStep>,
    chars1: Seq<u128>,
    connected1: bool,
    acts: Seq<LinkAction>,
) -> bool {
    let unchanged = next == Some(step) && chars1 == chars0 && connected1 == connected0 && acts.len() == 0;
    match step {
        ConnectStep::Locating(a) => match outcome {
            ConnectOutcome::Lookup(found) => {
                &&& chars1 == chars0
                &&& connected1 == connected0
                &&& match found {
                    None => next is None && acts.len() == 1 && emits_device_not_found(acts[0], id),
                    Some(true) => next == Some(ConnectStep::Connecting) && acts == (if a > 0 {
                        seq![LinkAction::StopAdapterScan, LinkAction::ConnectPeripheral]
                    } else {
                        seq![LinkAction::ConnectPeripheral]
                    }),
                    Some(false) => if a < 2 {
                        &&& next == Some(ConnectStep::Locating((a + 1) as u8))
                        &&& acts == seq![
                            LinkAction::StartAdapterScan,
                            LinkAction::WaitForRescan,
                            LinkAction::LookupPeripheral,
                        ]
                    } else {
                        &&& next is None
                        &&& acts.len() == 4
                        &&& acts[0] == LinkAction::StartAdapterScan
                        &&& acts[1] == LinkAction::WaitForRescan
                        &&& acts[2] == LinkAction::StopAdapterScan
                        &&& emits_device_not_found(acts[3], id)
                    },
                }
            },
            _ => unchanged,
        },
        ConnectStep::Connecting => match outcome {
            ConnectOutcome::Done(r) => {
                &&& chars1 == chars0
                &&& connected1 == connected0
                &&& match r {
                    Ok(_) => next == Some(ConnectStep::Discovering) && acts == seq![LinkAction::DiscoverServices],
                    Err(e) => next is None && acts.len() == 1 && emits_connection_failed(
                        acts[0],
                        "Connect failed: "@ + e@,
                    ),
                }
            },
            _ => unchanged,
        },
        ConnectStep::Discovering => match outcome {
            ConnectOutcome::Discovered { result, characteristics } => {
                &&& connected1 == connected0
                &&& match result {
                    Err(e) => {
                        &&& next is None
                        &&& chars1 == chars0
                        &&& acts.len() == 2
                        &&& emits_connection_failed(acts[0], "Service discovery failed: "@ + e@)
                        &&& acts[1] == LinkAction::DisconnectPeripheral
                    },
                    Ok(_) => {
                        &&& chars1 == characteristics@
                        &&& if first_position(characteristics@, b24_uuid_value(0xa970fd39) as u128) is Some {
                            &&& next == Some(ConnectStep::Authenticating)
                            &&& acts.len() == 1
                            &&& acts[0] matches LinkAction::Write { uuid, data }
                                && uuid == b24_uuid_value(0xa970fd39) as u128 && data@ == be32_bytes(pin)
                        } else {
                            &&& next is None
                            &&& acts.len() == 2
                            &&& emits_connection_failed(acts[0], pin_refused_text())
                            &&& acts[1] == LinkAction::DisconnectPeripheral
                        }
                    },
                }
            },
            _ => unchanged,
        },
        ConnectStep::Authenticating => match outcome {
            ConnectOutcome::Done(r) => {
                &&& chars1 == chars0
                &&& connected1 == connected0
                &&& match r {
                    Ok(_) => next == Some(ConnectStep::Rediscovering) && acts == seq![LinkAction::DiscoverServices],
                    Err(e) => {
                        &&& next is None
                        &&& acts.len() == 2
                        &&& acts[0] matches LinkAction::Emit(BleEvent::Error(BleError::WriteFailed(s)))
                            && s@ == "PIN write failed: "@ + e@
                        &&& acts[1] == LinkAction::DisconnectPeripheral
                    },
                }
            },
            _ => unchanged,
        },
        ConnectStep::Rediscovering => match outcome {
            ConnectOutcome::Discovered { result, characteristics } => {
                &&& next is None
                &&& if first_position(characteristics@, b24_uuid_value(0xa970fd31) as u128) is Some {
                    &&& chars1 == characteristics@
                    &&& connected1
                    &&& connected_actions_ok(acts, subscriptions(characteristics@))
                } else {
                    &&& chars1.len() == 0
                    &&& connected1 == connected0
                    &&& acts.len() == 2
                    &&& emits_connection_failed(acts[0], pin_refused_text())
                    &&& acts[1] == LinkAction::DisconnectPeripheral
                }
            },
            _ => unchanged,
        },
    }
}

/// The action that follows the start of an adapter scan: forward its
/// discovery events, or report why it could not start.
pub fn on_scan_started(result: Result<(), String>) -> (a: LinkAction)
    ensures
        match result {
            Ok(_) => a == LinkAction::ListenForDiscoveries,
            Err(e) => a matches LinkAction::Emit(BleEvent::Error(BleError::Other(s)))
                && s@ == "Scan start failed: "@ + e@,
        },
{
    match result {
        Ok(_) => LinkAction::ListenForDiscoveries,
        Err(e) => LinkAction::Emit(BleEvent::Error(BleError::Other(prefixed("Scan start failed: ", &e)))),
    }
}

/// The event that reports the end of the notification stream: the
/// connection is taken as lost.
pub fn notifications_ended() -> (ev: BleEvent)
    ensures
        ev matches BleEvent::Disconnected { reason: Some(s) } && s@ == "Notification stream ended"@,
{
    BleEvent::Disconnected { reason: Some(String::from_str("Notification stream ended")) }
}

impl BleWorker {
    /// A worker before its adapter is brought up: no adapter, nothing
    /// connected, no scanner running.
    pub fn new() -> (w: Self)
        ensures
            !w.has_adapter,
            !w.connected,
            w.characteristics@.len() == 0,
            !w.dongle_scanning,
            w.connecting is None,
    {
        BleWorker {
            has_adapter: false,
            connected: false,
            characteristics: Vec::new(),
            dongle_scanning: false,
            connecting: None,
        }
    }

    /// Take how bringing up the adapter went: the worker has an adapter
    /// when at least one was found (the first is used), and otherwise
    /// reports why not.
    pub fn on_adapter_init(&mut self, init: AdapterInit) -> (ev: Option<BleEvent>)
        ensures
            final(self).has_adapter == (init matches AdapterInit::Adapters(n) && n > 0),
            final(self).connected == old(self).connected,
            final(self).characteristics@ == old(self).characteristics@,
            final(self).dongle_scanning == old(self).dongle_scanning,
            final(self).connecting == old(self).connecting,
            match init {
                AdapterInit::ManagerFailed(e) => ev matches Some(BleEvent::Error(BleError::Other(s)))
                    && s@ == "Failed to create BLE manager: "@ + e@,
                AdapterInit::AdaptersFailed(e) => ev matches Some(BleEvent::Error(BleError::Other(s)))
                    && s@ == "Failed to get adapters: "@ + e@,
                AdapterInit::Adapters(n) => if n == 0 {
                    ev == Some(BleEvent::Error(BleError::NoAdapter))
                } else {
                    ev is None
                },
            },
    {
        match init {
            AdapterInit::ManagerFailed(e) => {
                self.has_adapter = false;
                Some(BleEvent::Error(BleError::Other(prefixed("Failed to create BLE manager: ", &e))))
            },
            AdapterInit::AdaptersFailed(e) => {
                self.has_adapter = false;
                Some(BleEvent::Error(BleError::Other(prefixed("Failed to get adapters: ", &e))))
            },
            AdapterInit::Adapters(n) => {
                self.has_adapter = n > 0;
                if n == 0 {
                    Some(BleEvent::Error(BleError::NoAdapter))
                } else {
                    None
                }
            },
        }
    }

    fn stop_dongle(&mut self, acts: &mut Vec<LinkAction>)
        ensures
            final(acts)@ == old(acts)@ + dongle_stop(old(self).dongle_scanning),
            !final(self).dongle_scanning,
            final(self).has_adapter == old(self).has_adapter,
            final(self).connected == old(self).connected,
            final(self).characteristics@ == old(self).characteristics@,
            final(self).connecting == old(self).connecting,
    {
        if self.dongle_scanning {
            acts.push(LinkAction::StopDongleScan);
            self.dongle_scanning = false;
        }
        assert(final(acts)@ =~= old(acts)@ + dongle_stop(old(self).dongle_scanning));
    }

    /// Start scanning: any running dongle scanner is stopped first; a
    /// detected USB dongle then scans (with a quiet adapter scan beside it
    /// that keeps the adapter's cache filled), and otherwise the adapter
    /// scans, or the missing adapter is reported.
    pub fn start_scan(&mut self, dongle_found: bool) -> (acts: Vec<LinkAction>)
        ensures
            final(self).dongle_scanning == dongle_found,
            final(self).has_adapter == old(self).has_adapter,
            final(self).connected == old(self).connected,
            final(self).characteristics@ == old(self).characteristics@,
            final(self).connecting == old(self).connecting,
            acts@ == dongle_stop(old(self).dongle_scanning) + if dongle_found {
                if old(self).has_adapter {
                    seq![LinkAction::StartDongleScan, LinkAction::StartQuietAdapterScan]
                } else {
                    seq![LinkAction::StartDongleScan]
                }
            } else if old(self).has_adapter {
                seq![LinkAction::StartAdapterScan]
            } else {
                seq![LinkAction::Emit(BleEvent::Error(BleError::NoAdapter))]
            },
    {
        let mut acts: Vec<LinkAction> = Vec::new();
        self.stop_dongle(&mut acts);
        let ghost a0 = acts@;
        if dongle_found {
            acts.push(LinkAction::StartDongleScan);
            self.dongle_scanning = true;
            if self.has_adapter {
                acts.push(LinkAction::StartQuietAdapterScan);
            }
        } else if self.has_adapter {
            acts.push(LinkAction::StartAdapterScan);
        } else {
            acts.push(LinkAction::Emit(BleEvent::Error(BleError::NoAdapter)));
        }
        assert(acts@ =~= a0 + if dongle_found {
            if self.has_adapter {
                seq![LinkAction::StartDongleScan, LinkAction::StartQuietAdapterScan]
            } else {
                seq![LinkAction::StartDongleScan]
            }
        } else if self.has_adapter {
            seq![LinkAction::StartAdapterScan]
        } else {
            seq![LinkAction::Emit(BleEvent::Error(BleError::NoAdapter))]
        });
        acts
    }

    /// Stop scanning: the dongle scanner, then the adapter's scan, then
    /// the report that scanning stopped.
    pub fn stop_scan(&mut self) -> (acts: Vec<LinkAction>)
        ensures
            !final(self).dongle_scanning,
            final(self).has_adapter == old(self).has_adapter,
            final(self).connected == old(self).connected,
            final(self).characteristics@ == old(self).characteristics@,
            final(self).connecting == old(self).connecting,
            acts@ == dongle_stop(old(self).dongle_scanning) + if old(self).has_adapter {
                seq![LinkAction::StopAdapterScan, LinkAction::Emit(BleEvent::ScanStopped)]
            } else {
                seq![LinkAction::Emit(BleEvent::ScanStopped)]
            },
    {
        let mut acts: Vec<LinkAction> = Vec::new();
        self.stop_dongle(&mut acts);
        let ghost a0 = acts@;
        if self.has_adapter {
            acts.push(LinkAction::StopAdapterScan);
        }
        acts.push(LinkAction::Emit(BleEvent::ScanStopped));
        assert(acts@ =~= a0 + if self.has_adapter {
            seq![LinkAction::StopAdapterScan, LinkAction::Emit(BleEvent::ScanStopped)]
        } else {
            seq![LinkAction::Emit(BleEvent::ScanStopped)]
        });
        acts
    }

    /// Disconnect: when a peripheral is connected, it is disconnected, its
    /// characteristics are forgotten and the disconnection is reported;
    /// otherwise nothing happens.
    pub fn disconnect(&mut self) -> (acts: Vec<LinkAction>)
        ensures
            final(self).has_adapter == old(self).has_adapter,
            final(self).dongle_scanning == old(self).dongle_scanning,
            final(self).connecting == old(self).connecting,
            !final(self).connected,
            old(self).connected ==> {
                &&& final(self).characteristics@.len() == 0
                &&& acts@ == seq![
                    LinkAction::DisconnectPeripheral,
                    LinkAction::Emit(BleEvent::Disconnected { reason: None }),
                ]
            },
            !old(self).connected ==> final(self).characteristics@ == old(self).characteristics@
                && acts@.len() == 0,
    {
        let mut acts: Vec<LinkAction> = Vec::new();
        if self.connected {
            acts.push(LinkAction::DisconnectPeripheral);
            self.connected = false;
            self.characteristics = Vec::new();
            acts.push(LinkAction::Emit(BleEvent::Disconnected { reason: None }));
        }
        acts
    }

    /// Begin a connection to `peripheral_id`: any dongle scanner is
    /// stopped (it holds the serial port), then, with an adapter, its scan
    /// is stopped and the peripheral looked up; without one, the missing
    /// adapter is reported.
    pub fn connect(&mut self, peripheral_id: String, config_pin: u32) -> (acts: Vec<LinkAction>)
        ensures
            !final(self).dongle_scanning,
            final(self).has_adapter == old(self).has_adapter,
            final(self).connected == old(self).connected,
            final(self).characteristics@ == old(self).characteristics@,
            old(self).has_adapter ==> {
                &&& final(self).connecting matches Some(a) && a.peripheral_id@ == peripheral_id@
                    && a.config_pin == config_pin && a.step == ConnectStep::Locating(0)
                &&& acts@ == dongle_stop(old(self).dongle_scanning) + seq![
                    LinkAction::StopAdapterScan,
                    LinkAction::LookupPeripheral,
                ]
            },
            !old(self).has_adapter ==> {
                &&& final(self).connecting is None
                &&& acts@ == dongle_stop(old(self).dongle_scanning) + seq![
                    LinkAction::Emit(BleEvent::Error(BleError::NoAdapter)),
                ]
            },
    {
        let mut acts: Vec<LinkAction> = Vec::new();
        self.stop_dongle(&mut acts);
        let ghost a0 = acts@;
        if self.has_adapter {
            acts.push(LinkAction::StopAdapterScan);
            acts.push(LinkAction::LookupPeripheral);
            self.connecting = Some(ConnectAttempt { peripheral_id, config_pin, step: ConnectStep::Locating(0) });
            assert(acts@ =~= a0 + seq![LinkAction::StopAdapterScan, LinkAction::LookupPeripheral]);
        } else {
            acts.push(LinkAction::Emit(BleEvent::Error(BleError::NoAdapter)));
            self.connecting = None;
            assert(acts@ =~= a0 + seq![LinkAction::Emit(BleEvent::Error(BleError::NoAdapter))]);
        }
        acts
    }
}

impl BleWorker {
    /// Take the outcome of the outside work that the connection step asked
    /// for, and decide the next step and the outside work to do
    /// (`connect_transition_ok`). Without a connection being made, nothing
    /// changes.
    pub fn on_connect_outcome(&mut self, outcome: ConnectOutcome) -> (acts: Vec<LinkAction>)
        ensures
            final(self).has_adapter == old(self).has_adapter,
            final(self).dongle_scanning == old(self).dongle_scanning,
            match old(self).connecting {
                None => {
                    &&& final(self).connecting is None
                    &&& final(self).connected == old(self).connected
                    &&& final(self).characteristics@ == old(self).characteristics@
                    &&& acts@.len() == 0
                },
                Some(at) => {
                    &&& connect_transition_ok(
                        at.peripheral_id@,
                        at.config_pin,
                        at.step,
                        outcome,
                        old(self).characteristics@,
                        old(self).connected,
                        step_of(final(self).connecting),
                        final(self).characteristics@,
                        final(self).connected,
                        acts@,
                    )
                    &&& final(self).connecting matches Some(n) ==> n.peripheral_id@ == at.peripheral_id@
                        && n.config_pin == at.config_pin
                },
            },
    {
        let mut acts: Vec<LinkAction> = Vec::new();
        let (id, pin, step) = match &self.connecting {
            None => {
                return acts;
            },
            Some(at) => (at.peripheral_id.clone(), at.config_pin, at.step),
        };
        match step {
            ConnectStep::Locating(a) => match outcome {
                ConnectOutcome::Lookup(None) => {
                    acts.push(LinkAction::Emit(BleEvent::Error(BleError::DeviceNotFound(id))));
                    self.connecting = None;
                },
                ConnectOutcome::Lookup(Some(true)) => {
                    if a > 0 {
                        acts.push(LinkAction::StopAdapterScan);
                    }
                    acts.push(LinkAction::ConnectPeripheral);
                    self.connecting = Some(ConnectAttempt { peripheral_id: id, config_pin: pin, step: ConnectStep::Connecting });
                    assert(acts@ =~= if a > 0 {
                        seq![LinkAction::StopAdapterScan, LinkAction::ConnectPeripheral]
                    } else {
                        seq![LinkAction::ConnectPeripheral]
                    });
                },
                ConnectOutcome::Lookup(Some(false)) => {
                    acts.push(LinkAction::StartAdapterScan);
                    acts.push(LinkAction::WaitForRescan);
                    if a < 2 {
                        acts.push(LinkAction::LookupPeripheral);
                        self.connecting = Some(ConnectAttempt { peripheral_id: id, config_pin: pin, step: ConnectStep::Locating(a + 1) });
                        assert(acts@ =~= seq![
                            LinkAction::StartAdapterScan,
                            LinkAction::WaitForRescan,
                            LinkAction::LookupPeripheral,
                        ]);
                    } else {
                        acts.push(LinkAction::StopAdapterScan);
                        acts.push(LinkAction::Emit(BleEvent::Error(BleError::DeviceNotFound(id))));
                        self.connecting = None;
                    }
                },
                _ => {},
            },
            ConnectStep::Connecting => match outcome {
                ConnectOutcome::Done(Ok(_)) => {
                    acts.push(LinkAction::DiscoverServices);
                    self.connecting = Some(ConnectAttempt { peripheral_id: id, config_pin: pin, step: ConnectStep::Discovering });
                    assert(acts@ =~= seq![LinkAction::DiscoverServices]);
                },
                ConnectOutcome::Done(Err(e)) => {
                    acts.push(LinkAction::Emit(BleEvent::Error(BleError::ConnectionFailed(prefixed("Connect failed: ", &e)))));
                    self.connecting = None;
                },
                _ => {},
            },
            ConnectStep::Discovering => match outcome {
                ConnectOutcome::Discovered { result: Err(e), characteristics: _ } => {
                    acts.push(LinkAction::Emit(BleEvent::Error(BleError::ConnectionFailed(prefixed("Service discovery failed: ", &e)))));
                    acts.push(LinkAction::DisconnectPeripheral);
                    self.connecting = None;
                },
                ConnectOutcome::Discovered { result: Ok(_), characteristics } => {
                    let ok = can_authenticate(&characteristics);
                    self.characteristics = characteristics;
                    if ok {
                        let (uuid, data) = pin_write(pin);
                        acts.push(LinkAction::Write { uuid, data });
                        self.connecting = Some(ConnectAttempt { peripheral_id: id, config_pin: pin, step: ConnectStep::Authenticating });
                    } else {
                        acts.push(LinkAction::Emit(BleEvent::Error(BleError::ConnectionFailed(pin_refused()))));
                        acts.push(LinkAction::DisconnectPeripheral);
                        self.connecting = None;
                    }
                },
                _ => {},
            },
            ConnectStep::Authenticating => match outcome {
                ConnectOutcome::Done(Ok(_)) => {
                    acts.push(LinkAction::DiscoverServices);
                    self.connecting = Some(ConnectAttempt { peripheral_id: id, config_pin: pin, step: ConnectStep::Rediscovering });
                    assert(acts@ =~= seq![LinkAction::DiscoverServices]);
                },
                ConnectOutcome::Done(Err(e)) => {
                    acts.push(LinkAction::Emit(BleEvent::Error(BleError::WriteFailed(prefixed("PIN write failed: ", &e)))));
                    acts.push(LinkAction::DisconnectPeripheral);
                    self.connecting = None;
                },
                _ => {},
            },
            ConnectStep::Rediscovering => match outcome {
                ConnectOutcome::Discovered { result: _, characteristics } => {
                    self.connecting = None;
                    if pin_accepted(&characteristics) {
                        let targets = notification_targets(&characteristics);
                        let n = targets.len();
                        let mut k: usize = 0;
                        while k < n
                            invariant
                                n == targets@.len(),
                                k <= n,
                                acts@.len() == k,
                                forall|i: int| 0 <= i < k ==> #[trigger] acts@[i] == LinkAction::Subscribe(targets@[i]),
                            decreases n - k,
                        {
                            acts.push(LinkAction::Subscribe(targets[k]));
                            k = k + 1;
                        }
                        acts.push(LinkAction::ListenForNotifications);
                        acts.push(LinkAction::Emit(BleEvent::Connected));
                        self.characteristics = characteristics;
                        self.connected = true;
                    } else {
                        acts.push(LinkAction::Emit(BleEvent::Error(BleError::ConnectionFailed(pin_refused()))));
                        acts.push(LinkAction::DisconnectPeripheral);
                        self.characteristics = Vec::new();
                    }
                },
                _ => {},
            },
        }
        acts
    }
}

fn pin_refused() -> (s: String)
    ensures
        s@ == pin_refused_text(),
{
    String::from_str("Could not connect \u{2014} check Configuration PIN is correct")
}

/// A peripheral is looked up at most three times: from a lookup numbered
/// at most 2, a connection step moves only to lookups numbered at most 2;
/// a lookup that found nothing leads to the next number, and an outcome
/// that does not belong to the lookup leaves it where it was.
pub proof fn lemma_lookup_attempts_bounded(
    id: Seq<char>,
    pin: u32,
    step: ConnectStep,
    outcome: ConnectOutcome,
    chars0: Seq<u128>,
    connected0: bool,
    next: Option<ConnectStep>,
    chars1: Seq<u128>,
    connected1: bool,
    acts: Seq<LinkAction>,
)
    requires
        connect_transition_ok(id, pin, step, outcome, chars0, connected0, next, chars1, connected1, acts),
        step matches ConnectStep::Locating(a) ==> a <= 2,
    ensures
        next matches Some(ConnectStep::Locating(b)) ==> b <= 2,
        next matches Some(ConnectStep::Locating(b)) ==> (step matches ConnectStep::Locating(a) && (
        outcome is Lookup ==> b == a + 1) && (!(outcome is Lookup) ==> b == a)),
{
}

/// A connection is reported only once the PIN is accepted, and a failed
/// attempt leaves no peripheral connected: a step whose actions report
/// `Connected` is the rediscovery after the PIN write, it found the data
/// rate characteristic (exposed only to an accepted PIN), and it leaves the
/// worker connected with the attempt ended; a step of a connected
/// peripheral (discovery, PIN write, rediscovery) that ends the attempt
/// without that report ends with the peripheral's disconnection.
pub proof fn lemma_connected_only_after_pin(
    id: Seq<char>,
    pin: u32,
    step: ConnectStep,
    outcome: ConnectOutcome,
    chars0: Seq<u128>,
    connected0: bool,
    next: Option<ConnectStep>,
    chars1: Seq<u128>,
    connected1: bool,
    acts: Seq<LinkAction>,
)
    requires
        connect_transition_ok(id, pin, step, outcome, chars0, connected0, next, chars1, connected1, acts),
    ensures
        acts.contains(LinkAction::Emit(BleEvent::Connected)) ==> {
            &&& step == ConnectStep::Rediscovering
            &&& next is None
            &&& connected1
            &&& first_position(chars1, b24_uuid_value(0xa970fd31) as u128) is Some
        },
        (step == ConnectStep::Discovering || step == ConnectStep::Authenticating || step
            == ConnectStep::Rediscovering) && next is None && !acts.contains(LinkAction::Emit(BleEvent::Connected))
            ==> acts.len() > 0 && acts.last() == LinkAction::DisconnectPeripheral,
{
    let c = LinkAction::Emit(BleEvent::Connected);
    if acts.contains(c) {
        let i = choose|i: int| 0 <= i < acts.len() && acts[i] == c;
        match step {
            ConnectStep::Rediscovering => {
                match outcome {
                    ConnectOutcome::Discovered { result, characteristics } => {
                        if first_position(characteristics@, b24_uuid_value(0xa970fd31) as u128) is None {
                            assert(i == 0 || i == 1);
                        }
                    },
                    _ => {},
                }
            },
            _ => {
                assert(acts.len() <= 4);
            },
        }
    }
    match step {
        ConnectStep::Rediscovering => {
            match outcome {
                ConnectOutcome::Discovered { result, characteristics } => {
                    if first_position(characteristics@, b24_uuid_value(0xa970fd31) as u128) is Some {
                        let t = subscriptions(characteristics@);
                        assert(acts[t.len() + 1int] == c);
                    }
                },
                _ => {},
            }
        },
        _ => {},
    }
}

} // verus!
