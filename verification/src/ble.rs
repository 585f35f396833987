//! Messages between the user interface and the BLE worker, and the worker's
//! errors. UUIDs are carried as their 128-bit values.

use std::collections::HashMap;
use vstd::prelude::*;
use vstd::string::StringExecFns;

use crate::types::DeviceAction;

verus! {

/// Errors reported by the BLE worker.
#[derive(Debug)]
pub enum BleError {
    NoAdapter,
    DeviceNotFound(String),
    NotConnected,
    CharacteristicNotFound(String),
    ConnectionFailed(String),
    WriteFailed(String),
    ReadFailed(String),
    PinTimeout,
    Other(String),
}

/// The message text of an error.
pub open spec fn ble_error_message(e: BleError) -> Seq<char> {
    match e {
        BleError::NoAdapter => "No BLE adapter found"@,
        BleError::DeviceNotFound(s) => "Device not found: "@ + s@,
        BleError::NotConnected => "Not connected to any device"@,
        BleError::CharacteristicNotFound(s) => "Characteristic not found: "@ + s@,
        BleError::ConnectionFailed(s) => "Connection failed: "@ + s@,
        BleError::WriteFailed(s) => "Write failed: "@ + s@,
        BleError::ReadFailed(s) => "Read failed: "@ + s@,
        BleError::PinTimeout => "PIN authentication timeout (5 seconds)"@,
        BleError::Other(s) => "BLE error: "@ + s@,
    }
}

pub(crate) fn prefixed(prefix: &str, s: &String) -> (r: String)
    ensures
        r@ == prefix@ + s@,
{
    let mut r = String::from_str(prefix);
    r.append(s.as_str());
    r
}

impl BleError {
    /// The error's message text.
    pub fn message(&self) -> (r: String)
        ensures
            r@ == ble_error_message(*self),
    {
        match self {
            BleError::NoAdapter => String::from_str("No BLE adapter found"),
            BleError::DeviceNotFound(s) => prefixed("Device not found: ", s),
            BleError::NotConnected => String::from_str("Not connected to any device"),
            BleError::CharacteristicNotFound(s) => prefixed("Characteristic not found: ", s),
            BleError::ConnectionFailed(s) => prefixed("Connection failed: ", s),
            BleError::WriteFailed(s) => prefixed("Write failed: ", s),
            BleError::ReadFailed(s) => prefixed("Read failed: ", s),
            BleError::PinTimeout => String::from_str("PIN authentication timeout (5 seconds)"),
            BleError::Other(s) => prefixed("BLE error: ", s),
        }
    }
}

/// Messages sent from the user interface to the BLE worker.
#[derive(Debug)]
pub enum BleCommand {
    /// Start scanning for B24 devices.
    StartScan,
    /// Stop scanning.
    StopScan,
    /// Connect to a device and authenticate with the given PIN.
    Connect { peripheral_id: String, config_pin: u32 },
    /// Disconnect from the current device.
    Disconnect,
    /// Read a characteristic.
    ReadCharacteristic(u128),
    /// Write data to a characteristic.
    WriteCharacteristic { uuid: u128, data: Vec<u8> },
    /// Subscribe to notifications on a characteristic.
    Subscribe(u128),
    /// Unsubscribe from notifications on a characteristic.
    Unsubscribe(u128),
    /// Read an advanced parameter: write the index, then read the data.
    ReadAdvanced { index: u8 },
    /// Write an advanced parameter: write the index, then write the data.
    WriteAdvanced { index: u8, data: Vec<u8> },
    /// Execute a device action (tare, reboot, ...).
    ExecuteAction(DeviceAction),
    /// Read a batch of characteristics.
    ReadAll(Vec<u128>),
    /// Shut down the BLE worker.
    Shutdown,
}

/// Messages sent from the BLE worker back to the user interface.
#[derive(Debug)]
pub enum BleEvent {
    /// A device was discovered during scanning.
    DeviceDiscovered {
        peripheral_id: String,
        name: Option<String>,
        rssi: Option<i16>,
        manufacturer_data: HashMap<u16, Vec<u8>>,
        service_uuids: Vec<u128>,
    },
    /// New manufacturer data from a device already discovered.
    ManufacturerDataUpdate { peripheral_id: String, manufacturer_data: HashMap<u16, Vec<u8>> },
    /// Scan completed or was stopped.
    ScanStopped,
    /// Connected and PIN authenticated.
    Connected,
    /// Disconnected (intentionally or connection lost).
    Disconnected { reason: Option<String> },
    /// A characteristic was read.
    CharacteristicRead { uuid: u128, data: Vec<u8> },
    /// A characteristic was written.
    CharacteristicWritten { uuid: u128 },
    /// A notification arrived from a subscribed characteristic.
    Notification { uuid: u128, data: Vec<u8> },
    /// An advanced parameter was read.
    AdvancedRead { index: u8, data: Vec<u8> },
    /// An advanced parameter was written.
    AdvancedWritten { index: u8 },
    /// A device action was executed.
    ActionExecuted(DeviceAction),
    /// An error occurred.
    Error(BleError),
}


/// Whether a command writes `data` to the characteristic `uuid`.
pub open spec fn is_write(cmd: BleCommand, uuid: u128, data: Seq<u8>) -> bool {
    match cmd {
        BleCommand::WriteCharacteristic { uuid: u, data: d } => u == uuid && d@ == data,
        _ => false,
    }
}

/// Whether a command writes `data` to the advanced parameter `index`.
pub open spec fn is_adv_write(cmd: BleCommand, index: u8, data: Seq<u8>) -> bool {
    match cmd {
        BleCommand::WriteAdvanced { index: i, data: d } => i == index && d@ == data,
        _ => false,
    }
}

} // verus!
