//! Protocol logic for configuring and calibrating Mantracourt B24 BLE
//! telemetry transmitters: register codecs, advertising-packet decoding,
//! device enumerations, BGAPI (BLED112) packet parsing, the application
//! state and how BLE events change it, the register writes of saving,
//! importing and calibrating, and the export and import file formats.

pub mod codec;
pub mod types;
pub mod text;
pub mod uuids;
pub mod bgapi;
pub mod ble;
pub mod state;
pub mod registers;
pub mod session;
pub mod events;
pub mod worker;
pub mod mobile;
pub mod autocal;
pub mod view;
pub mod pending;
pub mod plans;
pub mod calibration;
pub mod export;
pub mod cal_export;
pub mod roundtrip;
pub mod cal_roundtrip;
