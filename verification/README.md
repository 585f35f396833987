# b24_tool

Configuration and calibration logic for Mantracourt B24 BLE telemetry
transmitters, written in Verus. Every function in `src/` carries a
contract; Verus proves each one, except the few small wrappers marked
`#[verifier::external_body]` that call std or the `uuid` crate (UTF-8
decoding, case mapping, `String::push`, UUID building and formatting),
whose contracts are trusted and not proved.

## Layout

- `src/codec.rs`: register value codecs, the advertising-packet XOR coding
  and decoding.
- `src/types.rs`: resolutions, sensitivity ranges, status flags, units,
  advanced parameters and device actions with their byte encodings.
- `src/text.rs`: decimal and hex text, number parsing, trimming, the
  "key = value" configuration text reader.
- `src/uuids.rs`: the B24 service and characteristic UUIDs (as `u128`).
- `src/bgapi.rs`: BGAPI (BLED112) packet framing and scan-response parsing.
- `src/state.rs`, `src/registers.rs`, `src/session.rs`, `src/events.rs`:
  the application state (scanned devices with their B24 classification and
  decoded advertisement, registers, live data, history and log) and how
  BLE events, batches of them, and user actions change it.
- `src/calibration.rs`: linearisation table transfer and upload, the
  calibration file reader and import.
- `src/plans.rs`: the register writes of saving edits and importing
  configurations.
- `src/export.rs`, `src/cal_export.rs`: the configuration and calibration
  export texts.
- `src/roundtrip.rs`, `src/cal_roundtrip.rs`: proofs that an export read
  back by the import restores what was exported.
- `src/worker.rs`: the BLE worker's decisions, one outside action at a
  time: command requests, scanning, the connection steps (lookup with
  rescans, connect, discovery, PIN authentication, subscriptions) and the
  events that report reads and writes.
- `src/mobile.rs`: the tiles and settings of a mobile-app project.
- `src/autocal.rs`: the auto-calibration form, whose points are captured
  from reads of the base value.
- `src/pending.rs`: the requests sent and not yet answered (reads, writes,
  advanced reads and writes).
- `src/view.rs`: view mode, showing the connected device or the decoded
  advertisements of one device.
- `app/`: a command-line front end (BLED112 serial I/O, files, JSON,
  floating-point formatting).
- `tests/`: tests of the library.
