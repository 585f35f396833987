use b24_tool::ble::{BleCommand, BleError, BleEvent};
use b24_tool::types::DeviceAction;
use b24_tool::uuids::{
    char_adv_data, char_config_pin, char_data_rate, char_data_units, char_data_value, char_status,
};
use b24_tool::worker::{
    advanced_data_access, advanced_read_event, advanced_write_event, handle_command,
    notifications_ended, on_scan_started, read_event, read_write_access, subscribe_access,
    subscribe_failed_event, unsubscribe_access, write_event, Access, AdapterInit, BleWorker,
    ConnectOutcome, ConnectStep, LinkAction, WorkerRequest,
};

fn error_text(ev: &BleEvent) -> String {
    match ev {
        BleEvent::Error(e) => e.message(),
        other => panic!("not an error: {:?}", other),
    }
}

fn emitted_error(a: &LinkAction) -> String {
    match a {
        LinkAction::Emit(ev) => error_text(ev),
        other => panic!("not an event: {:?}", other),
    }
}

fn step(w: &BleWorker) -> Option<ConnectStep> {
    w.connecting.as_ref().map(|a| a.step)
}

fn worker_with_adapter() -> BleWorker {
    let mut w = BleWorker::new();
    assert!(w.on_adapter_init(AdapterInit::Adapters(1)).is_none());
    w
}

#[test]
fn access_refused_without_connection_or_characteristic() {
    let chars = vec![char_data_rate()];
    assert!(matches!(read_write_access(false, &chars, char_data_rate()), Access::Refuse(BleError::NotConnected)));
    match read_write_access(true, &chars, char_config_pin()) {
        Access::Refuse(e) => assert_eq!(
            e.message(),
            "Characteristic not found: a970fd39-a0e8-11e6-bdf4-0800200c9a66"
        ),
        other => panic!("{:?}", other),
    }
    assert!(matches!(read_write_access(true, &chars, char_data_rate()), Access::Proceed));
    assert!(matches!(subscribe_access(false, &chars, char_status()), Access::Refuse(BleError::NotConnected)));
    assert!(matches!(subscribe_access(true, &chars, char_status()), Access::Skip));
    assert!(matches!(unsubscribe_access(false, &chars, char_data_rate()), Access::Skip));
    assert!(matches!(unsubscribe_access(true, &chars, char_data_rate()), Access::Proceed));
    assert!(!advanced_data_access(true, &chars));
    assert!(advanced_data_access(true, &vec![char_adv_data()]));
}

#[test]
fn read_and_write_results_become_events() {
    let u = char_data_rate();
    assert!(matches!(read_event(u, Ok(vec![1, 2])), BleEvent::CharacteristicRead { uuid, data } if uuid == u && data == vec![1, 2]));
    assert_eq!(
        error_text(&read_event(u, Err("timeout".to_string()))),
        "Read failed: a970fd31-a0e8-11e6-bdf4-0800200c9a66: timeout"
    );
    assert!(matches!(write_event(u, Ok(())), BleEvent::CharacteristicWritten { uuid } if uuid == u));
    assert_eq!(
        error_text(&write_event(u, Err("busy".to_string()))),
        "Write failed: a970fd31-a0e8-11e6-bdf4-0800200c9a66: busy"
    );
    assert_eq!(
        error_text(&subscribe_failed_event(char_status(), &"denied".to_string())),
        "BLE error: Subscribe failed for a9712441-a0e8-11e6-bdf4-0800200c9a66: denied"
    );
    assert_eq!(error_text(&advanced_read_event(12, Err("x".to_string()))), "Read failed: Advanced[12]: x");
    assert_eq!(error_text(&advanced_write_event(194, Err("y".to_string()))), "Write failed: Advanced[194]: y");
    assert!(matches!(advanced_read_event(3, Ok(vec![9])), BleEvent::AdvancedRead { index: 3, data } if data == vec![9]));
    assert!(matches!(advanced_write_event(3, Ok(())), BleEvent::AdvancedWritten { index: 3 }));
    assert!(matches!(notifications_ended(), BleEvent::Disconnected { reason: Some(r) } if r == "Notification stream ended"));
}

#[test]
fn commands_become_requests() {
    let r = handle_command(BleCommand::ReadAll(vec![5, 6, 7]));
    assert_eq!(r.len(), 3);
    assert!(matches!(r[2], WorkerRequest::Read(7)));
    let r = handle_command(BleCommand::ExecuteAction(DeviceAction::Tare));
    assert_eq!(r.len(), 2);
    assert!(matches!(&r[0], WorkerRequest::WriteAdvanced { index: 194, data } if *data == vec![0]));
    assert!(matches!(&r[1], WorkerRequest::Emit(BleEvent::ActionExecuted(DeviceAction::Tare))));
    assert!(matches!(handle_command(BleCommand::Shutdown)[0], WorkerRequest::Shutdown));
    assert!(handle_command(BleCommand::ReadAll(vec![])).is_empty());
}

#[test]
fn adapter_bring_up() {
    let mut w = BleWorker::new();
    assert_eq!(
        error_text(&w.on_adapter_init(AdapterInit::ManagerFailed("dbus".to_string())).unwrap()),
        "BLE error: Failed to create BLE manager: dbus"
    );
    assert_eq!(
        error_text(&w.on_adapter_init(AdapterInit::AdaptersFailed("io".to_string())).unwrap()),
        "BLE error: Failed to get adapters: io"
    );
    assert!(matches!(w.on_adapter_init(AdapterInit::Adapters(0)), Some(BleEvent::Error(BleError::NoAdapter))));
    assert!(!w.has_adapter);
    assert!(w.on_adapter_init(AdapterInit::Adapters(2)).is_none());
    assert!(w.has_adapter);
}

#[test]
fn scanning_prefers_the_dongle() {
    let mut w = worker_with_adapter();
    let a = w.start_scan(true);
    assert!(matches!(a[..], [LinkAction::StartDongleScan, LinkAction::StartQuietAdapterScan]));
    assert!(w.dongle_scanning);
    let a = w.start_scan(false);
    assert!(matches!(a[..], [LinkAction::StopDongleScan, LinkAction::StartAdapterScan]));
    assert!(!w.dongle_scanning);
    let a = w.stop_scan();
    assert!(matches!(a[..], [LinkAction::StopAdapterScan, LinkAction::Emit(BleEvent::ScanStopped)]));
    let mut bare = BleWorker::new();
    let a = bare.start_scan(false);
    assert!(matches!(a[..], [LinkAction::Emit(BleEvent::Error(BleError::NoAdapter))]));
    assert!(matches!(on_scan_started(Ok(())), LinkAction::ListenForDiscoveries));
    assert_eq!(emitted_error(&on_scan_started(Err("off".to_string()))), "BLE error: Scan start failed: off");
}

#[test]
fn connection_authenticates_and_subscribes() {
    let mut w = worker_with_adapter();
    let a = w.connect("AA:BB".to_string(), 1234);
    assert!(matches!(a[..], [LinkAction::StopAdapterScan, LinkAction::LookupPeripheral]));
    let a = w.on_connect_outcome(ConnectOutcome::Lookup(Some(true)));
    assert!(matches!(a[..], [LinkAction::ConnectPeripheral]));
    let a = w.on_connect_outcome(ConnectOutcome::Done(Ok(())));
    assert!(matches!(a[..], [LinkAction::DiscoverServices]));
    let before = vec![char_config_pin(), char_status()];
    let a = w.on_connect_outcome(ConnectOutcome::Discovered { result: Ok(()), characteristics: before.clone() });
    assert_eq!(a.len(), 1);
    assert!(matches!(&a[0], LinkAction::Write { uuid, data } if *uuid == char_config_pin() && *data == vec![0, 0, 4, 0xD2]));
    assert_eq!(step(&w), Some(ConnectStep::Authenticating));
    let a = w.on_connect_outcome(ConnectOutcome::Done(Ok(())));
    assert!(matches!(a[..], [LinkAction::DiscoverServices]));
    let after = vec![char_config_pin(), char_data_rate(), char_data_units(), char_status()];
    let a = w.on_connect_outcome(ConnectOutcome::Discovered { result: Err("ignored".to_string()), characteristics: after.clone() });
    assert_eq!(a.len(), 4);
    assert!(matches!(a[0], LinkAction::Subscribe(u) if u == char_status()));
    assert!(matches!(a[1], LinkAction::Subscribe(u) if u == char_data_units()));
    assert!(matches!(a[2], LinkAction::ListenForNotifications));
    assert!(matches!(a[3], LinkAction::Emit(BleEvent::Connected)));
    assert!(w.connected && w.connecting.is_none());
    assert_eq!(w.characteristics, after);
    assert!(!after.contains(&char_data_value()));
    let a = w.disconnect();
    assert!(matches!(a[..], [LinkAction::DisconnectPeripheral, LinkAction::Emit(BleEvent::Disconnected { reason: None })]));
    assert!(!w.connected && w.characteristics.is_empty());
    assert!(w.disconnect().is_empty());
}

#[test]
fn refused_pin_disconnects() {
    let mut w = worker_with_adapter();
    w.connect("id".to_string(), 1);
    w.on_connect_outcome(ConnectOutcome::Lookup(Some(true)));
    w.on_connect_outcome(ConnectOutcome::Done(Ok(())));
    w.on_connect_outcome(ConnectOutcome::Discovered { result: Ok(()), characteristics: vec![char_config_pin()] });
    w.on_connect_outcome(ConnectOutcome::Done(Ok(())));
    let a = w.on_connect_outcome(ConnectOutcome::Discovered { result: Ok(()), characteristics: vec![char_config_pin()] });
    assert_eq!(a.len(), 2);
    assert_eq!(
        emitted_error(&a[0]),
        "Connection failed: Could not connect \u{2014} check Configuration PIN is correct"
    );
    assert!(matches!(a[1], LinkAction::DisconnectPeripheral));
    assert!(!w.connected && w.characteristics.is_empty() && w.connecting.is_none());

    let mut w = worker_with_adapter();
    w.connect("id".to_string(), 1);
    w.on_connect_outcome(ConnectOutcome::Lookup(Some(true)));
    w.on_connect_outcome(ConnectOutcome::Done(Ok(())));
    let a = w.on_connect_outcome(ConnectOutcome::Discovered { result: Ok(()), characteristics: vec![char_status()] });
    assert!(emitted_error(&a[0]).ends_with("check Configuration PIN is correct"));
    assert!(matches!(a[1], LinkAction::DisconnectPeripheral));
}

#[test]
fn connection_errors_are_reported() {
    let mut w = worker_with_adapter();
    w.connect("id".to_string(), 1);
    w.on_connect_outcome(ConnectOutcome::Lookup(Some(true)));
    let a = w.on_connect_outcome(ConnectOutcome::Done(Err("refused".to_string())));
    assert_eq!(emitted_error(&a[0]), "Connection failed: Connect failed: refused");
    assert!(w.connecting.is_none());

    let mut w = worker_with_adapter();
    w.connect("id".to_string(), 1);
    w.on_connect_outcome(ConnectOutcome::Lookup(Some(true)));
    w.on_connect_outcome(ConnectOutcome::Done(Ok(())));
    let a = w.on_connect_outcome(ConnectOutcome::Discovered { result: Err("gatt".to_string()), characteristics: vec![] });
    assert_eq!(emitted_error(&a[0]), "Connection failed: Service discovery failed: gatt");
    assert!(matches!(a[1], LinkAction::DisconnectPeripheral));

    let mut w = worker_with_adapter();
    w.connect("id".to_string(), 1);
    w.on_connect_outcome(ConnectOutcome::Lookup(Some(true)));
    w.on_connect_outcome(ConnectOutcome::Done(Ok(())));
    w.on_connect_outcome(ConnectOutcome::Discovered { result: Ok(()), characteristics: vec![char_config_pin()] });
    let a = w.on_connect_outcome(ConnectOutcome::Done(Err("nak".to_string())));
    assert_eq!(emitted_error(&a[0]), "Write failed: PIN write failed: nak");

    let mut bare = BleWorker::new();
    let a = bare.connect("id".to_string(), 1);
    assert!(matches!(a[..], [LinkAction::Emit(BleEvent::Error(BleError::NoAdapter))]));
}

#[test]
fn lookup_retries_three_times() {
    let mut w = worker_with_adapter();
    w.connect("CC".to_string(), 1);
    for attempt in 1..3u8 {
        let a = w.on_connect_outcome(ConnectOutcome::Lookup(Some(false)));
        assert!(matches!(a[..], [LinkAction::StartAdapterScan, LinkAction::WaitForRescan, LinkAction::LookupPeripheral]));
        assert_eq!(step(&w), Some(ConnectStep::Locating(attempt)));
    }
    let a = w.on_connect_outcome(ConnectOutcome::Lookup(Some(false)));
    assert_eq!(a.len(), 4);
    assert!(matches!(a[2], LinkAction::StopAdapterScan));
    assert_eq!(emitted_error(&a[3]), "Device not found: CC");
    assert!(w.connecting.is_none());

    let mut w = worker_with_adapter();
    w.connect("DD".to_string(), 1);
    w.on_connect_outcome(ConnectOutcome::Lookup(Some(false)));
    let a = w.on_connect_outcome(ConnectOutcome::Lookup(Some(true)));
    assert!(matches!(a[..], [LinkAction::StopAdapterScan, LinkAction::ConnectPeripheral]));
    let a = w.on_connect_outcome(ConnectOutcome::Lookup(Some(true)));
    assert!(a.is_empty());
    assert_eq!(step(&w), Some(ConnectStep::Connecting));
}
