use b24_tool::autocal::{AutoCalPhase, AutoCalState, CaptureStatus};
use b24_tool::ble::{BleCommand, BleEvent};
use b24_tool::events::{process_event, AppState, EventTime};
use b24_tool::uuids::{char_base_value, char_data_rate};

const T0: EventTime = EventTime { live_elapsed_bits: 0, view_elapsed_bits: 0, now_ms: 0 };

#[test]
fn fresh_form_has_two_blank_points() {
    let a = AutoCalState::new();
    assert_eq!(a.points.len(), 2);
    assert!(a.points.iter().all(|p| p.target_value.is_empty() && p.base_value.is_none()
        && p.capture_status == CaptureStatus::NotCaptured));
    assert_eq!(a.phase, AutoCalPhase::Editing);
    assert!(a.capturing_index.is_none() && !a.has_been_applied && a.error.is_none());
}

#[test]
fn points_are_added_and_removed_within_bounds() {
    let mut a = AutoCalState::new();
    a.remove_last();
    assert_eq!(a.points.len(), 2);
    for _ in 0..20 {
        a.add_point();
    }
    assert_eq!(a.points.len(), 16);
    a.remove_last();
    assert_eq!(a.points.len(), 15);
    a.mark_applied();
    assert_eq!(a.phase, AutoCalPhase::Applied);
    a.set_target(0, "100".to_string());
    assert_eq!(a.phase, AutoCalPhase::Editing);
    assert_eq!(a.points[0].target_value, "100");
    assert!(a.has_been_applied);
    a.reset();
    assert_eq!(a.points.len(), 2);
    assert!(!a.has_been_applied);
}

#[test]
fn a_base_value_read_completes_the_capture() {
    let mut st = AppState::new();
    let cmd = st.ui.auto_cal.capture(1);
    assert!(matches!(cmd, BleCommand::ReadCharacteristic(u) if u == char_base_value()));
    assert_eq!(st.ui.auto_cal.points[1].capture_status, CaptureStatus::Capturing);
    assert!(!st.ui.auto_cal.can_apply(true));

    // A read of another register leaves the capture waiting.
    process_event(&mut st, BleEvent::CharacteristicRead { uuid: char_data_rate(), data: vec![0, 0, 0, 1] }, T0);
    assert_eq!(st.ui.auto_cal.capturing_index, Some(1));

    process_event(&mut st, BleEvent::CharacteristicRead {
        uuid: char_base_value(),
        data: 1.25f32.to_be_bytes().to_vec(),
    }, T0);
    let p = &st.ui.auto_cal.points[1];
    assert_eq!(p.base_value, Some(1.25f32.to_bits()));
    assert_eq!(p.capture_status, CaptureStatus::Captured);
    assert!(st.ui.auto_cal.capturing_index.is_none());
    assert_eq!(st.ui.auto_cal.points[0].capture_status, CaptureStatus::NotCaptured);
    assert!(!st.ui.auto_cal.all_captured());

    st.ui.auto_cal.capture(0);
    process_event(&mut st, BleEvent::CharacteristicRead { uuid: char_base_value(), data: vec![1, 2] }, T0);
    assert!(st.ui.auto_cal.capturing_index.is_none());
    assert_eq!(st.ui.auto_cal.points[0].capture_status, CaptureStatus::Capturing);

    st.ui.auto_cal.capture(0);
    process_event(&mut st, BleEvent::CharacteristicRead { uuid: char_base_value(), data: 0.5f32.to_be_bytes().to_vec() }, T0);
    assert!(st.ui.auto_cal.all_captured());
    assert!(st.ui.auto_cal.can_apply(true));
    assert!(!st.ui.auto_cal.can_apply(false));
    st.ui.auto_cal.clear_point(0);
    assert_eq!(st.ui.auto_cal.points[0].base_value, None);
    assert!(!st.ui.auto_cal.all_captured());
}
