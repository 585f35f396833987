//! The auto-calibration form: calibration points, each a typed target value
//! and a captured base value (mV/V), captured one at a time from a read of
//! the base value register.

use vstd::prelude::*;

use crate::ble::BleCommand;
use crate::uuids::{b24_uuid_value, char_base_value};

verus! {

/// Where the capture of a point stands.
#[derive(Debug, Clone, Copy, PartialEq, Eq, Structural)]
pub enum CaptureStatus {
    NotCaptured,
    Capturing,
    Captured,
}

/// Whether the form is being edited or was applied to the device.
#[derive(Debug, Clone, Copy, PartialEq, Eq, Structural)]
pub enum AutoCalPhase {
    Editing,
    Applied,
}

/// One calibration point: the target value typed in, the base value
/// captured for it (the bit pattern of its f32 value) and its capture.
#[derive(Debug)]
pub struct AutoCalPoint {
    pub target_value: String,
    pub base_value: Option<u32>,
    pub capture_status: CaptureStatus,
}

/// The most points the form holds.
pub const MAX_AUTO_CAL_POINTS: usize = 16;

/// The fewest points the form keeps.
pub const MIN_AUTO_CAL_POINTS: usize = 2;

/// The auto-calibration form.
#[derive(Debug)]
pub struct AutoCalState {
    pub points: Vec<AutoCalPoint>,
    /// The point waiting for a base value read, if any.
    pub capturing_index: Option<usize>,
    pub phase: AutoCalPhase,
    pub has_been_applied: bool,
    pub error: Option<String>,
}

/// Whether a point is blank: no target, nothing captured.
pub open spec fn blank_point(p: AutoCalPoint) -> bool {
    &&& p.target_value@.len() == 0
    &&& p.base_value is None
    &&& p.capture_status == CaptureStatus::NotCaptured
}

/// Whether the form is as a reset leaves it: two blank points, nothing
/// being captured, editing, never applied, no error.
pub open spec fn auto_cal_initial(a: AutoCalState) -> bool {
    &&& a.points@.len() == 2
    &&& blank_point(a.points@[0])
    &&& blank_point(a.points@[1])
    &&& a.capturing_index is None
    &&& a.phase == AutoCalPhase::Editing
    &&& !a.has_been_applied
    &&& a.error is None
}

/// The form after a read of the base value: the point being captured, if
/// any and while it exists, takes the value read (when one was read) and
/// is captured; the capture ends either way. Nothing else changes.
pub open spec fn base_value_captured(pre: AutoCalState, post: AutoCalState, base: Option<u32>) -> bool {
    &&& post.capturing_index is None
    &&& post.phase == pre.phase
    &&& post.has_been_applied == pre.has_been_applied
    &&& post.error == pre.error
    &&& post.points@.len() == pre.points@.len()
    &&& forall|i: int|
        0 <= i < pre.points@.len() ==> {
            let p = pre.points@[i];
            let q = #[trigger] post.points@[i];
            if pre.capturing_index == Some(i as usize) && base is Some {
                &&& q.target_value == p.target_value
                &&& q.base_value == base
                &&& q.capture_status == CaptureStatus::Captured
            } else {
                q == p
            }
        }
}

fn blank() -> (p: AutoCalPoint)
    ensures
        blank_point(p),
{
    AutoCalPoint { target_value: String::new(), base_value: None, capture_status: CaptureStatus::NotCaptured }
}

impl AutoCalState {
    /// A fresh form (see `auto_cal_initial`).
    pub fn new() -> (a: Self)
        ensures
            auto_cal_initial(a),
    {
        let mut points: Vec<AutoCalPoint> = Vec::new();
        points.push(blank());
        points.push(blank());
        AutoCalState { points, capturing_index: None, phase: AutoCalPhase::Editing, has_been_applied: false, error: None }
    }

    /// "Reset All": the form starts afresh.
    pub fn reset(&mut self)
        ensures
            auto_cal_initial(*final(self)),
    {
        *self = AutoCalState::new();
    }

    /// "Capture" on point `i`: the point is being captured, the form is
    /// edited again and its error cleared; returns the read of the base
    /// value whose reply completes the capture.
    pub fn capture(&mut self, i: usize) -> (cmd: BleCommand)
        requires
            i < old(self).points@.len(),
        ensures
            cmd == BleCommand::ReadCharacteristic(b24_uuid_value(0xa9717266) as u128),
            final(self).capturing_index == Some(i),
            final(self).phase == AutoCalPhase::Editing,
            final(self).error is None,
            final(self).has_been_applied == old(self).has_been_applied,
            final(self).points@.len() == old(self).points@.len(),
            final(self).points@[i as int].capture_status == CaptureStatus::Capturing,
            final(self).points@[i as int].base_value == old(self).points@[i as int].base_value,
            final(self).points@[i as int].target_value == old(self).points@[i as int].target_value,
            forall|j: int| 0 <= j < old(self).points@.len() && j != i ==> #[trigger] final(self).points@[j]
                == old(self).points@[j],
    {
        let mut p = self.points.remove(i);
        p.capture_status = CaptureStatus::Capturing;
        self.points.insert(i, p);
        self.capturing_index = Some(i);
        self.phase = AutoCalPhase::Editing;
        self.error = None;
        BleCommand::ReadCharacteristic(char_base_value())
    }

    /// "Clear" on point `i`: its captured value is dropped, and the form is
    /// edited again with its error cleared.
    pub fn clear_point(&mut self, i: usize)
        requires
            i < old(self).points@.len(),
        ensures
            final(self).capturing_index == old(self).capturing_index,
            final(self).phase == AutoCalPhase::Editing,
            final(self).error is None,
            final(self).has_been_applied == old(self).has_been_applied,
            final(self).points@.len() == old(self).points@.len(),
            final(self).points@[i as int].capture_status == CaptureStatus::NotCaptured,
            final(self).points@[i as int].base_value is None,
            final(self).points@[i as int].target_value == old(self).points@[i as int].target_value,
            forall|j: int| 0 <= j < old(self).points@.len() && j != i ==> #[trigger] final(self).points@[j]
                == old(self).points@[j],
    {
        let mut p = self.points.remove(i);
        p.base_value = None;
        p.capture_status = CaptureStatus::NotCaptured;
        self.points.insert(i, p);
        self.phase = AutoCalPhase::Editing;
        self.error = None;
    }

    /// A change of point `i`'s target text: the form is edited again and
    /// its error cleared.
    pub fn set_target(&mut self, i: usize, text: String)
        requires
            i < old(self).points@.len(),
        ensures
            final(self).capturing_index == old(self).capturing_index,
            final(self).phase == AutoCalPhase::Editing,
            final(self).error is None,
            final(self).has_been_applied == old(self).has_been_applied,
            final(self).points@.len() == old(self).points@.len(),
            final(self).points@[i as int].target_value@ == text@,
            final(self).points@[i as int].base_value == old(self).points@[i as int].base_value,
            final(self).points@[i as int].capture_status == old(self).points@[i as int].capture_status,
            forall|j: int| 0 <= j < old(self).points@.len() && j != i ==> #[trigger] final(self).points@[j]
                == old(self).points@[j],
    {
        let mut p = self.points.remove(i);
        p.target_value = text;
        self.points.insert(i, p);
        self.phase = AutoCalPhase::Editing;
        self.error = None;
    }

    /// "+ Add Point": below sixteen points a blank point is added and the
    /// form is edited again; at sixteen nothing changes.
    pub fn add_point(&mut self)
        ensures
            old(self).points@.len() < MAX_AUTO_CAL_POINTS ==> {
                &&& final(self).points@ == old(self).points@.push(final(self).points@.last())
                &&& blank_point(final(self).points@.last())
                &&& final(self).phase == AutoCalPhase::Editing
            },
            old(self).points@.len() >= MAX_AUTO_CAL_POINTS ==> final(self).points@ == old(self).points@
                && final(self).phase == old(self).phase,
            final(self).capturing_index == old(self).capturing_index,
            final(self).error == old(self).error,
            final(self).has_been_applied == old(self).has_been_applied,
    {
        if self.points.len() < MAX_AUTO_CAL_POINTS {
            self.points.push(blank());
            self.phase = AutoCalPhase::Editing;
        }
    }

    /// "- Remove Last": above two points the last is removed and the form
    /// is edited again; at two or fewer nothing changes.
    pub fn remove_last(&mut self)
        ensures
            old(self).points@.len() > MIN_AUTO_CAL_POINTS ==> final(self).points@ == old(self).points@.drop_last()
                && final(self).phase == AutoCalPhase::Editing,
            old(self).points@.len() <= MIN_AUTO_CAL_POINTS ==> final(self).points@ == old(self).points@
                && final(self).phase == old(self).phase,
            final(self).capturing_index == old(self).capturing_index,
            final(self).error == old(self).error,
            final(self).has_been_applied == old(self).has_been_applied,
    {
        if self.points.len() > MIN_AUTO_CAL_POINTS {
            self.points.pop();
            self.phase = AutoCalPhase::Editing;
        }
    }

    /// Take a read of the base value (see `base_value_captured`).
    pub fn on_base_value(&mut self, base: Option<u32>)
        ensures
            base_value_captured(*old(self), *final(self), base),
    {
        if let Some(idx) = self.capturing_index {
            if let Some(b) = base {
                if idx < self.points.len() {
                    let mut p = self.points.remove(idx);
                    p.base_value = Some(b);
                    p.capture_status = CaptureStatus::Captured;
                    self.points.insert(idx, p);
                }
            }
            self.capturing_index = None;
        }
    }

    /// Whether every point is captured.
    pub fn all_captured(&self) -> (b: bool)
        ensures
            b == (forall|i: int| 0 <= i < self.points@.len() ==> (#[trigger] self.points@[i]).capture_status
                == CaptureStatus::Captured),
    {
        let n = self.points.len();
        let mut i: usize = 0;
        while i < n
            invariant
                n == self.points@.len(),
                i <= n,
                forall|j: int| 0 <= j < i ==> (#[trigger] self.points@[j]).capture_status == CaptureStatus::Captured,
            decreases n - i,
        {
            if self.points[i].capture_status != CaptureStatus::Captured {
                return false;
            }
            i = i + 1;
        }
        true
    }

    /// Whether "Apply to Device" is enabled: every point captured, every
    /// target a number (`targets_valid`, read by the caller), at least two
    /// points, and no capture under way.
    pub fn can_apply(&self, targets_valid: bool) -> (b: bool)
        ensures
            b == ((forall|i: int| 0 <= i < self.points@.len() ==> (#[trigger] self.points@[i]).capture_status
                == CaptureStatus::Captured) && targets_valid && self.points@.len() >= 2
                && self.capturing_index is None),
    {
        self.all_captured() && targets_valid && self.points.len() >= 2 && self.capturing_index.is_none()
    }

    /// After the calibration was uploaded: applied, with no error.
    pub fn mark_applied(&mut self)
        ensures
            final(self).phase == AutoCalPhase::Applied,
            final(self).has_been_applied,
            final(self).error is None,
            final(self).points == old(self).points,
            final(self).capturing_index == old(self).capturing_index,
    {
        self.phase = AutoCalPhase::Applied;
        self.has_been_applied = true;
        self.error = None;
    }
}

} // verus!
