//! The state that the capture loop shares with the connections.

use crate::display::DisplaySelection;
use crate::privacy::{PrivacyCapability, PrivacyModeOwner};
use crate::quality::QualityTable;
use std::collections::HashMap;
use vstd::prelude::*;

verus! {

/// The flag that asks the capture loop to start over and announce the
/// display anew.
#[derive(Clone, Copy, Debug, PartialEq, Eq, Structural)]
pub struct SwitchPending {
    pub pending: bool,
}

/// Asks the capture loop to start over and announce the display anew.
pub fn refresh(switch: &mut SwitchPending)
    ensures
        final(switch).pending,
{
    switch.pending = true;
}

/// Everything that the capture thread and the connections share.
pub struct SharedCaptureState {
    pub selection: DisplaySelection,
    pub switch: SwitchPending,
    pub test_latencies: HashMap<i32, i64>,
    pub image_qualities: QualityTable,
    pub privacy_mode: PrivacyModeOwner,
    pub privacy_capability: PrivacyCapability,
}

/// The part of the shared state that the capture loop reads, as plain values.
pub struct SharedSnapshot {
    pub selection: DisplaySelection,
    pub switch: bool,
    pub privacy_mode: PrivacyModeOwner,
    pub qualities: Map<i32, i32>,
}

impl SharedCaptureState {
    /// The state of a process that has just started, at `now`: no display
    /// chosen, no request pending, privacy mode free and not yet probed.
    pub fn new(now: u64) -> (s: SharedCaptureState)
        ensures
            s.selection == DisplaySelection::new(now),
            !s.switch.pending,
            s.test_latencies@ == Map::<i32, i64>::empty(),
            s.image_qualities@ == Map::<i32, i32>::empty(),
            s.privacy_mode.conn_id == 0,
            s.privacy_capability.supported.is_none(),
    {
        SharedCaptureState {
            selection: DisplaySelection::new(now),
            switch: SwitchPending { pending: false },
            test_latencies: HashMap::new(),
            image_qualities: QualityTable::new(),
            privacy_mode: PrivacyModeOwner { conn_id: 0 },
            privacy_capability: PrivacyCapability::new(),
        }
    }

    /// What the capture loop reads of the state.
    pub open spec fn snapshot(self) -> SharedSnapshot {
        SharedSnapshot {
            selection: self.selection,
            switch: self.switch.pending,
            privacy_mode: self.privacy_mode,
            qualities: self.image_qualities@,
        }
    }
}

} // verus!
