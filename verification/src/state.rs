//! The device state the host keeps track of.
//!
//! Mode and colour are two independent dimensions. The host imposes no
//! order on the values the device reports: any mode may follow any mode,
//! and a colour change never touches the mode.

use vstd::prelude::*;
use crate::wire::{ModeOrColor, OperatingMode, TrackingColor};

verus! {

/// The last operating mode and tracking colour the device reported.
#[derive(Clone, Copy, Debug, PartialEq, Eq, Structural)]
pub struct DeviceState {
    pub mode: OperatingMode,
    pub color: TrackingColor,
}

impl DeviceState {
    /// The state before the device has reported anything.
    pub open spec fn initial() -> DeviceState {
        DeviceState { mode: OperatingMode::Disconnected, color: TrackingColor::Green }
    }

    /// The state once `change` has been applied: a mode replaces the mode, a
    /// colour replaces the colour, and the other dimension is kept.
    pub open spec fn after(self, change: ModeOrColor) -> DeviceState {
        match change {
            ModeOrColor::Mode(mode) => DeviceState { mode, color: self.color },
            ModeOrColor::Color(color) => DeviceState { mode: self.mode, color },
        }
    }

    /// Creates the initial state.
    pub fn new() -> (state: DeviceState)
        ensures
            state == DeviceState::initial(),
    {
        DeviceState { mode: OperatingMode::Disconnected, color: TrackingColor::Green }
    }

    /// Applies a reported change in place.
    pub fn apply(&mut self, change: ModeOrColor)
        ensures
            *final(self) == old(self).after(change),
    {
        match change {
            ModeOrColor::Mode(mode) => {
                self.mode = mode;
            },
            ModeOrColor::Color(color) => {
                self.color = color;
            },
        }
    }
}

/// Applying the same change twice in a row leaves the state as the first
/// application left it.
pub proof fn lemma_apply_idempotent(state: DeviceState, change: ModeOrColor)
    ensures
        state.after(change).after(change) == state.after(change),
{
}

/// A mode change keeps the colour and a colour change keeps the mode.
pub proof fn lemma_dimensions_independent(state: DeviceState, change: ModeOrColor)
    ensures
        change matches ModeOrColor::Mode(mode) ==> state.after(change).mode == mode
            && state.after(change).color == state.color,
        change matches ModeOrColor::Color(color) ==> state.after(change).color == color
            && state.after(change).mode == state.mode,
{
}

} // verus!
