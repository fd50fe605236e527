//! User commands and the fixed steps of the controller.
//!
//! An `Action` is an immutable value carrying one user intent from the UI
//! task to the control task. Payloads are already clamped by the sender:
//! a volume level lies in `[0, VOL_MAX]` hundredths; seek amounts are
//! milliseconds and may be any magnitude (the control task clamps the
//! resulting position).

use vstd::prelude::*;

verus! {

/// Full volume, in hundredths of the engine's scale.
pub const VOL_MAX: u32 = 100;

/// Volume change per volume key press, in hundredths.
pub const VOL_STEP: u32 = 5;

/// Seek distance per seek key press, in milliseconds.
pub const SEEK_STEP_MS: u64 = 5000;

/// Amount of playback time one tick pulse stands for, in milliseconds.
pub const TICK_MS: u64 = 1000;

/// One user command, sent from the UI task to the control task.
#[derive(Clone, Copy, Debug, PartialEq, Eq, Structural)]
pub enum Action {
    /// Set the playback volume to this level, in hundredths of full scale.
    SetVol(u32),
    /// Move the playback position forward by this many milliseconds.
    SeekForward(u64),
    /// Move the playback position backward by this many milliseconds.
    SeekBackward(u64),
    /// Flip the paused state.
    Pause,
    /// Stop playback and shut the tasks down; always the last action sent.
    Exit,
}

impl Action {
    /// A volume payload must arrive pre-clamped; every other payload is free.
    pub open spec fn wf(self) -> bool {
        match self {
            Action::SetVol(v) => v <= VOL_MAX,
            _ => true,
        }
    }

    /// Whether this action is the shutdown command. The control task uses
    /// this single test to pick the shutdown path.
    pub fn is_exit(&self) -> (r: bool)
        ensures
            r == (*self == Action::Exit),
    {
        *self == Action::Exit
    }
}

} // verus!
