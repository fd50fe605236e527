//! UI-task display state: predicted position, volume, and key handling.
//!
//! The UI task never queries the engine for its position while rendering.
//! It keeps a locally predicted position, advanced by tick pulses from the
//! output task, and updates it optimistically on every key press so the
//! display reacts at once. Each key press that commands playback also yields
//! the `Action` to send on the control channel.

use vstd::prelude::*;

use crate::action::Action;
use crate::action::SEEK_STEP_MS;
use crate::action::VOL_MAX;
use crate::action::VOL_STEP;

verus! {

/// One of the fixed keys the controller reacts to.
#[derive(Clone, Copy, Debug, PartialEq, Eq, Structural)]
pub enum Key {
    /// Request shutdown of the whole program.
    Quit,
    /// Flip the paused state.
    Pause,
    /// Seek forward by one step.
    Right,
    /// Seek backward by one step.
    Left,
    /// Raise the volume by one step.
    Up,
    /// Lower the volume by one step.
    Down,
}

/// What the UI task shows and the local flags that drive its run loop.
/// Positions and the track length are milliseconds; the volume is in
/// hundredths of full scale.
pub struct DisplayState {
    /// Current volume level, in `[0, VOL_MAX]`.
    pub vol: u32,
    /// Predicted playback position, in `[0, len]` milliseconds.
    pub pos: u64,
    /// Track length in milliseconds.
    pub len: u64,
    /// Name of the track being played, shown verbatim.
    pub name: String,
    /// Local mirror of the paused state; freezes position prediction.
    pub pause: bool,
    /// Set by the quit key; ends the UI run loop.
    pub exit: bool,
}

impl DisplayState {
    /// The state's invariant: position clamped to the track, volume clamped
    /// to full scale.
    pub open spec fn wf(self) -> bool {
        self.pos <= self.len && self.vol <= VOL_MAX
    }

    /// The state after one tick pulse of `pulse` milliseconds: unchanged
    /// while paused. Otherwise, a position that already sits at the end of
    /// the track wraps to the start — playback loops, and this tick only
    /// restarts the display; any other position advances by `pulse`,
    /// clamped to the track length.
    pub open spec fn tick_spec(self, pulse: u64) -> DisplayState {
        if self.pause {
            self
        } else if self.pos == self.len {
            DisplayState { pos: 0, ..self }
        } else {
            let advanced: int = if self.pos + pulse >= self.len {
                self.len as int
            } else {
                self.pos + pulse
            };
            DisplayState { pos: advanced as u64, ..self }
        }
    }

    /// The state after one key press, paired with the action to send on the
    /// control channel (`None` when nothing is sent: the quit key only sets
    /// the local exit flag, and `Exit` is sent once the run loop ends).
    pub open spec fn key_spec(self, key: Key) -> (DisplayState, Option<Action>) {
        match key {
            Key::Quit => (DisplayState { exit: true, ..self }, None),
            Key::Pause => (
                DisplayState { pause: !self.pause, ..self },
                Some(Action::Pause),
            ),
            Key::Right => {
                let advanced: int = if self.pos + SEEK_STEP_MS >= self.len {
                    self.len as int
                } else {
                    self.pos + SEEK_STEP_MS
                };
                (
                    DisplayState { pos: advanced as u64, ..self },
                    Some(Action::SeekForward(SEEK_STEP_MS)),
                )
            },
            Key::Left => {
                let retreated: int = if self.pos <= SEEK_STEP_MS {
                    0
                } else {
                    self.pos - SEEK_STEP_MS
                };
                (
                    DisplayState { pos: retreated as u64, ..self },
                    Some(Action::SeekBackward(SEEK_STEP_MS)),
                )
            },
            Key::Up => {
                let raised: int = if self.vol + VOL_STEP >= VOL_MAX {
                    VOL_MAX as int
                } else {
                    self.vol + VOL_STEP
                };
                (
                    DisplayState { vol: raised as u32, ..self },
                    Some(Action::SetVol(raised as u32)),
                )
            },
            Key::Down => {
                let lowered: int = if self.vol <= VOL_STEP {
                    0
                } else {
                    self.vol - VOL_STEP
                };
                (
                    DisplayState { vol: lowered as u32, ..self },
                    Some(Action::SetVol(lowered as u32)),
                )
            },
        }
    }

    /// A fresh display state for a track of length `len` milliseconds at
    /// starting volume `vol`: position at the start, not paused, not
    /// exiting.
    pub fn new(vol: u32, len: u64, name: String) -> (d: DisplayState)
        requires
            vol <= VOL_MAX,
        ensures
            d.vol == vol,
            d.pos == 0,
            d.len == len,
            d.name == name,
            !d.pause,
            !d.exit,
            d.wf(),
    {
        DisplayState { vol, pos: 0, len, name, pause: false, exit: false }
    }

    /// Receive one tick pulse worth `pulse` milliseconds. While the local
    /// pause flag is set the predicted position does not move. A position
    /// at the end of the track wraps to the start (loop restart); any other
    /// position advances by `pulse` and never passes the track length.
    pub fn apply_tick(&mut self, pulse: u64)
        requires
            old(self).wf(),
        ensures
            *final(self) == old(self).tick_spec(pulse),
            final(self).wf(),
            old(self).pause ==> final(self).pos == old(self).pos,
            !old(self).pause && old(self).pos == old(self).len ==> final(self).pos == 0,
    {
        if !self.pause {
            if self.pos == self.len {
                self.pos = 0;
            } else {
                self.pos = if pulse >= self.len - self.pos {
                    self.len
                } else {
                    self.pos + pulse
                };
            }
        }
    }

    /// Handle one key press: update the local prediction and return the
    /// action to send, if any. The quit key sends nothing and only sets the
    /// exit flag; every other key returns a well-formed, non-`Exit` action.
    pub fn handle_key(&mut self, key: Key) -> (a: Option<Action>)
        requires
            old(self).wf(),
        ensures
            (*final(self), a) == old(self).key_spec(key),
            final(self).wf(),
            a matches Some(act) ==> act.wf() && act != Action::Exit,
            key == Key::Quit <==> a is None,
            key == Key::Quit ==> final(self).exit,
    {
        match key {
            Key::Quit => {
                self.exit = true;
                None
            },
            Key::Pause => {
                self.pause = !self.pause;
                Some(Action::Pause)
            },
            Key::Right => {
                self.pos = if SEEK_STEP_MS >= self.len - self.pos {
                    self.len
                } else {
                    self.pos + SEEK_STEP_MS
                };
                Some(Action::SeekForward(SEEK_STEP_MS))
            },
            Key::Left => {
                self.pos = if self.pos <= SEEK_STEP_MS {
                    0
                } else {
                    self.pos - SEEK_STEP_MS
                };
                Some(Action::SeekBackward(SEEK_STEP_MS))
            },
            Key::Up => {
                self.vol = if self.vol + VOL_STEP >= VOL_MAX {
                    VOL_MAX
                } else {
                    self.vol + VOL_STEP
                };
                Some(Action::SetVol(self.vol))
            },
            Key::Down => {
                self.vol = if self.vol <= VOL_STEP {
                    0
                } else {
                    self.vol - VOL_STEP
                };
                Some(Action::SetVol(self.vol))
            },
        }
    }
}

} // verus!
