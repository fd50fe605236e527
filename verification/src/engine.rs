//! Abstract model of the audio engine.
//!
//! The real engine is an external collaborator that decodes and plays the
//! track; this module gives its control surface an exact meaning so that
//! the control task's dispatch rules, and the laws about them, can be
//! stated and proved. The unverified shell translates each `EngineCommand`
//! into the corresponding engine primitive.

use vstd::prelude::*;

use crate::action::VOL_MAX;

verus! {

/// One call the control task asks the engine to perform.
#[derive(Clone, Copy, Debug, PartialEq, Eq, Structural)]
pub enum EngineCommand {
    /// Move playback to this absolute position, in milliseconds; always
    /// already clamped to `[0, track length]`.
    Seek(u64),
    /// Pause (`true`) or resume (`false`) playback.
    SetPause(bool),
    /// Set the playback volume, in hundredths of full scale.
    SetVolume(u32),
    /// Stop playback for good; issued only on shutdown.
    Stop,
}

impl EngineCommand {
    /// A command the engine accepts on a track of length `len`: seek targets
    /// lie on the track and volume levels are clamped. The control task only
    /// ever emits such commands.
    pub open spec fn wf(self, len: u64) -> bool {
        match self {
            EngineCommand::Seek(p) => p <= len,
            EngineCommand::SetVolume(v) => v <= VOL_MAX,
            _ => true,
        }
    }
}

/// The engine's observable state, as far as this controller drives it:
/// the playing position, the volume, the paused flag and whether playback
/// has been stopped. Length and position are milliseconds, the volume is
/// in hundredths of full scale.
pub struct EngineModel {
    /// Track length in milliseconds; fixed for the whole run.
    pub len: u64,
    /// Playback position, in `[0, len]` milliseconds.
    pub position: u64,
    /// Volume level, in `[0, VOL_MAX]`.
    pub volume: u32,
    /// Whether playback is paused.
    pub paused: bool,
    /// Whether playback has been stopped; terminal.
    pub stopped: bool,
}

impl EngineModel {
    /// The engine's invariant: position on the track, volume on the scale.
    pub open spec fn wf(self) -> bool {
        self.position <= self.len && self.volume <= VOL_MAX
    }

    /// What one command does to the engine state.
    pub open spec fn apply_spec(self, cmd: EngineCommand) -> EngineModel {
        match cmd {
            EngineCommand::Seek(p) => EngineModel { position: p, ..self },
            EngineCommand::SetPause(b) => EngineModel { paused: b, ..self },
            EngineCommand::SetVolume(v) => EngineModel { volume: v, ..self },
            EngineCommand::Stop => EngineModel { stopped: true, ..self },
        }
    }

    /// A freshly started engine: at the start of the track, playing (not
    /// paused), not stopped, at the given initial volume.
    pub fn new(len: u64, volume: u32) -> (e: EngineModel)
        requires
            volume <= VOL_MAX,
        ensures
            e.len == len,
            e.position == 0,
            e.volume == volume,
            !e.paused,
            !e.stopped,
            e.wf(),
    {
        EngineModel { len, position: 0, volume, paused: false, stopped: false }
    }

    /// Perform one command. Well-formed commands keep the engine state
    /// well formed and never change the track length.
    pub fn apply(&mut self, cmd: EngineCommand)
        requires
            old(self).wf(),
            cmd.wf(old(self).len),
        ensures
            *final(self) == old(self).apply_spec(cmd),
            final(self).wf(),
            final(self).len == old(self).len,
    {
        match cmd {
            EngineCommand::Seek(p) => self.position = p,
            EngineCommand::SetPause(b) => self.paused = b,
            EngineCommand::SetVolume(v) => self.volume = v,
            EngineCommand::Stop => self.stopped = true,
        }
    }
}

} // verus!
