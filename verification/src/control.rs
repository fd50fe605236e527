//! The control task's decision core.
//!
//! The control task is the only task allowed to mutate playback after it has
//! started. Each iteration it polls the control channel without blocking,
//! and — only when the playback handle has already been published — carries
//! the received action out on the engine. `step` is that decision, as a pure
//! function from the received action and the engine's reported position to
//! the effects the task must perform, in order. The unverified shell runs
//! the loop: it polls, locks, fetches the position, and performs the
//! returned effects one after the other.

use vstd::prelude::*;

use crate::action::Action;
use crate::engine::EngineCommand;

verus! {

/// One thing the control task does to the world, in the order listed in a
/// `StepResult`.
#[derive(Clone, Copy, Debug, PartialEq, Eq, Structural)]
pub enum Effect {
    /// Issue this command to the engine through the shared handle.
    Call(EngineCommand),
    /// Wait until the output task has terminated.
    JoinOutput,
}

/// What one control-task iteration must do: perform `effects` in order,
/// then terminate the task when `exit` is set.
pub struct StepResult {
    /// The effects to perform, in order.
    pub effects: Vec<Effect>,
    /// Whether the control task terminates after these effects.
    pub exit: bool,
}

/// State the control task carries across iterations: its mirror of the
/// engine's paused flag, needed because toggling pause must know the prior
/// state.
pub struct ControlState {
    /// Whether the engine is currently paused, as last commanded.
    pub pause: bool,
}

/// The position a forward seek of `amount` milliseconds lands on: clamped
/// to the track length.
pub open spec fn seek_forward_pos(position: u64, len: u64, amount: u64) -> u64 {
    if position + amount >= len {
        len
    } else {
        (position + amount) as u64
    }
}

/// The position a backward seek of `amount` milliseconds lands on: clamped
/// to the start of the track.
pub open spec fn seek_backward_pos(position: u64, amount: u64) -> u64 {
    if amount >= position {
        0
    } else {
        (position - amount) as u64
    }
}

/// What dispatching one non-`Exit` action does: the control task's new
/// pause mirror and the command issued to the engine. `Exit` is mapped to
/// `Stop`, though the control task handles it on a separate path.
pub open spec fn dispatch_spec(pause: bool, position: u64, len: u64, action: Action) -> (
    bool,
    EngineCommand,
) {
    match action {
        Action::SeekForward(s) => (pause, EngineCommand::Seek(seek_forward_pos(position, len, s))),
        Action::SeekBackward(s) => (pause, EngineCommand::Seek(seek_backward_pos(position, s))),
        Action::Pause => (!pause, EngineCommand::SetPause(!pause)),
        Action::SetVol(v) => (pause, EngineCommand::SetVolume(v)),
        Action::Exit => (pause, EngineCommand::Stop),
    }
}

/// The control task's pause mirror after one iteration: it changes only
/// when an action was received while the handle exists, and then as
/// dispatch says.
pub open spec fn step_pause_spec(
    pause: bool,
    received: Option<Action>,
    handle_present: bool,
    position: u64,
    len: u64,
) -> bool {
    match received {
        Some(a) => if handle_present && a != Action::Exit {
            dispatch_spec(pause, position, len, a).0
        } else {
            pause
        },
        None => pause,
    }
}

/// The effects one iteration performs, in order. Nothing happens without a
/// received action and a published handle (an action that arrives before
/// the handle is published is drained and dropped). `Exit` stops the engine
/// and then joins the output task; any other action issues exactly its
/// dispatched engine command.
pub open spec fn step_effects_spec(
    pause: bool,
    received: Option<Action>,
    handle_present: bool,
    position: u64,
    len: u64,
) -> Seq<Effect> {
    match received {
        Some(a) => if handle_present {
            if a == Action::Exit {
                seq![Effect::Call(EngineCommand::Stop), Effect::JoinOutput]
            } else {
                seq![Effect::Call(dispatch_spec(pause, position, len, a).1)]
            }
        } else {
            Seq::empty()
        },
        None => Seq::empty(),
    }
}

/// Whether one iteration ends the control task: exactly when `Exit` was
/// received while the handle exists.
pub open spec fn step_exit_spec(received: Option<Action>, handle_present: bool) -> bool {
    handle_present && received == Some(Action::Exit)
}

/// Dispatch one action: update the pause mirror and compute the engine
/// command, with the seek targets clamped to `[0, len]`. `Exit` leaves the
/// pause mirror untouched and maps to `Stop`; the control task handles
/// shutdown on its own path and never dispatches it here.
pub fn handle_action(pause: &mut bool, position: u64, len: u64, action: &Action) -> (cmd:
    EngineCommand)
    requires
        position <= len,
        action.wf(),
    ensures
        (*final(pause), cmd) == dispatch_spec(*old(pause), position, len, *action),
        cmd.wf(len),
{
    match action {
        Action::SeekForward(s) => {
            let target: u64 = if *s >= len - position {
                len
            } else {
                position + *s
            };
            EngineCommand::Seek(target)
        },
        Action::SeekBackward(s) => {
            let target: u64 = if *s >= position {
                0
            } else {
                position - *s
            };
            EngineCommand::Seek(target)
        },
        Action::Pause => {
            *pause = !*pause;
            EngineCommand::SetPause(*pause)
        },
        Action::SetVol(v) => EngineCommand::SetVolume(*v),
        Action::Exit => EngineCommand::Stop,
    }
}

impl ControlState {
    /// The control task starts with its pause mirror clear: playback begins
    /// unpaused.
    pub fn new() -> (c: ControlState)
        ensures
            !c.pause,
    {
        ControlState { pause: false }
    }

    /// One iteration of the control task. `received` is what the
    /// non-blocking poll of the control channel returned; `handle_present`
    /// says whether the output task has published the playback handle;
    /// `position` is the engine's reported position. The result lists, in
    /// order, the effects to perform, and whether the task then terminates:
    /// on `Exit` the engine is stopped first and the output task joined
    /// second, so the output task is gone before the control task ends.
    pub fn step(
        &mut self,
        received: Option<Action>,
        handle_present: bool,
        position: u64,
        len: u64,
    ) -> (r: StepResult)
        requires
            position <= len,
            old(self).wf_received(received),
        ensures
            final(self).pause == step_pause_spec(
                old(self).pause,
                received,
                handle_present,
                position,
                len,
            ),
            r.effects@ == step_effects_spec(old(self).pause, received, handle_present, position, len),
            r.exit == step_exit_spec(received, handle_present),
            forall|i: int|
                0 <= i < r.effects@.len() ==> (#[trigger] r.effects@[i] matches Effect::Call(c)
                    ==> c.wf(len)),
    {
        match received {
            None => StepResult { effects: Vec::new(), exit: false },
            Some(action) => {
                if !handle_present {
                    StepResult { effects: Vec::new(), exit: false }
                } else if action.is_exit() {
                    let mut effects: Vec<Effect> = Vec::new();
                    effects.push(Effect::Call(EngineCommand::Stop));
                    effects.push(Effect::JoinOutput);
                    proof {
                        assert(effects@ =~= step_effects_spec(
                            old(self).pause,
                            received,
                            handle_present,
                            position,
                            len,
                        ));
                    }
                    StepResult { effects, exit: true }
                } else {
                    let cmd = handle_action(&mut self.pause, position, len, &action);
                    let mut effects: Vec<Effect> = Vec::new();
                    effects.push(Effect::Call(cmd));
                    proof {
                        assert(effects@ =~= step_effects_spec(
                            old(self).pause,
                            received,
                            handle_present,
                            position,
                            len,
                        ));
                    }
                    StepResult { effects, exit: false }
                }
            },
        }
    }

    /// A received action, if any, arrives well formed: the UI task only
    /// sends pre-clamped payloads.
    pub open spec fn wf_received(self, received: Option<Action>) -> bool {
        match received {
            Some(a) => a.wf(),
            None => true,
        }
    }
}

} // verus!
