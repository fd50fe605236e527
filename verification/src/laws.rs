//! The laws of the coordination core, proved against the same spec
//! functions the executable contracts use.
//!
//! `run_control` folds a sequence of actions through the control task's
//! dispatch and the engine model; `run_ticks` folds a sequence of tick
//! pulses through the UI task's position prediction. The proof functions
//! below state what holds of every such run.

use vstd::prelude::*;

use crate::action::Action;
use crate::control::dispatch_spec;
use crate::control::step_effects_spec;
use crate::control::step_exit_spec;
use crate::control::Effect;
use crate::display::DisplayState;
use crate::engine::EngineCommand;
use crate::engine::EngineModel;

verus! {

/// What dispatching one action and carrying its command out does to the
/// control task's pause mirror and the engine.
pub open spec fn apply_action_spec(pause: bool, e: EngineModel, a: Action) -> (bool, EngineModel) {
    let next = dispatch_spec(pause, e.position, e.len, a);
    (next.0, e.apply_spec(next.1))
}

/// The pause mirror and engine state after the control task has carried out
/// a whole sequence of actions, in order.
pub open spec fn run_control(pause: bool, e: EngineModel, actions: Seq<Action>) -> (
    bool,
    EngineModel,
)
    decreases actions.len(),
{
    if actions.len() == 0 {
        (pause, e)
    } else {
        let first = apply_action_spec(pause, e, actions[0]);
        run_control(first.0, first.1, actions.drop_first())
    }
}

/// The volume level an action carries; zero for anything but `SetVol`.
pub open spec fn vol_level(a: Action) -> u32 {
    match a {
        Action::SetVol(v) => v,
        _ => 0,
    }
}

/// The display state after the UI task has received a whole sequence of
/// tick pulses, in order.
pub open spec fn run_ticks(d: DisplayState, pulses: Seq<u64>) -> DisplayState
    decreases pulses.len(),
{
    if pulses.len() == 0 {
        d
    } else {
        run_ticks(d.tick_spec(pulses[0]), pulses.drop_first())
    }
}

/// Invariant preservation: carrying out any sequence of well-formed actions
/// keeps the engine state well formed — in particular the position stays in
/// `[0, track length]` and the volume in `[0, VOL_MAX]` — and never changes
/// the track length.
pub proof fn lemma_run_control_wf(pause: bool, e: EngineModel, actions: Seq<Action>)
    requires
        e.wf(),
        forall|i: int| 0 <= i < actions.len() ==> (#[trigger] actions[i]).wf(),
    ensures
        run_control(pause, e, actions).1.wf(),
        run_control(pause, e, actions).1.len == e.len,
    decreases actions.len(),
{
    if actions.len() > 0 {
        let first = apply_action_spec(pause, e, actions[0]);
        assert(actions[0].wf());
        assert(first.1.wf());
        let rest = actions.drop_first();
        assert forall|i: int| 0 <= i < rest.len() implies (#[trigger] rest[i]).wf() by {
            assert(rest[i] == actions[i + 1]);
        }
        lemma_run_control_wf(first.0, first.1, rest);
    }
}

/// Law: after any nonempty sequence of volume actions — each level already
/// clamped — the engine's volume equals the last level applied.
pub proof fn lemma_volume_last_wins(pause: bool, e: EngineModel, actions: Seq<Action>)
    requires
        actions.len() > 0,
        forall|i: int| 0 <= i < actions.len() ==> (#[trigger] actions[i]) is SetVol,
    ensures
        run_control(pause, e, actions).1.volume == vol_level(actions.last()),
    decreases actions.len(),
{
    let first = apply_action_spec(pause, e, actions[0]);
    let rest = actions.drop_first();
    if actions.len() == 1 {
        assert(actions[0] is SetVol);
        assert(run_control(first.0, first.1, rest) == (first.0, first.1));
        assert(actions.last() == actions[0]);
    } else {
        assert forall|i: int| 0 <= i < rest.len() implies (#[trigger] rest[i]) is SetVol by {
            assert(rest[i] == actions[i + 1]);
        }
        lemma_volume_last_wins(first.0, first.1, rest);
        assert(rest.last() == actions.last());
    }
}

/// Law: any sequence of seek actions, of whatever magnitudes, leaves the
/// playback position within `[0, track length]` — clamping holds at both
/// boundaries.
pub proof fn lemma_seek_stays_on_track(pause: bool, e: EngineModel, actions: Seq<Action>)
    requires
        e.wf(),
        forall|i: int|
            0 <= i < actions.len() ==> ((#[trigger] actions[i]) is SeekForward || actions[i]
                is SeekBackward),
    ensures
        run_control(pause, e, actions).1.position <= run_control(pause, e, actions).1.len,
        run_control(pause, e, actions).1.len == e.len,
{
    assert forall|i: int| 0 <= i < actions.len() implies (#[trigger] actions[i]).wf() by {
        assert(actions[i] is SeekForward || actions[i] is SeekBackward);
    }
    lemma_run_control_wf(pause, e, actions);
}

/// Parity of pause toggles: a run of `n` toggle actions leaves the pause
/// mirror at its original value when `n` is even and at its negation when
/// `n` is odd, and after at least one toggle the engine's paused flag
/// agrees with the mirror.
pub proof fn lemma_toggle_parity(pause: bool, e: EngineModel, actions: Seq<Action>)
    requires
        forall|i: int| 0 <= i < actions.len() ==> (#[trigger] actions[i]) == Action::Pause,
    ensures
        run_control(pause, e, actions).0 == (if actions.len() % 2 == 0 {
            pause
        } else {
            !pause
        }),
        actions.len() > 0 ==> run_control(pause, e, actions).1.paused == run_control(
            pause,
            e,
            actions,
        ).0,
    decreases actions.len(),
{
    if actions.len() > 0 {
        assert(actions[0] == Action::Pause);
        let first = apply_action_spec(pause, e, actions[0]);
        let rest = actions.drop_first();
        assert forall|i: int| 0 <= i < rest.len() implies (#[trigger] rest[i]) == Action::Pause by {
            assert(rest[i] == actions[i + 1]);
        }
        lemma_toggle_parity(first.0, first.1, rest);
    }
}

/// Law: toggling pause an even number of times returns the pause state to
/// its original value — and the engine's paused flag along with it, when it
/// agreed with the mirror to begin with.
pub proof fn lemma_toggle_involution(pause: bool, e: EngineModel, actions: Seq<Action>)
    requires
        forall|i: int| 0 <= i < actions.len() ==> (#[trigger] actions[i]) == Action::Pause,
        actions.len() % 2 == 0,
    ensures
        run_control(pause, e, actions).0 == pause,
        e.paused == pause ==> run_control(pause, e, actions).1.paused == e.paused,
{
    lemma_toggle_parity(pause, e, actions);
}

/// Law: seeks and volume changes are self-transitions of the playback
/// state machine — any sequence of them leaves both the control task's
/// pause mirror and the engine's paused flag exactly as they were.
pub proof fn lemma_seek_and_volume_keep_pause(pause: bool, e: EngineModel, actions: Seq<Action>)
    requires
        forall|i: int|
            0 <= i < actions.len() ==> ((#[trigger] actions[i]) is SetVol || actions[i]
                is SeekForward || actions[i] is SeekBackward),
    ensures
        run_control(pause, e, actions).0 == pause,
        run_control(pause, e, actions).1.paused == e.paused,
    decreases actions.len(),
{
    if actions.len() > 0 {
        assert(actions[0] is SetVol || actions[0] is SeekForward || actions[0] is SeekBackward);
        let first = apply_action_spec(pause, e, actions[0]);
        let rest = actions.drop_first();
        assert forall|i: int|
            0 <= i < rest.len() implies ((#[trigger] rest[i]) is SetVol || rest[i] is SeekForward
            || rest[i] is SeekBackward) by {
            assert(rest[i] == actions[i + 1]);
        }
        lemma_seek_and_volume_keep_pause(first.0, first.1, rest);
    }
}

/// Law: whenever one control-task iteration terminates the task, its
/// effects are exactly to stop the engine and then to join the output task,
/// in that order and nothing else. The control task performs its effects in
/// order and terminates only afterwards, so the output task is always
/// observed terminated before the control task ends, and no background
/// activity survives shutdown.
pub proof fn lemma_exit_joins_output_first(
    pause: bool,
    received: Option<Action>,
    handle_present: bool,
    position: u64,
    len: u64,
)
    ensures
        step_exit_spec(received, handle_present) ==> step_effects_spec(
            pause,
            received,
            handle_present,
            position,
            len,
        ) == seq![Effect::Call(EngineCommand::Stop), Effect::JoinOutput],
        !step_exit_spec(received, handle_present) ==> !step_effects_spec(
            pause,
            received,
            handle_present,
            position,
            len,
        ).contains(Effect::JoinOutput),
{
    let effects = step_effects_spec(pause, received, handle_present, position, len);
    if step_exit_spec(received, handle_present) {
        assert(effects =~= seq![Effect::Call(EngineCommand::Stop), Effect::JoinOutput]);
    } else {
        match received {
            Some(a) => {
                if handle_present {
                    assert forall|i: int| 0 <= i < effects.len() implies (#[trigger] effects[i])
                        != Effect::JoinOutput by {}
                } else {
                    assert(effects.len() == 0);
                }
            },
            None => {
                assert(effects.len() == 0);
            },
        }
        assert(!effects.contains(Effect::JoinOutput));
    }
}

/// Law: while the local pause flag is set, tick pulses change nothing — in
/// particular the predicted position does not advance.
pub proof fn lemma_pause_freezes_prediction(d: DisplayState, pulses: Seq<u64>)
    requires
        d.pause,
    ensures
        run_ticks(d, pulses) == d,
    decreases pulses.len(),
{
    if pulses.len() > 0 {
        assert(d.tick_spec(pulses[0]) == d);
        lemma_pause_freezes_prediction(d, pulses.drop_first());
    }
}

/// Invariant preservation: any sequence of tick pulses keeps the display
/// state well formed, and changes nothing but the predicted position.
pub proof fn lemma_run_ticks_wf(d: DisplayState, pulses: Seq<u64>)
    requires
        d.wf(),
    ensures
        run_ticks(d, pulses).wf(),
        run_ticks(d, pulses) == (DisplayState { pos: run_ticks(d, pulses).pos, ..d }),
    decreases pulses.len(),
{
    if pulses.len() > 0 {
        assert(d.tick_spec(pulses[0]).wf());
        lemma_run_ticks_wf(d.tick_spec(pulses[0]), pulses.drop_first());
    }
}

} // verus!
