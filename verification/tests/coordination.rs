use playback_core::action::Action;
use playback_core::action::SEEK_STEP_MS;
use playback_core::action::TICK_MS;
use playback_core::action::VOL_MAX;
use playback_core::action::VOL_STEP;
use playback_core::control::handle_action;
use playback_core::control::ControlState;
use playback_core::control::Effect;
use playback_core::control::StepResult;
use playback_core::display::DisplayState;
use playback_core::display::Key;
use playback_core::engine::EngineCommand;
use playback_core::engine::EngineModel;
use playback_core::handle::HandleSlot;

const LEN: u64 = 120_000;

fn fresh_display() -> DisplayState {
    DisplayState::new(5, LEN, String::from("track"))
}

/// Drive one full control iteration against the engine model, the way the
/// control task's loop does: poll result in, effects carried out in order.
fn drive(control: &mut ControlState, engine: &mut EngineModel, received: Option<Action>) -> StepResult {
    let r = control.step(received, true, engine.position, engine.len);
    for e in &r.effects {
        match e {
            Effect::Call(cmd) => engine.apply(*cmd),
            Effect::JoinOutput => {}
        }
    }
    r
}

#[test]
fn volume_last_applied_wins() {
    let mut control = ControlState::new();
    let mut engine = EngineModel::new(LEN, 5);
    for v in [30u32, 70, 50] {
        drive(&mut control, &mut engine, Some(Action::SetVol(v)));
    }
    assert_eq!(engine.volume, 50);
}

#[test]
fn seek_forward_clamps_at_track_end() {
    let mut pause = false;
    let cmd = handle_action(&mut pause, 118_000, LEN, &Action::SeekForward(5_000));
    assert_eq!(cmd, EngineCommand::Seek(120_000));
}

#[test]
fn seek_backward_clamps_at_track_start() {
    let mut pause = false;
    let cmd = handle_action(&mut pause, 2_000, LEN, &Action::SeekBackward(5_000));
    assert_eq!(cmd, EngineCommand::Seek(0));
}

#[test]
fn dispatching_exit_is_a_no_op_on_the_pause_mirror() {
    let mut pause = true;
    let cmd = handle_action(&mut pause, 1_000, LEN, &Action::Exit);
    assert_eq!(cmd, EngineCommand::Stop);
    assert!(pause);
    let mut pause = false;
    let cmd = handle_action(&mut pause, 1_000, LEN, &Action::Exit);
    assert_eq!(cmd, EngineCommand::Stop);
    assert!(!pause);
}

#[test]
fn seek_sequence_stays_on_track() {
    let mut control = ControlState::new();
    let mut engine = EngineModel::new(LEN, 5);
    let actions = [
        Action::SeekForward(u64::MAX),
        Action::SeekBackward(1),
        Action::SeekBackward(u64::MAX),
        Action::SeekForward(7_000),
        Action::SeekForward(LEN),
    ];
    for a in actions {
        drive(&mut control, &mut engine, Some(a));
        assert!(engine.position <= engine.len);
    }
    assert_eq!(engine.len, LEN);
}

#[test]
fn toggle_pause_twice_restores_state() {
    let mut control = ControlState::new();
    let mut engine = EngineModel::new(LEN, 5);
    assert!(!control.pause);
    drive(&mut control, &mut engine, Some(Action::Pause));
    assert!(control.pause);
    assert!(engine.paused);
    drive(&mut control, &mut engine, Some(Action::Pause));
    assert!(!control.pause);
    assert!(!engine.paused);
}

#[test]
fn exit_stops_engine_then_joins_output() {
    let mut control = ControlState::new();
    let mut engine = EngineModel::new(LEN, 5);
    let r = drive(&mut control, &mut engine, Some(Action::Exit));
    assert!(r.exit);
    assert_eq!(
        r.effects,
        vec![Effect::Call(EngineCommand::Stop), Effect::JoinOutput]
    );
    assert!(engine.stopped);
}

#[test]
fn non_exit_actions_do_not_end_the_task() {
    let mut control = ControlState::new();
    let mut engine = EngineModel::new(LEN, 5);
    for a in [Action::SetVol(10), Action::SeekForward(100), Action::Pause] {
        let r = drive(&mut control, &mut engine, Some(a));
        assert!(!r.exit);
        assert!(!r.effects.contains(&Effect::JoinOutput));
    }
}

#[test]
fn seeks_and_volume_changes_keep_the_pause_state() {
    let mut control = ControlState::new();
    let mut engine = EngineModel::new(LEN, 5);
    drive(&mut control, &mut engine, Some(Action::Pause));
    assert!(control.pause && engine.paused);
    for a in [
        Action::SeekForward(9_000),
        Action::SetVol(40),
        Action::SeekBackward(1_000),
    ] {
        drive(&mut control, &mut engine, Some(a));
    }
    assert!(control.pause);
    assert!(engine.paused);
}

#[test]
fn action_before_handle_published_is_dropped() {
    let mut control = ControlState::new();
    let r = control.step(Some(Action::Pause), false, 0, LEN);
    assert!(!r.exit);
    assert!(r.effects.is_empty());
    assert!(!control.pause);
}

#[test]
fn empty_poll_is_idle() {
    let mut control = ControlState::new();
    let r = control.step(None, true, 0, LEN);
    assert!(!r.exit);
    assert!(r.effects.is_empty());
}

#[test]
fn tick_scenario_with_pause_freeze() {
    let mut d = fresh_display();
    for _ in 0..3 {
        d.apply_tick(TICK_MS);
    }
    assert_eq!(d.pos, 3_000);
    assert_eq!(d.handle_key(Key::Pause), Some(Action::Pause));
    d.apply_tick(TICK_MS);
    d.apply_tick(TICK_MS);
    assert_eq!(d.pos, 3_000);
    assert_eq!(d.handle_key(Key::Pause), Some(Action::Pause));
    d.apply_tick(TICK_MS);
    assert_eq!(d.pos, 4_000);
}

#[test]
fn tick_clamps_at_track_end() {
    let mut d = fresh_display();
    d.pos = LEN - 500;
    d.apply_tick(TICK_MS);
    assert_eq!(d.pos, LEN);
}

#[test]
fn tick_wraps_once_position_reached_the_end() {
    let mut d = fresh_display();
    d.pos = LEN;
    d.apply_tick(TICK_MS);
    assert_eq!(d.pos, 0);
    d.apply_tick(TICK_MS);
    assert_eq!(d.pos, TICK_MS);
}

#[test]
fn tick_on_zero_length_track_stays_at_start() {
    let mut d = DisplayState::new(0, 0, String::from("empty"));
    d.apply_tick(TICK_MS);
    assert_eq!(d.pos, 0);
}

#[test]
fn volume_up_clamps_at_full_scale() {
    let mut d = fresh_display();
    d.vol = 98;
    let a = d.handle_key(Key::Up);
    assert_eq!(d.vol, 100);
    assert_eq!(a, Some(Action::SetVol(100)));
}

#[test]
fn volume_down_clamps_at_zero() {
    let mut d = fresh_display();
    d.vol = 3;
    let a = d.handle_key(Key::Down);
    assert_eq!(d.vol, 0);
    assert_eq!(a, Some(Action::SetVol(0)));
}

#[test]
fn volume_steps_track_the_fixed_step() {
    let mut d = fresh_display();
    let a = d.handle_key(Key::Up);
    assert_eq!(d.vol, 5 + VOL_STEP);
    assert_eq!(a, Some(Action::SetVol(5 + VOL_STEP)));
    assert!(d.vol <= VOL_MAX);
}

#[test]
fn seek_keys_update_prediction_and_send_the_step() {
    let mut d = fresh_display();
    let a = d.handle_key(Key::Right);
    assert_eq!(d.pos, SEEK_STEP_MS);
    assert_eq!(a, Some(Action::SeekForward(SEEK_STEP_MS)));
    let a = d.handle_key(Key::Left);
    assert_eq!(d.pos, 0);
    assert_eq!(a, Some(Action::SeekBackward(SEEK_STEP_MS)));
}

#[test]
fn seek_key_prediction_clamps_at_end() {
    let mut d = fresh_display();
    d.pos = LEN - 1;
    let a = d.handle_key(Key::Right);
    assert_eq!(d.pos, LEN);
    assert_eq!(a, Some(Action::SeekForward(SEEK_STEP_MS)));
}

#[test]
fn quit_key_sets_exit_and_sends_nothing() {
    let mut d = fresh_display();
    let a = d.handle_key(Key::Quit);
    assert!(d.exit);
    assert_eq!(a, None);
}

#[test]
fn pause_key_flips_local_flag() {
    let mut d = fresh_display();
    assert!(!d.pause);
    d.handle_key(Key::Pause);
    assert!(d.pause);
    d.handle_key(Key::Pause);
    assert!(!d.pause);
}

#[test]
fn is_exit_detects_only_exit() {
    assert!(Action::Exit.is_exit());
    assert!(!Action::Pause.is_exit());
    assert!(!Action::SetVol(0).is_exit());
    assert!(!Action::SeekForward(0).is_exit());
    assert!(!Action::SeekBackward(0).is_exit());
}

#[test]
fn handle_is_published_exactly_once() {
    let mut slot = HandleSlot::new();
    assert_eq!(slot.current(), None);
    slot.publish(7);
    assert_eq!(slot.current(), Some(7));
}

#[test]
fn engine_commands_have_their_stated_meaning() {
    let mut e = EngineModel::new(LEN, 5);
    e.apply(EngineCommand::Seek(42_000));
    assert_eq!(e.position, 42_000);
    e.apply(EngineCommand::SetPause(true));
    assert!(e.paused);
    e.apply(EngineCommand::SetVolume(80));
    assert_eq!(e.volume, 80);
    assert!(!e.stopped);
    e.apply(EngineCommand::Stop);
    assert!(e.stopped);
    assert_eq!(e.len, LEN);
}
