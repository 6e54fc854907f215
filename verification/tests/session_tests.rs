use kit::input::{InputEvent, Key, KeyModifier, KeyPress, PomoInput};
use kit::pomo::{Pomo, PomoSegment};
use kit::session::{EngineCommand, SessionController};

fn key(code: Key, modifier: KeyModifier) -> KeyPress {
    KeyPress { code, modifier }
}

#[test]
fn routing_recognized_keys() {
    assert_eq!(
        PomoInput::from_key(&key(Key::Character('h'), KeyModifier::Plain)),
        Some(PomoInput::Help)
    );
    assert_eq!(
        PomoInput::from_key(&key(Key::Character('?'), KeyModifier::Plain)),
        Some(PomoInput::Help)
    );
    assert_eq!(
        PomoInput::from_key(&key(Key::Character(' '), KeyModifier::Plain)),
        Some(PomoInput::Pause)
    );
    assert_eq!(
        PomoInput::from_key(&key(Key::Character('s'), KeyModifier::Plain)),
        Some(PomoInput::Skip)
    );
    assert_eq!(
        PomoInput::from_key(&key(Key::Escape, KeyModifier::Plain)),
        Some(PomoInput::Quit)
    );
    assert_eq!(
        PomoInput::from_key(&key(Key::Character('q'), KeyModifier::Plain)),
        Some(PomoInput::Quit)
    );
    assert_eq!(
        PomoInput::from_key(&key(Key::Character('c'), KeyModifier::Control)),
        Some(PomoInput::Quit)
    );
}

#[test]
fn routing_drops_everything_else() {
    // Modified `h`, `q`, `s` are not recognized.
    assert_eq!(PomoInput::from_key(&key(Key::Character('h'), KeyModifier::Control)), None);
    assert_eq!(PomoInput::from_key(&key(Key::Character('q'), KeyModifier::OtherModifier)), None);
    assert_eq!(PomoInput::from_key(&key(Key::Character('s'), KeyModifier::Control)), None);
    // Unrelated keys and non-keyboard events are dropped silently.
    assert_eq!(PomoInput::from_key(&key(Key::Character('x'), KeyModifier::Plain)), None);
    assert_eq!(PomoInput::from_key(&key(Key::Backspace, KeyModifier::Plain)), None);
    assert_eq!(PomoInput::from_event(&InputEvent::PointerInput), None);
    assert_eq!(PomoInput::from_event(&InputEvent::ResizeInput), None);
    assert_eq!(
        PomoInput::from_event(&InputEvent::KeyInput(key(Key::Escape, KeyModifier::Plain))),
        Some(PomoInput::Quit)
    );
}

#[test]
fn new_session_starts_at_the_first_work_segment() {
    let config = Pomo::new(25, 5, 15, 3);
    let controller = SessionController::new(&config);
    assert!(!controller.is_terminated());
    let snap = controller.snapshot(3);
    assert_eq!(snap.current_index, 0);
    assert_eq!(snap.total_ms, 1_500_000);
    assert_eq!(snap.remaining_ms, 1_500_000);
    assert!(!snap.paused);
    assert!(!snap.help_visible);
    assert_eq!(
        snap.upcoming,
        vec![PomoSegment::Work(25), PomoSegment::ShortBreak(5), PomoSegment::Work(25)]
    );
}

#[test]
fn help_toggles_without_touching_the_engine() {
    let config = Pomo::new(25, 5, 15, 3);
    let mut controller = SessionController::new(&config);
    let cmd = controller.handle_action(PomoInput::Help);
    assert_eq!(cmd, EngineCommand::NoCommand);
    assert!(controller.snapshot(1).help_visible);
    let cmd = controller.handle_action(PomoInput::Help);
    assert_eq!(cmd, EngineCommand::NoCommand);
    assert!(!controller.snapshot(1).help_visible);
}

#[test]
fn pause_toggles_and_propagates() {
    let config = Pomo::new(25, 5, 15, 3);
    let mut controller = SessionController::new(&config);
    let cmd = controller.handle_action(PomoInput::Pause);
    assert_eq!(cmd, EngineCommand::SetPaused(true));
    assert!(controller.snapshot(1).paused);
    let cmd = controller.handle_action(PomoInput::Pause);
    assert_eq!(cmd, EngineCommand::SetPaused(false));
    assert!(!controller.snapshot(1).paused);
}

#[test]
fn skip_cancels_and_advances_at_once() {
    let config = Pomo::new(25, 5, 15, 3);
    let mut controller = SessionController::new(&config);
    controller.handle_action(PomoInput::Pause);
    controller.observe_remaining(900_000);
    let cmd = controller.handle_action(PomoInput::Skip);
    assert_eq!(cmd, EngineCommand::CancelEngine);
    let snap = controller.snapshot(1);
    // The next segment is current immediately, with its full duration,
    // and the pause flag is reset.
    assert_eq!(snap.current_index, 1);
    assert_eq!(snap.total_ms, 300_000);
    assert_eq!(snap.remaining_ms, 300_000);
    assert!(!snap.paused);
}

#[test]
fn natural_completion_advances_like_skip_without_cancel() {
    let config = Pomo::new(25, 1, 1, 1);
    let mut controller = SessionController::new(&config);
    controller.on_engine_completed();
    assert_eq!(controller.snapshot(1).current_index, 1);
    assert_eq!(controller.current_duration_ms(), 60_000);
    // Advancing past the end of the period wraps around to the start.
    controller.on_engine_completed();
    assert_eq!(controller.snapshot(1).current_index, 0);
    assert_eq!(controller.current_duration_ms(), 1_500_000);
}

#[test]
fn snapshot_clock_splits_minutes_and_seconds() {
    let config = Pomo::new(25, 5, 15, 3);
    let mut controller = SessionController::new(&config);
    controller.observe_remaining(1_499_000);
    assert_eq!(controller.snapshot(1).remaining_clock(), (24, 59));
    controller.observe_remaining(60_000);
    assert_eq!(controller.snapshot(1).remaining_clock(), (1, 0));
    controller.observe_remaining(999);
    assert_eq!(controller.snapshot(1).remaining_clock(), (0, 0));
}

#[test]
fn quit_terminates_the_session() {
    let config = Pomo::new(25, 5, 15, 3);
    let mut controller = SessionController::new(&config);
    let cmd = controller.handle_action(PomoInput::Quit);
    assert_eq!(cmd, EngineCommand::NoCommand);
    assert!(controller.is_terminated());
}

#[test]
fn observing_remaining_updates_only_the_sample() {
    let config = Pomo::new(25, 5, 15, 3);
    let mut controller = SessionController::new(&config);
    controller.observe_remaining(1_234_000);
    let snap = controller.snapshot(1);
    assert_eq!(snap.remaining_ms, 1_234_000);
    assert_eq!(snap.current_index, 0);
    assert!(!snap.paused);
}
