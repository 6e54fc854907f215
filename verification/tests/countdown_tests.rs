use kit::countdown::CountdownEngine;

#[test]
fn uninterrupted_run_emits_ceil_of_duration_over_tick() {
    // Duration 1000 ms, tick 100 ms: exactly 10 emissions, descending
    // from 900 to 0.
    let mut engine = CountdownEngine::start(1000);
    let mut emitted: Vec<u64> = Vec::new();
    while !engine.is_finished() {
        if let Some(v) = engine.tick() {
            emitted.push(v);
        }
    }
    assert_eq!(emitted, vec![900, 800, 700, 600, 500, 400, 300, 200, 100, 0]);
}

#[test]
fn uninterrupted_run_rounds_the_tick_count_up() {
    // Duration 250 ms: ceil(250 / 100) = 3 emissions, non-increasing,
    // ending at zero.
    let mut engine = CountdownEngine::start(250);
    let mut emitted: Vec<u64> = Vec::new();
    while !engine.is_finished() {
        if let Some(v) = engine.tick() {
            emitted.push(v);
        }
    }
    assert_eq!(emitted, vec![150, 50, 0]);
}

#[test]
fn paused_engine_neither_advances_nor_emits() {
    let mut engine = CountdownEngine::start(1000);
    engine.tick();
    let before = engine.remaining();
    engine.set_paused(true);
    // Two consecutive samples without a resume between them are equal.
    assert_eq!(engine.tick(), None);
    let first_sample = engine.remaining();
    assert_eq!(engine.tick(), None);
    let second_sample = engine.remaining();
    assert_eq!(first_sample, before);
    assert_eq!(first_sample, second_sample);
    assert!(!engine.is_finished());
    // After a resume, ticking advances again.
    engine.set_paused(false);
    assert_eq!(engine.tick(), Some(800));
}

#[test]
fn cancelled_engine_emits_no_further_values() {
    let mut engine = CountdownEngine::start(300);
    assert_eq!(engine.tick(), Some(200));
    engine.cancel();
    assert!(engine.is_finished());
    assert_eq!(engine.tick(), None);
    assert_eq!(engine.tick(), None);
}

#[test]
fn cancel_wins_a_race_with_completion() {
    // One tick short of completion: a cancel issued before that tick
    // ends the engine without the final zero-remaining emission.
    let mut engine = CountdownEngine::start(200);
    assert_eq!(engine.tick(), Some(100));
    engine.cancel();
    assert_eq!(engine.tick(), None);
    assert!(engine.is_finished());
}

#[test]
fn cancel_while_paused_takes_effect_at_once() {
    let mut engine = CountdownEngine::start(500);
    engine.set_paused(true);
    engine.cancel();
    assert!(engine.is_finished());
    assert_eq!(engine.tick(), None);
}
