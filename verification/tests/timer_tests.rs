use tomotroid::scheduler::RoundScheduler;
use tomotroid::timer::{RoundConfig, TimerEngine, TimerPhase};

const MIN: u64 = 60_000;

fn classic_config() -> RoundConfig {
    RoundConfig::new(25 * MIN, 5 * MIN, 15 * MIN, 4).expect("classic durations are valid")
}

#[test]
fn new_engine_is_focus_round_one_stopped() {
    let engine = TimerEngine::new(classic_config());
    assert_eq!(engine.phase(), TimerPhase::Focus);
    assert_eq!(engine.active_round(), 1);
    assert_eq!(engine.remaining_ms(), 25 * MIN);
    assert_eq!(engine.target_ms(), 25 * MIN);
    assert!(!engine.is_running());
}

#[test]
fn tick_while_stopped_is_noop() {
    let mut engine = TimerEngine::new(classic_config());
    let outcome = engine.tick(5000);
    assert!(!outcome.completed);
    assert_eq!(outcome.second_cues, 0);
    assert_eq!(engine.remaining_ms(), 25 * MIN);
}

#[test]
fn stop_preserves_remaining_time() {
    let mut engine = TimerEngine::new(classic_config());
    engine.start();
    engine.tick(90_000);
    engine.stop();
    assert_eq!(engine.remaining_ms(), 25 * MIN - 90_000);
    let outcome = engine.tick(1000);
    assert!(!outcome.completed);
    assert_eq!(engine.remaining_ms(), 25 * MIN - 90_000);
}

#[test]
fn reset_restores_target_without_changing_phase() {
    let mut engine = TimerEngine::new(classic_config());
    engine.start();
    engine.tick(120_000);
    engine.reset();
    assert_eq!(engine.phase(), TimerPhase::Focus);
    assert_eq!(engine.active_round(), 1);
    assert_eq!(engine.remaining_ms(), 25 * MIN);
    assert!(!engine.is_running());
}

#[test]
fn exact_tick_sum_completes_exactly_once() {
    let config = RoundConfig::new(1000, 500, 700, 2).unwrap();
    let mut engine = TimerEngine::new(config);
    engine.start();
    let mut completions = 0;
    for _ in 0..20 {
        if engine.tick(50).completed {
            completions += 1;
        }
    }
    assert_eq!(engine.remaining_ms(), 0);
    assert_eq!(completions, 1);
    // once completed, further ticks change nothing and complete nothing
    let outcome = engine.tick(50);
    assert!(!outcome.completed);
    assert_eq!(engine.remaining_ms(), 0);
}

#[test]
fn overshooting_tick_clamps_to_zero() {
    let config = RoundConfig::new(1000, 500, 700, 2).unwrap();
    let mut engine = TimerEngine::new(config);
    engine.start();
    let outcome = engine.tick(86_400_000);
    assert!(outcome.completed);
    assert_eq!(engine.remaining_ms(), 0);
    assert!(!engine.is_running());
    assert!(!engine.tick(86_400_000).completed);
}

#[test]
fn second_cues_follow_accumulated_time_not_call_count() {
    let config = classic_config();
    let mut engine = TimerEngine::new(config);
    engine.start();
    let mut cues = 0;
    for _ in 0..19 {
        cues += engine.tick(50).second_cues;
    }
    assert_eq!(cues, 0);
    assert_eq!(engine.tick(50).second_cues, 1);
    // jitter: 999 + 1 crosses one boundary, a long tick crosses several
    assert_eq!(engine.tick(999).second_cues, 0);
    assert_eq!(engine.tick(1).second_cues, 1);
    assert_eq!(engine.tick(2500).second_cues, 2);
    assert_eq!(engine.tick(500).second_cues, 1);
}

#[test]
fn progress_runs_from_zero_to_thousand() {
    let config = RoundConfig::new(1000, 500, 700, 2).unwrap();
    let mut engine = TimerEngine::new(config);
    assert_eq!(engine.progress_permille(), 0);
    engine.start();
    engine.tick(250);
    assert_eq!(engine.progress_permille(), 250);
    engine.tick(750);
    assert_eq!(engine.progress_permille(), 1000);
}

#[test]
fn auto_start_policy_gates_transitions() {
    // the classic scenario: breaks auto-start, work does not
    let config = classic_config();
    let scheduler = RoundScheduler { auto_start_break: true, auto_start_work: false };
    let mut engine = TimerEngine::new(config);
    engine.start();
    let outcome = engine.tick(25 * MIN);
    assert!(outcome.completed);
    let note = scheduler.advance(&mut engine);
    assert_eq!(engine.phase(), TimerPhase::ShortBreak);
    assert_eq!(engine.active_round(), 1);
    assert!(engine.is_running(), "a break auto-starts");
    assert_eq!(note.title, "Focus Round Complete");
    assert_eq!(note.body, "Begin a 5 minute short break.");

    let outcome = engine.tick(5 * MIN);
    assert!(outcome.completed);
    let note = scheduler.advance(&mut engine);
    assert_eq!(engine.phase(), TimerPhase::Focus);
    assert_eq!(engine.active_round(), 2);
    assert!(!engine.is_running(), "focus does not auto-start");
    assert_eq!(note.title, "Break Finished");
    assert_eq!(note.body, "Begin focusing for 25 minutes.");
}

#[test]
fn long_break_notification_states_minutes() {
    let config = classic_config();
    let scheduler = RoundScheduler { auto_start_break: false, auto_start_work: false };
    let mut engine = TimerEngine::new(config);
    for _ in 0..3 {
        scheduler.advance(&mut engine); // into a short break
        scheduler.advance(&mut engine); // back into focus
    }
    assert_eq!(engine.active_round(), 4);
    let note = scheduler.advance(&mut engine);
    assert_eq!(engine.phase(), TimerPhase::LongBreak);
    assert_eq!(engine.active_round(), 1);
    assert_eq!(note.title, "Focus Round Complete");
    assert_eq!(note.body, "Begin a 15 minute long break.");
}

#[test]
fn full_cycle_is_periodic() {
    // Focus,Short,Focus,Short,Focus,Short,Focus,Long and back to the start
    let config = classic_config();
    let scheduler = RoundScheduler { auto_start_break: false, auto_start_work: false };
    let mut engine = TimerEngine::new(config);
    let mut phases = Vec::new();
    for _ in 0..8 {
        phases.push(engine.phase());
        scheduler.advance(&mut engine);
    }
    assert_eq!(
        phases,
        vec![
            TimerPhase::Focus,
            TimerPhase::ShortBreak,
            TimerPhase::Focus,
            TimerPhase::ShortBreak,
            TimerPhase::Focus,
            TimerPhase::ShortBreak,
            TimerPhase::Focus,
            TimerPhase::LongBreak,
        ]
    );
    assert_eq!(engine.phase(), TimerPhase::Focus);
    assert_eq!(engine.active_round(), 1);
}

#[test]
fn skip_forces_the_same_transition() {
    let config = classic_config();
    let scheduler = RoundScheduler { auto_start_break: false, auto_start_work: true };
    let mut engine = TimerEngine::new(config);
    engine.start();
    engine.tick(1000);
    let note = scheduler.skip(&mut engine);
    assert_eq!(engine.phase(), TimerPhase::ShortBreak);
    assert_eq!(engine.remaining_ms(), 5 * MIN);
    assert!(!engine.is_running());
    assert_eq!(note.title, "Focus Round Complete");
}

#[test]
fn round_config_rejects_invalid_values() {
    assert!(RoundConfig::new(0, 1, 1, 1).is_none());
    assert!(RoundConfig::new(1, 0, 1, 1).is_none());
    assert!(RoundConfig::new(1, 1, 0, 1).is_none());
    assert!(RoundConfig::new(1, 1, 1, 0).is_none());
    assert!(RoundConfig::new(1, 1, u64::MAX, 1).is_none());
    assert!(RoundConfig::new(1, 1, 1, 1).is_some());
}

#[test]
fn notification_minutes_are_truncated() {
    // 90 s short break reads as 1 minute; a 59.999 s focus as 0 minutes
    let config = RoundConfig::new(59_999, 90_000, 15 * MIN, 4).unwrap();
    let scheduler = RoundScheduler { auto_start_break: false, auto_start_work: false };
    let mut engine = TimerEngine::new(config);
    let note = scheduler.advance(&mut engine);
    assert_eq!(note.body, "Begin a 1 minute short break.");
    let note = scheduler.advance(&mut engine);
    assert_eq!(note.body, "Begin focusing for 0 minutes.");
}
