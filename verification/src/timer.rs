//! The round/timer state machine: the authoritative model of which phase
//! is active, how many focus rounds have elapsed, how remaining time is
//! decremented, and when a phase completes.
//!
//! The engine is tick-driven: a caller-chosen cadence hands in elapsed
//! milliseconds, the engine clamps remaining time at zero and reports
//! completion exactly once per phase run. A sub-second accumulator turns
//! the irregular tick stream into whole-second cues for the audible tick,
//! independent of the caller's cadence.

use vstd::arithmetic::div_mod::{lemma_fundamental_div_mod, lemma_fundamental_div_mod_converse,
    lemma_mod_bound};
use vstd::prelude::*;

verus! {

/// Durations are capped so that permille arithmetic cannot overflow.
pub const MAX_DURATION_MS: u64 = 0xFFFF_FFFF;

/// The durations of the three phases and the number of focus rounds
/// before a long break.
#[derive(Clone, Copy, PartialEq, Eq, Structural, Debug)]
pub struct RoundConfig {
    pub focus_ms: u64,
    pub short_break_ms: u64,
    pub long_break_ms: u64,
    pub rounds_until_long_break: u32,
}

/// The phase the timer is in.
#[derive(Clone, Copy, PartialEq, Eq, Structural, Debug)]
pub enum TimerPhase {
    Focus,
    ShortBreak,
    LongBreak,
}

impl RoundConfig {
    /// All durations are positive and bounded, and at least one focus
    /// round precedes the long break.
    pub open spec fn wf(self) -> bool {
        0 < self.focus_ms <= MAX_DURATION_MS && 0 < self.short_break_ms <= MAX_DURATION_MS && 0
            < self.long_break_ms <= MAX_DURATION_MS && 1 <= self.rounds_until_long_break
    }

    /// The configured duration of a phase.
    pub open spec fn duration_for(self, phase: TimerPhase) -> u64 {
        match phase {
            TimerPhase::Focus => self.focus_ms,
            TimerPhase::ShortBreak => self.short_break_ms,
            TimerPhase::LongBreak => self.long_break_ms,
        }
    }

    /// Builds a configuration; rejects a zero or oversized duration and a
    /// zero round count.
    pub fn new(focus_ms: u64, short_break_ms: u64, long_break_ms: u64, rounds_until_long_break: u32)
        -> (r: Option<RoundConfig>)
        ensures
            r is Some <==> (RoundConfig {
                focus_ms,
                short_break_ms,
                long_break_ms,
                rounds_until_long_break,
            }).wf(),
            r is Some ==> r->0 == (RoundConfig {
                focus_ms,
                short_break_ms,
                long_break_ms,
                rounds_until_long_break,
            }),
    {
        if 0 < focus_ms && focus_ms <= MAX_DURATION_MS && 0 < short_break_ms && short_break_ms
            <= MAX_DURATION_MS && 0 < long_break_ms && long_break_ms <= MAX_DURATION_MS && 1
            <= rounds_until_long_break {
            Some(RoundConfig { focus_ms, short_break_ms, long_break_ms, rounds_until_long_break })
        } else {
            None
        }
    }
}

/// The mathematical state of the timer engine.
pub struct TimerModel {
    pub config: RoundConfig,
    pub phase: TimerPhase,
    pub active_round: u32,
    pub target_ms: u64,
    pub remaining_ms: u64,
    pub running: bool,
    pub cue_acc_ms: u64,
}

impl TimerModel {
    /// The engine's invariant: the configuration is well formed, the
    /// active round stays in range (strictly below the round count during
    /// a short break, which is always followed by one more focus round),
    /// the target matches the phase's configured duration, remaining time
    /// never exceeds it, and the cue accumulator holds less than one
    /// second.
    pub open spec fn inv(self) -> bool {
        self.config.wf() && 1 <= self.active_round
            <= self.config.rounds_until_long_break && (self.phase is ShortBreak
            ==> self.active_round < self.config.rounds_until_long_break) && self.target_ms
            == self.config.duration_for(self.phase) && self.remaining_ms <= self.target_ms
            && self.cue_acc_ms < 1000
    }
}

/// What one `tick` call reports: how many whole-second boundaries the
/// accumulated elapsed time crossed, and whether the phase completed.
#[derive(Clone, Copy, PartialEq, Eq, Structural, Debug)]
pub struct TickOutcome {
    pub second_cues: u64,
    pub completed: bool,
}

/// The meaning of one `tick` call: no effect while stopped or once
/// remaining time is zero; otherwise remaining time drops by the elapsed
/// milliseconds, clamped at zero, the cue accumulator advances modulo one
/// second, and reaching zero stops the engine and completes the phase.
pub open spec fn tick_spec(m: TimerModel, elapsed_ms: u64) -> (TimerModel, TickOutcome) {
    if !m.running || m.remaining_ms == 0 {
        (m, TickOutcome { second_cues: 0, completed: false })
    } else {
        let total = m.cue_acc_ms + elapsed_ms;
        let completed = elapsed_ms >= m.remaining_ms;
        let next = TimerModel {
            remaining_ms: if completed {
                0
            } else {
                (m.remaining_ms - elapsed_ms) as u64
            },
            running: !completed,
            cue_acc_ms: (total % 1000) as u64,
            ..m
        };
        (next, TickOutcome { second_cues: (total / 1000) as u64, completed })
    }
}

/// The tick-driven countdown engine.
pub struct TimerEngine {
    config: RoundConfig,
    phase: TimerPhase,
    active_round: u32,
    target_ms: u64,
    remaining_ms: u64,
    running: bool,
    cue_acc_ms: u64,
}

impl View for TimerEngine {
    type V = TimerModel;

    closed spec fn view(&self) -> TimerModel {
        TimerModel {
            config: self.config,
            phase: self.phase,
            active_round: self.active_round,
            target_ms: self.target_ms,
            remaining_ms: self.remaining_ms,
            running: self.running,
            cue_acc_ms: self.cue_acc_ms,
        }
    }
}

impl TimerEngine {
    /// The engine's invariant, stated of its model.
    pub open spec fn inv(&self) -> bool {
        self@.inv()
    }

    /// A fresh engine: focus phase, first round, full remaining time,
    /// stopped.
    pub fn new(config: RoundConfig) -> (r: TimerEngine)
        requires
            config.wf(),
        ensures
            r.inv(),
            r@ == (TimerModel {
                config,
                phase: TimerPhase::Focus,
                active_round: 1,
                target_ms: config.focus_ms,
                remaining_ms: config.focus_ms,
                running: false,
                cue_acc_ms: 0,
            }),
    {
        TimerEngine {
            config,
            phase: TimerPhase::Focus,
            active_round: 1,
            target_ms: config.focus_ms,
            remaining_ms: config.focus_ms,
            running: false,
            cue_acc_ms: 0,
        }
    }

    /// The configuration the engine was built with.
    pub fn config(&self) -> (r: RoundConfig)
        ensures
            r == self@.config,
    {
        self.config
    }

    /// The active phase.
    pub fn phase(&self) -> (r: TimerPhase)
        ensures
            r == self@.phase,
    {
        self.phase
    }

    /// The focus round the cycle is in, starting at 1.
    pub fn active_round(&self) -> (r: u32)
        ensures
            r == self@.active_round,
    {
        self.active_round
    }

    /// The full duration of the active phase.
    pub fn target_ms(&self) -> (r: u64)
        ensures
            r == self@.target_ms,
    {
        self.target_ms
    }

    /// The time left in the active phase.
    pub fn remaining_ms(&self) -> (r: u64)
        ensures
            r == self@.remaining_ms,
    {
        self.remaining_ms
    }

    /// Whether ticks are currently consumed.
    pub fn is_running(&self) -> (r: bool)
        ensures
            r == self@.running,
    {
        self.running
    }

    /// How far the active phase has progressed, in thousandths.
    pub fn progress_permille(&self) -> (r: u64)
        requires
            self.inv(),
        ensures
            r == (self@.target_ms - self@.remaining_ms) * 1000 / (self@.target_ms as int),
    {
        (self.target_ms - self.remaining_ms) * 1000 / self.target_ms
    }

    /// Starts the countdown; a no-op while already running.
    pub fn start(&mut self)
        requires
            old(self).inv(),
        ensures
            final(self).inv(),
            final(self)@ == (TimerModel { running: true, ..old(self)@ }),
    {
        self.running = true;
    }

    /// Pauses the countdown; remaining time is preserved.
    pub fn stop(&mut self)
        requires
            old(self).inv(),
        ensures
            final(self).inv(),
            final(self)@ == (TimerModel { running: false, ..old(self)@ }),
    {
        self.running = false;
    }

    /// Restarts the active phase from the top: stopped, with full
    /// remaining time; phase and round are unchanged.
    pub fn reset(&mut self)
        requires
            old(self).inv(),
        ensures
            final(self).inv(),
            final(self)@ == (TimerModel {
                running: false,
                remaining_ms: old(self)@.target_ms,
                cue_acc_ms: 0,
                ..old(self)@
            }),
    {
        self.running = false;
        self.remaining_ms = self.target_ms;
        self.cue_acc_ms = 0;
    }

    /// Reconfigures the engine for a phase: full remaining time, a fresh
    /// cue accumulator, and the given round and running state. This is
    /// the transition the round scheduler applies when a phase completes.
    pub fn begin_phase(&mut self, phase: TimerPhase, active_round: u32, running: bool)
        requires
            old(self).inv(),
            1 <= active_round <= old(self)@.config.rounds_until_long_break,
            phase is ShortBreak ==> active_round < old(self)@.config.rounds_until_long_break,
        ensures
            final(self).inv(),
            final(self)@ == (TimerModel {
                phase,
                active_round,
                target_ms: old(self)@.config.duration_for(phase),
                remaining_ms: old(self)@.config.duration_for(phase),
                running,
                cue_acc_ms: 0,
                ..old(self)@
            }),
    {
        let target = match phase {
            TimerPhase::Focus => self.config.focus_ms,
            TimerPhase::ShortBreak => self.config.short_break_ms,
            TimerPhase::LongBreak => self.config.long_break_ms,
        };
        self.phase = phase;
        self.active_round = active_round;
        self.target_ms = target;
        self.remaining_ms = target;
        self.running = running;
        self.cue_acc_ms = 0;
    }

    /// Advances the countdown by `elapsed_ms` milliseconds, per
    /// [`tick_spec`]: remaining time is clamped at zero, never negative,
    /// and the phase completes exactly when the elapsed time reaches the
    /// remaining time. While stopped, a tick is a no-op, not an error.
    pub fn tick(&mut self, elapsed_ms: u64) -> (outcome: TickOutcome)
        requires
            old(self).inv(),
        ensures
            final(self).inv(),
            (final(self)@, outcome) == tick_spec(old(self)@, elapsed_ms),
            outcome.completed <==> (old(self)@.running && 0 < old(self)@.remaining_ms
                <= elapsed_ms),
            outcome.completed ==> final(self)@.remaining_ms == 0 && !final(self)@.running,
    {
        if !self.running || self.remaining_ms == 0 {
            return TickOutcome { second_cues: 0, completed: false };
        }
        let q = elapsed_ms / 1000;
        let r = elapsed_ms % 1000;
        let sub = r + self.cue_acc_ms;
        proof {
            lemma_fundamental_div_mod(elapsed_ms as int, 1000);
        }
        let (cues, acc) = if sub < 1000 {
            proof {
                lemma_fundamental_div_mod_converse(
                    old(self)@.cue_acc_ms + elapsed_ms,
                    1000,
                    q as int,
                    sub as int,
                );
            }
            (q, sub)
        } else {
            proof {
                lemma_fundamental_div_mod_converse(
                    old(self)@.cue_acc_ms + elapsed_ms,
                    1000,
                    q + 1,
                    sub - 1000,
                );
            }
            (q + 1, sub - 1000)
        };
        self.cue_acc_ms = acc;
        let completed = elapsed_ms >= self.remaining_ms;
        if completed {
            self.remaining_ms = 0;
            self.running = false;
        } else {
            self.remaining_ms = self.remaining_ms - elapsed_ms;
        }
        TickOutcome { second_cues: cues, completed }
    }
}

/// The total of a sequence of elapsed milliseconds.
pub open spec fn sum_elapsed(ticks: Seq<u64>) -> int
    decreases ticks.len(),
{
    if ticks.len() == 0 {
        0
    } else {
        ticks[0] + sum_elapsed(ticks.drop_first())
    }
}

/// The model after a sequence of ticks.
pub open spec fn run_ticks(m: TimerModel, ticks: Seq<u64>) -> TimerModel
    decreases ticks.len(),
{
    if ticks.len() == 0 {
        m
    } else {
        run_ticks(tick_spec(m, ticks[0]).0, ticks.drop_first())
    }
}

/// How many of the ticks completed a phase.
pub open spec fn count_completions(m: TimerModel, ticks: Seq<u64>) -> int
    decreases ticks.len(),
{
    if ticks.len() == 0 {
        0int
    } else {
        (if tick_spec(m, ticks[0]).1.completed {
            1int
        } else {
            0int
        }) + count_completions(tick_spec(m, ticks[0]).0, ticks.drop_first())
    }
}

/// A sum of unsigned elapsed times is never negative.
proof fn lemma_sum_elapsed_nonneg(ticks: Seq<u64>)
    ensures
        sum_elapsed(ticks) >= 0,
    decreases ticks.len(),
{
    if ticks.len() > 0 {
        lemma_sum_elapsed_nonneg(ticks.drop_first());
    }
}

/// A stopped engine ignores every tick.
proof fn lemma_stopped_ticks_noop(m: TimerModel, ticks: Seq<u64>)
    requires
        !m.running,
    ensures
        run_ticks(m, ticks) == m,
        count_completions(m, ticks) == 0,
    decreases ticks.len(),
{
    if ticks.len() > 0 {
        lemma_stopped_ticks_noop(m, ticks.drop_first());
    }
}

/// A tick preserves the engine's invariant.
proof fn lemma_tick_spec_inv(m: TimerModel, elapsed_ms: u64)
    requires
        m.inv(),
    ensures
        tick_spec(m, elapsed_ms).0.inv(),
{
    if m.running && m.remaining_ms > 0 {
        lemma_mod_bound(m.cue_acc_ms + elapsed_ms, 1000);
    }
}

/// Law: a running phase fed any sequence of ticks whose elapsed times sum
/// exactly to the remaining duration ends with remaining time exactly
/// zero, and completes exactly once along the way.
pub proof fn lemma_ticks_drain_once(m: TimerModel, ticks: Seq<u64>)
    requires
        m.inv(),
        m.running,
        0 < m.remaining_ms,
        sum_elapsed(ticks) == m.remaining_ms,
    ensures
        run_ticks(m, ticks).remaining_ms == 0,
        count_completions(m, ticks) == 1,
    decreases ticks.len(),
{
    let e = ticks[0];
    let next = tick_spec(m, e).0;
    lemma_sum_elapsed_nonneg(ticks.drop_first());
    lemma_tick_spec_inv(m, e);
    if e >= m.remaining_ms {
        assert(e == m.remaining_ms);
        assert(tick_spec(m, e).1.completed);
        lemma_stopped_ticks_noop(next, ticks.drop_first());
    } else {
        lemma_ticks_drain_once(next, ticks.drop_first());
    }
}

} // verus!
