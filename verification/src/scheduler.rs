//! The round scheduler: the phase-transition policy applied when the
//! timer engine reports a completed phase (or the user skips one).
//!
//! A completed focus round leads to a short break, or to the long break
//! once the last round of the cycle completes; a completed break leads
//! back to focus, advancing the round count. Two flags decide whether the
//! next phase starts by itself. Every transition yields a notification
//! descriptor whose body states the next phase's length in whole minutes.

use crate::strutil::{dec_str, u64_to_string};
use crate::timer::{TimerEngine, TimerModel, TimerPhase};
use vstd::prelude::*;
use vstd::string::*;

verus! {

/// The auto-start policy: whether a break, or a focus round, begins to
/// run on its own after the transition into it.
#[derive(Clone, Copy, PartialEq, Eq, Structural, Debug)]
pub struct RoundScheduler {
    pub auto_start_break: bool,
    pub auto_start_work: bool,
}

/// What the external notifier is asked to show on a transition.
#[derive(Clone, PartialEq, Eq, Debug)]
pub struct NotificationText {
    pub title: String,
    pub body: String,
}

/// The phase that follows a completed phase.
pub open spec fn next_phase(m: TimerModel) -> TimerPhase {
    match m.phase {
        TimerPhase::Focus => {
            if m.active_round == m.config.rounds_until_long_break {
                TimerPhase::LongBreak
            } else {
                TimerPhase::ShortBreak
            }
        },
        _ => TimerPhase::Focus,
    }
}

/// The focus round after a completed phase: unchanged on entering a short
/// break, advanced by one when the short break ends, reset to one around
/// the long break.
pub open spec fn next_round(m: TimerModel) -> u32 {
    match m.phase {
        TimerPhase::Focus => {
            if m.active_round == m.config.rounds_until_long_break {
                1u32
            } else {
                m.active_round
            }
        },
        TimerPhase::ShortBreak => (m.active_round + 1) as u32,
        TimerPhase::LongBreak => 1u32,
    }
}

/// The model after the scheduler handles a completed phase: the next
/// phase at full remaining time, running exactly when the auto-start
/// policy says so.
pub open spec fn advance_model(s: RoundScheduler, m: TimerModel) -> TimerModel {
    let phase = next_phase(m);
    TimerModel {
        phase,
        active_round: next_round(m),
        target_ms: m.config.duration_for(phase),
        remaining_ms: m.config.duration_for(phase),
        running: if phase is Focus {
            s.auto_start_work
        } else {
            s.auto_start_break
        },
        cue_acc_ms: 0,
        ..m
    }
}

/// The notification title for a transition out of `m.phase`.
pub open spec fn notification_title(m: TimerModel) -> Seq<char> {
    if m.phase is Focus {
        "Focus Round Complete"@
    } else {
        "Break Finished"@
    }
}

/// The notification body for a transition out of `m.phase`: it states
/// the destination phase's duration in whole minutes.
pub open spec fn notification_body(m: TimerModel) -> Seq<char> {
    match m.phase {
        TimerPhase::Focus => {
            if m.active_round == m.config.rounds_until_long_break {
                "Begin a "@ + dec_str((m.config.long_break_ms / 60000) as nat)
                    + " minute long break."@
            } else {
                "Begin a "@ + dec_str((m.config.short_break_ms / 60000) as nat)
                    + " minute short break."@
            }
        },
        _ => "Begin focusing for "@ + dec_str((m.config.focus_ms / 60000) as nat) + " minutes."@,
    }
}

impl RoundScheduler {
    /// Applies the transition for a completed (or skipped) phase to the
    /// engine and returns the notification to show.
    pub fn advance(&self, engine: &mut TimerEngine) -> (n: NotificationText)
        requires
            old(engine).inv(),
        ensures
            final(engine).inv(),
            final(engine)@ == advance_model(*self, old(engine)@),
            n.title@ == notification_title(old(engine)@),
            n.body@ == notification_body(old(engine)@),
    {
        let phase = engine.phase();
        let cfg = engine.config();
        let round = engine.active_round();
        match phase {
            TimerPhase::Focus => {
                let title = String::from_str("Focus Round Complete");
                let mut body = String::from_str("Begin a ");
                if round == cfg.rounds_until_long_break {
                    engine.begin_phase(TimerPhase::LongBreak, 1, self.auto_start_break);
                    let mins = u64_to_string(cfg.long_break_ms / 60000);
                    body.append(mins.as_str());
                    body.append(" minute long break.");
                } else {
                    engine.begin_phase(TimerPhase::ShortBreak, round, self.auto_start_break);
                    let mins = u64_to_string(cfg.short_break_ms / 60000);
                    body.append(mins.as_str());
                    body.append(" minute short break.");
                }
                NotificationText { title, body }
            },
            TimerPhase::ShortBreak => {
                engine.begin_phase(TimerPhase::Focus, round + 1, self.auto_start_work);
                let title = String::from_str("Break Finished");
                let mut body = String::from_str("Begin focusing for ");
                let mins = u64_to_string(cfg.focus_ms / 60000);
                body.append(mins.as_str());
                body.append(" minutes.");
                NotificationText { title, body }
            },
            TimerPhase::LongBreak => {
                engine.begin_phase(TimerPhase::Focus, 1, self.auto_start_work);
                let title = String::from_str("Break Finished");
                let mut body = String::from_str("Begin focusing for ");
                let mins = u64_to_string(cfg.focus_ms / 60000);
                body.append(mins.as_str());
                body.append(" minutes.");
                NotificationText { title, body }
            },
        }
    }

    /// Skipping forces the same transition a completed phase takes,
    /// without waiting for remaining time to reach zero.
    pub fn skip(&self, engine: &mut TimerEngine) -> (n: NotificationText)
        requires
            old(engine).inv(),
        ensures
            final(engine).inv(),
            final(engine)@ == advance_model(*self, old(engine)@),
            n.title@ == notification_title(old(engine)@),
            n.body@ == notification_body(old(engine)@),
    {
        self.advance(engine)
    }
}

/// The scheduler's transition preserves the engine's invariant.
pub proof fn lemma_advance_inv(s: RoundScheduler, m: TimerModel)
    requires
        m.inv(),
    ensures
        advance_model(s, m).inv(),
{
}

/// The model after `n` completed phases.
pub open spec fn advance_n(s: RoundScheduler, m: TimerModel, n: nat) -> TimerModel
    decreases n,
{
    if n == 0 {
        m
    } else {
        advance_n(s, advance_model(s, m), (n - 1) as nat)
    }
}

/// From a focus round `rounds - j` of the cycle, the remaining `2 * j + 2`
/// phase completions walk focus/short-break pairs to the long break and
/// come back to focus at round one.
proof fn lemma_cycle_from(s: RoundScheduler, m: TimerModel, j: nat)
    requires
        m.inv(),
        m.phase is Focus,
        m.active_round + j == m.config.rounds_until_long_break,
    ensures
        advance_n(s, m, 2 * j + 2).inv(),
        advance_n(s, m, 2 * j + 2).phase is Focus,
        advance_n(s, m, 2 * j + 2).active_round == 1,
        advance_n(s, m, 2 * j + 2).config == m.config,
    decreases j,
{
    let m1 = advance_model(s, m);
    let m2 = advance_model(s, m1);
    lemma_advance_inv(s, m);
    lemma_advance_inv(s, m1);
    assert(advance_n(s, m, 2 * j + 2) == advance_n(s, m1, (2 * j + 1) as nat));
    assert(advance_n(s, m1, (2 * j + 1) as nat) == advance_n(s, m2, (2 * j) as nat));
    if j == 0 {
        assert(m1.phase is LongBreak);
        assert(m2.phase is Focus && m2.active_round == 1);
        assert(advance_n(s, m2, (2 * j) as nat) == m2);
    } else {
        assert(m1.phase is ShortBreak);
        assert(m2.phase is Focus && m2.active_round == m.active_round + 1);
        assert((2 * j) as nat == (2 * (j - 1) + 2) as nat);
        lemma_cycle_from(s, m2, (j - 1) as nat);
    }
}

/// Law: starting at focus round one, the cycle is periodic with period
/// `2 * rounds_until_long_break` phase completions: that many transitions
/// return the engine to focus at round one.
pub proof fn lemma_round_robin(s: RoundScheduler, m: TimerModel)
    requires
        m.inv(),
        m.phase is Focus,
        m.active_round == 1,
    ensures
        advance_n(s, m, 2 * m.config.rounds_until_long_break as nat).inv(),
        advance_n(s, m, 2 * m.config.rounds_until_long_break as nat).phase is Focus,
        advance_n(s, m, 2 * m.config.rounds_until_long_break as nat).active_round == 1,
        advance_n(s, m, 2 * m.config.rounds_until_long_break as nat).config == m.config,
{
    let j = (m.config.rounds_until_long_break - 1) as nat;
    lemma_cycle_from(s, m, j);
    assert(2 * j + 2 == 2 * m.config.rounds_until_long_break as nat);
}

} // verus!
