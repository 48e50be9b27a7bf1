//! The persisted settings model and the typed setting-changed messages.
//!
//! The settings hold the flags, durations and global-shortcut assignment
//! that the application persists as one JSON object; the I/O itself is a
//! collaborator outside this crate, which hands the plain values in and
//! out. Loading a shortcut string that does not parse falls back to a
//! built-in default for that one field rather than failing the whole
//! load.

use crate::codec::{combo_wf, decode, decode_spec, HotkeyError};
use crate::keys::KeyCombo;
use crate::scheduler::RoundScheduler;
use crate::strutil::{seq_contains, str_contains};
use crate::timer::RoundConfig;
use vstd::prelude::*;

verus! {

/// The boolean settings, in the order the configuration page lists them.
#[derive(Clone, Copy, PartialEq, Eq, Structural, Debug)]
pub enum BoolSettTypes {
    AlwOnTop,
    BrkAlwOnTop,
    AutoStrtWrkTim,
    AutoStrtBreakTim,
    TickSounds,
    TickSoundsBreak,
    Notifications,
    MinToTray,
    MinToTryCls,
}

impl BoolSettTypes {
    /// The position of this setting in the configuration list.
    pub fn to_usize(&self) -> (r: usize)
        ensures
            r == match *self {
                BoolSettTypes::AlwOnTop => 0usize,
                BoolSettTypes::BrkAlwOnTop => 1usize,
                BoolSettTypes::AutoStrtWrkTim => 2usize,
                BoolSettTypes::AutoStrtBreakTim => 3usize,
                BoolSettTypes::TickSounds => 4usize,
                BoolSettTypes::TickSoundsBreak => 5usize,
                BoolSettTypes::Notifications => 6usize,
                BoolSettTypes::MinToTray => 7usize,
                BoolSettTypes::MinToTryCls => 8usize,
            },
    {
        match self {
            BoolSettTypes::AlwOnTop => 0,
            BoolSettTypes::BrkAlwOnTop => 1,
            BoolSettTypes::AutoStrtWrkTim => 2,
            BoolSettTypes::AutoStrtBreakTim => 3,
            BoolSettTypes::TickSounds => 4,
            BoolSettTypes::TickSoundsBreak => 5,
            BoolSettTypes::Notifications => 6,
            BoolSettTypes::MinToTray => 7,
            BoolSettTypes::MinToTryCls => 8,
        }
    }
}

/// The integer settings.
#[derive(Clone, Copy, PartialEq, Eq, Structural, Debug)]
pub enum IntSettTypes {
    LongBreakTime,
    ShortBreakTime,
    WorkTime,
    Volume,
    WorkRounds,
}

/// A typed setting-changed message, dispatched exhaustively by
/// [`JsonSettings::apply_change`].
#[derive(Clone, Copy, PartialEq, Eq, Structural, Debug)]
pub enum SettingChanged {
    Flag(BoolSettTypes, bool),
    Value(IntSettTypes, i32),
}

/// The three global-shortcut assignments, one combination per action.
#[derive(Clone, PartialEq, Eq, Debug)]
pub struct GlobalShortcuts {
    pub reset: KeyCombo,
    pub skip: KeyCombo,
    pub toggle: KeyCombo,
}

/// All combinations of an assignment are well formed for the codec.
pub open spec fn shortcuts_wf(s: GlobalShortcuts) -> bool {
    combo_wf(s.reset@) && combo_wf(s.skip@) && combo_wf(s.toggle@)
}

/// The persisted settings, field for field as the JSON schema keeps
/// them; durations are milliseconds.
#[derive(Clone, PartialEq, Eq, Debug)]
pub struct JsonSettings {
    pub always_on_top: bool,
    pub auto_start_break_timer: bool,
    pub auto_start_work_timer: bool,
    pub break_always_on_top: bool,
    pub global_shortcuts: GlobalShortcuts,
    pub min_to_tray: bool,
    pub min_to_tray_on_close: bool,
    pub notifications: bool,
    pub theme: String,
    pub tick_sounds: bool,
    pub tick_sounds_during_break: bool,
    pub time_long_break: i32,
    pub time_short_break: i32,
    pub time_work: i32,
    pub volume: i32,
    pub work_rounds: i32,
}

/// The settings after one setting-changed message.
pub open spec fn apply_change_spec(s: JsonSettings, change: SettingChanged) -> JsonSettings {
    match change {
        SettingChanged::Flag(flag, v) => match flag {
            BoolSettTypes::AlwOnTop => JsonSettings { always_on_top: v, ..s },
            BoolSettTypes::BrkAlwOnTop => JsonSettings { break_always_on_top: v, ..s },
            BoolSettTypes::AutoStrtWrkTim => JsonSettings { auto_start_work_timer: v, ..s },
            BoolSettTypes::AutoStrtBreakTim => JsonSettings { auto_start_break_timer: v, ..s },
            BoolSettTypes::TickSounds => JsonSettings { tick_sounds: v, ..s },
            BoolSettTypes::TickSoundsBreak => JsonSettings { tick_sounds_during_break: v, ..s },
            BoolSettTypes::Notifications => JsonSettings { notifications: v, ..s },
            BoolSettTypes::MinToTray => JsonSettings { min_to_tray: v, ..s },
            BoolSettTypes::MinToTryCls => JsonSettings { min_to_tray_on_close: v, ..s },
        },
        SettingChanged::Value(value, v) => match value {
            IntSettTypes::LongBreakTime => JsonSettings { time_long_break: v, ..s },
            IntSettTypes::ShortBreakTime => JsonSettings { time_short_break: v, ..s },
            IntSettTypes::WorkTime => JsonSettings { time_work: v, ..s },
            IntSettTypes::Volume => JsonSettings { volume: v, ..s },
            IntSettTypes::WorkRounds => JsonSettings { work_rounds: v, ..s },
        },
    }
}

impl JsonSettings {
    /// Applies one setting-changed message to the named field and leaves
    /// every other field alone.
    #[verifier::rlimit(60)]
    pub fn apply_change(&mut self, change: SettingChanged)
        ensures
            *final(self) == apply_change_spec(*old(self), change),
    {
        match change {
            SettingChanged::Flag(flag, v) => match flag {
                BoolSettTypes::AlwOnTop => self.always_on_top = v,
                BoolSettTypes::BrkAlwOnTop => self.break_always_on_top = v,
                BoolSettTypes::AutoStrtWrkTim => self.auto_start_work_timer = v,
                BoolSettTypes::AutoStrtBreakTim => self.auto_start_break_timer = v,
                BoolSettTypes::TickSounds => self.tick_sounds = v,
                BoolSettTypes::TickSoundsBreak => self.tick_sounds_during_break = v,
                BoolSettTypes::Notifications => self.notifications = v,
                BoolSettTypes::MinToTray => self.min_to_tray = v,
                BoolSettTypes::MinToTryCls => self.min_to_tray_on_close = v,
            },
            SettingChanged::Value(value, v) => match value {
                IntSettTypes::LongBreakTime => self.time_long_break = v,
                IntSettTypes::ShortBreakTime => self.time_short_break = v,
                IntSettTypes::WorkTime => self.time_work = v,
                IntSettTypes::Volume => self.volume = v,
                IntSettTypes::WorkRounds => self.work_rounds = v,
            },
        }
    }

    /// The round configuration these settings describe, or `None` when a
    /// duration or the round count is not positive.
    pub fn round_config(&self) -> (r: Option<RoundConfig>)
        ensures
            r is Some <==> (0 < self.time_work && 0 < self.time_short_break && 0
                < self.time_long_break && 1 <= self.work_rounds),
            r is Some ==> r->0 == (RoundConfig {
                focus_ms: self.time_work as u64,
                short_break_ms: self.time_short_break as u64,
                long_break_ms: self.time_long_break as u64,
                rounds_until_long_break: self.work_rounds as u32,
            }),
            r is Some ==> r->0.wf(),
    {
        if 0 < self.time_work && 0 < self.time_short_break && 0 < self.time_long_break && 1
            <= self.work_rounds {
            Some(
                RoundConfig {
                    focus_ms: self.time_work as u64,
                    short_break_ms: self.time_short_break as u64,
                    long_break_ms: self.time_long_break as u64,
                    rounds_until_long_break: self.work_rounds as u32,
                },
            )
        } else {
            None
        }
    }

    /// The auto-start policy these settings describe.
    pub fn scheduler(&self) -> (r: RoundScheduler)
        ensures
            r.auto_start_break == self.auto_start_break_timer,
            r.auto_start_work == self.auto_start_work_timer,
    {
        RoundScheduler {
            auto_start_break: self.auto_start_break_timer,
            auto_start_work: self.auto_start_work_timer,
        }
    }
}

/// Whether the session runs under Wayland, judged from the two
/// environment values the desktop sets: the session type decides when it
/// is present; otherwise the Wayland display name is consulted.
pub fn is_wayland(xdg_session_type: Option<&str>, wayland_display: Option<&str>) -> (r: bool)
    ensures
        r == match xdg_session_type {
            Some(v) => seq_contains(v@, "wayland"@),
            None => match wayland_display {
                Some(v) => seq_contains(v@, "wayland"@),
                None => false,
            },
        },
{
    match xdg_session_type {
        Some(v) => str_contains(v, "wayland"),
        None => match wayland_display {
            Some(v) => str_contains(v, "wayland"),
            None => false,
        },
    }
}

/// Decodes the three persisted shortcut strings; a field whose string
/// does not parse falls back to the given default for that field alone.
pub fn load_shortcuts(
    reset_s: &str,
    skip_s: &str,
    toggle_s: &str,
    defaults: GlobalShortcuts,
) -> (r: GlobalShortcuts)
    requires
        shortcuts_wf(defaults),
    ensures
        shortcuts_wf(r),
        r.reset@ == match decode_spec(reset_s@) {
            Some(c) => c,
            None => defaults.reset@,
        },
        r.skip@ == match decode_spec(skip_s@) {
            Some(c) => c,
            None => defaults.skip@,
        },
        r.toggle@ == match decode_spec(toggle_s@) {
            Some(c) => c,
            None => defaults.toggle@,
        },
{
    let reset = match decode(reset_s) {
        Ok(c) => c,
        Err(HotkeyError::InvalidHotkeyString) => defaults.reset,
    };
    let skip = match decode(skip_s) {
        Ok(c) => c,
        Err(HotkeyError::InvalidHotkeyString) => defaults.skip,
    };
    let toggle = match decode(toggle_s) {
        Ok(c) => c,
        Err(HotkeyError::InvalidHotkeyString) => defaults.toggle,
    };
    GlobalShortcuts { reset, skip, toggle }
}

/// The built-in default assignment: `Control+F2` resets, `Control+F3`
/// skips, `Control+F1` toggles. The function keys are generic key-code
/// names, so the strings go through the decoder; `None` can only mean
/// the key-code enumeration did not recognize them.
pub fn default_shortcuts() -> (r: Option<GlobalShortcuts>)
    ensures
        r is Some ==> shortcuts_wf(r->0),
        r is Some ==> Some(r->0.reset@) == decode_spec("Control+F2"@) && Some(r->0.skip@)
            == decode_spec("Control+F3"@) && Some(r->0.toggle@) == decode_spec("Control+F1"@),
        r is None ==> decode_spec("Control+F2"@) is None || decode_spec("Control+F3"@) is None
            || decode_spec("Control+F1"@) is None,
{
    let reset = decode("Control+F2");
    let skip = decode("Control+F3");
    let toggle = decode("Control+F1");
    match (reset, skip, toggle) {
        (Ok(reset), Ok(skip), Ok(toggle)) => Some(GlobalShortcuts { reset, skip, toggle }),
        _ => None,
    }
}

} // verus!
