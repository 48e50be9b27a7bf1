//! Core logic of a desktop pomodoro timer.
//!
//! The crate models the two subsystems of the application that are pure
//! logic and proves their behaviour with Verus:
//!
//! * the round/timer state machine: which phase (focus, short break, long
//!   break) is active, how remaining time is decremented, when phase
//!   transitions fire, and how the auto-start policy gates them;
//! * the hotkey codec and capture protocol: the bidirectional mapping
//!   between a key combination and its canonical persisted string, and the
//!   state machine that turns raw key-release events into accepted or
//!   rejected hotkey assignments.
//!
//! Window management, tray wiring, audio and file I/O live outside this
//! crate; they hand plain values in and take plain values back.

pub mod capture;
pub mod codec;
pub mod dispatch;
pub mod keys;
pub mod scheduler;
pub mod settings;
pub mod strutil;
pub mod timer;
