//! The hotkey dispatcher: maps the opaque id delivered by the OS hotkey
//! registrar to a timer action, and the message types carried between the
//! surrounding threads and the coordinating context.

use vstd::prelude::*;

verus! {

/// An operation on the timer engine, as the UI and the global hotkeys
/// request it.
#[derive(Clone, Copy, PartialEq, Eq, Structural, Debug)]
pub enum TimerAction {
    Start,
    Stop,
    Reset,
    Skip,
}

/// A message from the tray menu to the coordinating context.
#[derive(Clone, Copy, PartialEq, Eq, Structural, Debug)]
pub enum TrayMsg {
    MinRes,
    Quit,
}

/// The registration ids the OS registrar handed back for the three
/// hotkeys; a failed registration leaves its action unreachable by
/// global hotkey.
#[derive(Clone, Copy, PartialEq, Eq, Structural, Debug)]
pub struct HotkeyRegistration {
    pub toggle_id: Option<u32>,
    pub reset_id: Option<u32>,
    pub skip_id: Option<u32>,
}

/// The action a fired hotkey id requests: toggling resolves against the
/// current running state; the toggle id is consulted first, then reset,
/// then skip; an unknown id does nothing.
pub open spec fn dispatch_spec(reg: HotkeyRegistration, id: u32, running: bool) -> Option<
    TimerAction,
> {
    if reg.toggle_id == Some(id) {
        Some(
            if running {
                TimerAction::Stop
            } else {
                TimerAction::Start
            },
        )
    } else if reg.reset_id == Some(id) {
        Some(TimerAction::Reset)
    } else if reg.skip_id == Some(id) {
        Some(TimerAction::Skip)
    } else {
        None
    }
}

/// Maps a fired hotkey id to the action to perform.
pub fn dispatch(reg: &HotkeyRegistration, id: u32, running: bool) -> (r: Option<TimerAction>)
    ensures
        r == dispatch_spec(*reg, id, running),
{
    if matches!(reg.toggle_id, Some(t) if t == id) {
        Some(
            if running {
                TimerAction::Stop
            } else {
                TimerAction::Start
            },
        )
    } else if matches!(reg.reset_id, Some(t) if t == id) {
        Some(TimerAction::Reset)
    } else if matches!(reg.skip_id, Some(t) if t == id) {
        Some(TimerAction::Skip)
    } else {
        None
    }
}

} // verus!
