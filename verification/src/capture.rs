//! The hotkey capture state machine: turns the stream of key-release
//! events seen by a focused hotkey field into exactly one decision per
//! gesture - accept a new combination, or discard the event and restore
//! the previous value.
//!
//! Releasing the modifiers after a real combination fires a second,
//! spurious release with no modifiers and a control-character payload;
//! the filter drops every release that carries no modifiers, and the
//! designated escape key (Tab) cancels the capture the same way. As a
//! consequence a bare key without modifiers can never be captured; the
//! behaviour is kept as the application has always had it.
//!
//! An accepted combination is spelled with the state machine's own
//! non-printable-key name table, which differs from the codec's legacy
//! tokens; a printable payload falls back to its uppercased text.

use vstd::prelude::*;
use vstd::string::*;

verus! {

/// Where the capture gesture stands: no field focused, or focused and
/// waiting for the key release.
#[derive(Clone, Copy, PartialEq, Eq, Structural, Debug)]
pub enum CaptureState {
    Idle,
    AwaitingRelease,
}

/// A key-release event as the UI reports it: the modifiers held at
/// release time and the text payload of the key.
#[derive(Clone, PartialEq, Eq, Debug)]
pub struct KeyReleaseEvent {
    pub control: bool,
    pub alt: bool,
    pub shift: bool,
    pub super_key: bool,
    pub text: String,
}

/// The decision for one release event: discard it (and restore the
/// previous value), or accept the carried combination's canonical text.
#[derive(Clone, PartialEq, Eq, Debug)]
pub enum CaptureOutcome {
    Discarded,
    Accepted(String),
}

/// The name under which the capture dialog spells a single non-printable
/// key character, if it is one of the named keys.
pub open spec fn non_print_char_name(c: char) -> Option<Seq<char>> {
    if c == '\u{8}' {
        Some("Bcksp"@)
    } else if c == '\t' {
        Some("Tab"@)
    } else if c == '\n' {
        Some("Return"@)
    } else if c == '\u{1B}' {
        Some("Esc"@)
    } else if c == '\u{19}' {
        Some("BckTab"@)
    } else if c == '\u{7F}' {
        Some("Del"@)
    } else if c == '\u{14}' {
        Some("CapsLk"@)
    } else if c == '\u{F700}' {
        Some("\u{2191}"@)
    } else if c == '\u{F701}' {
        Some("\u{2193}"@)
    } else if c == '\u{F702}' {
        Some("\u{2192}"@)
    } else if c == '\u{F703}' {
        Some("\u{2190}"@)
    } else if c == '\u{F704}' {
        Some("F1"@)
    } else if c == '\u{F705}' {
        Some("F2"@)
    } else if c == '\u{F706}' {
        Some("F3"@)
    } else if c == '\u{F707}' {
        Some("F4"@)
    } else if c == '\u{F708}' {
        Some("F5"@)
    } else if c == '\u{F709}' {
        Some("F6"@)
    } else if c == '\u{F70A}' {
        Some("F7"@)
    } else if c == '\u{F70B}' {
        Some("F8"@)
    } else if c == '\u{F70C}' {
        Some("F9"@)
    } else if c == '\u{F70D}' {
        Some("F10"@)
    } else if c == '\u{F70E}' {
        Some("F11"@)
    } else if c == '\u{F70F}' {
        Some("F12"@)
    } else if c == '\u{F710}' {
        Some("F13"@)
    } else if c == '\u{F711}' {
        Some("F14"@)
    } else if c == '\u{F712}' {
        Some("F15"@)
    } else if c == '\u{F713}' {
        Some("F16"@)
    } else if c == '\u{F714}' {
        Some("F17"@)
    } else if c == '\u{F715}' {
        Some("F18"@)
    } else if c == '\u{F716}' {
        Some("F19"@)
    } else if c == '\u{F717}' {
        Some("F20"@)
    } else if c == '\u{F718}' {
        Some("F21"@)
    } else if c == '\u{F719}' {
        Some("F22"@)
    } else if c == '\u{F71A}' {
        Some("F23"@)
    } else if c == '\u{F71B}' {
        Some("F24"@)
    } else if c == '\u{F727}' {
        Some("Ins"@)
    } else if c == '\u{F729}' {
        Some("Home"@)
    } else if c == '\u{F72B}' {
        Some("End"@)
    } else if c == '\u{F72C}' {
        Some("PgUp"@)
    } else if c == '\u{F72D}' {
        Some("PgDwn"@)
    } else if c == '\u{F72F}' {
        Some("ScrLk"@)
    } else if c == '\u{F730}' {
        Some("Pause"@)
    } else if c == '\u{F731}' {
        Some("SysReq"@)
    } else if c == '\u{F734}' {
        Some("Stop"@)
    } else if c == '\u{F735}' {
        Some("Menu"@)
    } else {
        None
    }
}

/// The name for a key payload: a single named non-printable character.
pub open spec fn non_print_key_name(text: Seq<char>) -> Option<Seq<char>> {
    if text.len() == 1 {
        non_print_char_name(text[0])
    } else {
        None
    }
}

/// The dialog's name for a non-printable key payload, or `None` for any
/// other payload.
pub fn get_non_print_key_txt(text: &str) -> (r: Option<&'static str>)
    ensures
        r is Some <==> non_print_key_name(text@) is Some,
        r is Some ==> r->0@ == non_print_key_name(text@)->0,
{
    if text.unicode_len() != 1 {
        return None;
    }
    match text.get_char(0) {
        '\u{8}' => Some("Bcksp"),
        '\t' => Some("Tab"),
        '\n' => Some("Return"),
        '\u{1B}' => Some("Esc"),
        '\u{19}' => Some("BckTab"),
        '\u{7F}' => Some("Del"),
        '\u{14}' => Some("CapsLk"),
        '\u{F700}' => Some("\u{2191}"),
        '\u{F701}' => Some("\u{2193}"),
        '\u{F702}' => Some("\u{2192}"),
        '\u{F703}' => Some("\u{2190}"),
        '\u{F704}' => Some("F1"),
        '\u{F705}' => Some("F2"),
        '\u{F706}' => Some("F3"),
        '\u{F707}' => Some("F4"),
        '\u{F708}' => Some("F5"),
        '\u{F709}' => Some("F6"),
        '\u{F70A}' => Some("F7"),
        '\u{F70B}' => Some("F8"),
        '\u{F70C}' => Some("F9"),
        '\u{F70D}' => Some("F10"),
        '\u{F70E}' => Some("F11"),
        '\u{F70F}' => Some("F12"),
        '\u{F710}' => Some("F13"),
        '\u{F711}' => Some("F14"),
        '\u{F712}' => Some("F15"),
        '\u{F713}' => Some("F16"),
        '\u{F714}' => Some("F17"),
        '\u{F715}' => Some("F18"),
        '\u{F716}' => Some("F19"),
        '\u{F717}' => Some("F20"),
        '\u{F718}' => Some("F21"),
        '\u{F719}' => Some("F22"),
        '\u{F71A}' => Some("F23"),
        '\u{F71B}' => Some("F24"),
        '\u{F727}' => Some("Ins"),
        '\u{F729}' => Some("Home"),
        '\u{F72B}' => Some("End"),
        '\u{F72C}' => Some("PgUp"),
        '\u{F72D}' => Some("PgDwn"),
        '\u{F72F}' => Some("ScrLk"),
        '\u{F730}' => Some("Pause"),
        '\u{F731}' => Some("SysReq"),
        '\u{F734}' => Some("Stop"),
        '\u{F735}' => Some("Menu"),
        _ => None,
    }
}

/// What uppercasing leaves of a text payload. The result depends on the
/// characters alone.
pub uninterp spec fn upper_of(s: Seq<char>) -> Seq<char>;

/// Relies on `str::to_uppercase`: the result is a function of the
/// characters alone.
#[verifier::external_body]
fn uppercase_text(s: &str) -> (r: String)
    ensures
        r@ == upper_of(s@),
{
    s.to_uppercase()
}

/// The token an accepted capture writes for the key payload: the named
/// non-printable key, or the uppercased literal text.
pub open spec fn capture_token(text: Seq<char>) -> Seq<char> {
    match non_print_key_name(text) {
        Some(n) => n,
        None => upper_of(text),
    }
}

/// A release that must be discarded: it carries no modifiers (the
/// trailing noise of every real combination), or its payload is the
/// escape key (Tab), which cancels the capture.
pub open spec fn is_noise(e: KeyReleaseEvent) -> bool {
    (!e.control && !e.alt && !e.shift && !e.super_key) || e.text@ == seq!['\t']
}

/// The canonical text an accepted release stores: the held modifiers in
/// the fixed order, each with a `+`, then the key token.
pub open spec fn captured_string(e: KeyReleaseEvent) -> Seq<char> {
    (if e.control {
        "Control+"@
    } else {
        Seq::<char>::empty()
    }) + (if e.alt {
        "Alt+"@
    } else {
        Seq::<char>::empty()
    }) + (if e.shift {
        "Shift+"@
    } else {
        Seq::<char>::empty()
    }) + (if e.super_key {
        "Super+"@
    } else {
        Seq::<char>::empty()
    }) + capture_token(e.text@)
}

/// The capture state machine.
pub struct HotkeyCaptureFsm {
    state: CaptureState,
}

impl View for HotkeyCaptureFsm {
    type V = CaptureState;

    closed spec fn view(&self) -> CaptureState {
        self.state
    }
}

impl HotkeyCaptureFsm {
    /// A fresh state machine, with no field focused.
    pub fn new() -> (r: HotkeyCaptureFsm)
        ensures
            r@ is Idle,
    {
        HotkeyCaptureFsm { state: CaptureState::Idle }
    }

    /// A hotkey field took input focus: the next release decides.
    pub fn focus_gained(&mut self)
        ensures
            final(self)@ is AwaitingRelease,
    {
        self.state = CaptureState::AwaitingRelease;
    }

    /// Consumes one release event. While no field is focused the event is
    /// discarded. A focused field decides on this single event and gives
    /// up focus either way: noise is discarded and the previous value
    /// stands; anything else is accepted as the new canonical text.
    pub fn handle_release(&mut self, e: &KeyReleaseEvent) -> (o: CaptureOutcome)
        ensures
            final(self)@ is Idle,
            old(self)@ is Idle ==> o is Discarded,
            old(self)@ is AwaitingRelease && is_noise(*e) ==> o is Discarded,
            old(self)@ is AwaitingRelease && !is_noise(*e) ==> (o matches
                CaptureOutcome::Accepted(t) && t@ == captured_string(*e)),
    {
        let was_awaiting = match self.state {
            CaptureState::AwaitingRelease => true,
            CaptureState::Idle => false,
        };
        self.state = CaptureState::Idle;
        if !was_awaiting {
            return CaptureOutcome::Discarded;
        }
        let no_mods = !e.control && !e.alt && !e.shift && !e.super_key;
        let is_tab = e.text.as_str().unicode_len() == 1 && e.text.as_str().get_char(0) == '\t';
        proof {
            if is_tab {
                assert(e.text@ =~= seq!['\t']);
            } else if e.text@ == seq!['\t'] {
                assert(e.text@.len() == 1);
            }
        }
        if no_mods || is_tab {
            return CaptureOutcome::Discarded;
        }
        let mut text = String::new();
        if e.control {
            text.append("Control+");
        }
        if e.alt {
            text.append("Alt+");
        }
        if e.shift {
            text.append("Shift+");
        }
        if e.super_key {
            text.append("Super+");
        }
        match get_non_print_key_txt(e.text.as_str()) {
            Some(name) => text.append(name),
            None => {
                let upper = uppercase_text(e.text.as_str());
                text.append(upper.as_str());
            },
        }
        proof {
            assert(text@ =~= captured_string(*e));
        }
        CaptureOutcome::Accepted(text)
    }
}

} // verus!
