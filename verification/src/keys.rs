//! The key-combination data model: a normalized set of modifiers together
//! with a key identifier.
//!
//! The key identifier is a closed enumeration of the keys that the legacy
//! settings schema spells with its own token (printable characters, numpad
//! operators and a few launcher/media keys), plus `Other` for any further
//! key, carried by the generic name under which the platform key-code
//! enumeration knows it.

use vstd::prelude::*;

verus! {

/// The set of modifier keys held during a key combination.
#[derive(Clone, Copy, PartialEq, Eq, Structural, Hash, Debug)]
pub struct ModifierSet {
    pub control: bool,
    pub alt: bool,
    pub shift: bool,
    pub super_key: bool,
}

impl ModifierSet {
    /// The empty modifier set.
    pub fn none() -> (r: ModifierSet)
        ensures
            r == (ModifierSet { control: false, alt: false, shift: false, super_key: false }),
    {
        ModifierSet { control: false, alt: false, shift: false, super_key: false }
    }

    /// True when no modifier is held.
    pub open spec fn is_empty(self) -> bool {
        !self.control && !self.alt && !self.shift && !self.super_key
    }
}

/// A key, as the legacy settings schema distinguishes keys.
///
/// The unit variants are exactly the keys for which the schema has a token
/// of its own. Every other key is `Other`, identified by the name that the
/// platform key-code enumeration gives it (for example `F1` or `ArrowUp`).
#[derive(Clone, PartialEq, Eq, Debug)]
pub enum KeyIdentifier {
    Backslash,
    BracketLeft,
    BracketRight,
    Comma,
    Digit0,
    Digit1,
    Digit2,
    Digit3,
    Digit4,
    Digit5,
    Digit6,
    Digit7,
    Digit8,
    Digit9,
    Equal,
    KeyA,
    KeyB,
    KeyC,
    KeyD,
    KeyE,
    KeyF,
    KeyG,
    KeyH,
    KeyI,
    KeyJ,
    KeyK,
    KeyL,
    KeyM,
    KeyN,
    KeyO,
    KeyP,
    KeyQ,
    KeyR,
    KeyS,
    KeyT,
    KeyU,
    KeyV,
    KeyW,
    KeyX,
    KeyY,
    KeyZ,
    Minus,
    Period,
    Quote,
    Semicolon,
    Slash,
    Space,
    NumpadAdd,
    NumpadClear,
    NumpadDivide,
    NumpadSubtract,
    LaunchApp1,
    LaunchApp2,
    MediaSelect,
    MicrophoneMuteToggle,
    Other(String),
}

/// The mathematical value of a [`KeyIdentifier`]: the same enumeration with
/// the generic name abstracted to its character sequence.
pub enum KeyIdView {
    Backslash,
    BracketLeft,
    BracketRight,
    Comma,
    Digit0,
    Digit1,
    Digit2,
    Digit3,
    Digit4,
    Digit5,
    Digit6,
    Digit7,
    Digit8,
    Digit9,
    Equal,
    KeyA,
    KeyB,
    KeyC,
    KeyD,
    KeyE,
    KeyF,
    KeyG,
    KeyH,
    KeyI,
    KeyJ,
    KeyK,
    KeyL,
    KeyM,
    KeyN,
    KeyO,
    KeyP,
    KeyQ,
    KeyR,
    KeyS,
    KeyT,
    KeyU,
    KeyV,
    KeyW,
    KeyX,
    KeyY,
    KeyZ,
    Minus,
    Period,
    Quote,
    Semicolon,
    Slash,
    Space,
    NumpadAdd,
    NumpadClear,
    NumpadDivide,
    NumpadSubtract,
    LaunchApp1,
    LaunchApp2,
    MediaSelect,
    MicrophoneMuteToggle,
    Other(Seq<char>),
}

impl View for KeyIdentifier {
    type V = KeyIdView;

    open spec fn view(&self) -> KeyIdView {
        match self {
            KeyIdentifier::Backslash => KeyIdView::Backslash,
            KeyIdentifier::BracketLeft => KeyIdView::BracketLeft,
            KeyIdentifier::BracketRight => KeyIdView::BracketRight,
            KeyIdentifier::Comma => KeyIdView::Comma,
            KeyIdentifier::Digit0 => KeyIdView::Digit0,
            KeyIdentifier::Digit1 => KeyIdView::Digit1,
            KeyIdentifier::Digit2 => KeyIdView::Digit2,
            KeyIdentifier::Digit3 => KeyIdView::Digit3,
            KeyIdentifier::Digit4 => KeyIdView::Digit4,
            KeyIdentifier::Digit5 => KeyIdView::Digit5,
            KeyIdentifier::Digit6 => KeyIdView::Digit6,
            KeyIdentifier::Digit7 => KeyIdView::Digit7,
            KeyIdentifier::Digit8 => KeyIdView::Digit8,
            KeyIdentifier::Digit9 => KeyIdView::Digit9,
            KeyIdentifier::Equal => KeyIdView::Equal,
            KeyIdentifier::KeyA => KeyIdView::KeyA,
            KeyIdentifier::KeyB => KeyIdView::KeyB,
            KeyIdentifier::KeyC => KeyIdView::KeyC,
            KeyIdentifier::KeyD => KeyIdView::KeyD,
            KeyIdentifier::KeyE => KeyIdView::KeyE,
            KeyIdentifier::KeyF => KeyIdView::KeyF,
            KeyIdentifier::KeyG => KeyIdView::KeyG,
            KeyIdentifier::KeyH => KeyIdView::KeyH,
            KeyIdentifier::KeyI => KeyIdView::KeyI,
            KeyIdentifier::KeyJ => KeyIdView::KeyJ,
            KeyIdentifier::KeyK => KeyIdView::KeyK,
            KeyIdentifier::KeyL => KeyIdView::KeyL,
            KeyIdentifier::KeyM => KeyIdView::KeyM,
            KeyIdentifier::KeyN => KeyIdView::KeyN,
            KeyIdentifier::KeyO => KeyIdView::KeyO,
            KeyIdentifier::KeyP => KeyIdView::KeyP,
            KeyIdentifier::KeyQ => KeyIdView::KeyQ,
            KeyIdentifier::KeyR => KeyIdView::KeyR,
            KeyIdentifier::KeyS => KeyIdView::KeyS,
            KeyIdentifier::KeyT => KeyIdView::KeyT,
            KeyIdentifier::KeyU => KeyIdView::KeyU,
            KeyIdentifier::KeyV => KeyIdView::KeyV,
            KeyIdentifier::KeyW => KeyIdView::KeyW,
            KeyIdentifier::KeyX => KeyIdView::KeyX,
            KeyIdentifier::KeyY => KeyIdView::KeyY,
            KeyIdentifier::KeyZ => KeyIdView::KeyZ,
            KeyIdentifier::Minus => KeyIdView::Minus,
            KeyIdentifier::Period => KeyIdView::Period,
            KeyIdentifier::Quote => KeyIdView::Quote,
            KeyIdentifier::Semicolon => KeyIdView::Semicolon,
            KeyIdentifier::Slash => KeyIdView::Slash,
            KeyIdentifier::Space => KeyIdView::Space,
            KeyIdentifier::NumpadAdd => KeyIdView::NumpadAdd,
            KeyIdentifier::NumpadClear => KeyIdView::NumpadClear,
            KeyIdentifier::NumpadDivide => KeyIdView::NumpadDivide,
            KeyIdentifier::NumpadSubtract => KeyIdView::NumpadSubtract,
            KeyIdentifier::LaunchApp1 => KeyIdView::LaunchApp1,
            KeyIdentifier::LaunchApp2 => KeyIdView::LaunchApp2,
            KeyIdentifier::MediaSelect => KeyIdView::MediaSelect,
            KeyIdentifier::MicrophoneMuteToggle => KeyIdView::MicrophoneMuteToggle,
            KeyIdentifier::Other(s) => KeyIdView::Other(s@),
        }
    }
}

/// A key combination: a set of modifiers and one key.
#[derive(Clone, PartialEq, Eq, Debug)]
pub struct KeyCombo {
    pub modifiers: ModifierSet,
    pub key: KeyIdentifier,
}

/// The mathematical value of a [`KeyCombo`].
pub struct KeyComboView {
    pub modifiers: ModifierSet,
    pub key: KeyIdView,
}

impl View for KeyCombo {
    type V = KeyComboView;

    open spec fn view(&self) -> KeyComboView {
        KeyComboView { modifiers: self.modifiers, key: self.key@ }
    }
}

} // verus!
