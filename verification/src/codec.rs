//! The hotkey codec: a lossless, order-independent encoding of a
//! [`KeyCombo`] as the canonical string the settings schema persists.
//!
//! Encoding writes the modifiers in the fixed order `Control`, `Alt`,
//! `Shift`, `Super`, each followed by `+`, then the key's token. The key
//! token comes from the legacy override table for the keys that the schema
//! spells its own way; any other key is written under its generic key-code
//! name. Decoding splits on `+`, folds every token but the last into the
//! modifier set (an unknown modifier token is a parse error) and looks the
//! last token up first in the inverse override table, then as a generic
//! key-code name.

use crate::keys::{KeyCombo, KeyComboView, KeyIdView, KeyIdentifier, ModifierSet};
use crate::strutil::str_eq;
use std::str::FromStr;
use vstd::prelude::*;
use vstd::string::*;

verus! {

/// Failure to parse a canonical hotkey string.
#[derive(Clone, Copy, PartialEq, Eq, Structural, Debug)]
pub enum HotkeyError {
    InvalidHotkeyString,
}

/// True when `t` contains no `+` separator.
pub open spec fn plus_free(t: Seq<char>) -> bool {
    forall|i: int| 0 <= i < t.len() ==> t[i] != '+'
}

/// The fields of `s` under splitting on `+`: always at least one field,
/// with empty fields kept (so `a++b` has an empty middle field).
pub open spec fn split_plus(s: Seq<char>) -> Seq<Seq<char>>
    decreases s.len(),
{
    if s.len() == 0 {
        seq![Seq::<char>::empty()]
    } else if s[0] == '+' {
        seq![Seq::<char>::empty()] + split_plus(s.drop_first())
    } else {
        let rest = split_plus(s.drop_first());
        seq![seq![s[0]] + rest[0]] + rest.drop_first()
    }
}

/// The fields joined back: every part followed by `+`, then the last field.
pub open spec fn join_plus(parts: Seq<Seq<char>>, last: Seq<char>) -> Seq<char>
    decreases parts.len(),
{
    if parts.len() == 0 {
        last
    } else {
        parts[0] + seq!['+'] + join_plus(parts.drop_first(), last)
    }
}

/// Splitting always yields at least one field, and every field is free of
/// the separator.
pub proof fn lemma_split_plus_shape(s: Seq<char>)
    ensures
        split_plus(s).len() >= 1,
        forall|i: int| 0 <= i < split_plus(s).len() ==> plus_free(#[trigger] split_plus(s)[i]),
    decreases s.len(),
{
    if s.len() == 0 {
        assert(plus_free(split_plus(s)[0]));
    } else if s[0] == '+' {
        lemma_split_plus_shape(s.drop_first());
        assert(plus_free(split_plus(s)[0]));
        assert forall|i: int| 0 <= i < split_plus(s).len() implies plus_free(
            #[trigger] split_plus(s)[i],
        ) by {
            if i >= 1 {
                assert(split_plus(s)[i] == split_plus(s.drop_first())[i - 1]);
            }
        }
    } else {
        let rest = split_plus(s.drop_first());
        lemma_split_plus_shape(s.drop_first());
        assert(plus_free(rest[0]));
        assert(plus_free(seq![s[0]] + rest[0]));
        assert forall|i: int| 0 <= i < split_plus(s).len() implies plus_free(
            #[trigger] split_plus(s)[i],
        ) by {
            if i >= 1 {
                assert(split_plus(s)[i] == rest.drop_first()[i - 1]);
                assert(rest.drop_first()[i - 1] == rest[i]);
            }
        }
    }
}

/// A separator-free string splits into exactly itself.
pub proof fn lemma_split_plus_single(s: Seq<char>)
    requires
        plus_free(s),
    ensures
        split_plus(s) == seq![s],
    decreases s.len(),
{
    if s.len() == 0 {
        assert(split_plus(s) =~~= seq![s]);
    } else {
        lemma_split_plus_single(s.drop_first());
        assert(seq![s[0]] + s.drop_first() =~= s);
        assert(split_plus(s) =~~= seq![s]);
    }
}

/// Splitting after joining one separator-free field back on the front
/// peels that field off.
pub proof fn lemma_split_plus_step(head: Seq<char>, rest: Seq<char>)
    requires
        plus_free(head),
    ensures
        split_plus(head + seq!['+'] + rest) == seq![head] + split_plus(rest),
    decreases head.len(),
{
    let s = head + seq!['+'] + rest;
    if head.len() == 0 {
        assert(s[0] == '+');
        assert(s.drop_first() =~= rest);
        assert(split_plus(s) =~~= seq![head] + split_plus(rest));
    } else {
        assert(s[0] == head[0]);
        assert(s[0] != '+');
        assert(s.drop_first() =~= head.drop_first() + seq!['+'] + rest);
        lemma_split_plus_step(head.drop_first(), rest);
        let r = split_plus(s.drop_first());
        assert(r == seq![head.drop_first()] + split_plus(rest));
        assert(r[0] == head.drop_first());
        assert(seq![s[0]] + r[0] =~= head);
        assert(r.drop_first() =~= split_plus(rest));
        assert(split_plus(s) =~~= seq![head] + split_plus(rest));
    }
}

/// Splitting inverts joining when every field is separator-free.
pub proof fn lemma_split_plus_join(parts: Seq<Seq<char>>, last: Seq<char>)
    requires
        forall|i: int| 0 <= i < parts.len() ==> plus_free(#[trigger] parts[i]),
        plus_free(last),
    ensures
        split_plus(join_plus(parts, last)) == parts + seq![last],
    decreases parts.len(),
{
    if parts.len() == 0 {
        lemma_split_plus_single(last);
        assert(split_plus(join_plus(parts, last)) =~~= parts + seq![last]);
    } else {
        lemma_split_plus_join(parts.drop_first(), last);
        lemma_split_plus_step(parts[0], join_plus(parts.drop_first(), last));
        assert(split_plus(join_plus(parts, last)) =~~= parts + seq![last]);
    }
}

/// Splits a string on `+`, keeping empty fields.
fn split_plus_exec(s: &str) -> (r: Vec<String>)
    ensures
        r.deep_view() == split_plus(s@),
{
    let n = s.unicode_len();
    let mut toks: Vec<String> = Vec::new();
    let mut start: usize = 0;
    let mut i: usize = 0;
    proof {
        assert(s@.subrange(0, n as int) =~= s@);
        assert(toks.deep_view() =~= Seq::<Seq<char>>::empty());
    }
    while i < n
        invariant
            n == s@.len(),
            start <= i <= n,
            forall|j: int| start <= j < i ==> s@[j] != '+',
            split_plus(s@) == toks.deep_view() + split_plus(s@.subrange(start as int, n as int)),
        decreases n - i,
    {
        if s.get_char(i) == '+' {
            let ghost pre = s@.subrange(start as int, i as int);
            let ghost post = s@.subrange(i + 1, n as int);
            proof {
                assert(s@.subrange(start as int, n as int) =~= pre + seq!['+'] + post);
                lemma_split_plus_step(pre, post);
            }
            let tok = s.substring_char(start, i).to_owned();
            toks.push(tok);
            proof {
                assert(toks.deep_view() =~= toks.deep_view().drop_last() + seq![pre]);
                assert(split_plus(s@) == toks.deep_view() + split_plus(
                    s@.subrange(start + 1 + (i - start), n as int),
                ));
            }
            start = i + 1;
        }
        i += 1;
    }
    let ghost tail = s@.subrange(start as int, n as int);
    proof {
        lemma_split_plus_single(tail);
    }
    let tok = s.substring_char(start, n).to_owned();
    toks.push(tok);
    proof {
        assert(toks.deep_view() =~= toks.deep_view().drop_last() + seq![tail]);
        assert(toks.deep_view() =~= split_plus(s@));
    }
    toks
}

/// The token under which the legacy schema writes each key. A generic key
/// is written under its own name.
pub open spec fn key_token(k: KeyIdView) -> Seq<char> {
    match k {
        KeyIdView::Backslash => seq!['\\'],
        KeyIdView::BracketLeft => seq!['['],
        KeyIdView::BracketRight => seq![']'],
        KeyIdView::Comma => seq![','],
        KeyIdView::Digit0 => seq!['0'],
        KeyIdView::Digit1 => seq!['1'],
        KeyIdView::Digit2 => seq!['2'],
        KeyIdView::Digit3 => seq!['3'],
        KeyIdView::Digit4 => seq!['4'],
        KeyIdView::Digit5 => seq!['5'],
        KeyIdView::Digit6 => seq!['6'],
        KeyIdView::Digit7 => seq!['7'],
        KeyIdView::Digit8 => seq!['8'],
        KeyIdView::Digit9 => seq!['9'],
        KeyIdView::Equal => seq!['='],
        KeyIdView::KeyA => seq!['A'],
        KeyIdView::KeyB => seq!['B'],
        KeyIdView::KeyC => seq!['C'],
        KeyIdView::KeyD => seq!['D'],
        KeyIdView::KeyE => seq!['E'],
        KeyIdView::KeyF => seq!['F'],
        KeyIdView::KeyG => seq!['G'],
        KeyIdView::KeyH => seq!['H'],
        KeyIdView::KeyI => seq!['I'],
        KeyIdView::KeyJ => seq!['J'],
        KeyIdView::KeyK => seq!['K'],
        KeyIdView::KeyL => seq!['L'],
        KeyIdView::KeyM => seq!['M'],
        KeyIdView::KeyN => seq!['N'],
        KeyIdView::KeyO => seq!['O'],
        KeyIdView::KeyP => seq!['P'],
        KeyIdView::KeyQ => seq!['Q'],
        KeyIdView::KeyR => seq!['R'],
        KeyIdView::KeyS => seq!['S'],
        KeyIdView::KeyT => seq!['T'],
        KeyIdView::KeyU => seq!['U'],
        KeyIdView::KeyV => seq!['V'],
        KeyIdView::KeyW => seq!['W'],
        KeyIdView::KeyX => seq!['X'],
        KeyIdView::KeyY => seq!['Y'],
        KeyIdView::KeyZ => seq!['Z'],
        KeyIdView::Minus => seq!['-'],
        KeyIdView::Period => seq!['.'],
        KeyIdView::Quote => seq!['"'],
        KeyIdView::Semicolon => seq![';'],
        KeyIdView::Slash => seq!['/'],
        KeyIdView::Space => seq![' '],
        KeyIdView::NumpadAdd => "Add"@,
        KeyIdView::NumpadClear => "Clear"@,
        KeyIdView::NumpadDivide => "Divide"@,
        KeyIdView::NumpadSubtract => "Subtract"@,
        KeyIdView::LaunchApp1 => "LaunchApplication1"@,
        KeyIdView::LaunchApp2 => "LaunchApplication2"@,
        KeyIdView::MediaSelect => "LaunchMediaPlayer"@,
        KeyIdView::MicrophoneMuteToggle => "MicrophoneToggle"@,
        KeyIdView::Other(s) => s,
    }
}

/// The key, if any, that the legacy schema spells with this single
/// character.
pub open spec fn legacy_key_of_char(c: char) -> Option<KeyIdView> {
    if c == '\\' {
        Some(KeyIdView::Backslash)
    } else if c == '[' {
        Some(KeyIdView::BracketLeft)
    } else if c == ']' {
        Some(KeyIdView::BracketRight)
    } else if c == ',' {
        Some(KeyIdView::Comma)
    } else if c == '0' {
        Some(KeyIdView::Digit0)
    } else if c == '1' {
        Some(KeyIdView::Digit1)
    } else if c == '2' {
        Some(KeyIdView::Digit2)
    } else if c == '3' {
        Some(KeyIdView::Digit3)
    } else if c == '4' {
        Some(KeyIdView::Digit4)
    } else if c == '5' {
        Some(KeyIdView::Digit5)
    } else if c == '6' {
        Some(KeyIdView::Digit6)
    } else if c == '7' {
        Some(KeyIdView::Digit7)
    } else if c == '8' {
        Some(KeyIdView::Digit8)
    } else if c == '9' {
        Some(KeyIdView::Digit9)
    } else if c == '=' {
        Some(KeyIdView::Equal)
    } else if c == 'A' {
        Some(KeyIdView::KeyA)
    } else if c == 'B' {
        Some(KeyIdView::KeyB)
    } else if c == 'C' {
        Some(KeyIdView::KeyC)
    } else if c == 'D' {
        Some(KeyIdView::KeyD)
    } else if c == 'E' {
        Some(KeyIdView::KeyE)
    } else if c == 'F' {
        Some(KeyIdView::KeyF)
    } else if c == 'G' {
        Some(KeyIdView::KeyG)
    } else if c == 'H' {
        Some(KeyIdView::KeyH)
    } else if c == 'I' {
        Some(KeyIdView::KeyI)
    } else if c == 'J' {
        Some(KeyIdView::KeyJ)
    } else if c == 'K' {
        Some(KeyIdView::KeyK)
    } else if c == 'L' {
        Some(KeyIdView::KeyL)
    } else if c == 'M' {
        Some(KeyIdView::KeyM)
    } else if c == 'N' {
        Some(KeyIdView::KeyN)
    } else if c == 'O' {
        Some(KeyIdView::KeyO)
    } else if c == 'P' {
        Some(KeyIdView::KeyP)
    } else if c == 'Q' {
        Some(KeyIdView::KeyQ)
    } else if c == 'R' {
        Some(KeyIdView::KeyR)
    } else if c == 'S' {
        Some(KeyIdView::KeyS)
    } else if c == 'T' {
        Some(KeyIdView::KeyT)
    } else if c == 'U' {
        Some(KeyIdView::KeyU)
    } else if c == 'V' {
        Some(KeyIdView::KeyV)
    } else if c == 'W' {
        Some(KeyIdView::KeyW)
    } else if c == 'X' {
        Some(KeyIdView::KeyX)
    } else if c == 'Y' {
        Some(KeyIdView::KeyY)
    } else if c == 'Z' {
        Some(KeyIdView::KeyZ)
    } else if c == '-' {
        Some(KeyIdView::Minus)
    } else if c == '.' {
        Some(KeyIdView::Period)
    } else if c == '"' {
        Some(KeyIdView::Quote)
    } else if c == ';' {
        Some(KeyIdView::Semicolon)
    } else if c == '/' {
        Some(KeyIdView::Slash)
    } else if c == ' ' {
        Some(KeyIdView::Space)
    } else {
        None
    }
}

/// The inverse of the override half of [`key_token`]: the key, if any,
/// that the legacy schema spells with this token.
pub open spec fn legacy_key_of(t: Seq<char>) -> Option<KeyIdView> {
    if t.len() == 1 {
        legacy_key_of_char(t[0])
    } else if t == "Add"@ {
        Some(KeyIdView::NumpadAdd)
    } else if t == "Clear"@ {
        Some(KeyIdView::NumpadClear)
    } else if t == "Divide"@ {
        Some(KeyIdView::NumpadDivide)
    } else if t == "Subtract"@ {
        Some(KeyIdView::NumpadSubtract)
    } else if t == "LaunchApplication1"@ {
        Some(KeyIdView::LaunchApp1)
    } else if t == "LaunchApplication2"@ {
        Some(KeyIdView::LaunchApp2)
    } else if t == "LaunchMediaPlayer"@ {
        Some(KeyIdView::MediaSelect)
    } else if t == "MicrophoneToggle"@ {
        Some(KeyIdView::MicrophoneMuteToggle)
    } else {
        None
    }
}

/// Whether the platform key-code enumeration recognizes this token as the
/// name of a key. The answer depends on the token alone.
pub uninterp spec fn parses_as_key_code(t: Seq<char>) -> bool;

/// Relies on `global_hotkey::hotkey::Code::from_str` (the platform
/// key-code enumeration): whether a token names a key code is a function
/// of the token alone.
#[verifier::external_body]
fn code_token_parses(t: &str) -> (r: bool)
    ensures
        r == parses_as_key_code(t@),
{
    global_hotkey::hotkey::Code::from_str(t).is_ok()
}

/// A key identifier the codec round-trips: a generic name must be a
/// recognized key-code name, must not collide with a legacy token, and
/// must not contain the `+` separator.
pub open spec fn key_wf(k: KeyIdView) -> bool {
    match k {
        KeyIdView::Other(s) => parses_as_key_code(s) && legacy_key_of(s) is None && plus_free(s),
        _ => true,
    }
}

/// A key combination the codec round-trips.
pub open spec fn combo_wf(c: KeyComboView) -> bool {
    key_wf(c.key)
}

/// The legacy table maps each of its keys' tokens back to that key, and
/// no token holds the `+` separator.
proof fn lemma_legacy_tokens()
    ensures
        forall|k: KeyIdView| !(k is Other) ==> legacy_key_of(#[trigger] key_token(k)) == Some(k),
        forall|k: KeyIdView| !(k is Other) ==> plus_free(#[trigger] key_token(k)),
{
    reveal_strlit("Add");
    reveal_strlit("Clear");
    reveal_strlit("Divide");
    reveal_strlit("Subtract");
    reveal_strlit("LaunchApplication1");
    reveal_strlit("LaunchApplication2");
    reveal_strlit("LaunchMediaPlayer");
    reveal_strlit("MicrophoneToggle");
    assert("LaunchApplication1"@[17] == '1');
    assert("LaunchApplication2"@[17] == '2');
    assert forall|k: KeyIdView| !(k is Other) implies legacy_key_of(#[trigger] key_token(k))
        == Some(k) && plus_free(key_token(k)) by {
        match k {
            KeyIdView::Backslash => {
                assert(legacy_key_of(key_token(k)) == Some(k));
                assert(plus_free(key_token(k)));
            },
            KeyIdView::BracketLeft => {
                assert(legacy_key_of(key_token(k)) == Some(k));
                assert(plus_free(key_token(k)));
            },
            KeyIdView::BracketRight => {
                assert(legacy_key_of(key_token(k)) == Some(k));
                assert(plus_free(key_token(k)));
            },
            KeyIdView::Comma => {
                assert(legacy_key_of(key_token(k)) == Some(k));
                assert(plus_free(key_token(k)));
            },
            KeyIdView::Digit0 => {
                assert(legacy_key_of(key_token(k)) == Some(k));
                assert(plus_free(key_token(k)));
            },
            KeyIdView::Digit1 => {
                assert(legacy_key_of(key_token(k)) == Some(k));
                assert(plus_free(key_token(k)));
            },
            KeyIdView::Digit2 => {
                assert(legacy_key_of(key_token(k)) == Some(k));
                assert(plus_free(key_token(k)));
            },
            KeyIdView::Digit3 => {
                assert(legacy_key_of(key_token(k)) == Some(k));
                assert(plus_free(key_token(k)));
            },
            KeyIdView::Digit4 => {
                assert(legacy_key_of(key_token(k)) == Some(k));
                assert(plus_free(key_token(k)));
            },
            KeyIdView::Digit5 => {
                assert(legacy_key_of(key_token(k)) == Some(k));
                assert(plus_free(key_token(k)));
            },
            KeyIdView::Digit6 => {
                assert(legacy_key_of(key_token(k)) == Some(k));
                assert(plus_free(key_token(k)));
            },
            KeyIdView::Digit7 => {
                assert(legacy_key_of(key_token(k)) == Some(k));
                assert(plus_free(key_token(k)));
            },
            KeyIdView::Digit8 => {
                assert(legacy_key_of(key_token(k)) == Some(k));
                assert(plus_free(key_token(k)));
            },
            KeyIdView::Digit9 => {
                assert(legacy_key_of(key_token(k)) == Some(k));
                assert(plus_free(key_token(k)));
            },
            KeyIdView::Equal => {
                assert(legacy_key_of(key_token(k)) == Some(k));
                assert(plus_free(key_token(k)));
            },
            KeyIdView::KeyA => {
                assert(legacy_key_of(key_token(k)) == Some(k));
                assert(plus_free(key_token(k)));
            },
            KeyIdView::KeyB => {
                assert(legacy_key_of(key_token(k)) == Some(k));
                assert(plus_free(key_token(k)));
            },
            KeyIdView::KeyC => {
                assert(legacy_key_of(key_token(k)) == Some(k));
                assert(plus_free(key_token(k)));
            },
            KeyIdView::KeyD => {
                assert(legacy_key_of(key_token(k)) == Some(k));
                assert(plus_free(key_token(k)));
            },
            KeyIdView::KeyE => {
                assert(legacy_key_of(key_token(k)) == Some(k));
                assert(plus_free(key_token(k)));
            },
            KeyIdView::KeyF => {
                assert(legacy_key_of(key_token(k)) == Some(k));
                assert(plus_free(key_token(k)));
            },
            KeyIdView::KeyG => {
                assert(legacy_key_of(key_token(k)) == Some(k));
                assert(plus_free(key_token(k)));
            },
            KeyIdView::KeyH => {
                assert(legacy_key_of(key_token(k)) == Some(k));
                assert(plus_free(key_token(k)));
            },
            KeyIdView::KeyI => {
                assert(legacy_key_of(key_token(k)) == Some(k));
                assert(plus_free(key_token(k)));
            },
            KeyIdView::KeyJ => {
                assert(legacy_key_of(key_token(k)) == Some(k));
                assert(plus_free(key_token(k)));
            },
            KeyIdView::KeyK => {
                assert(legacy_key_of(key_token(k)) == Some(k));
                assert(plus_free(key_token(k)));
            },
            KeyIdView::KeyL => {
                assert(legacy_key_of(key_token(k)) == Some(k));
                assert(plus_free(key_token(k)));
            },
            KeyIdView::KeyM => {
                assert(legacy_key_of(key_token(k)) == Some(k));
                assert(plus_free(key_token(k)));
            },
            KeyIdView::KeyN => {
                assert(legacy_key_of(key_token(k)) == Some(k));
                assert(plus_free(key_token(k)));
            },
            KeyIdView::KeyO => {
                assert(legacy_key_of(key_token(k)) == Some(k));
                assert(plus_free(key_token(k)));
            },
            KeyIdView::KeyP => {
                assert(legacy_key_of(key_token(k)) == Some(k));
                assert(plus_free(key_token(k)));
            },
            KeyIdView::KeyQ => {
                assert(legacy_key_of(key_token(k)) == Some(k));
                assert(plus_free(key_token(k)));
            },
            KeyIdView::KeyR => {
                assert(legacy_key_of(key_token(k)) == Some(k));
                assert(plus_free(key_token(k)));
            },
            KeyIdView::KeyS => {
                assert(legacy_key_of(key_token(k)) == Some(k));
                assert(plus_free(key_token(k)));
            },
            KeyIdView::KeyT => {
                assert(legacy_key_of(key_token(k)) == Some(k));
                assert(plus_free(key_token(k)));
            },
            KeyIdView::KeyU => {
                assert(legacy_key_of(key_token(k)) == Some(k));
                assert(plus_free(key_token(k)));
            },
            KeyIdView::KeyV => {
                assert(legacy_key_of(key_token(k)) == Some(k));
                assert(plus_free(key_token(k)));
            },
            KeyIdView::KeyW => {
                assert(legacy_key_of(key_token(k)) == Some(k));
                assert(plus_free(key_token(k)));
            },
            KeyIdView::KeyX => {
                assert(legacy_key_of(key_token(k)) == Some(k));
                assert(plus_free(key_token(k)));
            },
            KeyIdView::KeyY => {
                assert(legacy_key_of(key_token(k)) == Some(k));
                assert(plus_free(key_token(k)));
            },
            KeyIdView::KeyZ => {
                assert(legacy_key_of(key_token(k)) == Some(k));
                assert(plus_free(key_token(k)));
            },
            KeyIdView::Minus => {
                assert(legacy_key_of(key_token(k)) == Some(k));
                assert(plus_free(key_token(k)));
            },
            KeyIdView::Period => {
                assert(legacy_key_of(key_token(k)) == Some(k));
                assert(plus_free(key_token(k)));
            },
            KeyIdView::Quote => {
                assert(legacy_key_of(key_token(k)) == Some(k));
                assert(plus_free(key_token(k)));
            },
            KeyIdView::Semicolon => {
                assert(legacy_key_of(key_token(k)) == Some(k));
                assert(plus_free(key_token(k)));
            },
            KeyIdView::Slash => {
                assert(legacy_key_of(key_token(k)) == Some(k));
                assert(plus_free(key_token(k)));
            },
            KeyIdView::Space => {
                assert(legacy_key_of(key_token(k)) == Some(k));
                assert(plus_free(key_token(k)));
            },
            KeyIdView::NumpadAdd => {
                assert(legacy_key_of(key_token(k)) == Some(k));
                assert(plus_free(key_token(k)));
            },
            KeyIdView::NumpadClear => {
                assert(legacy_key_of(key_token(k)) == Some(k));
                assert(plus_free(key_token(k)));
            },
            KeyIdView::NumpadDivide => {
                assert(legacy_key_of(key_token(k)) == Some(k));
                assert(plus_free(key_token(k)));
            },
            KeyIdView::NumpadSubtract => {
                assert(legacy_key_of(key_token(k)) == Some(k));
                assert(plus_free(key_token(k)));
            },
            KeyIdView::LaunchApp1 => {
                assert(legacy_key_of(key_token(k)) == Some(k));
                assert(plus_free(key_token(k)));
            },
            KeyIdView::LaunchApp2 => {
                assert(legacy_key_of(key_token(k)) == Some(k));
                assert(plus_free(key_token(k)));
            },
            KeyIdView::MediaSelect => {
                assert(legacy_key_of(key_token(k)) == Some(k));
                assert(plus_free(key_token(k)));
            },
            KeyIdView::MicrophoneMuteToggle => {
                assert(legacy_key_of(key_token(k)) == Some(k));
                assert(plus_free(key_token(k)));
            },
            KeyIdView::Other(_) => {},
        }
    }
}

/// The token under which a key is written.
fn key_token_str<'a>(k: &'a KeyIdentifier) -> (r: &'a str)
    ensures
        r@ == key_token(k@),
{
    let r: &str = match k {
        KeyIdentifier::Backslash => "\\",
        KeyIdentifier::BracketLeft => "[",
        KeyIdentifier::BracketRight => "]",
        KeyIdentifier::Comma => ",",
        KeyIdentifier::Digit0 => "0",
        KeyIdentifier::Digit1 => "1",
        KeyIdentifier::Digit2 => "2",
        KeyIdentifier::Digit3 => "3",
        KeyIdentifier::Digit4 => "4",
        KeyIdentifier::Digit5 => "5",
        KeyIdentifier::Digit6 => "6",
        KeyIdentifier::Digit7 => "7",
        KeyIdentifier::Digit8 => "8",
        KeyIdentifier::Digit9 => "9",
        KeyIdentifier::Equal => "=",
        KeyIdentifier::KeyA => "A",
        KeyIdentifier::KeyB => "B",
        KeyIdentifier::KeyC => "C",
        KeyIdentifier::KeyD => "D",
        KeyIdentifier::KeyE => "E",
        KeyIdentifier::KeyF => "F",
        KeyIdentifier::KeyG => "G",
        KeyIdentifier::KeyH => "H",
        KeyIdentifier::KeyI => "I",
        KeyIdentifier::KeyJ => "J",
        KeyIdentifier::KeyK => "K",
        KeyIdentifier::KeyL => "L",
        KeyIdentifier::KeyM => "M",
        KeyIdentifier::KeyN => "N",
        KeyIdentifier::KeyO => "O",
        KeyIdentifier::KeyP => "P",
        KeyIdentifier::KeyQ => "Q",
        KeyIdentifier::KeyR => "R",
        KeyIdentifier::KeyS => "S",
        KeyIdentifier::KeyT => "T",
        KeyIdentifier::KeyU => "U",
        KeyIdentifier::KeyV => "V",
        KeyIdentifier::KeyW => "W",
        KeyIdentifier::KeyX => "X",
        KeyIdentifier::KeyY => "Y",
        KeyIdentifier::KeyZ => "Z",
        KeyIdentifier::Minus => "-",
        KeyIdentifier::Period => ".",
        KeyIdentifier::Quote => "\"",
        KeyIdentifier::Semicolon => ";",
        KeyIdentifier::Slash => "/",
        KeyIdentifier::Space => " ",
        KeyIdentifier::NumpadAdd => "Add",
        KeyIdentifier::NumpadClear => "Clear",
        KeyIdentifier::NumpadDivide => "Divide",
        KeyIdentifier::NumpadSubtract => "Subtract",
        KeyIdentifier::LaunchApp1 => "LaunchApplication1",
        KeyIdentifier::LaunchApp2 => "LaunchApplication2",
        KeyIdentifier::MediaSelect => "LaunchMediaPlayer",
        KeyIdentifier::MicrophoneMuteToggle => "MicrophoneToggle",
        KeyIdentifier::Other(s) => s.as_str(),
    };
    proof {
        reveal_strlit("\\");
        reveal_strlit("[");
        reveal_strlit("]");
        reveal_strlit(",");
        reveal_strlit("0");
        reveal_strlit("1");
        reveal_strlit("2");
        reveal_strlit("3");
        reveal_strlit("4");
        reveal_strlit("5");
        reveal_strlit("6");
        reveal_strlit("7");
        reveal_strlit("8");
        reveal_strlit("9");
        reveal_strlit("=");
        reveal_strlit("A");
        reveal_strlit("B");
        reveal_strlit("C");
        reveal_strlit("D");
        reveal_strlit("E");
        reveal_strlit("F");
        reveal_strlit("G");
        reveal_strlit("H");
        reveal_strlit("I");
        reveal_strlit("J");
        reveal_strlit("K");
        reveal_strlit("L");
        reveal_strlit("M");
        reveal_strlit("N");
        reveal_strlit("O");
        reveal_strlit("P");
        reveal_strlit("Q");
        reveal_strlit("R");
        reveal_strlit("S");
        reveal_strlit("T");
        reveal_strlit("U");
        reveal_strlit("V");
        reveal_strlit("W");
        reveal_strlit("X");
        reveal_strlit("Y");
        reveal_strlit("Z");
        reveal_strlit("-");
        reveal_strlit(".");
        reveal_strlit("\"");
        reveal_strlit(";");
        reveal_strlit("/");
        reveal_strlit(" ");
        reveal_strlit("Add");
        reveal_strlit("Clear");
        reveal_strlit("Divide");
        reveal_strlit("Subtract");
        reveal_strlit("LaunchApplication1");
        reveal_strlit("LaunchApplication2");
        reveal_strlit("LaunchMediaPlayer");
        reveal_strlit("MicrophoneToggle");
        assert(r@ =~= key_token(k@));
    }
    r
}

/// The key, if any, that the legacy schema spells with this token.
fn legacy_key_from_token(t: &str) -> (r: Option<KeyIdentifier>)
    ensures
        r is Some <==> legacy_key_of(t@) is Some,
        r is Some ==> r.unwrap()@ == legacy_key_of(t@).unwrap(),
{
    if t.unicode_len() == 1 {
        let c = t.get_char(0);
        match c {
            '\\' => Some(KeyIdentifier::Backslash),
            '[' => Some(KeyIdentifier::BracketLeft),
            ']' => Some(KeyIdentifier::BracketRight),
            ',' => Some(KeyIdentifier::Comma),
            '0' => Some(KeyIdentifier::Digit0),
            '1' => Some(KeyIdentifier::Digit1),
            '2' => Some(KeyIdentifier::Digit2),
            '3' => Some(KeyIdentifier::Digit3),
            '4' => Some(KeyIdentifier::Digit4),
            '5' => Some(KeyIdentifier::Digit5),
            '6' => Some(KeyIdentifier::Digit6),
            '7' => Some(KeyIdentifier::Digit7),
            '8' => Some(KeyIdentifier::Digit8),
            '9' => Some(KeyIdentifier::Digit9),
            '=' => Some(KeyIdentifier::Equal),
            'A' => Some(KeyIdentifier::KeyA),
            'B' => Some(KeyIdentifier::KeyB),
            'C' => Some(KeyIdentifier::KeyC),
            'D' => Some(KeyIdentifier::KeyD),
            'E' => Some(KeyIdentifier::KeyE),
            'F' => Some(KeyIdentifier::KeyF),
            'G' => Some(KeyIdentifier::KeyG),
            'H' => Some(KeyIdentifier::KeyH),
            'I' => Some(KeyIdentifier::KeyI),
            'J' => Some(KeyIdentifier::KeyJ),
            'K' => Some(KeyIdentifier::KeyK),
            'L' => Some(KeyIdentifier::KeyL),
            'M' => Some(KeyIdentifier::KeyM),
            'N' => Some(KeyIdentifier::KeyN),
            'O' => Some(KeyIdentifier::KeyO),
            'P' => Some(KeyIdentifier::KeyP),
            'Q' => Some(KeyIdentifier::KeyQ),
            'R' => Some(KeyIdentifier::KeyR),
            'S' => Some(KeyIdentifier::KeyS),
            'T' => Some(KeyIdentifier::KeyT),
            'U' => Some(KeyIdentifier::KeyU),
            'V' => Some(KeyIdentifier::KeyV),
            'W' => Some(KeyIdentifier::KeyW),
            'X' => Some(KeyIdentifier::KeyX),
            'Y' => Some(KeyIdentifier::KeyY),
            'Z' => Some(KeyIdentifier::KeyZ),
            '-' => Some(KeyIdentifier::Minus),
            '.' => Some(KeyIdentifier::Period),
            '"' => Some(KeyIdentifier::Quote),
            ';' => Some(KeyIdentifier::Semicolon),
            '/' => Some(KeyIdentifier::Slash),
            ' ' => Some(KeyIdentifier::Space),
            _ => None,
        }
    } else {
        proof {
            reveal_strlit("Add");
            reveal_strlit("Clear");
            reveal_strlit("Divide");
            reveal_strlit("Subtract");
            reveal_strlit("LaunchApplication1");
            reveal_strlit("LaunchApplication2");
            reveal_strlit("LaunchMediaPlayer");
            reveal_strlit("MicrophoneToggle");
        }
        if str_eq(t, "Add") {
            Some(KeyIdentifier::NumpadAdd)
        } else if str_eq(t, "Clear") {
            Some(KeyIdentifier::NumpadClear)
        } else if str_eq(t, "Divide") {
            Some(KeyIdentifier::NumpadDivide)
        } else if str_eq(t, "Subtract") {
            Some(KeyIdentifier::NumpadSubtract)
        } else if str_eq(t, "LaunchApplication1") {
            Some(KeyIdentifier::LaunchApp1)
        } else if str_eq(t, "LaunchApplication2") {
            Some(KeyIdentifier::LaunchApp2)
        } else if str_eq(t, "LaunchMediaPlayer") {
            Some(KeyIdentifier::MediaSelect)
        } else if str_eq(t, "MicrophoneToggle") {
            Some(KeyIdentifier::MicrophoneMuteToggle)
        } else {
            None
        }
    }
}

/// The names of the set modifiers, in the canonical order `Control`,
/// `Alt`, `Shift`, `Super`.
pub open spec fn modifier_names(m: ModifierSet) -> Seq<Seq<char>> {
    if !m.control && !m.alt && !m.shift && !m.super_key {
        Seq::<Seq<char>>::empty()
    } else if m.control && !m.alt && !m.shift && !m.super_key {
        seq!["Control"@]
    } else if !m.control && m.alt && !m.shift && !m.super_key {
        seq!["Alt"@]
    } else if m.control && m.alt && !m.shift && !m.super_key {
        seq!["Control"@, "Alt"@]
    } else if !m.control && !m.alt && m.shift && !m.super_key {
        seq!["Shift"@]
    } else if m.control && !m.alt && m.shift && !m.super_key {
        seq!["Control"@, "Shift"@]
    } else if !m.control && m.alt && m.shift && !m.super_key {
        seq!["Alt"@, "Shift"@]
    } else if m.control && m.alt && m.shift && !m.super_key {
        seq!["Control"@, "Alt"@, "Shift"@]
    } else if !m.control && !m.alt && !m.shift && m.super_key {
        seq!["Super"@]
    } else if m.control && !m.alt && !m.shift && m.super_key {
        seq!["Control"@, "Super"@]
    } else if !m.control && m.alt && !m.shift && m.super_key {
        seq!["Alt"@, "Super"@]
    } else if m.control && m.alt && !m.shift && m.super_key {
        seq!["Control"@, "Alt"@, "Super"@]
    } else if !m.control && !m.alt && m.shift && m.super_key {
        seq!["Shift"@, "Super"@]
    } else if m.control && !m.alt && m.shift && m.super_key {
        seq!["Control"@, "Shift"@, "Super"@]
    } else if !m.control && m.alt && m.shift && m.super_key {
        seq!["Alt"@, "Shift"@, "Super"@]
    } else {
        seq!["Control"@, "Alt"@, "Shift"@, "Super"@]
    }
}

/// Folds modifier tokens into a modifier set, left to right; any token
/// that is not one of the four modifier names is a parse error.
pub open spec fn parse_mods(parts: Seq<Seq<char>>, acc: ModifierSet) -> Option<ModifierSet>
    decreases parts.len(),
{
    if parts.len() == 0 {
        Some(acc)
    } else if parts[0] == "Control"@ {
        parse_mods(parts.drop_first(), ModifierSet { control: true, ..acc })
    } else if parts[0] == "Alt"@ {
        parse_mods(parts.drop_first(), ModifierSet { alt: true, ..acc })
    } else if parts[0] == "Shift"@ {
        parse_mods(parts.drop_first(), ModifierSet { shift: true, ..acc })
    } else if parts[0] == "Super"@ {
        parse_mods(parts.drop_first(), ModifierSet { super_key: true, ..acc })
    } else {
        None
    }
}

/// The canonical string of a key combination.
pub open spec fn encode_spec(c: KeyComboView) -> Seq<char> {
    join_plus(modifier_names(c.modifiers), key_token(c.key))
}

/// The key named by the last token of a hotkey string: first the legacy
/// override table, then any recognized generic key-code name.
pub open spec fn key_of_token(t: Seq<char>) -> Option<KeyIdView> {
    if legacy_key_of(t) is Some {
        legacy_key_of(t)
    } else if plus_free(t) && parses_as_key_code(t) {
        Some(KeyIdView::Other(t))
    } else {
        None
    }
}

/// The key combination a canonical string denotes, if it parses.
pub open spec fn decode_spec(s: Seq<char>) -> Option<KeyComboView> {
    let parts = split_plus(s);
    let mods = parse_mods(
        parts.drop_last(),
        ModifierSet { control: false, alt: false, shift: false, super_key: false },
    );
    let key = key_of_token(parts.last());
    if mods is Some && key is Some {
        Some(KeyComboView { modifiers: mods->Some_0, key: key->Some_0 })
    } else {
        None
    }
}

/// True when no character of `t` is `+`.
fn no_plus(t: &str) -> (r: bool)
    ensures
        r == plus_free(t@),
{
    let n = t.unicode_len();
    let mut i: usize = 0;
    while i < n
        invariant
            n == t@.len(),
            i <= n,
            forall|j: int| 0 <= j < i ==> t@[j] != '+',
        decreases n - i,
    {
        if t.get_char(i) == '+' {
            return false;
        }
        i += 1;
    }
    true
}

/// The key a single token names, if any.
fn key_from_token(t: &str) -> (r: Option<KeyIdentifier>)
    ensures
        r is Some <==> key_of_token(t@) is Some,
        r is Some ==> r->0@ == key_of_token(t@)->Some_0,
{
    match legacy_key_from_token(t) {
        Some(k) => Some(k),
        None => {
            if no_plus(t) && code_token_parses(t) {
                Some(KeyIdentifier::Other(t.to_owned()))
            } else {
                None
            }
        },
    }
}

/// Encodes a key combination as its canonical string: the set modifiers
/// in canonical order, each followed by `+`, then the key's token.
pub fn encode(c: &KeyCombo) -> (r: String)
    ensures
        r@ == encode_spec(c@),
{
    let mut out = String::new();
    if c.modifiers.control {
        out.append("Control+");
    }
    if c.modifiers.alt {
        out.append("Alt+");
    }
    if c.modifiers.shift {
        out.append("Shift+");
    }
    if c.modifiers.super_key {
        out.append("Super+");
    }
    out.append(key_token_str(&c.key));
    proof {
        reveal_strlit("Control+");
        reveal_strlit("Alt+");
        reveal_strlit("Shift+");
        reveal_strlit("Super+");
        reveal_strlit("Control");
        reveal_strlit("Alt");
        reveal_strlit("Shift");
        reveal_strlit("Super");
        reveal_with_fuel(join_plus, 6);
        assert(out@ =~= encode_spec(c@));
    }
    out
}

/// Decodes a canonical hotkey string: every token before the last must be
/// a modifier name; the last token must name a key. Returns
/// [`HotkeyError::InvalidHotkeyString`] exactly when the string does not
/// parse.
pub fn decode(s: &str) -> (r: Result<KeyCombo, HotkeyError>)
    ensures
        r is Ok <==> decode_spec(s@) is Some,
        r is Ok ==> r->Ok_0@ == decode_spec(s@)->Some_0,
        r is Ok ==> combo_wf(r->Ok_0@),
{
    proof {
        reveal_strlit("Control");
        reveal_strlit("Alt");
        reveal_strlit("Shift");
        reveal_strlit("Super");
        lemma_split_plus_shape(s@);
    }
    let ghost parts = split_plus(s@);
    let ghost modparts = parts.drop_last();
    let toks = split_plus_exec(s);
    let n = toks.len();
    let mut mods = ModifierSet::none();
    let mut idx: usize = 0;
    proof {
        assert(modparts.skip(0) =~= modparts);
    }
    while idx + 1 < n
        invariant
            parts == split_plus(s@),
            toks.deep_view() == parts,
            modparts == parts.drop_last(),
            n == toks.len(),
            n >= 1,
            idx <= n - 1,
            parse_mods(
                modparts,
                ModifierSet { control: false, alt: false, shift: false, super_key: false },
            ) == parse_mods(modparts.skip(idx as int), mods),
        decreases n - idx,
    {
        proof {
            assert(modparts.skip(idx as int)[0] == toks.deep_view()[idx as int]);
            assert(toks.deep_view()[idx as int] == toks@[idx as int]@);
            assert(modparts.skip(idx as int).drop_first() =~= modparts.skip(idx as int + 1));
        }
        let t = &toks[idx];
        if str_eq(t.as_str(), "Control") {
            mods = ModifierSet { control: true, ..mods };
        } else if str_eq(t.as_str(), "Alt") {
            mods = ModifierSet { alt: true, ..mods };
        } else if str_eq(t.as_str(), "Shift") {
            mods = ModifierSet { shift: true, ..mods };
        } else if str_eq(t.as_str(), "Super") {
            mods = ModifierSet { super_key: true, ..mods };
        } else {
            proof {
                assert(parse_mods(modparts.skip(idx as int), mods) is None);
            }
            return Err(HotkeyError::InvalidHotkeyString);
        }
        idx += 1;
    }
    proof {
        assert(modparts.skip(idx as int) =~= Seq::<Seq<char>>::empty());
        assert(parse_mods(modparts, ModifierSet { control: false, alt: false, shift: false, super_key: false }) == Some(mods));
        assert(parts.last() == toks.deep_view()[n - 1]);
        assert(toks.deep_view()[n - 1] == toks@[n - 1]@);
    }
    match key_from_token(toks[n - 1].as_str()) {
        Some(key) => Ok(KeyCombo { modifiers: mods, key }),
        None => Err(HotkeyError::InvalidHotkeyString),
    }
}


/// Folding the canonical modifier-name list of a set rebuilds that set.
proof fn lemma_parse_modifier_names(m: ModifierSet)
    ensures
        parse_mods(
            modifier_names(m),
            ModifierSet { control: false, alt: false, shift: false, super_key: false },
        ) == Some(m),
{
    reveal_strlit("Control");
    reveal_strlit("Alt");
    reveal_strlit("Shift");
    reveal_strlit("Super");
    reveal_with_fuel(parse_mods, 6);
    let none = ModifierSet { control: false, alt: false, shift: false, super_key: false };
    assert("Control"@.len() == 7);
    assert("Alt"@.len() == 3);
    assert("Shift"@[1] == 'h');
    assert("Super"@[1] == 'u');
    assert("Alt"@ != "Control"@);
    assert("Shift"@ != "Control"@);
    assert("Shift"@ != "Alt"@);
    assert("Super"@ != "Control"@);
    assert("Super"@ != "Alt"@);
    assert("Super"@ != "Shift"@);

    if m.control {
        if m.alt {
            if m.shift {
                if m.super_key {
                    assert(modifier_names(m) =~~= seq!["Control"@, "Alt"@, "Shift"@, "Super"@]);
                    assert(parse_mods(modifier_names(m), none) == Some(m));
                } else {
                    assert(modifier_names(m) =~~= seq!["Control"@, "Alt"@, "Shift"@]);
                    assert(parse_mods(modifier_names(m), none) == Some(m));
                }
            } else {
                if m.super_key {
                    assert(modifier_names(m) =~~= seq!["Control"@, "Alt"@, "Super"@]);
                    assert(parse_mods(modifier_names(m), none) == Some(m));
                } else {
                    assert(modifier_names(m) =~~= seq!["Control"@, "Alt"@]);
                    assert(parse_mods(modifier_names(m), none) == Some(m));
                }
            }
        } else {
            if m.shift {
                if m.super_key {
                    assert(modifier_names(m) =~~= seq!["Control"@, "Shift"@, "Super"@]);
                    assert(parse_mods(modifier_names(m), none) == Some(m));
                } else {
                    assert(modifier_names(m) =~~= seq!["Control"@, "Shift"@]);
                    assert(parse_mods(modifier_names(m), none) == Some(m));
                }
            } else {
                if m.super_key {
                    assert(modifier_names(m) =~~= seq!["Control"@, "Super"@]);
                    assert(parse_mods(modifier_names(m), none) == Some(m));
                } else {
                    assert(modifier_names(m) =~~= seq!["Control"@]);
                    assert(parse_mods(modifier_names(m), none) == Some(m));
                }
            }
        }
    } else {
        if m.alt {
            if m.shift {
                if m.super_key {
                    assert(modifier_names(m) =~~= seq!["Alt"@, "Shift"@, "Super"@]);
                    assert(parse_mods(modifier_names(m), none) == Some(m));
                } else {
                    assert(modifier_names(m) =~~= seq!["Alt"@, "Shift"@]);
                    assert(parse_mods(modifier_names(m), none) == Some(m));
                }
            } else {
                if m.super_key {
                    assert(modifier_names(m) =~~= seq!["Alt"@, "Super"@]);
                    assert(parse_mods(modifier_names(m), none) == Some(m));
                } else {
                    assert(modifier_names(m) =~~= seq!["Alt"@]);
                    assert(parse_mods(modifier_names(m), none) == Some(m));
                }
            }
        } else {
            if m.shift {
                if m.super_key {
                    assert(modifier_names(m) =~~= seq!["Shift"@, "Super"@]);
                    assert(parse_mods(modifier_names(m), none) == Some(m));
                } else {
                    assert(modifier_names(m) =~~= seq!["Shift"@]);
                    assert(parse_mods(modifier_names(m), none) == Some(m));
                }
            } else {
                if m.super_key {
                    assert(modifier_names(m) =~~= seq!["Super"@]);
                    assert(parse_mods(modifier_names(m), none) == Some(m));
                } else {
                    assert(modifier_names(m) =~~= Seq::<Seq<char>>::empty());
                    assert(parse_mods(modifier_names(m), none) == Some(m));
                }
            }
        }
    }
}

/// Decoding inverts encoding: every well-formed key combination
/// round-trips through its canonical string.
pub proof fn lemma_decode_encode(c: KeyComboView)
    requires
        combo_wf(c),
    ensures
        decode_spec(encode_spec(c)) == Some(c),
{
    reveal_strlit("Control");
    reveal_strlit("Alt");
    reveal_strlit("Shift");
    reveal_strlit("Super");
    let names = modifier_names(c.modifiers);
    let token = key_token(c.key);
    lemma_legacy_tokens();
    assert(plus_free(token));
    assert(forall|i: int| 0 <= i < names.len() ==> plus_free(#[trigger] names[i]));
    lemma_split_plus_join(names, token);
    let parts = split_plus(encode_spec(c));
    assert(parts == names + seq![token]);
    assert(parts.drop_last() =~= names);
    assert(parts.last() == token);
    lemma_parse_modifier_names(c.modifiers);
    assert(key_of_token(token) == Some(c.key));
}



} // verus!
