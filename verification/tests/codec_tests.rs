use tomotroid::codec::{decode, encode, HotkeyError};
use tomotroid::keys::{KeyCombo, KeyIdentifier, ModifierSet};

fn mods(control: bool, alt: bool, shift: bool, super_key: bool) -> ModifierSet {
    ModifierSet { control, alt, shift, super_key }
}

fn roundtrip(c: &KeyCombo) -> KeyCombo {
    decode(encode(c).as_str()).expect("canonical string must decode")
}

#[test]
fn roundtrip_bare_key() {
    let c = KeyCombo { modifiers: mods(false, false, false, false), key: KeyIdentifier::KeyA };
    assert_eq!(encode(&c), "A");
    assert_eq!(roundtrip(&c), c);
}

#[test]
fn roundtrip_one_modifier() {
    let c = KeyCombo { modifiers: mods(true, false, false, false), key: KeyIdentifier::KeyD };
    assert_eq!(encode(&c), "Control+D");
    assert_eq!(roundtrip(&c), c);
}

#[test]
fn roundtrip_two_modifiers() {
    let c = KeyCombo { modifiers: mods(false, true, true, false), key: KeyIdentifier::Comma };
    assert_eq!(encode(&c), "Alt+Shift+,");
    assert_eq!(roundtrip(&c), c);
}

#[test]
fn roundtrip_three_modifiers() {
    let c = KeyCombo { modifiers: mods(true, false, true, true), key: KeyIdentifier::Digit7 };
    assert_eq!(encode(&c), "Control+Shift+Super+7");
    assert_eq!(roundtrip(&c), c);
}

#[test]
fn roundtrip_four_modifiers() {
    let c = KeyCombo {
        modifiers: mods(true, true, true, true),
        key: KeyIdentifier::NumpadSubtract,
    };
    assert_eq!(encode(&c), "Control+Alt+Shift+Super+Subtract");
    assert_eq!(roundtrip(&c), c);
}

#[test]
fn roundtrip_override_table() {
    let keys = vec![
        (KeyIdentifier::Backslash, "\\"),
        (KeyIdentifier::BracketLeft, "["),
        (KeyIdentifier::BracketRight, "]"),
        (KeyIdentifier::Equal, "="),
        (KeyIdentifier::Minus, "-"),
        (KeyIdentifier::Period, "."),
        (KeyIdentifier::Quote, "\""),
        (KeyIdentifier::Semicolon, ";"),
        (KeyIdentifier::Slash, "/"),
        (KeyIdentifier::Space, " "),
        (KeyIdentifier::Digit0, "0"),
        (KeyIdentifier::Digit9, "9"),
        (KeyIdentifier::KeyZ, "Z"),
        (KeyIdentifier::NumpadAdd, "Add"),
        (KeyIdentifier::NumpadClear, "Clear"),
        (KeyIdentifier::NumpadDivide, "Divide"),
        (KeyIdentifier::NumpadSubtract, "Subtract"),
        (KeyIdentifier::LaunchApp1, "LaunchApplication1"),
        (KeyIdentifier::LaunchApp2, "LaunchApplication2"),
        (KeyIdentifier::MediaSelect, "LaunchMediaPlayer"),
        (KeyIdentifier::MicrophoneMuteToggle, "MicrophoneToggle"),
    ];
    for (key, token) in keys {
        let c = KeyCombo { modifiers: mods(true, false, false, false), key };
        let expected = format!("Control+{token}");
        assert_eq!(encode(&c), expected.as_str());
        assert_eq!(roundtrip(&c), c);
    }
}

#[test]
fn decode_canonical_order_is_restored() {
    let s = "Control+Alt+Shift+Super+A";
    let c = decode(s).expect("full combo decodes");
    assert_eq!(
        c.modifiers,
        ModifierSet { control: true, alt: true, shift: true, super_key: true }
    );
    assert_eq!(c.key, KeyIdentifier::KeyA);
    assert_eq!(encode(&c), s);
}

#[test]
fn decode_accepts_any_modifier_order() {
    let c = decode("Shift+Control+D").expect("modifier order is free");
    assert_eq!(c.modifiers, mods(true, false, true, false));
    assert_eq!(c.key, KeyIdentifier::KeyD);
    assert_eq!(encode(&c), "Control+Shift+D");
}

#[test]
fn decode_generic_key_name() {
    let c = decode("Control+F1").expect("F1 is a recognized key-code name");
    assert_eq!(c.modifiers, mods(true, false, false, false));
    assert_eq!(c.key, KeyIdentifier::Other("F1".to_string()));
    assert_eq!(encode(&c), "Control+F1");
}

#[test]
fn decode_rejects_unknown_modifier() {
    assert_eq!(decode("Meta+A"), Err(HotkeyError::InvalidHotkeyString));
}

#[test]
fn decode_rejects_unknown_key_token() {
    assert_eq!(decode("Control+NotAKey"), Err(HotkeyError::InvalidHotkeyString));
}

#[test]
fn decode_rejects_empty_and_dangling() {
    assert_eq!(decode(""), Err(HotkeyError::InvalidHotkeyString));
    assert_eq!(decode("Control+"), Err(HotkeyError::InvalidHotkeyString));
    assert_eq!(decode("+A"), Err(HotkeyError::InvalidHotkeyString));
}

#[test]
fn decode_accepts_repeated_modifier() {
    let c = decode("Control+Control+D").expect("a repeated modifier folds into the set");
    assert_eq!(c.modifiers, mods(true, false, false, false));
}

#[test]
fn decode_space_key() {
    let c = decode("Control+ ").expect("the space token is the space key");
    assert_eq!(c.key, KeyIdentifier::Space);
}
