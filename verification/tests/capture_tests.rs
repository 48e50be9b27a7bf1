use tomotroid::capture::{
    get_non_print_key_txt, CaptureOutcome, HotkeyCaptureFsm, KeyReleaseEvent,
};

fn event(control: bool, alt: bool, shift: bool, super_key: bool, text: &str) -> KeyReleaseEvent {
    KeyReleaseEvent { control, alt, shift, super_key, text: text.to_string() }
}

#[test]
fn accepted_combo_then_modifier_release_noise_is_discarded() {
    let mut fsm = HotkeyCaptureFsm::new();
    fsm.focus_gained();
    let first = fsm.handle_release(&event(true, false, false, false, "D"));
    let stored = match first {
        CaptureOutcome::Accepted(s) => s,
        CaptureOutcome::Discarded => panic!("Control+D must be accepted"),
    };
    assert_eq!(stored, "Control+D");

    // releasing Control afterwards fires a release with no modifiers and a
    // control-character payload; it must not overwrite the stored value
    fsm.focus_gained();
    let second = fsm.handle_release(&event(false, false, false, false, "\u{11}"));
    assert_eq!(second, CaptureOutcome::Discarded);
    assert_eq!(stored, "Control+D");
}

#[test]
fn tab_cancels_capture() {
    let mut fsm = HotkeyCaptureFsm::new();
    fsm.focus_gained();
    let outcome = fsm.handle_release(&event(true, false, false, false, "\t"));
    assert_eq!(outcome, CaptureOutcome::Discarded);
}

#[test]
fn release_without_focus_is_ignored() {
    let mut fsm = HotkeyCaptureFsm::new();
    let outcome = fsm.handle_release(&event(true, false, false, false, "D"));
    assert_eq!(outcome, CaptureOutcome::Discarded);
}

#[test]
fn printable_text_is_uppercased() {
    let mut fsm = HotkeyCaptureFsm::new();
    fsm.focus_gained();
    let outcome = fsm.handle_release(&event(true, false, true, false, "d"));
    assert_eq!(outcome, CaptureOutcome::Accepted("Control+Shift+D".to_string()));
}

#[test]
fn non_printable_keys_use_the_name_table() {
    let mut fsm = HotkeyCaptureFsm::new();
    fsm.focus_gained();
    let outcome = fsm.handle_release(&event(true, true, false, false, "\u{F704}"));
    assert_eq!(outcome, CaptureOutcome::Accepted("Control+Alt+F1".to_string()));

    fsm.focus_gained();
    let outcome = fsm.handle_release(&event(false, false, false, true, "\u{1b}"));
    assert_eq!(outcome, CaptureOutcome::Accepted("Super+Esc".to_string()));
}

#[test]
fn name_table_entries() {
    assert_eq!(get_non_print_key_txt("\u{8}"), Some("Bcksp"));
    assert_eq!(get_non_print_key_txt("\t"), Some("Tab"));
    assert_eq!(get_non_print_key_txt("\n"), Some("Return"));
    assert_eq!(get_non_print_key_txt("\u{1b}"), Some("Esc"));
    assert_eq!(get_non_print_key_txt("\u{7f}"), Some("Del"));
    assert_eq!(get_non_print_key_txt("\u{F700}"), Some("\u{2191}"));
    assert_eq!(get_non_print_key_txt("\u{F702}"), Some("\u{2192}"));
    assert_eq!(get_non_print_key_txt("\u{F704}"), Some("F1"));
    assert_eq!(get_non_print_key_txt("\u{F71B}"), Some("F24"));
    assert_eq!(get_non_print_key_txt("\u{F72C}"), Some("PgUp"));
    assert_eq!(get_non_print_key_txt("\u{F735}"), Some("Menu"));
    assert_eq!(get_non_print_key_txt("D"), None);
    assert_eq!(get_non_print_key_txt("DD"), None);
}
