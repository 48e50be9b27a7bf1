use tomotroid::codec::encode;
use tomotroid::dispatch::{dispatch, HotkeyRegistration, TimerAction};
use tomotroid::keys::{KeyCombo, KeyIdentifier, ModifierSet};
use tomotroid::settings::{
    default_shortcuts, is_wayland, load_shortcuts, BoolSettTypes, GlobalShortcuts, IntSettTypes,
    JsonSettings, SettingChanged,
};

fn base_settings() -> JsonSettings {
    let shortcuts = default_shortcuts().expect("built-in defaults decode");
    JsonSettings {
        always_on_top: false,
        auto_start_break_timer: true,
        auto_start_work_timer: false,
        break_always_on_top: false,
        global_shortcuts: shortcuts,
        min_to_tray: false,
        min_to_tray_on_close: false,
        notifications: true,
        theme: "Rangitoto".to_string(),
        tick_sounds: true,
        tick_sounds_during_break: false,
        time_long_break: 900_000,
        time_short_break: 300_000,
        time_work: 1_500_000,
        volume: 100,
        work_rounds: 4,
    }
}

#[test]
fn to_usize_lists_settings_in_order() {
    assert_eq!(BoolSettTypes::AlwOnTop.to_usize(), 0);
    assert_eq!(BoolSettTypes::BrkAlwOnTop.to_usize(), 1);
    assert_eq!(BoolSettTypes::AutoStrtWrkTim.to_usize(), 2);
    assert_eq!(BoolSettTypes::AutoStrtBreakTim.to_usize(), 3);
    assert_eq!(BoolSettTypes::TickSounds.to_usize(), 4);
    assert_eq!(BoolSettTypes::TickSoundsBreak.to_usize(), 5);
    assert_eq!(BoolSettTypes::Notifications.to_usize(), 6);
    assert_eq!(BoolSettTypes::MinToTray.to_usize(), 7);
    assert_eq!(BoolSettTypes::MinToTryCls.to_usize(), 8);
}

#[test]
fn apply_change_touches_only_the_named_field() {
    let mut settings = base_settings();
    settings.apply_change(SettingChanged::Flag(BoolSettTypes::MinToTray, true));
    assert!(settings.min_to_tray);
    settings.apply_change(SettingChanged::Value(IntSettTypes::Volume, 40));
    assert_eq!(settings.volume, 40);
    let mut expected = base_settings();
    expected.min_to_tray = true;
    expected.volume = 40;
    assert_eq!(settings, expected);
}

#[test]
fn round_config_comes_from_the_time_settings() {
    let settings = base_settings();
    let config = settings.round_config().expect("positive durations");
    assert_eq!(config.focus_ms, 1_500_000);
    assert_eq!(config.short_break_ms, 300_000);
    assert_eq!(config.long_break_ms, 900_000);
    assert_eq!(config.rounds_until_long_break, 4);

    let mut bad = base_settings();
    bad.time_work = 0;
    assert!(bad.round_config().is_none());
    let mut bad = base_settings();
    bad.work_rounds = 0;
    assert!(bad.round_config().is_none());
}

#[test]
fn scheduler_mirrors_auto_start_flags() {
    let settings = base_settings();
    let scheduler = settings.scheduler();
    assert!(scheduler.auto_start_break);
    assert!(!scheduler.auto_start_work);
}

#[test]
fn default_shortcuts_are_control_function_keys() {
    let shortcuts = default_shortcuts().expect("built-in defaults decode");
    assert_eq!(encode(&shortcuts.toggle), "Control+F1");
    assert_eq!(encode(&shortcuts.reset), "Control+F2");
    assert_eq!(encode(&shortcuts.skip), "Control+F3");
}

#[test]
fn load_shortcuts_falls_back_per_field() {
    let defaults = default_shortcuts().expect("built-in defaults decode");
    let loaded = load_shortcuts("Control+R", "garbage", "Alt+T", defaults.clone());
    assert_eq!(encode(&loaded.reset), "Control+R");
    assert_eq!(loaded.skip, defaults.skip, "the broken field alone falls back");
    assert_eq!(encode(&loaded.toggle), "Alt+T");
}

#[test]
fn is_wayland_checks_session_type_first() {
    assert!(is_wayland(Some("wayland"), None));
    assert!(!is_wayland(Some("x11"), None));
    assert!(!is_wayland(Some("x11"), Some("wayland-0")));
    assert!(is_wayland(None, Some("wayland-0")));
    assert!(!is_wayland(None, Some("display")));
    assert!(!is_wayland(None, None));
}

#[test]
fn dispatch_resolves_toggle_by_running_state() {
    let reg = HotkeyRegistration { toggle_id: Some(7), reset_id: Some(8), skip_id: Some(9) };
    assert_eq!(dispatch(&reg, 7, false), Some(TimerAction::Start));
    assert_eq!(dispatch(&reg, 7, true), Some(TimerAction::Stop));
    assert_eq!(dispatch(&reg, 8, true), Some(TimerAction::Reset));
    assert_eq!(dispatch(&reg, 9, false), Some(TimerAction::Skip));
    assert_eq!(dispatch(&reg, 10, false), None);
}

#[test]
fn dispatch_skips_unregistered_hotkeys() {
    let reg = HotkeyRegistration { toggle_id: None, reset_id: Some(8), skip_id: None };
    assert_eq!(dispatch(&reg, 8, false), Some(TimerAction::Reset));
    assert_eq!(dispatch(&reg, 7, false), None);
}

#[test]
fn dispatch_prefers_toggle_on_id_collision() {
    let reg = HotkeyRegistration { toggle_id: Some(5), reset_id: Some(5), skip_id: Some(5) };
    assert_eq!(dispatch(&reg, 5, false), Some(TimerAction::Start));
}

#[test]
fn shortcuts_encode_to_legacy_schema_strings() {
    let shortcuts = GlobalShortcuts {
        reset: KeyCombo {
            modifiers: ModifierSet { control: true, alt: false, shift: false, super_key: false },
            key: KeyIdentifier::KeyR,
        },
        skip: KeyCombo {
            modifiers: ModifierSet { control: true, alt: false, shift: false, super_key: false },
            key: KeyIdentifier::KeyS,
        },
        toggle: KeyCombo {
            modifiers: ModifierSet { control: true, alt: false, shift: false, super_key: false },
            key: KeyIdentifier::KeyT,
        },
    };
    assert_eq!(encode(&shortcuts.reset), "Control+R");
    assert_eq!(encode(&shortcuts.skip), "Control+S");
    assert_eq!(encode(&shortcuts.toggle), "Control+T");
}
