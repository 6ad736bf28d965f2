use std::collections::HashSet;

use keyecho::gate::KeyPressGate;
use keyecho::keys::{Key, KeyEvent};
use keyecho::platform::{linux, macos, windows};

#[test]
fn key_press_gate_emits_one_press_and_its_release() {
    let mut gate = KeyPressGate::new();

    assert_eq!(gate.event_to_play(KeyEvent::KeyPress(Key::KeyA)), Some(KeyEvent::KeyPress(Key::KeyA)));
    assert_eq!(gate.event_to_play(KeyEvent::KeyPress(Key::KeyA)), None);
    assert_eq!(gate.event_to_play(KeyEvent::KeyRelease(Key::KeyA)), Some(KeyEvent::KeyRelease(Key::KeyA)));
    assert_eq!(gate.event_to_play(KeyEvent::KeyRelease(Key::KeyA)), None);
    assert_eq!(gate.event_to_play(KeyEvent::KeyPress(Key::KeyA)), Some(KeyEvent::KeyPress(Key::KeyA)));
}

#[test]
fn key_press_gate_tracks_keys_independently() {
    let mut gate = KeyPressGate::default();

    assert_eq!(gate.event_to_play(KeyEvent::KeyPress(Key::KeyA)), Some(KeyEvent::KeyPress(Key::KeyA)));
    assert_eq!(gate.event_to_play(KeyEvent::KeyPress(Key::KeyB)), Some(KeyEvent::KeyPress(Key::KeyB)));
    assert_eq!(gate.event_to_play(KeyEvent::KeyPress(Key::KeyA)), None);
    assert_eq!(gate.event_to_play(KeyEvent::KeyPress(Key::KeyB)), None);
}

#[test]
fn gate_tells_unknown_codes_apart() {
    let mut gate = KeyPressGate::new();
    assert!(gate.event_to_play(KeyEvent::KeyPress(Key::Unknown(7))).is_some());
    assert!(gate.event_to_play(KeyEvent::KeyPress(Key::Unknown(8))).is_some());
    assert!(gate.event_to_play(KeyEvent::KeyPress(Key::Unknown(7))).is_none());
    assert!(gate.event_to_play(KeyEvent::KeyRelease(Key::Unknown(0))).is_none());
}

#[test]
fn repeated_raw_key_presses_are_suppressed() {
    assert_eq!(linux::convert_event(linux::XI_RAW_KEY_PRESS, 38, 0), Some(KeyEvent::KeyPress(Key::KeyA)));
    assert_eq!(linux::convert_event(linux::XI_RAW_KEY_PRESS, 38, linux::XI_KEY_REPEAT), None);
    assert_eq!(linux::convert_event(linux::XI_RAW_KEY_RELEASE, 38, 0), Some(KeyEvent::KeyRelease(Key::KeyA)));
}

#[test]
fn modifier_events_track_left_and_right_keys_independently() {
    let mut pressed_modifiers = HashSet::new();

    assert_eq!(macos::convert_modifier_event(56, &mut pressed_modifiers), Some(KeyEvent::KeyPress(Key::ShiftLeft)));
    assert_eq!(macos::convert_modifier_event(60, &mut pressed_modifiers), Some(KeyEvent::KeyPress(Key::ShiftRight)));
    assert_eq!(macos::convert_modifier_event(56, &mut pressed_modifiers), Some(KeyEvent::KeyRelease(Key::ShiftLeft)));
    assert_eq!(macos::convert_modifier_event(60, &mut pressed_modifiers), Some(KeyEvent::KeyRelease(Key::ShiftRight)));
    assert!(pressed_modifiers.is_empty());
}

#[test]
fn modifier_events_ignore_non_modifier_keycodes() {
    let mut pressed_modifiers = HashSet::new();

    assert_eq!(macos::convert_modifier_event(0, &mut pressed_modifiers), None);
    assert!(pressed_modifiers.is_empty());
}

#[test]
fn platform_tables_map_known_and_unknown_codes() {
    assert_eq!(linux::key_from_code(65), Key::Space);
    assert_eq!(linux::key_from_code(999), Key::Unknown(999));
    assert_eq!(macos::key_from_code(63), Key::Function);
    assert_eq!(macos::key_from_code(200), Key::Unknown(200));
    assert_eq!(windows::key_from_code(0x0D), Key::Return);
    assert_eq!(windows::key_from_code(13 + 1000), Key::Unknown(1013));
    assert_eq!(windows::convert_event(windows::WM_SYSKEYDOWN, 164), Some(KeyEvent::KeyPress(Key::Alt)));
    assert_eq!(windows::convert_event(windows::WM_KEYUP, 65), Some(KeyEvent::KeyRelease(Key::KeyA)));
    assert_eq!(windows::convert_event(0x200, 65), None);
    let mut pressed = HashSet::new();
    assert_eq!(
        macos::convert_event(macos::CG_EVENT_KEY_DOWN, 0, &mut pressed),
        Some(KeyEvent::KeyPress(Key::KeyA))
    );
    assert_eq!(macos::convert_event(macos::CG_EVENT_FLAGS_CHANGED, 55, &mut pressed), Some(KeyEvent::KeyPress(Key::MetaLeft)));
    assert_eq!(macos::convert_event(99, 55, &mut pressed), None);
}

#[test]
fn v2_manifest_accepts_fn_key_alias() {
    assert_eq!(Key::from_name("Fn"), Some(Key::Function));
    assert_eq!(Key::from_name("Function"), Some(Key::Function));
    assert_eq!(Key::from_name("KeyA"), Some(Key::KeyA));
    assert_eq!(Key::from_name("keya"), None);
    assert_eq!(Key::KpDelete.as_str(), "KpDelete");
    assert_eq!(Key::Unknown(3).as_str(), "Unknown");
}

#[test]
fn key_names_read_back_as_the_same_key() {
    let keys = [
        Key::Alt,
        Key::AltGr,
        Key::F1,
        Key::F10,
        Key::KeyA,
        Key::Num1,
        Key::Kp1,
        Key::KpDelete,
        Key::Function,
        Key::ControlRight,
    ];
    for key in keys {
        assert_eq!(Key::from_name(key.as_str()), Some(key));
    }
    assert_eq!(Key::Function.as_str(), "Function");
}
