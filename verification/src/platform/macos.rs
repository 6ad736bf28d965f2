//! macOS virtual keycodes (Quartz event tap), including the press/release
//! tracking of modifier keys, which only report "flags changed".

use std::collections::HashSet;

use vstd::prelude::*;

use crate::keys::{Key, KeyEvent};

verus! {

broadcast use vstd::std_specs::hash::group_hash_axioms;

/// Quartz event type of a key going down.
pub const CG_EVENT_KEY_DOWN: u32 = 10;

/// Quartz event type of a key coming up.
pub const CG_EVENT_KEY_UP: u32 = 11;

/// Quartz event type of a modifier key changing state.
pub const CG_EVENT_FLAGS_CHANGED: u32 = 12;

/// The key a macOS virtual keycode stands for.
pub open spec fn key_from_code_spec(code: u16) -> Key {
    match code {
        58 => Key::Alt,
        61 => Key::AltGr,
        51 => Key::Backspace,
        57 => Key::CapsLock,
        59 => Key::ControlLeft,
        62 => Key::ControlRight,
        125 => Key::DownArrow,
        53 => Key::Escape,
        122 => Key::F1,
        109 => Key::F10,
        103 => Key::F11,
        111 => Key::F12,
        120 => Key::F2,
        99 => Key::F3,
        118 => Key::F4,
        96 => Key::F5,
        97 => Key::F6,
        98 => Key::F7,
        100 => Key::F8,
        101 => Key::F9,
        63 => Key::Function,
        123 => Key::LeftArrow,
        55 => Key::MetaLeft,
        54 => Key::MetaRight,
        36 => Key::Return,
        124 => Key::RightArrow,
        56 => Key::ShiftLeft,
        60 => Key::ShiftRight,
        49 => Key::Space,
        48 => Key::Tab,
        126 => Key::UpArrow,
        50 => Key::BackQuote,
        18 => Key::Num1,
        19 => Key::Num2,
        20 => Key::Num3,
        21 => Key::Num4,
        23 => Key::Num5,
        22 => Key::Num6,
        26 => Key::Num7,
        28 => Key::Num8,
        25 => Key::Num9,
        29 => Key::Num0,
        27 => Key::Minus,
        24 => Key::Equal,
        12 => Key::KeyQ,
        13 => Key::KeyW,
        14 => Key::KeyE,
        15 => Key::KeyR,
        17 => Key::KeyT,
        16 => Key::KeyY,
        32 => Key::KeyU,
        34 => Key::KeyI,
        31 => Key::KeyO,
        35 => Key::KeyP,
        33 => Key::LeftBracket,
        30 => Key::RightBracket,
        0 => Key::KeyA,
        1 => Key::KeyS,
        2 => Key::KeyD,
        3 => Key::KeyF,
        5 => Key::KeyG,
        4 => Key::KeyH,
        38 => Key::KeyJ,
        40 => Key::KeyK,
        37 => Key::KeyL,
        41 => Key::SemiColon,
        39 => Key::Quote,
        42 => Key::BackSlash,
        6 => Key::KeyZ,
        7 => Key::KeyX,
        8 => Key::KeyC,
        9 => Key::KeyV,
        11 => Key::KeyB,
        45 => Key::KeyN,
        46 => Key::KeyM,
        43 => Key::Comma,
        47 => Key::Dot,
        44 => Key::Slash,
        _ => Key::Unknown(code as u32),
    }
}

/// The key a macOS virtual keycode stands for.
pub fn key_from_code(code: u16) -> (r: Key)
    ensures
        r == key_from_code_spec(code),
{
    match code {
        58 => Key::Alt,
        61 => Key::AltGr,
        51 => Key::Backspace,
        57 => Key::CapsLock,
        59 => Key::ControlLeft,
        62 => Key::ControlRight,
        125 => Key::DownArrow,
        53 => Key::Escape,
        122 => Key::F1,
        109 => Key::F10,
        103 => Key::F11,
        111 => Key::F12,
        120 => Key::F2,
        99 => Key::F3,
        118 => Key::F4,
        96 => Key::F5,
        97 => Key::F6,
        98 => Key::F7,
        100 => Key::F8,
        101 => Key::F9,
        63 => Key::Function,
        123 => Key::LeftArrow,
        55 => Key::MetaLeft,
        54 => Key::MetaRight,
        36 => Key::Return,
        124 => Key::RightArrow,
        56 => Key::ShiftLeft,
        60 => Key::ShiftRight,
        49 => Key::Space,
        48 => Key::Tab,
        126 => Key::UpArrow,
        50 => Key::BackQuote,
        18 => Key::Num1,
        19 => Key::Num2,
        20 => Key::Num3,
        21 => Key::Num4,
        23 => Key::Num5,
        22 => Key::Num6,
        26 => Key::Num7,
        28 => Key::Num8,
        25 => Key::Num9,
        29 => Key::Num0,
        27 => Key::Minus,
        24 => Key::Equal,
        12 => Key::KeyQ,
        13 => Key::KeyW,
        14 => Key::KeyE,
        15 => Key::KeyR,
        17 => Key::KeyT,
        16 => Key::KeyY,
        32 => Key::KeyU,
        34 => Key::KeyI,
        31 => Key::KeyO,
        35 => Key::KeyP,
        33 => Key::LeftBracket,
        30 => Key::RightBracket,
        0 => Key::KeyA,
        1 => Key::KeyS,
        2 => Key::KeyD,
        3 => Key::KeyF,
        5 => Key::KeyG,
        4 => Key::KeyH,
        38 => Key::KeyJ,
        40 => Key::KeyK,
        37 => Key::KeyL,
        41 => Key::SemiColon,
        39 => Key::Quote,
        42 => Key::BackSlash,
        6 => Key::KeyZ,
        7 => Key::KeyX,
        8 => Key::KeyC,
        9 => Key::KeyV,
        11 => Key::KeyB,
        45 => Key::KeyN,
        46 => Key::KeyM,
        43 => Key::Comma,
        47 => Key::Dot,
        44 => Key::Slash,
        _ => Key::Unknown(code as u32),
    }
}

/// The modifier key a keycode stands for: codes 54 to 63 are modifiers.
pub open spec fn modifier_key_from_code_spec(code: u16) -> Option<Key> {
    if 54 <= code <= 63 {
        Some(key_from_code_spec(code))
    } else {
        None
    }
}

/// The modifier key a keycode stands for, if it is one.
pub fn modifier_key_from_code(code: u16) -> (r: Option<Key>)
    ensures
        r == modifier_key_from_code_spec(code),
{
    if 54 <= code && code <= 63 {
        Some(key_from_code(code))
    } else {
        None
    }
}

/// A flags-changed event toggles its modifier: a modifier that was down
/// comes up, one that was up goes down. Non-modifier codes give nothing and
/// leave the set alone. Returns the pressed modifiers afterwards and the
/// event.
pub open spec fn modifier_step(code: u16, pressed: Set<u16>) -> (Set<u16>, Option<KeyEvent>) {
    match modifier_key_from_code_spec(code) {
        None => (pressed, None),
        Some(key) => if pressed.contains(code) {
            (pressed.remove(code), Some(KeyEvent::KeyRelease(key)))
        } else {
            (pressed.insert(code), Some(KeyEvent::KeyPress(key)))
        },
    }
}

/// Decodes a flags-changed event for `code`.
pub fn convert_modifier_event(code: u16, pressed_modifiers: &mut HashSet<u16>) -> (r: Option<KeyEvent>)
    ensures
        (final(pressed_modifiers)@, r) == modifier_step(code, old(pressed_modifiers)@),
{
    let key = match modifier_key_from_code(code) {
        Some(key) => key,
        None => return None,
    };
    if pressed_modifiers.remove(&code) {
        Some(KeyEvent::KeyRelease(key))
    } else {
        pressed_modifiers.insert(code);
        Some(KeyEvent::KeyPress(key))
    }
}

/// Two flags-changed events of the same modifier, starting from it being
/// up, are its press and then its release, and leave the set as it was.
pub proof fn lemma_modifier_press_then_release(code: u16, pressed: Set<u16>)
    requires
        54 <= code <= 63,
        !pressed.contains(code),
    ensures
        ({
            let (after_press, first) = modifier_step(code, pressed);
            let (after_release, second) = modifier_step(code, after_press);
            &&& first == Some(KeyEvent::KeyPress(key_from_code_spec(code)))
            &&& second == Some(KeyEvent::KeyRelease(key_from_code_spec(code)))
            &&& after_release == pressed
        }),
{
    assert(pressed.insert(code).remove(code) =~= pressed);
}

/// Left and right modifiers are tracked independently: an event of one
/// code leaves whether any other code is down unchanged.
pub proof fn lemma_modifiers_are_independent(code: u16, other: u16, pressed: Set<u16>)
    requires
        code != other,
    ensures
        modifier_step(code, pressed).0.contains(other) == pressed.contains(other),
{
}

/// The key event a Quartz keyboard event stands for.
pub open spec fn convert_event_spec(event_type: u32, code: u16, pressed: Set<u16>) -> Option<KeyEvent> {
    if event_type == CG_EVENT_KEY_DOWN {
        Some(KeyEvent::KeyPress(key_from_code_spec(code)))
    } else if event_type == CG_EVENT_KEY_UP {
        Some(KeyEvent::KeyRelease(key_from_code_spec(code)))
    } else if event_type == CG_EVENT_FLAGS_CHANGED {
        modifier_step(code, pressed).1
    } else {
        None
    }
}

/// Decodes a Quartz keyboard event; only flags-changed events touch the set
/// of pressed modifiers.
pub fn convert_event(event_type: u32, code: u16, pressed_modifiers: &mut HashSet<u16>) -> (r: Option<KeyEvent>)
    ensures
        r == convert_event_spec(event_type, code, old(pressed_modifiers)@),
        event_type != CG_EVENT_FLAGS_CHANGED ==> final(pressed_modifiers)@ == old(pressed_modifiers)@,
        event_type == CG_EVENT_FLAGS_CHANGED ==> final(pressed_modifiers)@ == modifier_step(code, old(pressed_modifiers)@).0,
{
    if event_type == CG_EVENT_KEY_DOWN {
        Some(KeyEvent::KeyPress(key_from_code(code)))
    } else if event_type == CG_EVENT_KEY_UP {
        Some(KeyEvent::KeyRelease(key_from_code(code)))
    } else if event_type == CG_EVENT_FLAGS_CHANGED {
        convert_modifier_event(code, pressed_modifiers)
    } else {
        None
    }
}

} // verus!
