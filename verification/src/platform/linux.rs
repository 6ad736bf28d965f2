//! X11 (XInput2 raw events) keycodes.

use vstd::prelude::*;

use crate::keys::{Key, KeyEvent};

verus! {

/// XInput2 event type of a raw key press.
pub const XI_RAW_KEY_PRESS: i32 = 13;

/// XInput2 event type of a raw key release.
pub const XI_RAW_KEY_RELEASE: i32 = 14;

/// XInput2 raw-event flag set on auto-repeated key presses.
pub const XI_KEY_REPEAT: i32 = 65536;

/// The key an X11 keycode stands for.
pub open spec fn key_from_code_spec(code: u32) -> Key {
    match code {
        64 => Key::Alt,
        108 => Key::AltGr,
        22 => Key::Backspace,
        66 => Key::CapsLock,
        37 => Key::ControlLeft,
        105 => Key::ControlRight,
        119 => Key::Delete,
        116 => Key::DownArrow,
        115 => Key::End,
        9 => Key::Escape,
        67 => Key::F1,
        76 => Key::F10,
        95 => Key::F11,
        96 => Key::F12,
        68 => Key::F2,
        69 => Key::F3,
        70 => Key::F4,
        71 => Key::F5,
        72 => Key::F6,
        73 => Key::F7,
        74 => Key::F8,
        75 => Key::F9,
        110 => Key::Home,
        113 => Key::LeftArrow,
        133 => Key::MetaLeft,
        117 => Key::PageDown,
        112 => Key::PageUp,
        36 => Key::Return,
        114 => Key::RightArrow,
        50 => Key::ShiftLeft,
        62 => Key::ShiftRight,
        65 => Key::Space,
        23 => Key::Tab,
        111 => Key::UpArrow,
        107 => Key::PrintScreen,
        78 => Key::ScrollLock,
        127 => Key::Pause,
        77 => Key::NumLock,
        49 => Key::BackQuote,
        10 => Key::Num1,
        11 => Key::Num2,
        12 => Key::Num3,
        13 => Key::Num4,
        14 => Key::Num5,
        15 => Key::Num6,
        16 => Key::Num7,
        17 => Key::Num8,
        18 => Key::Num9,
        19 => Key::Num0,
        20 => Key::Minus,
        21 => Key::Equal,
        24 => Key::KeyQ,
        25 => Key::KeyW,
        26 => Key::KeyE,
        27 => Key::KeyR,
        28 => Key::KeyT,
        29 => Key::KeyY,
        30 => Key::KeyU,
        31 => Key::KeyI,
        32 => Key::KeyO,
        33 => Key::KeyP,
        34 => Key::LeftBracket,
        35 => Key::RightBracket,
        38 => Key::KeyA,
        39 => Key::KeyS,
        40 => Key::KeyD,
        41 => Key::KeyF,
        42 => Key::KeyG,
        43 => Key::KeyH,
        44 => Key::KeyJ,
        45 => Key::KeyK,
        46 => Key::KeyL,
        47 => Key::SemiColon,
        48 => Key::Quote,
        51 => Key::BackSlash,
        94 => Key::IntlBackslash,
        52 => Key::KeyZ,
        53 => Key::KeyX,
        54 => Key::KeyC,
        55 => Key::KeyV,
        56 => Key::KeyB,
        57 => Key::KeyN,
        58 => Key::KeyM,
        59 => Key::Comma,
        60 => Key::Dot,
        61 => Key::Slash,
        118 => Key::Insert,
        104 => Key::KpReturn,
        82 => Key::KpMinus,
        86 => Key::KpPlus,
        63 => Key::KpMultiply,
        106 => Key::KpDivide,
        90 => Key::Kp0,
        87 => Key::Kp1,
        88 => Key::Kp2,
        89 => Key::Kp3,
        83 => Key::Kp4,
        84 => Key::Kp5,
        85 => Key::Kp6,
        79 => Key::Kp7,
        80 => Key::Kp8,
        81 => Key::Kp9,
        91 => Key::KpDelete,
        _ => Key::Unknown(code as u32),
    }
}

/// The key an X11 keycode stands for.
pub fn key_from_code(code: u32) -> (r: Key)
    ensures
        r == key_from_code_spec(code),
{
    match code {
        64 => Key::Alt,
        108 => Key::AltGr,
        22 => Key::Backspace,
        66 => Key::CapsLock,
        37 => Key::ControlLeft,
        105 => Key::ControlRight,
        119 => Key::Delete,
        116 => Key::DownArrow,
        115 => Key::End,
        9 => Key::Escape,
        67 => Key::F1,
        76 => Key::F10,
        95 => Key::F11,
        96 => Key::F12,
        68 => Key::F2,
        69 => Key::F3,
        70 => Key::F4,
        71 => Key::F5,
        72 => Key::F6,
        73 => Key::F7,
        74 => Key::F8,
        75 => Key::F9,
        110 => Key::Home,
        113 => Key::LeftArrow,
        133 => Key::MetaLeft,
        117 => Key::PageDown,
        112 => Key::PageUp,
        36 => Key::Return,
        114 => Key::RightArrow,
        50 => Key::ShiftLeft,
        62 => Key::ShiftRight,
        65 => Key::Space,
        23 => Key::Tab,
        111 => Key::UpArrow,
        107 => Key::PrintScreen,
        78 => Key::ScrollLock,
        127 => Key::Pause,
        77 => Key::NumLock,
        49 => Key::BackQuote,
        10 => Key::Num1,
        11 => Key::Num2,
        12 => Key::Num3,
        13 => Key::Num4,
        14 => Key::Num5,
        15 => Key::Num6,
        16 => Key::Num7,
        17 => Key::Num8,
        18 => Key::Num9,
        19 => Key::Num0,
        20 => Key::Minus,
        21 => Key::Equal,
        24 => Key::KeyQ,
        25 => Key::KeyW,
        26 => Key::KeyE,
        27 => Key::KeyR,
        28 => Key::KeyT,
        29 => Key::KeyY,
        30 => Key::KeyU,
        31 => Key::KeyI,
        32 => Key::KeyO,
        33 => Key::KeyP,
        34 => Key::LeftBracket,
        35 => Key::RightBracket,
        38 => Key::KeyA,
        39 => Key::KeyS,
        40 => Key::KeyD,
        41 => Key::KeyF,
        42 => Key::KeyG,
        43 => Key::KeyH,
        44 => Key::KeyJ,
        45 => Key::KeyK,
        46 => Key::KeyL,
        47 => Key::SemiColon,
        48 => Key::Quote,
        51 => Key::BackSlash,
        94 => Key::IntlBackslash,
        52 => Key::KeyZ,
        53 => Key::KeyX,
        54 => Key::KeyC,
        55 => Key::KeyV,
        56 => Key::KeyB,
        57 => Key::KeyN,
        58 => Key::KeyM,
        59 => Key::Comma,
        60 => Key::Dot,
        61 => Key::Slash,
        118 => Key::Insert,
        104 => Key::KpReturn,
        82 => Key::KpMinus,
        86 => Key::KpPlus,
        63 => Key::KpMultiply,
        106 => Key::KpDivide,
        90 => Key::Kp0,
        87 => Key::Kp1,
        88 => Key::Kp2,
        89 => Key::Kp3,
        83 => Key::Kp4,
        84 => Key::Kp5,
        85 => Key::Kp6,
        79 => Key::Kp7,
        80 => Key::Kp8,
        81 => Key::Kp9,
        91 => Key::KpDelete,
        _ => Key::Unknown(code as u32),
    }
}

/// The key event an XInput2 raw event stands for: auto-repeated presses and
/// events of other types give nothing.
pub open spec fn convert_event_spec(event_type: i32, code: u32, flags: i32) -> Option<KeyEvent> {
    if event_type == XI_RAW_KEY_PRESS {
        if flags & XI_KEY_REPEAT == 0 {
            Some(KeyEvent::KeyPress(key_from_code_spec(code)))
        } else {
            None
        }
    } else if event_type == XI_RAW_KEY_RELEASE {
        Some(KeyEvent::KeyRelease(key_from_code_spec(code)))
    } else {
        None
    }
}

/// Decodes an XInput2 raw key event.
pub fn convert_event(event_type: i32, code: u32, flags: i32) -> (r: Option<KeyEvent>)
    ensures
        r == convert_event_spec(event_type, code, flags),
{
    let key = key_from_code(code);
    if event_type == XI_RAW_KEY_PRESS {
        if flags & XI_KEY_REPEAT == 0 {
            Some(KeyEvent::KeyPress(key))
        } else {
            None
        }
    } else if event_type == XI_RAW_KEY_RELEASE {
        Some(KeyEvent::KeyRelease(key))
    } else {
        None
    }
}

} // verus!
