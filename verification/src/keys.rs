//! Keyboard keys and key events, with their stable numeric ids and names.

use vstd::prelude::*;

use crate::text::str_eq;

verus! {

/// A physical key, as reported by the platform listeners.
#[derive(Debug, Clone, Copy, PartialEq, Eq, Hash, Structural)]
pub enum Key {
    Alt,
    AltGr,
    Backspace,
    CapsLock,
    ControlLeft,
    ControlRight,
    Delete,
    DownArrow,
    End,
    Escape,
    F1,
    F10,
    F11,
    F12,
    F2,
    F3,
    F4,
    F5,
    F6,
    F7,
    F8,
    F9,
    Home,
    LeftArrow,
    MetaLeft,
    MetaRight,
    PageDown,
    PageUp,
    Return,
    RightArrow,
    ShiftLeft,
    ShiftRight,
    Space,
    Tab,
    UpArrow,
    PrintScreen,
    ScrollLock,
    Pause,
    NumLock,
    BackQuote,
    Num1,
    Num2,
    Num3,
    Num4,
    Num5,
    Num6,
    Num7,
    Num8,
    Num9,
    Num0,
    Minus,
    Equal,
    KeyQ,
    KeyW,
    KeyE,
    KeyR,
    KeyT,
    KeyY,
    KeyU,
    KeyI,
    KeyO,
    KeyP,
    LeftBracket,
    RightBracket,
    KeyA,
    KeyS,
    KeyD,
    KeyF,
    KeyG,
    KeyH,
    KeyJ,
    KeyK,
    KeyL,
    SemiColon,
    Quote,
    BackSlash,
    IntlBackslash,
    KeyZ,
    KeyX,
    KeyC,
    KeyV,
    KeyB,
    KeyN,
    KeyM,
    Comma,
    Dot,
    Slash,
    Insert,
    KpReturn,
    KpMinus,
    KpPlus,
    KpMultiply,
    KpDivide,
    Kp0,
    Kp1,
    Kp2,
    Kp3,
    Kp4,
    Kp5,
    Kp6,
    Kp7,
    Kp8,
    Kp9,
    KpDelete,
    Function,
    Unknown(u32),
}

/// A key going down or coming back up.
#[derive(Debug, Clone, Copy, PartialEq, Eq, Hash, Structural)]
pub enum KeyEvent {
    KeyPress(Key),
    KeyRelease(Key),
}

/// Why a platform key listener could not start.
#[derive(Debug, Clone, Copy, PartialEq, Eq, Structural)]
pub enum ListenError {
    EventTap,
    LoopSource,
    MissingDisplay,
    RecordContextEnabling,
    RecordContext,
    XRecordExtension,
    XInputExtension,
    KeyHook(u32),
}

/// Ids of unknown platform codes start here, above every named key.
pub const UNKNOWN_KEY_ID_BASE: u64 = 1000;

/// The numeric id of a key: its position among the named keys, or
/// `UNKNOWN_KEY_ID_BASE` plus the raw code for an unknown key.
pub open spec fn key_id(k: Key) -> u64 {
    match k {
        Key::Alt => 0,
        Key::AltGr => 1,
        Key::Backspace => 2,
        Key::CapsLock => 3,
        Key::ControlLeft => 4,
        Key::ControlRight => 5,
        Key::Delete => 6,
        Key::DownArrow => 7,
        Key::End => 8,
        Key::Escape => 9,
        Key::F1 => 10,
        Key::F10 => 11,
        Key::F11 => 12,
        Key::F12 => 13,
        Key::F2 => 14,
        Key::F3 => 15,
        Key::F4 => 16,
        Key::F5 => 17,
        Key::F6 => 18,
        Key::F7 => 19,
        Key::F8 => 20,
        Key::F9 => 21,
        Key::Home => 22,
        Key::LeftArrow => 23,
        Key::MetaLeft => 24,
        Key::MetaRight => 25,
        Key::PageDown => 26,
        Key::PageUp => 27,
        Key::Return => 28,
        Key::RightArrow => 29,
        Key::ShiftLeft => 30,
        Key::ShiftRight => 31,
        Key::Space => 32,
        Key::Tab => 33,
        Key::UpArrow => 34,
        Key::PrintScreen => 35,
        Key::ScrollLock => 36,
        Key::Pause => 37,
        Key::NumLock => 38,
        Key::BackQuote => 39,
        Key::Num1 => 40,
        Key::Num2 => 41,
        Key::Num3 => 42,
        Key::Num4 => 43,
        Key::Num5 => 44,
        Key::Num6 => 45,
        Key::Num7 => 46,
        Key::Num8 => 47,
        Key::Num9 => 48,
        Key::Num0 => 49,
        Key::Minus => 50,
        Key::Equal => 51,
        Key::KeyQ => 52,
        Key::KeyW => 53,
        Key::KeyE => 54,
        Key::KeyR => 55,
        Key::KeyT => 56,
        Key::KeyY => 57,
        Key::KeyU => 58,
        Key::KeyI => 59,
        Key::KeyO => 60,
        Key::KeyP => 61,
        Key::LeftBracket => 62,
        Key::RightBracket => 63,
        Key::KeyA => 64,
        Key::KeyS => 65,
        Key::KeyD => 66,
        Key::KeyF => 67,
        Key::KeyG => 68,
        Key::KeyH => 69,
        Key::KeyJ => 70,
        Key::KeyK => 71,
        Key::KeyL => 72,
        Key::SemiColon => 73,
        Key::Quote => 74,
        Key::BackSlash => 75,
        Key::IntlBackslash => 76,
        Key::KeyZ => 77,
        Key::KeyX => 78,
        Key::KeyC => 79,
        Key::KeyV => 80,
        Key::KeyB => 81,
        Key::KeyN => 82,
        Key::KeyM => 83,
        Key::Comma => 84,
        Key::Dot => 85,
        Key::Slash => 86,
        Key::Insert => 87,
        Key::KpReturn => 88,
        Key::KpMinus => 89,
        Key::KpPlus => 90,
        Key::KpMultiply => 91,
        Key::KpDivide => 92,
        Key::Kp0 => 93,
        Key::Kp1 => 94,
        Key::Kp2 => 95,
        Key::Kp3 => 96,
        Key::Kp4 => 97,
        Key::Kp5 => 98,
        Key::Kp6 => 99,
        Key::Kp7 => 100,
        Key::Kp8 => 101,
        Key::Kp9 => 102,
        Key::KpDelete => 103,
        Key::Function => 104,
        Key::Unknown(code) => (UNKNOWN_KEY_ID_BASE + code) as u64,
    }
}

/// The key whose id is `id`, if any.
pub open spec fn key_of_id(id: u64) -> Option<Key> {
    if id == 0 {
        Some(Key::Alt)
    } else if id == 1 {
        Some(Key::AltGr)
    } else if id == 2 {
        Some(Key::Backspace)
    } else if id == 3 {
        Some(Key::CapsLock)
    } else if id == 4 {
        Some(Key::ControlLeft)
    } else if id == 5 {
        Some(Key::ControlRight)
    } else if id == 6 {
        Some(Key::Delete)
    } else if id == 7 {
        Some(Key::DownArrow)
    } else if id == 8 {
        Some(Key::End)
    } else if id == 9 {
        Some(Key::Escape)
    } else if id == 10 {
        Some(Key::F1)
    } else if id == 11 {
        Some(Key::F10)
    } else if id == 12 {
        Some(Key::F11)
    } else if id == 13 {
        Some(Key::F12)
    } else if id == 14 {
        Some(Key::F2)
    } else if id == 15 {
        Some(Key::F3)
    } else if id == 16 {
        Some(Key::F4)
    } else if id == 17 {
        Some(Key::F5)
    } else if id == 18 {
        Some(Key::F6)
    } else if id == 19 {
        Some(Key::F7)
    } else if id == 20 {
        Some(Key::F8)
    } else if id == 21 {
        Some(Key::F9)
    } else if id == 22 {
        Some(Key::Home)
    } else if id == 23 {
        Some(Key::LeftArrow)
    } else if id == 24 {
        Some(Key::MetaLeft)
    } else if id == 25 {
        Some(Key::MetaRight)
    } else if id == 26 {
        Some(Key::PageDown)
    } else if id == 27 {
        Some(Key::PageUp)
    } else if id == 28 {
        Some(Key::Return)
    } else if id == 29 {
        Some(Key::RightArrow)
    } else if id == 30 {
        Some(Key::ShiftLeft)
    } else if id == 31 {
        Some(Key::ShiftRight)
    } else if id == 32 {
        Some(Key::Space)
    } else if id == 33 {
        Some(Key::Tab)
    } else if id == 34 {
        Some(Key::UpArrow)
    } else if id == 35 {
        Some(Key::PrintScreen)
    } else if id == 36 {
        Some(Key::ScrollLock)
    } else if id == 37 {
        Some(Key::Pause)
    } else if id == 38 {
        Some(Key::NumLock)
    } else if id == 39 {
        Some(Key::BackQuote)
    } else if id == 40 {
        Some(Key::Num1)
    } else if id == 41 {
        Some(Key::Num2)
    } else if id == 42 {
        Some(Key::Num3)
    } else if id == 43 {
        Some(Key::Num4)
    } else if id == 44 {
        Some(Key::Num5)
    } else if id == 45 {
        Some(Key::Num6)
    } else if id == 46 {
        Some(Key::Num7)
    } else if id == 47 {
        Some(Key::Num8)
    } else if id == 48 {
        Some(Key::Num9)
    } else if id == 49 {
        Some(Key::Num0)
    } else if id == 50 {
        Some(Key::Minus)
    } else if id == 51 {
        Some(Key::Equal)
    } else if id == 52 {
        Some(Key::KeyQ)
    } else if id == 53 {
        Some(Key::KeyW)
    } else if id == 54 {
        Some(Key::KeyE)
    } else if id == 55 {
        Some(Key::KeyR)
    } else if id == 56 {
        Some(Key::KeyT)
    } else if id == 57 {
        Some(Key::KeyY)
    } else if id == 58 {
        Some(Key::KeyU)
    } else if id == 59 {
        Some(Key::KeyI)
    } else if id == 60 {
        Some(Key::KeyO)
    } else if id == 61 {
        Some(Key::KeyP)
    } else if id == 62 {
        Some(Key::LeftBracket)
    } else if id == 63 {
        Some(Key::RightBracket)
    } else if id == 64 {
        Some(Key::KeyA)
    } else if id == 65 {
        Some(Key::KeyS)
    } else if id == 66 {
        Some(Key::KeyD)
    } else if id == 67 {
        Some(Key::KeyF)
    } else if id == 68 {
        Some(Key::KeyG)
    } else if id == 69 {
        Some(Key::KeyH)
    } else if id == 70 {
        Some(Key::KeyJ)
    } else if id == 71 {
        Some(Key::KeyK)
    } else if id == 72 {
        Some(Key::KeyL)
    } else if id == 73 {
        Some(Key::SemiColon)
    } else if id == 74 {
        Some(Key::Quote)
    } else if id == 75 {
        Some(Key::BackSlash)
    } else if id == 76 {
        Some(Key::IntlBackslash)
    } else if id == 77 {
        Some(Key::KeyZ)
    } else if id == 78 {
        Some(Key::KeyX)
    } else if id == 79 {
        Some(Key::KeyC)
    } else if id == 80 {
        Some(Key::KeyV)
    } else if id == 81 {
        Some(Key::KeyB)
    } else if id == 82 {
        Some(Key::KeyN)
    } else if id == 83 {
        Some(Key::KeyM)
    } else if id == 84 {
        Some(Key::Comma)
    } else if id == 85 {
        Some(Key::Dot)
    } else if id == 86 {
        Some(Key::Slash)
    } else if id == 87 {
        Some(Key::Insert)
    } else if id == 88 {
        Some(Key::KpReturn)
    } else if id == 89 {
        Some(Key::KpMinus)
    } else if id == 90 {
        Some(Key::KpPlus)
    } else if id == 91 {
        Some(Key::KpMultiply)
    } else if id == 92 {
        Some(Key::KpDivide)
    } else if id == 93 {
        Some(Key::Kp0)
    } else if id == 94 {
        Some(Key::Kp1)
    } else if id == 95 {
        Some(Key::Kp2)
    } else if id == 96 {
        Some(Key::Kp3)
    } else if id == 97 {
        Some(Key::Kp4)
    } else if id == 98 {
        Some(Key::Kp5)
    } else if id == 99 {
        Some(Key::Kp6)
    } else if id == 100 {
        Some(Key::Kp7)
    } else if id == 101 {
        Some(Key::Kp8)
    } else if id == 102 {
        Some(Key::Kp9)
    } else if id == 103 {
        Some(Key::KpDelete)
    } else if id == 104 {
        Some(Key::Function)
    } else if UNKNOWN_KEY_ID_BASE <= id <= UNKNOWN_KEY_ID_BASE + u32::MAX {
        Some(Key::Unknown((id - UNKNOWN_KEY_ID_BASE) as u32))
    } else {
        None
    }
}

/// Distinct keys have distinct ids: the id of a key gives the key back.
pub proof fn lemma_key_id_injective(k: Key)
    ensures
        key_of_id(key_id(k)) == Some(k),
{
}

/// The name a key is written with in sound-pack configurations.
pub open spec fn key_name(k: Key) -> Seq<char> {
    match k {
        Key::Alt => "Alt"@,
        Key::AltGr => "AltGr"@,
        Key::Backspace => "Backspace"@,
        Key::CapsLock => "CapsLock"@,
        Key::ControlLeft => "ControlLeft"@,
        Key::ControlRight => "ControlRight"@,
        Key::Delete => "Delete"@,
        Key::DownArrow => "DownArrow"@,
        Key::End => "End"@,
        Key::Escape => "Escape"@,
        Key::F1 => "F1"@,
        Key::F10 => "F10"@,
        Key::F11 => "F11"@,
        Key::F12 => "F12"@,
        Key::F2 => "F2"@,
        Key::F3 => "F3"@,
        Key::F4 => "F4"@,
        Key::F5 => "F5"@,
        Key::F6 => "F6"@,
        Key::F7 => "F7"@,
        Key::F8 => "F8"@,
        Key::F9 => "F9"@,
        Key::Home => "Home"@,
        Key::LeftArrow => "LeftArrow"@,
        Key::MetaLeft => "MetaLeft"@,
        Key::MetaRight => "MetaRight"@,
        Key::PageDown => "PageDown"@,
        Key::PageUp => "PageUp"@,
        Key::Return => "Return"@,
        Key::RightArrow => "RightArrow"@,
        Key::ShiftLeft => "ShiftLeft"@,
        Key::ShiftRight => "ShiftRight"@,
        Key::Space => "Space"@,
        Key::Tab => "Tab"@,
        Key::UpArrow => "UpArrow"@,
        Key::PrintScreen => "PrintScreen"@,
        Key::ScrollLock => "ScrollLock"@,
        Key::Pause => "Pause"@,
        Key::NumLock => "NumLock"@,
        Key::BackQuote => "BackQuote"@,
        Key::Num1 => "Num1"@,
        Key::Num2 => "Num2"@,
        Key::Num3 => "Num3"@,
        Key::Num4 => "Num4"@,
        Key::Num5 => "Num5"@,
        Key::Num6 => "Num6"@,
        Key::Num7 => "Num7"@,
        Key::Num8 => "Num8"@,
        Key::Num9 => "Num9"@,
        Key::Num0 => "Num0"@,
        Key::Minus => "Minus"@,
        Key::Equal => "Equal"@,
        Key::KeyQ => "KeyQ"@,
        Key::KeyW => "KeyW"@,
        Key::KeyE => "KeyE"@,
        Key::KeyR => "KeyR"@,
        Key::KeyT => "KeyT"@,
        Key::KeyY => "KeyY"@,
        Key::KeyU => "KeyU"@,
        Key::KeyI => "KeyI"@,
        Key::KeyO => "KeyO"@,
        Key::KeyP => "KeyP"@,
        Key::LeftBracket => "LeftBracket"@,
        Key::RightBracket => "RightBracket"@,
        Key::KeyA => "KeyA"@,
        Key::KeyS => "KeyS"@,
        Key::KeyD => "KeyD"@,
        Key::KeyF => "KeyF"@,
        Key::KeyG => "KeyG"@,
        Key::KeyH => "KeyH"@,
        Key::KeyJ => "KeyJ"@,
        Key::KeyK => "KeyK"@,
        Key::KeyL => "KeyL"@,
        Key::SemiColon => "SemiColon"@,
        Key::Quote => "Quote"@,
        Key::BackSlash => "BackSlash"@,
        Key::IntlBackslash => "IntlBackslash"@,
        Key::KeyZ => "KeyZ"@,
        Key::KeyX => "KeyX"@,
        Key::KeyC => "KeyC"@,
        Key::KeyV => "KeyV"@,
        Key::KeyB => "KeyB"@,
        Key::KeyN => "KeyN"@,
        Key::KeyM => "KeyM"@,
        Key::Comma => "Comma"@,
        Key::Dot => "Dot"@,
        Key::Slash => "Slash"@,
        Key::Insert => "Insert"@,
        Key::KpReturn => "KpReturn"@,
        Key::KpMinus => "KpMinus"@,
        Key::KpPlus => "KpPlus"@,
        Key::KpMultiply => "KpMultiply"@,
        Key::KpDivide => "KpDivide"@,
        Key::Kp0 => "Kp0"@,
        Key::Kp1 => "Kp1"@,
        Key::Kp2 => "Kp2"@,
        Key::Kp3 => "Kp3"@,
        Key::Kp4 => "Kp4"@,
        Key::Kp5 => "Kp5"@,
        Key::Kp6 => "Kp6"@,
        Key::Kp7 => "Kp7"@,
        Key::Kp8 => "Kp8"@,
        Key::Kp9 => "Kp9"@,
        Key::KpDelete => "KpDelete"@,
        Key::Function => "Function"@,
        Key::Unknown(_) => "Unknown"@,
    }
}

/// The key named `name` in a sound-pack configuration. `Fn` is accepted as
/// another name of `Function`.
pub open spec fn key_from_name_spec(name: Seq<char>) -> Option<Key> {
    if name == "Alt"@ {
        Some(Key::Alt)
    } else if name == "AltGr"@ {
        Some(Key::AltGr)
    } else if name == "Backspace"@ {
        Some(Key::Backspace)
    } else if name == "CapsLock"@ {
        Some(Key::CapsLock)
    } else if name == "ControlLeft"@ {
        Some(Key::ControlLeft)
    } else if name == "ControlRight"@ {
        Some(Key::ControlRight)
    } else if name == "Delete"@ {
        Some(Key::Delete)
    } else if name == "DownArrow"@ {
        Some(Key::DownArrow)
    } else if name == "End"@ {
        Some(Key::End)
    } else if name == "Escape"@ {
        Some(Key::Escape)
    } else if name == "F1"@ {
        Some(Key::F1)
    } else if name == "F10"@ {
        Some(Key::F10)
    } else if name == "F11"@ {
        Some(Key::F11)
    } else if name == "F12"@ {
        Some(Key::F12)
    } else if name == "F2"@ {
        Some(Key::F2)
    } else if name == "F3"@ {
        Some(Key::F3)
    } else if name == "F4"@ {
        Some(Key::F4)
    } else if name == "F5"@ {
        Some(Key::F5)
    } else if name == "F6"@ {
        Some(Key::F6)
    } else if name == "F7"@ {
        Some(Key::F7)
    } else if name == "F8"@ {
        Some(Key::F8)
    } else if name == "F9"@ {
        Some(Key::F9)
    } else if name == "Home"@ {
        Some(Key::Home)
    } else if name == "LeftArrow"@ {
        Some(Key::LeftArrow)
    } else if name == "MetaLeft"@ {
        Some(Key::MetaLeft)
    } else if name == "MetaRight"@ {
        Some(Key::MetaRight)
    } else if name == "PageDown"@ {
        Some(Key::PageDown)
    } else if name == "PageUp"@ {
        Some(Key::PageUp)
    } else if name == "Return"@ {
        Some(Key::Return)
    } else if name == "RightArrow"@ {
        Some(Key::RightArrow)
    } else if name == "ShiftLeft"@ {
        Some(Key::ShiftLeft)
    } else if name == "ShiftRight"@ {
        Some(Key::ShiftRight)
    } else if name == "Space"@ {
        Some(Key::Space)
    } else if name == "Tab"@ {
        Some(Key::Tab)
    } else if name == "UpArrow"@ {
        Some(Key::UpArrow)
    } else if name == "PrintScreen"@ {
        Some(Key::PrintScreen)
    } else if name == "ScrollLock"@ {
        Some(Key::ScrollLock)
    } else if name == "Pause"@ {
        Some(Key::Pause)
    } else if name == "NumLock"@ {
        Some(Key::NumLock)
    } else if name == "BackQuote"@ {
        Some(Key::BackQuote)
    } else if name == "Num1"@ {
        Some(Key::Num1)
    } else if name == "Num2"@ {
        Some(Key::Num2)
    } else if name == "Num3"@ {
        Some(Key::Num3)
    } else if name == "Num4"@ {
        Some(Key::Num4)
    } else if name == "Num5"@ {
        Some(Key::Num5)
    } else if name == "Num6"@ {
        Some(Key::Num6)
    } else if name == "Num7"@ {
        Some(Key::Num7)
    } else if name == "Num8"@ {
        Some(Key::Num8)
    } else if name == "Num9"@ {
        Some(Key::Num9)
    } else if name == "Num0"@ {
        Some(Key::Num0)
    } else if name == "Minus"@ {
        Some(Key::Minus)
    } else if name == "Equal"@ {
        Some(Key::Equal)
    } else if name == "KeyQ"@ {
        Some(Key::KeyQ)
    } else if name == "KeyW"@ {
        Some(Key::KeyW)
    } else if name == "KeyE"@ {
        Some(Key::KeyE)
    } else if name == "KeyR"@ {
        Some(Key::KeyR)
    } else if name == "KeyT"@ {
        Some(Key::KeyT)
    } else if name == "KeyY"@ {
        Some(Key::KeyY)
    } else if name == "KeyU"@ {
        Some(Key::KeyU)
    } else if name == "KeyI"@ {
        Some(Key::KeyI)
    } else if name == "KeyO"@ {
        Some(Key::KeyO)
    } else if name == "KeyP"@ {
        Some(Key::KeyP)
    } else if name == "LeftBracket"@ {
        Some(Key::LeftBracket)
    } else if name == "RightBracket"@ {
        Some(Key::RightBracket)
    } else if name == "KeyA"@ {
        Some(Key::KeyA)
    } else if name == "KeyS"@ {
        Some(Key::KeyS)
    } else if name == "KeyD"@ {
        Some(Key::KeyD)
    } else if name == "KeyF"@ {
        Some(Key::KeyF)
    } else if name == "KeyG"@ {
        Some(Key::KeyG)
    } else if name == "KeyH"@ {
        Some(Key::KeyH)
    } else if name == "KeyJ"@ {
        Some(Key::KeyJ)
    } else if name == "KeyK"@ {
        Some(Key::KeyK)
    } else if name == "KeyL"@ {
        Some(Key::KeyL)
    } else if name == "SemiColon"@ {
        Some(Key::SemiColon)
    } else if name == "Quote"@ {
        Some(Key::Quote)
    } else if name == "BackSlash"@ {
        Some(Key::BackSlash)
    } else if name == "IntlBackslash"@ {
        Some(Key::IntlBackslash)
    } else if name == "KeyZ"@ {
        Some(Key::KeyZ)
    } else if name == "KeyX"@ {
        Some(Key::KeyX)
    } else if name == "KeyC"@ {
        Some(Key::KeyC)
    } else if name == "KeyV"@ {
        Some(Key::KeyV)
    } else if name == "KeyB"@ {
        Some(Key::KeyB)
    } else if name == "KeyN"@ {
        Some(Key::KeyN)
    } else if name == "KeyM"@ {
        Some(Key::KeyM)
    } else if name == "Comma"@ {
        Some(Key::Comma)
    } else if name == "Dot"@ {
        Some(Key::Dot)
    } else if name == "Slash"@ {
        Some(Key::Slash)
    } else if name == "Insert"@ {
        Some(Key::Insert)
    } else if name == "KpReturn"@ {
        Some(Key::KpReturn)
    } else if name == "KpMinus"@ {
        Some(Key::KpMinus)
    } else if name == "KpPlus"@ {
        Some(Key::KpPlus)
    } else if name == "KpMultiply"@ {
        Some(Key::KpMultiply)
    } else if name == "KpDivide"@ {
        Some(Key::KpDivide)
    } else if name == "Kp0"@ {
        Some(Key::Kp0)
    } else if name == "Kp1"@ {
        Some(Key::Kp1)
    } else if name == "Kp2"@ {
        Some(Key::Kp2)
    } else if name == "Kp3"@ {
        Some(Key::Kp3)
    } else if name == "Kp4"@ {
        Some(Key::Kp4)
    } else if name == "Kp5"@ {
        Some(Key::Kp5)
    } else if name == "Kp6"@ {
        Some(Key::Kp6)
    } else if name == "Kp7"@ {
        Some(Key::Kp7)
    } else if name == "Kp8"@ {
        Some(Key::Kp8)
    } else if name == "Kp9"@ {
        Some(Key::Kp9)
    } else if name == "KpDelete"@ {
        Some(Key::KpDelete)
    } else if name == "Function"@ {
        Some(Key::Function)
    } else if name == "Fn"@ {
        Some(Key::Function)
    } else {
        None
    }
}


impl Key {
    /// The numeric id of this key.
    pub fn id(&self) -> (r: u64)
        ensures
            r == key_id(*self),
    {
        match *self {
            Key::Alt => 0,
            Key::AltGr => 1,
            Key::Backspace => 2,
            Key::CapsLock => 3,
            Key::ControlLeft => 4,
            Key::ControlRight => 5,
            Key::Delete => 6,
            Key::DownArrow => 7,
            Key::End => 8,
            Key::Escape => 9,
            Key::F1 => 10,
            Key::F10 => 11,
            Key::F11 => 12,
            Key::F12 => 13,
            Key::F2 => 14,
            Key::F3 => 15,
            Key::F4 => 16,
            Key::F5 => 17,
            Key::F6 => 18,
            Key::F7 => 19,
            Key::F8 => 20,
            Key::F9 => 21,
            Key::Home => 22,
            Key::LeftArrow => 23,
            Key::MetaLeft => 24,
            Key::MetaRight => 25,
            Key::PageDown => 26,
            Key::PageUp => 27,
            Key::Return => 28,
            Key::RightArrow => 29,
            Key::ShiftLeft => 30,
            Key::ShiftRight => 31,
            Key::Space => 32,
            Key::Tab => 33,
            Key::UpArrow => 34,
            Key::PrintScreen => 35,
            Key::ScrollLock => 36,
            Key::Pause => 37,
            Key::NumLock => 38,
            Key::BackQuote => 39,
            Key::Num1 => 40,
            Key::Num2 => 41,
            Key::Num3 => 42,
            Key::Num4 => 43,
            Key::Num5 => 44,
            Key::Num6 => 45,
            Key::Num7 => 46,
            Key::Num8 => 47,
            Key::Num9 => 48,
            Key::Num0 => 49,
            Key::Minus => 50,
            Key::Equal => 51,
            Key::KeyQ => 52,
            Key::KeyW => 53,
            Key::KeyE => 54,
            Key::KeyR => 55,
            Key::KeyT => 56,
            Key::KeyY => 57,
            Key::KeyU => 58,
            Key::KeyI => 59,
            Key::KeyO => 60,
            Key::KeyP => 61,
            Key::LeftBracket => 62,
            Key::RightBracket => 63,
            Key::KeyA => 64,
            Key::KeyS => 65,
            Key::KeyD => 66,
            Key::KeyF => 67,
            Key::KeyG => 68,
            Key::KeyH => 69,
            Key::KeyJ => 70,
            Key::KeyK => 71,
            Key::KeyL => 72,
            Key::SemiColon => 73,
            Key::Quote => 74,
            Key::BackSlash => 75,
            Key::IntlBackslash => 76,
            Key::KeyZ => 77,
            Key::KeyX => 78,
            Key::KeyC => 79,
            Key::KeyV => 80,
            Key::KeyB => 81,
            Key::KeyN => 82,
            Key::KeyM => 83,
            Key::Comma => 84,
            Key::Dot => 85,
            Key::Slash => 86,
            Key::Insert => 87,
            Key::KpReturn => 88,
            Key::KpMinus => 89,
            Key::KpPlus => 90,
            Key::KpMultiply => 91,
            Key::KpDivide => 92,
            Key::Kp0 => 93,
            Key::Kp1 => 94,
            Key::Kp2 => 95,
            Key::Kp3 => 96,
            Key::Kp4 => 97,
            Key::Kp5 => 98,
            Key::Kp6 => 99,
            Key::Kp7 => 100,
            Key::Kp8 => 101,
            Key::Kp9 => 102,
            Key::KpDelete => 103,
            Key::Function => 104,
            Key::Unknown(code) => UNKNOWN_KEY_ID_BASE + code as u64,
        }
    }

    /// The name of this key.
    pub fn as_str(&self) -> (r: &'static str)
        ensures
            r@ == key_name(*self),
    {
        match *self {
            Key::Alt => "Alt",
            Key::AltGr => "AltGr",
            Key::Backspace => "Backspace",
            Key::CapsLock => "CapsLock",
            Key::ControlLeft => "ControlLeft",
            Key::ControlRight => "ControlRight",
            Key::Delete => "Delete",
            Key::DownArrow => "DownArrow",
            Key::End => "End",
            Key::Escape => "Escape",
            Key::F1 => "F1",
            Key::F10 => "F10",
            Key::F11 => "F11",
            Key::F12 => "F12",
            Key::F2 => "F2",
            Key::F3 => "F3",
            Key::F4 => "F4",
            Key::F5 => "F5",
            Key::F6 => "F6",
            Key::F7 => "F7",
            Key::F8 => "F8",
            Key::F9 => "F9",
            Key::Home => "Home",
            Key::LeftArrow => "LeftArrow",
            Key::MetaLeft => "MetaLeft",
            Key::MetaRight => "MetaRight",
            Key::PageDown => "PageDown",
            Key::PageUp => "PageUp",
            Key::Return => "Return",
            Key::RightArrow => "RightArrow",
            Key::ShiftLeft => "ShiftLeft",
            Key::ShiftRight => "ShiftRight",
            Key::Space => "Space",
            Key::Tab => "Tab",
            Key::UpArrow => "UpArrow",
            Key::PrintScreen => "PrintScreen",
            Key::ScrollLock => "ScrollLock",
            Key::Pause => "Pause",
            Key::NumLock => "NumLock",
            Key::BackQuote => "BackQuote",
            Key::Num1 => "Num1",
            Key::Num2 => "Num2",
            Key::Num3 => "Num3",
            Key::Num4 => "Num4",
            Key::Num5 => "Num5",
            Key::Num6 => "Num6",
            Key::Num7 => "Num7",
            Key::Num8 => "Num8",
            Key::Num9 => "Num9",
            Key::Num0 => "Num0",
            Key::Minus => "Minus",
            Key::Equal => "Equal",
            Key::KeyQ => "KeyQ",
            Key::KeyW => "KeyW",
            Key::KeyE => "KeyE",
            Key::KeyR => "KeyR",
            Key::KeyT => "KeyT",
            Key::KeyY => "KeyY",
            Key::KeyU => "KeyU",
            Key::KeyI => "KeyI",
            Key::KeyO => "KeyO",
            Key::KeyP => "KeyP",
            Key::LeftBracket => "LeftBracket",
            Key::RightBracket => "RightBracket",
            Key::KeyA => "KeyA",
            Key::KeyS => "KeyS",
            Key::KeyD => "KeyD",
            Key::KeyF => "KeyF",
            Key::KeyG => "KeyG",
            Key::KeyH => "KeyH",
            Key::KeyJ => "KeyJ",
            Key::KeyK => "KeyK",
            Key::KeyL => "KeyL",
            Key::SemiColon => "SemiColon",
            Key::Quote => "Quote",
            Key::BackSlash => "BackSlash",
            Key::IntlBackslash => "IntlBackslash",
            Key::KeyZ => "KeyZ",
            Key::KeyX => "KeyX",
            Key::KeyC => "KeyC",
            Key::KeyV => "KeyV",
            Key::KeyB => "KeyB",
            Key::KeyN => "KeyN",
            Key::KeyM => "KeyM",
            Key::Comma => "Comma",
            Key::Dot => "Dot",
            Key::Slash => "Slash",
            Key::Insert => "Insert",
            Key::KpReturn => "KpReturn",
            Key::KpMinus => "KpMinus",
            Key::KpPlus => "KpPlus",
            Key::KpMultiply => "KpMultiply",
            Key::KpDivide => "KpDivide",
            Key::Kp0 => "Kp0",
            Key::Kp1 => "Kp1",
            Key::Kp2 => "Kp2",
            Key::Kp3 => "Kp3",
            Key::Kp4 => "Kp4",
            Key::Kp5 => "Kp5",
            Key::Kp6 => "Kp6",
            Key::Kp7 => "Kp7",
            Key::Kp8 => "Kp8",
            Key::Kp9 => "Kp9",
            Key::KpDelete => "KpDelete",
            Key::Function => "Function",
            Key::Unknown(_) => "Unknown",
        }
    }

    /// The key named `name`, or `None` when no key has that name.
    pub fn from_name(name: &str) -> (r: Option<Key>)
        ensures
            r == key_from_name_spec(name@),
    {
        if str_eq(name, "Alt") {
            return Some(Key::Alt);
        }
        if str_eq(name, "AltGr") {
            return Some(Key::AltGr);
        }
        if str_eq(name, "Backspace") {
            return Some(Key::Backspace);
        }
        if str_eq(name, "CapsLock") {
            return Some(Key::CapsLock);
        }
        if str_eq(name, "ControlLeft") {
            return Some(Key::ControlLeft);
        }
        if str_eq(name, "ControlRight") {
            return Some(Key::ControlRight);
        }
        if str_eq(name, "Delete") {
            return Some(Key::Delete);
        }
        if str_eq(name, "DownArrow") {
            return Some(Key::DownArrow);
        }
        if str_eq(name, "End") {
            return Some(Key::End);
        }
        if str_eq(name, "Escape") {
            return Some(Key::Escape);
        }
        if str_eq(name, "F1") {
            return Some(Key::F1);
        }
        if str_eq(name, "F10") {
            return Some(Key::F10);
        }
        if str_eq(name, "F11") {
            return Some(Key::F11);
        }
        if str_eq(name, "F12") {
            return Some(Key::F12);
        }
        if str_eq(name, "F2") {
            return Some(Key::F2);
        }
        if str_eq(name, "F3") {
            return Some(Key::F3);
        }
        if str_eq(name, "F4") {
            return Some(Key::F4);
        }
        if str_eq(name, "F5") {
            return Some(Key::F5);
        }
        if str_eq(name, "F6") {
            return Some(Key::F6);
        }
        if str_eq(name, "F7") {
            return Some(Key::F7);
        }
        if str_eq(name, "F8") {
            return Some(Key::F8);
        }
        if str_eq(name, "F9") {
            return Some(Key::F9);
        }
        if str_eq(name, "Home") {
            return Some(Key::Home);
        }
        if str_eq(name, "LeftArrow") {
            return Some(Key::LeftArrow);
        }
        if str_eq(name, "MetaLeft") {
            return Some(Key::MetaLeft);
        }
        if str_eq(name, "MetaRight") {
            return Some(Key::MetaRight);
        }
        if str_eq(name, "PageDown") {
            return Some(Key::PageDown);
        }
        if str_eq(name, "PageUp") {
            return Some(Key::PageUp);
        }
        if str_eq(name, "Return") {
            return Some(Key::Return);
        }
        if str_eq(name, "RightArrow") {
            return Some(Key::RightArrow);
        }
        if str_eq(name, "ShiftLeft") {
            return Some(Key::ShiftLeft);
        }
        if str_eq(name, "ShiftRight") {
            return Some(Key::ShiftRight);
        }
        if str_eq(name, "Space") {
            return Some(Key::Space);
        }
        if str_eq(name, "Tab") {
            return Some(Key::Tab);
        }
        if str_eq(name, "UpArrow") {
            return Some(Key::UpArrow);
        }
        if str_eq(name, "PrintScreen") {
            return Some(Key::PrintScreen);
        }
        if str_eq(name, "ScrollLock") {
            return Some(Key::ScrollLock);
        }
        if str_eq(name, "Pause") {
            return Some(Key::Pause);
        }
        if str_eq(name, "NumLock") {
            return Some(Key::NumLock);
        }
        if str_eq(name, "BackQuote") {
            return Some(Key::BackQuote);
        }
        if str_eq(name, "Num1") {
            return Some(Key::Num1);
        }
        if str_eq(name, "Num2") {
            return Some(Key::Num2);
        }
        if str_eq(name, "Num3") {
            return Some(Key::Num3);
        }
        if str_eq(name, "Num4") {
            return Some(Key::Num4);
        }
        if str_eq(name, "Num5") {
            return Some(Key::Num5);
        }
        if str_eq(name, "Num6") {
            return Some(Key::Num6);
        }
        if str_eq(name, "Num7") {
            return Some(Key::Num7);
        }
        if str_eq(name, "Num8") {
            return Some(Key::Num8);
        }
        if str_eq(name, "Num9") {
            return Some(Key::Num9);
        }
        if str_eq(name, "Num0") {
            return Some(Key::Num0);
        }
        if str_eq(name, "Minus") {
            return Some(Key::Minus);
        }
        if str_eq(name, "Equal") {
            return Some(Key::Equal);
        }
        if str_eq(name, "KeyQ") {
            return Some(Key::KeyQ);
        }
        if str_eq(name, "KeyW") {
            return Some(Key::KeyW);
        }
        if str_eq(name, "KeyE") {
            return Some(Key::KeyE);
        }
        if str_eq(name, "KeyR") {
            return Some(Key::KeyR);
        }
        if str_eq(name, "KeyT") {
            return Some(Key::KeyT);
        }
        if str_eq(name, "KeyY") {
            return Some(Key::KeyY);
        }
        if str_eq(name, "KeyU") {
            return Some(Key::KeyU);
        }
        if str_eq(name, "KeyI") {
            return Some(Key::KeyI);
        }
        if str_eq(name, "KeyO") {
            return Some(Key::KeyO);
        }
        if str_eq(name, "KeyP") {
            return Some(Key::KeyP);
        }
        if str_eq(name, "LeftBracket") {
            return Some(Key::LeftBracket);
        }
        if str_eq(name, "RightBracket") {
            return Some(Key::RightBracket);
        }
        if str_eq(name, "KeyA") {
            return Some(Key::KeyA);
        }
        if str_eq(name, "KeyS") {
            return Some(Key::KeyS);
        }
        if str_eq(name, "KeyD") {
            return Some(Key::KeyD);
        }
        if str_eq(name, "KeyF") {
            return Some(Key::KeyF);
        }
        if str_eq(name, "KeyG") {
            return Some(Key::KeyG);
        }
        if str_eq(name, "KeyH") {
            return Some(Key::KeyH);
        }
        if str_eq(name, "KeyJ") {
            return Some(Key::KeyJ);
        }
        if str_eq(name, "KeyK") {
            return Some(Key::KeyK);
        }
        if str_eq(name, "KeyL") {
            return Some(Key::KeyL);
        }
        if str_eq(name, "SemiColon") {
            return Some(Key::SemiColon);
        }
        if str_eq(name, "Quote") {
            return Some(Key::Quote);
        }
        if str_eq(name, "BackSlash") {
            return Some(Key::BackSlash);
        }
        if str_eq(name, "IntlBackslash") {
            return Some(Key::IntlBackslash);
        }
        if str_eq(name, "KeyZ") {
            return Some(Key::KeyZ);
        }
        if str_eq(name, "KeyX") {
            return Some(Key::KeyX);
        }
        if str_eq(name, "KeyC") {
            return Some(Key::KeyC);
        }
        if str_eq(name, "KeyV") {
            return Some(Key::KeyV);
        }
        if str_eq(name, "KeyB") {
            return Some(Key::KeyB);
        }
        if str_eq(name, "KeyN") {
            return Some(Key::KeyN);
        }
        if str_eq(name, "KeyM") {
            return Some(Key::KeyM);
        }
        if str_eq(name, "Comma") {
            return Some(Key::Comma);
        }
        if str_eq(name, "Dot") {
            return Some(Key::Dot);
        }
        if str_eq(name, "Slash") {
            return Some(Key::Slash);
        }
        if str_eq(name, "Insert") {
            return Some(Key::Insert);
        }
        if str_eq(name, "KpReturn") {
            return Some(Key::KpReturn);
        }
        if str_eq(name, "KpMinus") {
            return Some(Key::KpMinus);
        }
        if str_eq(name, "KpPlus") {
            return Some(Key::KpPlus);
        }
        if str_eq(name, "KpMultiply") {
            return Some(Key::KpMultiply);
        }
        if str_eq(name, "KpDivide") {
            return Some(Key::KpDivide);
        }
        if str_eq(name, "Kp0") {
            return Some(Key::Kp0);
        }
        if str_eq(name, "Kp1") {
            return Some(Key::Kp1);
        }
        if str_eq(name, "Kp2") {
            return Some(Key::Kp2);
        }
        if str_eq(name, "Kp3") {
            return Some(Key::Kp3);
        }
        if str_eq(name, "Kp4") {
            return Some(Key::Kp4);
        }
        if str_eq(name, "Kp5") {
            return Some(Key::Kp5);
        }
        if str_eq(name, "Kp6") {
            return Some(Key::Kp6);
        }
        if str_eq(name, "Kp7") {
            return Some(Key::Kp7);
        }
        if str_eq(name, "Kp8") {
            return Some(Key::Kp8);
        }
        if str_eq(name, "Kp9") {
            return Some(Key::Kp9);
        }
        if str_eq(name, "KpDelete") {
            return Some(Key::KpDelete);
        }
        if str_eq(name, "Function") {
            return Some(Key::Function);
        }
        if str_eq(name, "Fn") {
            return Some(Key::Function);
        }
        None
    }
}


/// Reading back the name of a key gives the key: no two keys share a name.
pub proof fn lemma_key_name_round_trip(k: Key)
    requires
        !(k is Unknown),
    ensures
        key_from_name_spec(key_name(k)) == Some(k),
{
    // The length and letters of every name, which tell any two names apart.
    reveal_strlit("Alt");
    reveal_strlit("AltGr");
    reveal_strlit("Backspace");
    reveal_strlit("CapsLock");
    reveal_strlit("ControlLeft");
    reveal_strlit("ControlRight");
    reveal_strlit("Delete");
    reveal_strlit("DownArrow");
    reveal_strlit("End");
    reveal_strlit("Escape");
    reveal_strlit("F1");
    reveal_strlit("F10");
    reveal_strlit("F11");
    reveal_strlit("F12");
    reveal_strlit("F2");
    reveal_strlit("F3");
    reveal_strlit("F4");
    reveal_strlit("F5");
    reveal_strlit("F6");
    reveal_strlit("F7");
    reveal_strlit("F8");
    reveal_strlit("F9");
    reveal_strlit("Home");
    reveal_strlit("LeftArrow");
    reveal_strlit("MetaLeft");
    reveal_strlit("MetaRight");
    reveal_strlit("PageDown");
    reveal_strlit("PageUp");
    reveal_strlit("Return");
    reveal_strlit("RightArrow");
    reveal_strlit("ShiftLeft");
    reveal_strlit("ShiftRight");
    reveal_strlit("Space");
    reveal_strlit("Tab");
    reveal_strlit("UpArrow");
    reveal_strlit("PrintScreen");
    reveal_strlit("ScrollLock");
    reveal_strlit("Pause");
    reveal_strlit("NumLock");
    reveal_strlit("BackQuote");
    reveal_strlit("Num1");
    reveal_strlit("Num2");
    reveal_strlit("Num3");
    reveal_strlit("Num4");
    reveal_strlit("Num5");
    reveal_strlit("Num6");
    reveal_strlit("Num7");
    reveal_strlit("Num8");
    reveal_strlit("Num9");
    reveal_strlit("Num0");
    reveal_strlit("Minus");
    reveal_strlit("Equal");
    reveal_strlit("KeyQ");
    reveal_strlit("KeyW");
    reveal_strlit("KeyE");
    reveal_strlit("KeyR");
    reveal_strlit("KeyT");
    reveal_strlit("KeyY");
    reveal_strlit("KeyU");
    reveal_strlit("KeyI");
    reveal_strlit("KeyO");
    reveal_strlit("KeyP");
    reveal_strlit("LeftBracket");
    reveal_strlit("RightBracket");
    reveal_strlit("KeyA");
    reveal_strlit("KeyS");
    reveal_strlit("KeyD");
    reveal_strlit("KeyF");
    reveal_strlit("KeyG");
    reveal_strlit("KeyH");
    reveal_strlit("KeyJ");
    reveal_strlit("KeyK");
    reveal_strlit("KeyL");
    reveal_strlit("SemiColon");
    reveal_strlit("Quote");
    reveal_strlit("BackSlash");
    reveal_strlit("IntlBackslash");
    reveal_strlit("KeyZ");
    reveal_strlit("KeyX");
    reveal_strlit("KeyC");
    reveal_strlit("KeyV");
    reveal_strlit("KeyB");
    reveal_strlit("KeyN");
    reveal_strlit("KeyM");
    reveal_strlit("Comma");
    reveal_strlit("Dot");
    reveal_strlit("Slash");
    reveal_strlit("Insert");
    reveal_strlit("KpReturn");
    reveal_strlit("KpMinus");
    reveal_strlit("KpPlus");
    reveal_strlit("KpMultiply");
    reveal_strlit("KpDivide");
    reveal_strlit("Kp0");
    reveal_strlit("Kp1");
    reveal_strlit("Kp2");
    reveal_strlit("Kp3");
    reveal_strlit("Kp4");
    reveal_strlit("Kp5");
    reveal_strlit("Kp6");
    reveal_strlit("Kp7");
    reveal_strlit("Kp8");
    reveal_strlit("Kp9");
    reveal_strlit("KpDelete");
    reveal_strlit("Function");
    reveal_strlit("Fn");
    assert("Alt"@.len() == 3 && "Alt"@[0] == 'A' && "Alt"@[1] == 'l' && "Alt"@[2] == 't');
    assert("AltGr"@.len() == 5 && "AltGr"@[0] == 'A' && "AltGr"@[1] == 'l' && "AltGr"@[2] == 't' && "AltGr"@[3] == 'G' && "AltGr"@[4] == 'r');
    assert("Backspace"@.len() == 9 && "Backspace"@[0] == 'B' && "Backspace"@[1] == 'a' && "Backspace"@[2] == 'c' && "Backspace"@[3] == 'k' && "Backspace"@[4] == 's' && "Backspace"@[5] == 'p' && "Backspace"@[6] == 'a' && "Backspace"@[7] == 'c' && "Backspace"@[8] == 'e');
    assert("CapsLock"@.len() == 8 && "CapsLock"@[0] == 'C' && "CapsLock"@[1] == 'a' && "CapsLock"@[2] == 'p' && "CapsLock"@[3] == 's' && "CapsLock"@[4] == 'L' && "CapsLock"@[5] == 'o' && "CapsLock"@[6] == 'c' && "CapsLock"@[7] == 'k');
    assert("ControlLeft"@.len() == 11 && "ControlLeft"@[0] == 'C' && "ControlLeft"@[1] == 'o' && "ControlLeft"@[2] == 'n' && "ControlLeft"@[3] == 't' && "ControlLeft"@[4] == 'r' && "ControlLeft"@[5] == 'o' && "ControlLeft"@[6] == 'l' && "ControlLeft"@[7] == 'L' && "ControlLeft"@[8] == 'e' && "ControlLeft"@[9] == 'f' && "ControlLeft"@[10] == 't');
    assert("ControlRight"@.len() == 12 && "ControlRight"@[0] == 'C' && "ControlRight"@[1] == 'o' && "ControlRight"@[2] == 'n' && "ControlRight"@[3] == 't' && "ControlRight"@[4] == 'r' && "ControlRight"@[5] == 'o' && "ControlRight"@[6] == 'l' && "ControlRight"@[7] == 'R' && "ControlRight"@[8] == 'i' && "ControlRight"@[9] == 'g' && "ControlRight"@[10] == 'h' && "ControlRight"@[11] == 't');
    assert("Delete"@.len() == 6 && "Delete"@[0] == 'D' && "Delete"@[1] == 'e' && "Delete"@[2] == 'l' && "Delete"@[3] == 'e' && "Delete"@[4] == 't' && "Delete"@[5] == 'e');
    assert("DownArrow"@.len() == 9 && "DownArrow"@[0] == 'D' && "DownArrow"@[1] == 'o' && "DownArrow"@[2] == 'w' && "DownArrow"@[3] == 'n' && "DownArrow"@[4] == 'A' && "DownArrow"@[5] == 'r' && "DownArrow"@[6] == 'r' && "DownArrow"@[7] == 'o' && "DownArrow"@[8] == 'w');
    assert("End"@.len() == 3 && "End"@[0] == 'E' && "End"@[1] == 'n' && "End"@[2] == 'd');
    assert("Escape"@.len() == 6 && "Escape"@[0] == 'E' && "Escape"@[1] == 's' && "Escape"@[2] == 'c' && "Escape"@[3] == 'a' && "Escape"@[4] == 'p' && "Escape"@[5] == 'e');
    assert("F1"@.len() == 2 && "F1"@[0] == 'F' && "F1"@[1] == '1');
    assert("F10"@.len() == 3 && "F10"@[0] == 'F' && "F10"@[1] == '1' && "F10"@[2] == '0');
    assert("F11"@.len() == 3 && "F11"@[0] == 'F' && "F11"@[1] == '1' && "F11"@[2] == '1');
    assert("F12"@.len() == 3 && "F12"@[0] == 'F' && "F12"@[1] == '1' && "F12"@[2] == '2');
    assert("F2"@.len() == 2 && "F2"@[0] == 'F' && "F2"@[1] == '2');
    assert("F3"@.len() == 2 && "F3"@[0] == 'F' && "F3"@[1] == '3');
    assert("F4"@.len() == 2 && "F4"@[0] == 'F' && "F4"@[1] == '4');
    assert("F5"@.len() == 2 && "F5"@[0] == 'F' && "F5"@[1] == '5');
    assert("F6"@.len() == 2 && "F6"@[0] == 'F' && "F6"@[1] == '6');
    assert("F7"@.len() == 2 && "F7"@[0] == 'F' && "F7"@[1] == '7');
    assert("F8"@.len() == 2 && "F8"@[0] == 'F' && "F8"@[1] == '8');
    assert("F9"@.len() == 2 && "F9"@[0] == 'F' && "F9"@[1] == '9');
    assert("Home"@.len() == 4 && "Home"@[0] == 'H' && "Home"@[1] == 'o' && "Home"@[2] == 'm' && "Home"@[3] == 'e');
    assert("LeftArrow"@.len() == 9 && "LeftArrow"@[0] == 'L' && "LeftArrow"@[1] == 'e' && "LeftArrow"@[2] == 'f' && "LeftArrow"@[3] == 't' && "LeftArrow"@[4] == 'A' && "LeftArrow"@[5] == 'r' && "LeftArrow"@[6] == 'r' && "LeftArrow"@[7] == 'o' && "LeftArrow"@[8] == 'w');
    assert("MetaLeft"@.len() == 8 && "MetaLeft"@[0] == 'M' && "MetaLeft"@[1] == 'e' && "MetaLeft"@[2] == 't' && "MetaLeft"@[3] == 'a' && "MetaLeft"@[4] == 'L' && "MetaLeft"@[5] == 'e' && "MetaLeft"@[6] == 'f' && "MetaLeft"@[7] == 't');
    assert("MetaRight"@.len() == 9 && "MetaRight"@[0] == 'M' && "MetaRight"@[1] == 'e' && "MetaRight"@[2] == 't' && "MetaRight"@[3] == 'a' && "MetaRight"@[4] == 'R' && "MetaRight"@[5] == 'i' && "MetaRight"@[6] == 'g' && "MetaRight"@[7] == 'h' && "MetaRight"@[8] == 't');
    assert("PageDown"@.len() == 8 && "PageDown"@[0] == 'P' && "PageDown"@[1] == 'a' && "PageDown"@[2] == 'g' && "PageDown"@[3] == 'e' && "PageDown"@[4] == 'D' && "PageDown"@[5] == 'o' && "PageDown"@[6] == 'w' && "PageDown"@[7] == 'n');
    assert("PageUp"@.len() == 6 && "PageUp"@[0] == 'P' && "PageUp"@[1] == 'a' && "PageUp"@[2] == 'g' && "PageUp"@[3] == 'e' && "PageUp"@[4] == 'U' && "PageUp"@[5] == 'p');
    assert("Return"@.len() == 6 && "Return"@[0] == 'R' && "Return"@[1] == 'e' && "Return"@[2] == 't' && "Return"@[3] == 'u' && "Return"@[4] == 'r' && "Return"@[5] == 'n');
    assert("RightArrow"@.len() == 10 && "RightArrow"@[0] == 'R' && "RightArrow"@[1] == 'i' && "RightArrow"@[2] == 'g' && "RightArrow"@[3] == 'h' && "RightArrow"@[4] == 't' && "RightArrow"@[5] == 'A' && "RightArrow"@[6] == 'r' && "RightArrow"@[7] == 'r' && "RightArrow"@[8] == 'o' && "RightArrow"@[9] == 'w');
    assert("ShiftLeft"@.len() == 9 && "ShiftLeft"@[0] == 'S' && "ShiftLeft"@[1] == 'h' && "ShiftLeft"@[2] == 'i' && "ShiftLeft"@[3] == 'f' && "ShiftLeft"@[4] == 't' && "ShiftLeft"@[5] == 'L' && "ShiftLeft"@[6] == 'e' && "ShiftLeft"@[7] == 'f' && "ShiftLeft"@[8] == 't');
    assert("ShiftRight"@.len() == 10 && "ShiftRight"@[0] == 'S' && "ShiftRight"@[1] == 'h' && "ShiftRight"@[2] == 'i' && "ShiftRight"@[3] == 'f' && "ShiftRight"@[4] == 't' && "ShiftRight"@[5] == 'R' && "ShiftRight"@[6] == 'i' && "ShiftRight"@[7] == 'g' && "ShiftRight"@[8] == 'h' && "ShiftRight"@[9] == 't');
    assert("Space"@.len() == 5 && "Space"@[0] == 'S' && "Space"@[1] == 'p' && "Space"@[2] == 'a' && "Space"@[3] == 'c' && "Space"@[4] == 'e');
    assert("Tab"@.len() == 3 && "Tab"@[0] == 'T' && "Tab"@[1] == 'a' && "Tab"@[2] == 'b');
    assert("UpArrow"@.len() == 7 && "UpArrow"@[0] == 'U' && "UpArrow"@[1] == 'p' && "UpArrow"@[2] == 'A' && "UpArrow"@[3] == 'r' && "UpArrow"@[4] == 'r' && "UpArrow"@[5] == 'o' && "UpArrow"@[6] == 'w');
    assert("PrintScreen"@.len() == 11 && "PrintScreen"@[0] == 'P' && "PrintScreen"@[1] == 'r' && "PrintScreen"@[2] == 'i' && "PrintScreen"@[3] == 'n' && "PrintScreen"@[4] == 't' && "PrintScreen"@[5] == 'S' && "PrintScreen"@[6] == 'c' && "PrintScreen"@[7] == 'r' && "PrintScreen"@[8] == 'e' && "PrintScreen"@[9] == 'e' && "PrintScreen"@[10] == 'n');
    assert("ScrollLock"@.len() == 10 && "ScrollLock"@[0] == 'S' && "ScrollLock"@[1] == 'c' && "ScrollLock"@[2] == 'r' && "ScrollLock"@[3] == 'o' && "ScrollLock"@[4] == 'l' && "ScrollLock"@[5] == 'l' && "ScrollLock"@[6] == 'L' && "ScrollLock"@[7] == 'o' && "ScrollLock"@[8] == 'c' && "ScrollLock"@[9] == 'k');
    assert("Pause"@.len() == 5 && "Pause"@[0] == 'P' && "Pause"@[1] == 'a' && "Pause"@[2] == 'u' && "Pause"@[3] == 's' && "Pause"@[4] == 'e');
    assert("NumLock"@.len() == 7 && "NumLock"@[0] == 'N' && "NumLock"@[1] == 'u' && "NumLock"@[2] == 'm' && "NumLock"@[3] == 'L' && "NumLock"@[4] == 'o' && "NumLock"@[5] == 'c' && "NumLock"@[6] == 'k');
    assert("BackQuote"@.len() == 9 && "BackQuote"@[0] == 'B' && "BackQuote"@[1] == 'a' && "BackQuote"@[2] == 'c' && "BackQuote"@[3] == 'k' && "BackQuote"@[4] == 'Q' && "BackQuote"@[5] == 'u' && "BackQuote"@[6] == 'o' && "BackQuote"@[7] == 't' && "BackQuote"@[8] == 'e');
    assert("Num1"@.len() == 4 && "Num1"@[0] == 'N' && "Num1"@[1] == 'u' && "Num1"@[2] == 'm' && "Num1"@[3] == '1');
    assert("Num2"@.len() == 4 && "Num2"@[0] == 'N' && "Num2"@[1] == 'u' && "Num2"@[2] == 'm' && "Num2"@[3] == '2');
    assert("Num3"@.len() == 4 && "Num3"@[0] == 'N' && "Num3"@[1] == 'u' && "Num3"@[2] == 'm' && "Num3"@[3] == '3');
    assert("Num4"@.len() == 4 && "Num4"@[0] == 'N' && "Num4"@[1] == 'u' && "Num4"@[2] == 'm' && "Num4"@[3] == '4');
    assert("Num5"@.len() == 4 && "Num5"@[0] == 'N' && "Num5"@[1] == 'u' && "Num5"@[2] == 'm' && "Num5"@[3] == '5');
    assert("Num6"@.len() == 4 && "Num6"@[0] == 'N' && "Num6"@[1] == 'u' && "Num6"@[2] == 'm' && "Num6"@[3] == '6');
    assert("Num7"@.len() == 4 && "Num7"@[0] == 'N' && "Num7"@[1] == 'u' && "Num7"@[2] == 'm' && "Num7"@[3] == '7');
    assert("Num8"@.len() == 4 && "Num8"@[0] == 'N' && "Num8"@[1] == 'u' && "Num8"@[2] == 'm' && "Num8"@[3] == '8');
    assert("Num9"@.len() == 4 && "Num9"@[0] == 'N' && "Num9"@[1] == 'u' && "Num9"@[2] == 'm' && "Num9"@[3] == '9');
    assert("Num0"@.len() == 4 && "Num0"@[0] == 'N' && "Num0"@[1] == 'u' && "Num0"@[2] == 'm' && "Num0"@[3] == '0');
    assert("Minus"@.len() == 5 && "Minus"@[0] == 'M' && "Minus"@[1] == 'i' && "Minus"@[2] == 'n' && "Minus"@[3] == 'u' && "Minus"@[4] == 's');
    assert("Equal"@.len() == 5 && "Equal"@[0] == 'E' && "Equal"@[1] == 'q' && "Equal"@[2] == 'u' && "Equal"@[3] == 'a' && "Equal"@[4] == 'l');
    assert("KeyQ"@.len() == 4 && "KeyQ"@[0] == 'K' && "KeyQ"@[1] == 'e' && "KeyQ"@[2] == 'y' && "KeyQ"@[3] == 'Q');
    assert("KeyW"@.len() == 4 && "KeyW"@[0] == 'K' && "KeyW"@[1] == 'e' && "KeyW"@[2] == 'y' && "KeyW"@[3] == 'W');
    assert("KeyE"@.len() == 4 && "KeyE"@[0] == 'K' && "KeyE"@[1] == 'e' && "KeyE"@[2] == 'y' && "KeyE"@[3] == 'E');
    assert("KeyR"@.len() == 4 && "KeyR"@[0] == 'K' && "KeyR"@[1] == 'e' && "KeyR"@[2] == 'y' && "KeyR"@[3] == 'R');
    assert("KeyT"@.len() == 4 && "KeyT"@[0] == 'K' && "KeyT"@[1] == 'e' && "KeyT"@[2] == 'y' && "KeyT"@[3] == 'T');
    assert("KeyY"@.len() == 4 && "KeyY"@[0] == 'K' && "KeyY"@[1] == 'e' && "KeyY"@[2] == 'y' && "KeyY"@[3] == 'Y');
    assert("KeyU"@.len() == 4 && "KeyU"@[0] == 'K' && "KeyU"@[1] == 'e' && "KeyU"@[2] == 'y' && "KeyU"@[3] == 'U');
    assert("KeyI"@.len() == 4 && "KeyI"@[0] == 'K' && "KeyI"@[1] == 'e' && "KeyI"@[2] == 'y' && "KeyI"@[3] == 'I');
    assert("KeyO"@.len() == 4 && "KeyO"@[0] == 'K' && "KeyO"@[1] == 'e' && "KeyO"@[2] == 'y' && "KeyO"@[3] == 'O');
    assert("KeyP"@.len() == 4 && "KeyP"@[0] == 'K' && "KeyP"@[1] == 'e' && "KeyP"@[2] == 'y' && "KeyP"@[3] == 'P');
    assert("LeftBracket"@.len() == 11 && "LeftBracket"@[0] == 'L' && "LeftBracket"@[1] == 'e' && "LeftBracket"@[2] == 'f' && "LeftBracket"@[3] == 't' && "LeftBracket"@[4] == 'B' && "LeftBracket"@[5] == 'r' && "LeftBracket"@[6] == 'a' && "LeftBracket"@[7] == 'c' && "LeftBracket"@[8] == 'k' && "LeftBracket"@[9] == 'e' && "LeftBracket"@[10] == 't');
    assert("RightBracket"@.len() == 12 && "RightBracket"@[0] == 'R' && "RightBracket"@[1] == 'i' && "RightBracket"@[2] == 'g' && "RightBracket"@[3] == 'h' && "RightBracket"@[4] == 't' && "RightBracket"@[5] == 'B' && "RightBracket"@[6] == 'r' && "RightBracket"@[7] == 'a' && "RightBracket"@[8] == 'c' && "RightBracket"@[9] == 'k' && "RightBracket"@[10] == 'e' && "RightBracket"@[11] == 't');
    assert("KeyA"@.len() == 4 && "KeyA"@[0] == 'K' && "KeyA"@[1] == 'e' && "KeyA"@[2] == 'y' && "KeyA"@[3] == 'A');
    assert("KeyS"@.len() == 4 && "KeyS"@[0] == 'K' && "KeyS"@[1] == 'e' && "KeyS"@[2] == 'y' && "KeyS"@[3] == 'S');
    assert("KeyD"@.len() == 4 && "KeyD"@[0] == 'K' && "KeyD"@[1] == 'e' && "KeyD"@[2] == 'y' && "KeyD"@[3] == 'D');
    assert("KeyF"@.len() == 4 && "KeyF"@[0] == 'K' && "KeyF"@[1] == 'e' && "KeyF"@[2] == 'y' && "KeyF"@[3] == 'F');
    assert("KeyG"@.len() == 4 && "KeyG"@[0] == 'K' && "KeyG"@[1] == 'e' && "KeyG"@[2] == 'y' && "KeyG"@[3] == 'G');
    assert("KeyH"@.len() == 4 && "KeyH"@[0] == 'K' && "KeyH"@[1] == 'e' && "KeyH"@[2] == 'y' && "KeyH"@[3] == 'H');
    assert("KeyJ"@.len() == 4 && "KeyJ"@[0] == 'K' && "KeyJ"@[1] == 'e' && "KeyJ"@[2] == 'y' && "KeyJ"@[3] == 'J');
    assert("KeyK"@.len() == 4 && "KeyK"@[0] == 'K' && "KeyK"@[1] == 'e' && "KeyK"@[2] == 'y' && "KeyK"@[3] == 'K');
    assert("KeyL"@.len() == 4 && "KeyL"@[0] == 'K' && "KeyL"@[1] == 'e' && "KeyL"@[2] == 'y' && "KeyL"@[3] == 'L');
    assert("SemiColon"@.len() == 9 && "SemiColon"@[0] == 'S' && "SemiColon"@[1] == 'e' && "SemiColon"@[2] == 'm' && "SemiColon"@[3] == 'i' && "SemiColon"@[4] == 'C' && "SemiColon"@[5] == 'o' && "SemiColon"@[6] == 'l' && "SemiColon"@[7] == 'o' && "SemiColon"@[8] == 'n');
    assert("Quote"@.len() == 5 && "Quote"@[0] == 'Q' && "Quote"@[1] == 'u' && "Quote"@[2] == 'o' && "Quote"@[3] == 't' && "Quote"@[4] == 'e');
    assert("BackSlash"@.len() == 9 && "BackSlash"@[0] == 'B' && "BackSlash"@[1] == 'a' && "BackSlash"@[2] == 'c' && "BackSlash"@[3] == 'k' && "BackSlash"@[4] == 'S' && "BackSlash"@[5] == 'l' && "BackSlash"@[6] == 'a' && "BackSlash"@[7] == 's' && "BackSlash"@[8] == 'h');
    assert("IntlBackslash"@.len() == 13 && "IntlBackslash"@[0] == 'I' && "IntlBackslash"@[1] == 'n' && "IntlBackslash"@[2] == 't' && "IntlBackslash"@[3] == 'l' && "IntlBackslash"@[4] == 'B' && "IntlBackslash"@[5] == 'a' && "IntlBackslash"@[6] == 'c' && "IntlBackslash"@[7] == 'k' && "IntlBackslash"@[8] == 's' && "IntlBackslash"@[9] == 'l' && "IntlBackslash"@[10] == 'a' && "IntlBackslash"@[11] == 's' && "IntlBackslash"@[12] == 'h');
    assert("KeyZ"@.len() == 4 && "KeyZ"@[0] == 'K' && "KeyZ"@[1] == 'e' && "KeyZ"@[2] == 'y' && "KeyZ"@[3] == 'Z');
    assert("KeyX"@.len() == 4 && "KeyX"@[0] == 'K' && "KeyX"@[1] == 'e' && "KeyX"@[2] == 'y' && "KeyX"@[3] == 'X');
    assert("KeyC"@.len() == 4 && "KeyC"@[0] == 'K' && "KeyC"@[1] == 'e' && "KeyC"@[2] == 'y' && "KeyC"@[3] == 'C');
    assert("KeyV"@.len() == 4 && "KeyV"@[0] == 'K' && "KeyV"@[1] == 'e' && "KeyV"@[2] == 'y' && "KeyV"@[3] == 'V');
    assert("KeyB"@.len() == 4 && "KeyB"@[0] == 'K' && "KeyB"@[1] == 'e' && "KeyB"@[2] == 'y' && "KeyB"@[3] == 'B');
    assert("KeyN"@.len() == 4 && "KeyN"@[0] == 'K' && "KeyN"@[1] == 'e' && "KeyN"@[2] == 'y' && "KeyN"@[3] == 'N');
    assert("KeyM"@.len() == 4 && "KeyM"@[0] == 'K' && "KeyM"@[1] == 'e' && "KeyM"@[2] == 'y' && "KeyM"@[3] == 'M');
    assert("Comma"@.len() == 5 && "Comma"@[0] == 'C' && "Comma"@[1] == 'o' && "Comma"@[2] == 'm' && "Comma"@[3] == 'm' && "Comma"@[4] == 'a');
    assert("Dot"@.len() == 3 && "Dot"@[0] == 'D' && "Dot"@[1] == 'o' && "Dot"@[2] == 't');
    assert("Slash"@.len() == 5 && "Slash"@[0] == 'S' && "Slash"@[1] == 'l' && "Slash"@[2] == 'a' && "Slash"@[3] == 's' && "Slash"@[4] == 'h');
    assert("Insert"@.len() == 6 && "Insert"@[0] == 'I' && "Insert"@[1] == 'n' && "Insert"@[2] == 's' && "Insert"@[3] == 'e' && "Insert"@[4] == 'r' && "Insert"@[5] == 't');
    assert("KpReturn"@.len() == 8 && "KpReturn"@[0] == 'K' && "KpReturn"@[1] == 'p' && "KpReturn"@[2] == 'R' && "KpReturn"@[3] == 'e' && "KpReturn"@[4] == 't' && "KpReturn"@[5] == 'u' && "KpReturn"@[6] == 'r' && "KpReturn"@[7] == 'n');
    assert("KpMinus"@.len() == 7 && "KpMinus"@[0] == 'K' && "KpMinus"@[1] == 'p' && "KpMinus"@[2] == 'M' && "KpMinus"@[3] == 'i' && "KpMinus"@[4] == 'n' && "KpMinus"@[5] == 'u' && "KpMinus"@[6] == 's');
    assert("KpPlus"@.len() == 6 && "KpPlus"@[0] == 'K' && "KpPlus"@[1] == 'p' && "KpPlus"@[2] == 'P' && "KpPlus"@[3] == 'l' && "KpPlus"@[4] == 'u' && "KpPlus"@[5] == 's');
    assert("KpMultiply"@.len() == 10 && "KpMultiply"@[0] == 'K' && "KpMultiply"@[1] == 'p' && "KpMultiply"@[2] == 'M' && "KpMultiply"@[3] == 'u' && "KpMultiply"@[4] == 'l' && "KpMultiply"@[5] == 't' && "KpMultiply"@[6] == 'i' && "KpMultiply"@[7] == 'p' && "KpMultiply"@[8] == 'l' && "KpMultiply"@[9] == 'y');
    assert("KpDivide"@.len() == 8 && "KpDivide"@[0] == 'K' && "KpDivide"@[1] == 'p' && "KpDivide"@[2] == 'D' && "KpDivide"@[3] == 'i' && "KpDivide"@[4] == 'v' && "KpDivide"@[5] == 'i' && "KpDivide"@[6] == 'd' && "KpDivide"@[7] == 'e');
    assert("Kp0"@.len() == 3 && "Kp0"@[0] == 'K' && "Kp0"@[1] == 'p' && "Kp0"@[2] == '0');
    assert("Kp1"@.len() == 3 && "Kp1"@[0] == 'K' && "Kp1"@[1] == 'p' && "Kp1"@[2] == '1');
    assert("Kp2"@.len() == 3 && "Kp2"@[0] == 'K' && "Kp2"@[1] == 'p' && "Kp2"@[2] == '2');
    assert("Kp3"@.len() == 3 && "Kp3"@[0] == 'K' && "Kp3"@[1] == 'p' && "Kp3"@[2] == '3');
    assert("Kp4"@.len() == 3 && "Kp4"@[0] == 'K' && "Kp4"@[1] == 'p' && "Kp4"@[2] == '4');
    assert("Kp5"@.len() == 3 && "Kp5"@[0] == 'K' && "Kp5"@[1] == 'p' && "Kp5"@[2] == '5');
    assert("Kp6"@.len() == 3 && "Kp6"@[0] == 'K' && "Kp6"@[1] == 'p' && "Kp6"@[2] == '6');
    assert("Kp7"@.len() == 3 && "Kp7"@[0] == 'K' && "Kp7"@[1] == 'p' && "Kp7"@[2] == '7');
    assert("Kp8"@.len() == 3 && "Kp8"@[0] == 'K' && "Kp8"@[1] == 'p' && "Kp8"@[2] == '8');
    assert("Kp9"@.len() == 3 && "Kp9"@[0] == 'K' && "Kp9"@[1] == 'p' && "Kp9"@[2] == '9');
    assert("KpDelete"@.len() == 8 && "KpDelete"@[0] == 'K' && "KpDelete"@[1] == 'p' && "KpDelete"@[2] == 'D' && "KpDelete"@[3] == 'e' && "KpDelete"@[4] == 'l' && "KpDelete"@[5] == 'e' && "KpDelete"@[6] == 't' && "KpDelete"@[7] == 'e');
    assert("Function"@.len() == 8 && "Function"@[0] == 'F' && "Function"@[1] == 'u' && "Function"@[2] == 'n' && "Function"@[3] == 'c' && "Function"@[4] == 't' && "Function"@[5] == 'i' && "Function"@[6] == 'o' && "Function"@[7] == 'n');
    assert("Fn"@.len() == 2 && "Fn"@[0] == 'F' && "Fn"@[1] == 'n');
}

/// A name is read only as the key it names, or as `Function` for `Fn`.
pub proof fn lemma_key_from_name_is_named(name: Seq<char>)
    requires
        key_from_name_spec(name) is Some,
    ensures
        name == key_name(key_from_name_spec(name)->0) || (name == "Fn"@ && key_from_name_spec(name) == Some(Key::Function)),
{
}


/// Every named key is named by its identifier, as a derived name would be:
/// `KeyS` for `Key::KeyS`, `Function` for `Key::Function`.
pub proof fn lemma_keys_are_named_by_identifier()
    ensures
        key_name(Key::Alt) == "Alt"@,
        key_name(Key::AltGr) == "AltGr"@,
        key_name(Key::Backspace) == "Backspace"@,
        key_name(Key::CapsLock) == "CapsLock"@,
        key_name(Key::ControlLeft) == "ControlLeft"@,
        key_name(Key::ControlRight) == "ControlRight"@,
        key_name(Key::Delete) == "Delete"@,
        key_name(Key::DownArrow) == "DownArrow"@,
        key_name(Key::End) == "End"@,
        key_name(Key::Escape) == "Escape"@,
        key_name(Key::F1) == "F1"@,
        key_name(Key::F10) == "F10"@,
        key_name(Key::F11) == "F11"@,
        key_name(Key::F12) == "F12"@,
        key_name(Key::F2) == "F2"@,
        key_name(Key::F3) == "F3"@,
        key_name(Key::F4) == "F4"@,
        key_name(Key::F5) == "F5"@,
        key_name(Key::F6) == "F6"@,
        key_name(Key::F7) == "F7"@,
        key_name(Key::F8) == "F8"@,
        key_name(Key::F9) == "F9"@,
        key_name(Key::Home) == "Home"@,
        key_name(Key::LeftArrow) == "LeftArrow"@,
        key_name(Key::MetaLeft) == "MetaLeft"@,
        key_name(Key::MetaRight) == "MetaRight"@,
        key_name(Key::PageDown) == "PageDown"@,
        key_name(Key::PageUp) == "PageUp"@,
        key_name(Key::Return) == "Return"@,
        key_name(Key::RightArrow) == "RightArrow"@,
        key_name(Key::ShiftLeft) == "ShiftLeft"@,
        key_name(Key::ShiftRight) == "ShiftRight"@,
        key_name(Key::Space) == "Space"@,
        key_name(Key::Tab) == "Tab"@,
        key_name(Key::UpArrow) == "UpArrow"@,
        key_name(Key::PrintScreen) == "PrintScreen"@,
        key_name(Key::ScrollLock) == "ScrollLock"@,
        key_name(Key::Pause) == "Pause"@,
        key_name(Key::NumLock) == "NumLock"@,
        key_name(Key::BackQuote) == "BackQuote"@,
        key_name(Key::Num1) == "Num1"@,
        key_name(Key::Num2) == "Num2"@,
        key_name(Key::Num3) == "Num3"@,
        key_name(Key::Num4) == "Num4"@,
        key_name(Key::Num5) == "Num5"@,
        key_name(Key::Num6) == "Num6"@,
        key_name(Key::Num7) == "Num7"@,
        key_name(Key::Num8) == "Num8"@,
        key_name(Key::Num9) == "Num9"@,
        key_name(Key::Num0) == "Num0"@,
        key_name(Key::Minus) == "Minus"@,
        key_name(Key::Equal) == "Equal"@,
        key_name(Key::KeyQ) == "KeyQ"@,
        key_name(Key::KeyW) == "KeyW"@,
        key_name(Key::KeyE) == "KeyE"@,
        key_name(Key::KeyR) == "KeyR"@,
        key_name(Key::KeyT) == "KeyT"@,
        key_name(Key::KeyY) == "KeyY"@,
        key_name(Key::KeyU) == "KeyU"@,
        key_name(Key::KeyI) == "KeyI"@,
        key_name(Key::KeyO) == "KeyO"@,
        key_name(Key::KeyP) == "KeyP"@,
        key_name(Key::LeftBracket) == "LeftBracket"@,
        key_name(Key::RightBracket) == "RightBracket"@,
        key_name(Key::KeyA) == "KeyA"@,
        key_name(Key::KeyS) == "KeyS"@,
        key_name(Key::KeyD) == "KeyD"@,
        key_name(Key::KeyF) == "KeyF"@,
        key_name(Key::KeyG) == "KeyG"@,
        key_name(Key::KeyH) == "KeyH"@,
        key_name(Key::KeyJ) == "KeyJ"@,
        key_name(Key::KeyK) == "KeyK"@,
        key_name(Key::KeyL) == "KeyL"@,
        key_name(Key::SemiColon) == "SemiColon"@,
        key_name(Key::Quote) == "Quote"@,
        key_name(Key::BackSlash) == "BackSlash"@,
        key_name(Key::IntlBackslash) == "IntlBackslash"@,
        key_name(Key::KeyZ) == "KeyZ"@,
        key_name(Key::KeyX) == "KeyX"@,
        key_name(Key::KeyC) == "KeyC"@,
        key_name(Key::KeyV) == "KeyV"@,
        key_name(Key::KeyB) == "KeyB"@,
        key_name(Key::KeyN) == "KeyN"@,
        key_name(Key::KeyM) == "KeyM"@,
        key_name(Key::Comma) == "Comma"@,
        key_name(Key::Dot) == "Dot"@,
        key_name(Key::Slash) == "Slash"@,
        key_name(Key::Insert) == "Insert"@,
        key_name(Key::KpReturn) == "KpReturn"@,
        key_name(Key::KpMinus) == "KpMinus"@,
        key_name(Key::KpPlus) == "KpPlus"@,
        key_name(Key::KpMultiply) == "KpMultiply"@,
        key_name(Key::KpDivide) == "KpDivide"@,
        key_name(Key::Kp0) == "Kp0"@,
        key_name(Key::Kp1) == "Kp1"@,
        key_name(Key::Kp2) == "Kp2"@,
        key_name(Key::Kp3) == "Kp3"@,
        key_name(Key::Kp4) == "Kp4"@,
        key_name(Key::Kp5) == "Kp5"@,
        key_name(Key::Kp6) == "Kp6"@,
        key_name(Key::Kp7) == "Kp7"@,
        key_name(Key::Kp8) == "Kp8"@,
        key_name(Key::Kp9) == "Kp9"@,
        key_name(Key::KpDelete) == "KpDelete"@,
        key_name(Key::Function) == "Function"@,
{
}

} // verus!
