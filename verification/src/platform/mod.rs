//! Platform keycode tables and the pure part of each platform's event decoding.

pub mod linux;
pub mod macos;
pub mod windows;
pub mod keymap;
