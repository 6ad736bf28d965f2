//! Verified core of KeyEcho: key tables, press gating, sound-pack planning,
//! download and link policies, release-note prompts and audition pacing.

pub mod archive;
pub mod autostart;
pub mod echo;
pub mod error;
pub mod gate;
pub mod keys;
pub mod platform;
pub mod paths;
pub mod sound;
pub mod soundpack;
pub mod text;
pub mod ui;
pub mod updater;
pub mod url;
