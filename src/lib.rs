//! Hotkey-toggled automatic key presser: the key catalog, hotkey descriptors
//! and the start/stop engine that decides what the hotkey hook and the
//! simulation loop do.

pub mod catalog;
pub mod hotkey;
pub mod engine;
pub mod laws;
