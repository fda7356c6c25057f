//! Application shell of Third Eye, a companion for Elite: Dangerous.
//!
//! The crate holds the decisions of the shell: which panes exist and how
//! they are named, how settings are completed and edited, how the tile
//! layout is seeded and kept non-empty, and how queued messages change the
//! application state. Drawing, files and threads are left to the caller.

pub mod app;
pub mod hotkeys;
pub mod journal;
pub mod layout;
pub mod panes;
pub mod persistence;
pub mod settings;
pub mod tiles;
