//! Overlay lifecycle and global-input coordination core.
//!
//! The crate holds the verified heart of a background-resident overlay
//! coordinator: the stores for user settings and for the overlay window's
//! last-known geometry, the global-shortcut binding table and its dispatch
//! rule, the visibility state machine of the overlay surface, and the
//! command surface that ties them together. Everything platform-specific
//! (the window system, persistence to disk, the OS hotkey hooks) stays
//! outside; the core exchanges plain values with that outer layer.

pub mod commands;
pub mod laws;
pub mod presenter;
pub mod settings;
pub mod shortcuts;
pub mod window;
