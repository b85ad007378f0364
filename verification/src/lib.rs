//! Global function-key hotkeys mapped to media-player commands.
//!
//! The crate holds the decisions of a background hotkey mapper: which key is
//! bound to which action, what a captured key press leads to, and which
//! platform command carries an action out. Capturing keys, running commands
//! and drawing the settings window are left to the host program, which
//! hands the crate plain values and does what it is told.
//!
//! - [`keys`]: the twelve function keys and their names, numbers and codes.
//! - [`config`]: the keybinding table.
//! - [`persist`]: the configuration file, read and written through [`json`].
//! - [`media_control`]: the commands that carry a media action out.
//! - [`hotkey_listener`]: the two hotkey sources and the dispatcher.
//! - [`ui`]: the settings surface and the messages it exchanges.
//! - [`text`]: comparing text and searching bytes.

pub mod config;
pub mod hotkey_listener;
pub mod json;
pub mod keys;
pub mod media_control;
pub mod persist;
pub mod text;
pub mod ui;
