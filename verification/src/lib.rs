//! Hotkey handling for a handheld's input devices.
//!
//! Raw kernel input events are read from several device nodes, a held modifier
//! button turns other buttons into brightness, volume and power shortcuts, and
//! the resulting logical actions are handed to whoever carries them out.
//!
//! The crate holds the decisions only. Opening devices, waiting for readiness
//! and launching commands are left to the caller, who reports what happened
//! and is told what to do.
//!
//! - [`codes`]: event codes and the key names that stand for them.
//! - [`keys`]: the key mapping, from roles to event codes, and its defaults.
//! - [`text`]: characters, white space and lines.
//! - [`config`]: the configuration text that rebinds roles.
//! - [`detector`]: the modifiers and the action that each event triggers.
//! - [`source`]: where devices are looked for and what a failed read means.
//! - [`multiplexer`]: the slots of the devices and the steps of the polling
//!   loop.

pub mod codes;
pub mod text;
pub mod keys;
pub mod config;
pub mod detector;
pub mod source;
pub mod multiplexer;
