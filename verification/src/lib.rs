//! Resolution of touch-control events to shell commands.
//!
//! A remote client reports what happens to its widgets (buttons, switches,
//! sliders, directional pads). A configuration maps widget identifiers to
//! actions; this library decides which command a given event stands for,
//! which events a fresh connection starts with, and how a connection reacts
//! to each message. Running commands and moving bytes is left to the caller.

pub mod actions;
pub mod config;
pub mod connection;
pub mod droidpad;
pub mod template;
