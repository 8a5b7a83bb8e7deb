//! Cross-context command channel for a tray-driven counter application.
//!
//! A system-tray service and a GUI event loop run in separate execution
//! contexts and may not call into each other. Tray interactions are captured
//! as [`command::Command`] values, buffered in a [`queue::CommandQueue`], and
//! later drained — one per poll tick — into the GUI state machine
//! ([`state::Example`]), which owns the window lifecycle and the counter.

pub mod command;
pub mod queue;
pub mod state;
pub mod tray;
pub mod icon;
