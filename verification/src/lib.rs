//! Keep a machine awake for the lifetime of a foreground session.
//!
//! The library is the verified core of a small keep-awake tool: a state
//! encoder that maps the caller's intent to the power-management bitmask to
//! install and renders any observed bitmask as a diagnostic label, and an
//! execution-state guard that owns the installed request and guarantees that
//! the idle-permitting baseline is reinstalled exactly once when the session
//! ends. The platform call itself and all terminal I/O live outside the
//! library and only carry plain values to and from it.

pub mod cli;
pub mod guard;
pub mod state;
