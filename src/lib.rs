//! Keyboard-driven window placement: the geometry and decision engine.
//!
//! The library computes where a window goes for each hotkey action and which
//! commands a window must receive, while the platform backend (outside this
//! crate) queries the live window and monitor state and carries the commands out.

pub mod actions;
pub mod calculation;
pub mod config;
pub mod enums;
pub mod geometry;
pub mod hotkey_action;
pub mod relocation;
