//! Input injection on Windows: which records go to the system for a command,
//! and what is remembered as pressed.
//!
//! The functions here return the actions to perform, in order. The caller sends
//! them and supplies what only the system knows.

pub mod desktop;
pub mod foreground;
pub mod inject;
pub mod pinch;
pub mod refusal;
pub mod swipe;
pub mod touch;
pub mod track;
