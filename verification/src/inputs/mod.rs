//! Keyboard input as the state machine sees it.

pub mod buffer;
pub mod key;
