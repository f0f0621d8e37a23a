//! A keyboard-driven local credential vault: key derivation and sealing of the
//! vault file, the credential records, the per-mode key bindings and the state
//! machine that turns key presses into local changes and queued I/O events.

pub mod inputs;
pub mod config;
pub mod models;
pub mod text;
pub mod app;
pub mod io;
pub mod crypto;
