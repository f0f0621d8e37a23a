//! Key derivation and the sealing of the vault file.

pub mod utils;
