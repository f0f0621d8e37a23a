//! The credential records and the plain values they are made of.

pub mod clock;
pub mod ident;
pub mod key;
pub mod password;
pub mod secret;
