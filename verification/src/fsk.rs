//! The FSK/OOK modem.

pub mod driver;
pub mod types;
