//! The LoRa modem: configuration types, register map, calculators, validators and the
//! register-level decisions of the driver.

pub mod calculate;
pub mod constants;
pub mod driver;
pub mod registers;
mod sealed;
pub mod types;
pub mod validate;
pub mod command;
pub mod laws;
