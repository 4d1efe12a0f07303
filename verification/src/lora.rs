//! The LoRa driver: its types, register map, calculators and register-level decisions.

pub mod bits;
pub mod calculate;
pub mod command;
pub mod laws;
pub mod driver;
pub mod registers;
pub mod types;
