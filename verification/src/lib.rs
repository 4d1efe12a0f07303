//! Register-level logic for the Semtech SX127x transceiver family (FSK and LoRa modems).

pub mod common;
pub mod sx127xlora;
pub mod lora;
pub mod registers;
pub mod types;
pub mod core_driver;
pub mod fsk;
