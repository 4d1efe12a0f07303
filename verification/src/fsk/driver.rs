//! The FSK/OOK modem driver's state and errors.
use vstd::prelude::*;

use crate::common::Sx127xSpi;

verus! {

/// RegRssiValue of the FSK/OOK page.
pub const RSSI_VALUE: u8 = 0x11;

/// Errors of the FSK/OOK driver; `SPI` is the error type of the SPI device.
#[derive(Debug)]
pub enum Sx127xFskError<SPI> {
    SPI(SPI),
}

/// The FSK/OOK modem driver: the SPI device it talks through.
pub struct Sx127xFsk<SPI> {
    pub spi: Sx127xSpi<SPI>,
}

impl<SPI> Sx127xFsk<SPI> {
    pub fn new(spi: SPI) -> (r: Self)
        ensures
            r.spi.spi == spi,
    {
        Self { spi: Sx127xSpi::new(spi) }
    }
}

} // verus!
