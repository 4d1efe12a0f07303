//! The core driver: raw register access over SPI, shared by both modems.
use vstd::prelude::*;

verus! {

/// Errors of the core driver; `SPI` is the error type of the SPI device.
#[derive(Debug)]
pub enum Sx127xError<SPI> {
    SPI(SPI),
}

/// The core driver: the SPI device registers are read and written through.
pub struct Sx127x<SPI> {
    pub spi: SPI,
}

impl<SPI> Sx127x<SPI> {
    pub fn new(spi: SPI) -> (r: Self)
        ensures
            r.spi == spi,
    {
        Self { spi }
    }
}

} // verus!
