use vstd::prelude::*;

verus! {

/// Errors of the LoRa modem driver; `SPI` is the error type of the SPI device.
#[derive(Debug)]
pub enum Sx127xError<SPI> {
    InvalidInput,
    InvalidPayloadLength,
    InvalidState,
    InvalidVersion,
    ModeNotReady,
    PacketTermination,
    SF6RequiresImplicitHeaderMode,
    SPI(SPI),
}

} // verus!
