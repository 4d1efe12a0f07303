//! Types of the FSK/OOK modem.
use vstd::prelude::*;

verus! {

/// Transceiver mode of the FSK/OOK modem (RegOpMode bits 2-0).
#[derive(Clone, Copy, Debug, PartialEq, Eq, Structural)]
pub enum DeviceMode {
    SLEEP,
    STDBY,
    FSTX,
    TX,
    FSRX,
    RX,
}

impl DeviceMode {
    pub open spec fn spec_bits(self) -> u8 {
        match self {
            DeviceMode::SLEEP => 0x0,
            DeviceMode::STDBY => 0x1,
            DeviceMode::FSTX => 0x2,
            DeviceMode::TX => 0x3,
            DeviceMode::FSRX => 0x4,
            DeviceMode::RX => 0x5,
        }
    }

    /// The register code of this value.
    pub fn into_bits(self) -> (r: u8)
        ensures
            r == self.spec_bits(),
    {
        match self {
            DeviceMode::SLEEP => 0x0,
            DeviceMode::STDBY => 0x1,
            DeviceMode::FSTX => 0x2,
            DeviceMode::TX => 0x3,
            DeviceMode::FSRX => 0x4,
            DeviceMode::RX => 0x5,
        }
    }
}

/// The FSK/OOK device modes are coded as in the datasheet's RegOpMode table: SLEEP 0, STDBY 1,
/// FSTX 2, TX 3, FSRX 4, RX 5.
pub proof fn lemma_device_mode_codes()
    ensures
        DeviceMode::SLEEP.spec_bits() == 0,
        DeviceMode::STDBY.spec_bits() == 1,
        DeviceMode::FSTX.spec_bits() == 2,
        DeviceMode::TX.spec_bits() == 3,
        DeviceMode::FSRX.spec_bits() == 4,
        DeviceMode::RX.spec_bits() == 5,
{
}

} // verus!
