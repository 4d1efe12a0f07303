//! Register field types of the register-structure view of the chip.
use vstd::prelude::*;

use crate::registers::RegModemStat;

verus! {

/// Signal bandwidth (RegModemConfig1 bits 7-4).
#[derive(Clone, Copy, Debug, PartialEq, Eq, Structural)]
pub enum Bandwidth {
    Bw7_8kHz,
    Bw10_4kHz,
    Bw15_6kHz,
    Bw20_8kHz,
    Bw31_25kHz,
    Bw41_7kHz,
    Bw62_5kHz,
    Bw125kHz,
    Bw250kHz,
    Bw500kHz,
}

impl Bandwidth {
    pub open spec fn spec_bits(self) -> u8 {
        match self {
            Bandwidth::Bw7_8kHz => 0x0,
            Bandwidth::Bw10_4kHz => 0x1,
            Bandwidth::Bw15_6kHz => 0x2,
            Bandwidth::Bw20_8kHz => 0x3,
            Bandwidth::Bw31_25kHz => 0x4,
            Bandwidth::Bw41_7kHz => 0x5,
            Bandwidth::Bw62_5kHz => 0x6,
            Bandwidth::Bw125kHz => 0x7,
            Bandwidth::Bw250kHz => 0x8,
            Bandwidth::Bw500kHz => 0x9,
        }
    }

    /// The register code of this value.
    pub fn into_bits(self) -> (r: u8)
        ensures
            r == self.spec_bits(),
    {
        match self {
            Bandwidth::Bw7_8kHz => 0x0,
            Bandwidth::Bw10_4kHz => 0x1,
            Bandwidth::Bw15_6kHz => 0x2,
            Bandwidth::Bw20_8kHz => 0x3,
            Bandwidth::Bw31_25kHz => 0x4,
            Bandwidth::Bw41_7kHz => 0x5,
            Bandwidth::Bw62_5kHz => 0x6,
            Bandwidth::Bw125kHz => 0x7,
            Bandwidth::Bw250kHz => 0x8,
            Bandwidth::Bw500kHz => 0x9,
        }
    }
}

// -------------------------------------------------------------------------------------------------
/// Error coding rate (RegModemConfig1 bits 3-1).
#[derive(Clone, Copy, Debug, PartialEq, Eq, Structural)]
pub enum CyclicErrorCoding {
    Rate4_5,
    Rate4_6,
    Rate4_7,
    Rate4_8,
}

impl CyclicErrorCoding {
    pub open spec fn spec_bits(self) -> u8 {
        match self {
            CyclicErrorCoding::Rate4_5 => 0x1,
            CyclicErrorCoding::Rate4_6 => 0x2,
            CyclicErrorCoding::Rate4_7 => 0x3,
            CyclicErrorCoding::Rate4_8 => 0x4,
        }
    }

    /// The register code of this value.
    pub fn into_bits(self) -> (r: u8)
        ensures
            r == self.spec_bits(),
    {
        match self {
            CyclicErrorCoding::Rate4_5 => 0x1,
            CyclicErrorCoding::Rate4_6 => 0x2,
            CyclicErrorCoding::Rate4_7 => 0x3,
            CyclicErrorCoding::Rate4_8 => 0x4,
        }
    }
}

// -------------------------------------------------------------------------------------------------
/// Transceiver mode (RegOpMode bits 2-0).
///
/// See: datasheet table 16
#[derive(Clone, Copy, Debug, PartialEq, Eq, Structural)]
pub enum DeviceMode {
    Sleep,
    Stdby,
    Fstx,
    Tx,
    Fsrx,
    RxContinuous,
    RxSingle,
    Cad,
}

impl DeviceMode {
    pub open spec fn spec_bits(self) -> u8 {
        match self {
            DeviceMode::Sleep => 0x0,
            DeviceMode::Stdby => 0x1,
            DeviceMode::Fstx => 0x2,
            DeviceMode::Tx => 0x3,
            DeviceMode::Fsrx => 0x4,
            DeviceMode::RxContinuous => 0x5,
            DeviceMode::RxSingle => 0x6,
            DeviceMode::Cad => 0x7,
        }
    }

    /// The register code of this value.
    pub fn into_bits(self) -> (r: u8)
        ensures
            r == self.spec_bits(),
    {
        match self {
            DeviceMode::Sleep => 0x0,
            DeviceMode::Stdby => 0x1,
            DeviceMode::Fstx => 0x2,
            DeviceMode::Tx => 0x3,
            DeviceMode::Fsrx => 0x4,
            DeviceMode::RxContinuous => 0x5,
            DeviceMode::RxSingle => 0x6,
            DeviceMode::Cad => 0x7,
        }
    }
}

impl DeviceMode {
    /// Decodes the three-bit mode field.
    pub open spec fn spec_from_bits(bits: u8) -> DeviceMode {
        match bits {
            0x0 => DeviceMode::Sleep,
            0x1 => DeviceMode::Stdby,
            0x2 => DeviceMode::Fstx,
            0x3 => DeviceMode::Tx,
            0x4 => DeviceMode::Fsrx,
            0x5 => DeviceMode::RxContinuous,
            0x6 => DeviceMode::RxSingle,
            _ => DeviceMode::Cad,
        }
    }

    /// Decodes the three-bit mode field; there is no mode beyond 7.
    pub fn from_bits(bits: u8) -> (r: Self)
        requires
            bits < 8,
        ensures
            r == DeviceMode::spec_from_bits(bits),
            r.spec_bits() == bits,
    {
        match bits {
            0x0 => DeviceMode::Sleep,
            0x1 => DeviceMode::Stdby,
            0x2 => DeviceMode::Fstx,
            0x3 => DeviceMode::Tx,
            0x4 => DeviceMode::Fsrx,
            0x5 => DeviceMode::RxContinuous,
            0x6 => DeviceMode::RxSingle,
            _ => DeviceMode::Cad,
        }
    }
}

/// Decoding a mode's code gives the mode back.
pub proof fn lemma_device_mode_bits_roundtrip(mode: DeviceMode)
    ensures
        DeviceMode::spec_from_bits(mode.spec_bits()) == mode,
        mode.spec_bits() < 8,
{
}

// -------------------------------------------------------------------------------------------------
/// The receiver's state, as reported by RegModemStat.
///
/// See: datasheet page 111
#[derive(Clone, Copy, Debug, PartialEq, Eq, Structural)]
pub enum RxStatus {
    ModemClear,
    HeaderInfoValid,
    RxOnGoing,
    SignalSynchronized,
    SignalDetected,
    Unknown,
}

impl RxStatus {
    /// The first raised status flag, in the order ModemClear, HeaderInfoValid, RxOnGoing,
    /// SignalSynchronized, SignalDetected; Unknown when none is raised.
    pub open spec fn spec_from_modem_stat(value: RegModemStat) -> RxStatus {
        if value.spec_modem_clear() {
            RxStatus::ModemClear
        } else if value.spec_header_info_valid() {
            RxStatus::HeaderInfoValid
        } else if value.spec_rx_on_going() {
            RxStatus::RxOnGoing
        } else if value.spec_signal_synchronized() {
            RxStatus::SignalSynchronized
        } else if value.spec_signal_detected() {
            RxStatus::SignalDetected
        } else {
            RxStatus::Unknown
        }
    }
}

impl From<RegModemStat> for RxStatus {
    fn from(value: RegModemStat) -> (r: Self) {
        if value.modem_clear() {
            RxStatus::ModemClear
        } else if value.header_info_valid() {
            RxStatus::HeaderInfoValid
        } else if value.rx_on_going() {
            RxStatus::RxOnGoing
        } else if value.signal_synchronized() {
            RxStatus::SignalSynchronized
        } else if value.signal_detected() {
            RxStatus::SignalDetected
        } else {
            RxStatus::Unknown
        }
    }
}

impl vstd::std_specs::convert::FromSpecImpl<RegModemStat> for RxStatus {
    open spec fn obeys_from_spec() -> bool {
        true
    }

    open spec fn from_spec(v: RegModemStat) -> Self {
        RxStatus::spec_from_modem_stat(v)
    }
}

// -------------------------------------------------------------------------------------------------
/// Spreading factor (RegModemConfig2 bits 7-4).
#[derive(Clone, Copy, Debug, PartialEq, Eq, Structural)]
pub enum SpreadingFactor {
    Factor6,
    Factor7,
    Factor8,
    Factor9,
    Factor10,
    Factor11,
    Factor12,
}

impl SpreadingFactor {
    pub open spec fn spec_bits(self) -> u8 {
        match self {
            SpreadingFactor::Factor6 => 0x6,
            SpreadingFactor::Factor7 => 0x7,
            SpreadingFactor::Factor8 => 0x8,
            SpreadingFactor::Factor9 => 0x9,
            SpreadingFactor::Factor10 => 0xa,
            SpreadingFactor::Factor11 => 0xb,
            SpreadingFactor::Factor12 => 0xc,
        }
    }

    /// The register code of this value.
    pub fn into_bits(self) -> (r: u8)
        ensures
            r == self.spec_bits(),
    {
        match self {
            SpreadingFactor::Factor6 => 0x6,
            SpreadingFactor::Factor7 => 0x7,
            SpreadingFactor::Factor8 => 0x8,
            SpreadingFactor::Factor9 => 0x9,
            SpreadingFactor::Factor10 => 0xa,
            SpreadingFactor::Factor11 => 0xb,
            SpreadingFactor::Factor12 => 0xc,
        }
    }
}

/// The register codes of the datasheet: bandwidths 0 (7.8 kHz) to 9 (500 kHz), coding rates
/// 4/5 to 4/8 coded 1 to 4, device modes SLEEP 0 to CAD 7, and each spreading factor coded by
/// its SF number.
pub proof fn lemma_register_code_tables()
    ensures
        Bandwidth::Bw7_8kHz.spec_bits() == 0,
        Bandwidth::Bw10_4kHz.spec_bits() == 1,
        Bandwidth::Bw15_6kHz.spec_bits() == 2,
        Bandwidth::Bw20_8kHz.spec_bits() == 3,
        Bandwidth::Bw31_25kHz.spec_bits() == 4,
        Bandwidth::Bw41_7kHz.spec_bits() == 5,
        Bandwidth::Bw62_5kHz.spec_bits() == 6,
        Bandwidth::Bw125kHz.spec_bits() == 7,
        Bandwidth::Bw250kHz.spec_bits() == 8,
        Bandwidth::Bw500kHz.spec_bits() == 9,
        CyclicErrorCoding::Rate4_5.spec_bits() == 1,
        CyclicErrorCoding::Rate4_6.spec_bits() == 2,
        CyclicErrorCoding::Rate4_7.spec_bits() == 3,
        CyclicErrorCoding::Rate4_8.spec_bits() == 4,
        DeviceMode::Sleep.spec_bits() == 0,
        DeviceMode::Stdby.spec_bits() == 1,
        DeviceMode::Fstx.spec_bits() == 2,
        DeviceMode::Tx.spec_bits() == 3,
        DeviceMode::Fsrx.spec_bits() == 4,
        DeviceMode::RxContinuous.spec_bits() == 5,
        DeviceMode::RxSingle.spec_bits() == 6,
        DeviceMode::Cad.spec_bits() == 7,
        SpreadingFactor::Factor6.spec_bits() == 6,
        SpreadingFactor::Factor7.spec_bits() == 7,
        SpreadingFactor::Factor8.spec_bits() == 8,
        SpreadingFactor::Factor9.spec_bits() == 9,
        SpreadingFactor::Factor10.spec_bits() == 10,
        SpreadingFactor::Factor11.spec_bits() == 11,
        SpreadingFactor::Factor12.spec_bits() == 12,
{
}

} // verus!
