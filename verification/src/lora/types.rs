//! Configuration and status types of the LoRa driver, with their register encodings.
use vstd::prelude::*;

use crate::lora::registers::{
    INVERT_IQ_RX_MASK, INVERT_IQ_TX_MASK, LNA_BOOST_HF_MASK, LNA_GAIN_MASK, OCP_ON_MASK,
    OCP_TRIM_MASK,
};

verus! {

/// Signal bandwidth (RegModemConfig1 bits 7-4).
#[derive(Clone, Copy, Debug, PartialEq, Eq, Structural)]
pub enum Bandwidth {
    Bw7_8kHz,
    Bw10_4kHz,
    Bw15_6kHz,
    Bw20_8kHz,
    Bw31_25kHz,
    Bw41_7kHz,
    Bw62_5kHz,
    Bw125kHz,
    Bw250kHz,
    Bw500kHz,
}

impl Bandwidth {
    pub open spec fn spec_bits(self) -> u8 {
        match self {
            Bandwidth::Bw7_8kHz => 0x0,
            Bandwidth::Bw10_4kHz => 0x1,
            Bandwidth::Bw15_6kHz => 0x2,
            Bandwidth::Bw20_8kHz => 0x3,
            Bandwidth::Bw31_25kHz => 0x4,
            Bandwidth::Bw41_7kHz => 0x5,
            Bandwidth::Bw62_5kHz => 0x6,
            Bandwidth::Bw125kHz => 0x7,
            Bandwidth::Bw250kHz => 0x8,
            Bandwidth::Bw500kHz => 0x9,
        }
    }

    /// Decodes the register field; codes above 8 decode to 500 kHz.
    pub open spec fn spec_from_bits(value: u8) -> Bandwidth {
        match value {
            0x0 => Bandwidth::Bw7_8kHz,
            0x1 => Bandwidth::Bw10_4kHz,
            0x2 => Bandwidth::Bw15_6kHz,
            0x3 => Bandwidth::Bw20_8kHz,
            0x4 => Bandwidth::Bw31_25kHz,
            0x5 => Bandwidth::Bw41_7kHz,
            0x6 => Bandwidth::Bw62_5kHz,
            0x7 => Bandwidth::Bw125kHz,
            0x8 => Bandwidth::Bw250kHz,
            _ => Bandwidth::Bw500kHz,
        }
    }

    /// The register code of this value.
    pub fn into_bits(self) -> (r: u8)
        ensures
            r == self.spec_bits(),
    {
        match self {
            Bandwidth::Bw7_8kHz => 0x0,
            Bandwidth::Bw10_4kHz => 0x1,
            Bandwidth::Bw15_6kHz => 0x2,
            Bandwidth::Bw20_8kHz => 0x3,
            Bandwidth::Bw31_25kHz => 0x4,
            Bandwidth::Bw41_7kHz => 0x5,
            Bandwidth::Bw62_5kHz => 0x6,
            Bandwidth::Bw125kHz => 0x7,
            Bandwidth::Bw250kHz => 0x8,
            Bandwidth::Bw500kHz => 0x9,
        }
    }
}

impl Default for Bandwidth {
    fn default() -> (r: Self)
        ensures
            r == Bandwidth::Bw125kHz,
    {
        Bandwidth::Bw125kHz
    }
}

impl From<u8> for Bandwidth {
    fn from(value: u8) -> (r: Self) {
        match value {
            0x0 => Bandwidth::Bw7_8kHz,
            0x1 => Bandwidth::Bw10_4kHz,
            0x2 => Bandwidth::Bw15_6kHz,
            0x3 => Bandwidth::Bw20_8kHz,
            0x4 => Bandwidth::Bw31_25kHz,
            0x5 => Bandwidth::Bw41_7kHz,
            0x6 => Bandwidth::Bw62_5kHz,
            0x7 => Bandwidth::Bw125kHz,
            0x8 => Bandwidth::Bw250kHz,
            _ => Bandwidth::Bw500kHz,
        }
    }
}

impl vstd::std_specs::convert::FromSpecImpl<u8> for Bandwidth {
    open spec fn obeys_from_spec() -> bool {
        true
    }

    open spec fn from_spec(v: u8) -> Self {
        Bandwidth::spec_from_bits(v)
    }
}

impl Bandwidth {
    pub open spec fn spec_hz(self) -> u32 {
        match self {
            Bandwidth::Bw7_8kHz => 7800,
            Bandwidth::Bw10_4kHz => 10400,
            Bandwidth::Bw15_6kHz => 15600,
            Bandwidth::Bw20_8kHz => 20800,
            Bandwidth::Bw31_25kHz => 31250,
            Bandwidth::Bw41_7kHz => 41700,
            Bandwidth::Bw62_5kHz => 62500,
            Bandwidth::Bw125kHz => 125000,
            Bandwidth::Bw250kHz => 250000,
            Bandwidth::Bw500kHz => 500000,
        }
    }

    /// The bandwidth in Hz.
    pub fn hz(&self) -> (r: u32)
        ensures
            r == self.spec_hz(),
    {
        match self {
            Bandwidth::Bw7_8kHz => 7800,
            Bandwidth::Bw10_4kHz => 10400,
            Bandwidth::Bw15_6kHz => 15600,
            Bandwidth::Bw20_8kHz => 20800,
            Bandwidth::Bw31_25kHz => 31250,
            Bandwidth::Bw41_7kHz => 41700,
            Bandwidth::Bw62_5kHz => 62500,
            Bandwidth::Bw125kHz => 125000,
            Bandwidth::Bw250kHz => 250000,
            Bandwidth::Bw500kHz => 500000,
        }
    }
}

// -------------------------------------------------------------------------------------------------
/// Error coding rate (RegModemConfig1 bits 3-1).
#[derive(Clone, Copy, Debug, PartialEq, Eq, Structural)]
pub enum CodingRate {
    Cr4_5,
    Cr4_6,
    Cr4_7,
    Cr4_8,
}

impl CodingRate {
    pub open spec fn spec_bits(self) -> u8 {
        match self {
            CodingRate::Cr4_5 => 0x1,
            CodingRate::Cr4_6 => 0x2,
            CodingRate::Cr4_7 => 0x3,
            CodingRate::Cr4_8 => 0x4,
        }
    }

    /// Decodes the register field; codes that name no rate decode to 4/8.
    pub open spec fn spec_from_bits(value: u8) -> CodingRate {
        match value {
            0x1 => CodingRate::Cr4_5,
            0x2 => CodingRate::Cr4_6,
            0x3 => CodingRate::Cr4_7,
            _ => CodingRate::Cr4_8,
        }
    }

    /// The register code of this value.
    pub fn into_bits(self) -> (r: u8)
        ensures
            r == self.spec_bits(),
    {
        match self {
            CodingRate::Cr4_5 => 0x1,
            CodingRate::Cr4_6 => 0x2,
            CodingRate::Cr4_7 => 0x3,
            CodingRate::Cr4_8 => 0x4,
        }
    }
}

impl Default for CodingRate {
    fn default() -> (r: Self)
        ensures
            r == CodingRate::Cr4_5,
    {
        CodingRate::Cr4_5
    }
}

impl From<u8> for CodingRate {
    fn from(value: u8) -> (r: Self) {
        match value {
            0x1 => CodingRate::Cr4_5,
            0x2 => CodingRate::Cr4_6,
            0x3 => CodingRate::Cr4_7,
            _ => CodingRate::Cr4_8,
        }
    }
}

impl vstd::std_specs::convert::FromSpecImpl<u8> for CodingRate {
    open spec fn obeys_from_spec() -> bool {
        true
    }

    open spec fn from_spec(v: u8) -> Self {
        CodingRate::spec_from_bits(v)
    }
}

impl CodingRate {
    /// The rate is 4/denominator.
    pub open spec fn spec_denominator(self) -> u32 {
        match self {
            CodingRate::Cr4_5 => 5,
            CodingRate::Cr4_6 => 6,
            CodingRate::Cr4_7 => 7,
            CodingRate::Cr4_8 => 8,
        }
    }

    /// The denominator of the rate 4/n.
    pub fn denominator(self) -> (r: u32)
        ensures
            r == self.spec_denominator(),
    {
        match self {
            CodingRate::Cr4_5 => 5,
            CodingRate::Cr4_6 => 6,
            CodingRate::Cr4_7 => 7,
            CodingRate::Cr4_8 => 8,
        }
    }
}

// -------------------------------------------------------------------------------------------------
/// Transceiver mode (RegOpMode bits 2-0).
#[derive(Clone, Copy, Debug, PartialEq, Eq, Structural)]
pub enum DeviceMode {
    SLEEP,
    STDBY,
    FSTX,
    TX,
    FSRX,
    RXCONTINUOUS,
    RXSINGLE,
    CAD,
}

impl DeviceMode {
    pub open spec fn spec_bits(self) -> u8 {
        match self {
            DeviceMode::SLEEP => 0x0,
            DeviceMode::STDBY => 0x1,
            DeviceMode::FSTX => 0x2,
            DeviceMode::TX => 0x3,
            DeviceMode::FSRX => 0x4,
            DeviceMode::RXCONTINUOUS => 0x5,
            DeviceMode::RXSINGLE => 0x6,
            DeviceMode::CAD => 0x7,
        }
    }

    /// Decodes the register field; codes above 6 decode to CAD.
    pub open spec fn spec_from_bits(value: u8) -> DeviceMode {
        match value {
            0x0 => DeviceMode::SLEEP,
            0x1 => DeviceMode::STDBY,
            0x2 => DeviceMode::FSTX,
            0x3 => DeviceMode::TX,
            0x4 => DeviceMode::FSRX,
            0x5 => DeviceMode::RXCONTINUOUS,
            0x6 => DeviceMode::RXSINGLE,
            _ => DeviceMode::CAD,
        }
    }

    /// The register code of this value.
    pub fn into_bits(self) -> (r: u8)
        ensures
            r == self.spec_bits(),
    {
        match self {
            DeviceMode::SLEEP => 0x0,
            DeviceMode::STDBY => 0x1,
            DeviceMode::FSTX => 0x2,
            DeviceMode::TX => 0x3,
            DeviceMode::FSRX => 0x4,
            DeviceMode::RXCONTINUOUS => 0x5,
            DeviceMode::RXSINGLE => 0x6,
            DeviceMode::CAD => 0x7,
        }
    }
}

impl From<u8> for DeviceMode {
    fn from(value: u8) -> (r: Self) {
        match value {
            0x0 => DeviceMode::SLEEP,
            0x1 => DeviceMode::STDBY,
            0x2 => DeviceMode::FSTX,
            0x3 => DeviceMode::TX,
            0x4 => DeviceMode::FSRX,
            0x5 => DeviceMode::RXCONTINUOUS,
            0x6 => DeviceMode::RXSINGLE,
            _ => DeviceMode::CAD,
        }
    }
}

impl vstd::std_specs::convert::FromSpecImpl<u8> for DeviceMode {
    open spec fn obeys_from_spec() -> bool {
        true
    }

    open spec fn from_spec(v: u8) -> Self {
        DeviceMode::spec_from_bits(v)
    }
}

// -------------------------------------------------------------------------------------------------
/// Signal mapped to pin DIO0 (RegDioMapping1 bits 7-6).
#[derive(Clone, Copy, Debug, PartialEq, Eq, Structural)]
pub enum Dio0Signal {
    RxDone,
    TxDone,
    CadDone,
    Unmapped,
}

impl Dio0Signal {
    pub open spec fn spec_bits(self) -> u8 {
        match self {
            Dio0Signal::RxDone => 0x0,
            Dio0Signal::TxDone => 0x1,
            Dio0Signal::CadDone => 0x2,
            Dio0Signal::Unmapped => 0x3,
        }
    }

    /// The register code of this value.
    pub fn into_bits(self) -> (r: u8)
        ensures
            r == self.spec_bits(),
    {
        match self {
            Dio0Signal::RxDone => 0x0,
            Dio0Signal::TxDone => 0x1,
            Dio0Signal::CadDone => 0x2,
            Dio0Signal::Unmapped => 0x3,
        }
    }
}

impl Default for Dio0Signal {
    fn default() -> (r: Self)
        ensures
            r == Dio0Signal::RxDone,
    {
        Dio0Signal::RxDone
    }
}

// -------------------------------------------------------------------------------------------------
/// Signal mapped to pin DIO1 (RegDioMapping1 bits 5-4).
#[derive(Clone, Copy, Debug, PartialEq, Eq, Structural)]
pub enum Dio1Signal {
    RxTimeout,
    FhssChangeChannel,
    CadDetected,
    Unmapped,
}

impl Dio1Signal {
    pub open spec fn spec_bits(self) -> u8 {
        match self {
            Dio1Signal::RxTimeout => 0x0,
            Dio1Signal::FhssChangeChannel => 0x1,
            Dio1Signal::CadDetected => 0x2,
            Dio1Signal::Unmapped => 0x3,
        }
    }

    /// The register code of this value.
    pub fn into_bits(self) -> (r: u8)
        ensures
            r == self.spec_bits(),
    {
        match self {
            Dio1Signal::RxTimeout => 0x0,
            Dio1Signal::FhssChangeChannel => 0x1,
            Dio1Signal::CadDetected => 0x2,
            Dio1Signal::Unmapped => 0x3,
        }
    }
}

impl Default for Dio1Signal {
    fn default() -> (r: Self)
        ensures
            r == Dio1Signal::RxTimeout,
    {
        Dio1Signal::RxTimeout
    }
}

// -------------------------------------------------------------------------------------------------
/// Header mode (RegModemConfig1 bit 0).
#[derive(Clone, Copy, Debug, PartialEq, Eq, Structural)]
pub enum HeaderMode {
    Explicit,
    Implicit,
}

impl HeaderMode {
    pub open spec fn spec_bits(self) -> u8 {
        match self {
            HeaderMode::Explicit => 0x0,
            HeaderMode::Implicit => 0x1,
        }
    }

    /// Decodes the register field: zero is explicit, anything else implicit.
    pub open spec fn spec_from_bits(value: u8) -> HeaderMode {
        match value {
            0x0 => HeaderMode::Explicit,
            _ => HeaderMode::Implicit,
        }
    }

    /// The register code of this value.
    pub fn into_bits(self) -> (r: u8)
        ensures
            r == self.spec_bits(),
    {
        match self {
            HeaderMode::Explicit => 0x0,
            HeaderMode::Implicit => 0x1,
        }
    }
}

impl Default for HeaderMode {
    fn default() -> (r: Self)
        ensures
            r == HeaderMode::Explicit,
    {
        HeaderMode::Explicit
    }
}

impl From<u8> for HeaderMode {
    fn from(value: u8) -> (r: Self) {
        match value {
            0x0 => HeaderMode::Explicit,
            _ => HeaderMode::Implicit,
        }
    }
}

impl vstd::std_specs::convert::FromSpecImpl<u8> for HeaderMode {
    open spec fn obeys_from_spec() -> bool {
        true
    }

    open spec fn from_spec(v: u8) -> Self {
        HeaderMode::spec_from_bits(v)
    }
}

// -------------------------------------------------------------------------------------------------
/// An interrupt source, numbered by the bit of its flag in RegIrqFlags.
#[derive(Clone, Copy, Debug, PartialEq, Eq, Structural)]
pub enum Interrupt {
    CadDetected,
    FhssChangeChannel,
    CadDone,
    TxDone,
    ValidHeader,
    PayloadCrcError,
    RxDone,
    RxTimeout,
}

impl Interrupt {
    pub open spec fn spec_bits(self) -> u8 {
        match self {
            Interrupt::CadDetected => 0x0,
            Interrupt::FhssChangeChannel => 0x1,
            Interrupt::CadDone => 0x2,
            Interrupt::TxDone => 0x3,
            Interrupt::ValidHeader => 0x4,
            Interrupt::PayloadCrcError => 0x5,
            Interrupt::RxDone => 0x6,
            Interrupt::RxTimeout => 0x7,
        }
    }

    /// The register code of this value.
    pub fn into_bits(self) -> (r: u8)
        ensures
            r == self.spec_bits(),
    {
        match self {
            Interrupt::CadDetected => 0x0,
            Interrupt::FhssChangeChannel => 0x1,
            Interrupt::CadDone => 0x2,
            Interrupt::TxDone => 0x3,
            Interrupt::ValidHeader => 0x4,
            Interrupt::PayloadCrcError => 0x5,
            Interrupt::RxDone => 0x6,
            Interrupt::RxTimeout => 0x7,
        }
    }
}

/// Each interrupt's flag is the bit numbered by its code.
pub proof fn lemma_interrupt_mask(interrupt: Interrupt)
    ensures
        interrupt.spec_mask() == 1u8 << interrupt.spec_bits(),
        interrupt.spec_bits() < 8,
{
    assert(1u8 << 0u8 == 0x01u8 && 1u8 << 1u8 == 0x02u8 && 1u8 << 2u8 == 0x04u8 && 1u8 << 3u8
        == 0x08u8 && 1u8 << 4u8 == 0x10u8 && 1u8 << 5u8 == 0x20u8 && 1u8 << 6u8 == 0x40u8 && 1u8
        << 7u8 == 0x80u8) by (bit_vector);
}

impl Interrupt {
    pub open spec fn spec_mask(self) -> u8 {
        match self {
            Interrupt::CadDetected => 0x01,
            Interrupt::FhssChangeChannel => 0x02,
            Interrupt::CadDone => 0x04,
            Interrupt::TxDone => 0x08,
            Interrupt::ValidHeader => 0x10,
            Interrupt::PayloadCrcError => 0x20,
            Interrupt::RxDone => 0x40,
            Interrupt::RxTimeout => 0x80,
        }
    }

    /// The flag of this interrupt in RegIrqFlags and RegIrqFlagsMask: bit number `into_bits`.
    pub fn mask(&self) -> (r: u8)
        ensures
            r == self.spec_mask(),
            r == 1u8 << self.spec_bits(),
    {
        let r: u8 = match self {
            Interrupt::CadDetected => 0x01,
            Interrupt::FhssChangeChannel => 0x02,
            Interrupt::CadDone => 0x04,
            Interrupt::TxDone => 0x08,
            Interrupt::ValidHeader => 0x10,
            Interrupt::PayloadCrcError => 0x20,
            Interrupt::RxDone => 0x40,
            Interrupt::RxTimeout => 0x80,
        };
        proof {
            lemma_interrupt_mask(*self);
        }
        r
    }
}

// -------------------------------------------------------------------------------------------------
/// IQ inversion of the RX and TX paths (RegInvertIQ).
#[derive(Clone, Copy, Debug, PartialEq, Eq, Structural)]
pub struct InvertIQ {
    pub rx_path: bool,
    pub tx_path: bool,
}

impl InvertIQ {
    /// Decodes RegInvertIQ: the RX path from bit 6, the TX path from bit 0.
    pub open spec fn spec_from_bits(value: u8) -> InvertIQ {
        InvertIQ {
            rx_path: ((value & INVERT_IQ_RX_MASK) >> 6u8) == 1,
            tx_path: (value & INVERT_IQ_TX_MASK) == 1,
        }
    }
}

impl From<u8> for InvertIQ {
    fn from(value: u8) -> (r: Self) {
        Self {
            rx_path: ((value & INVERT_IQ_RX_MASK) >> 6) == 1,
            tx_path: (value & INVERT_IQ_TX_MASK) == 1,
        }
    }
}

impl vstd::std_specs::convert::FromSpecImpl<u8> for InvertIQ {
    open spec fn obeys_from_spec() -> bool {
        true
    }

    open spec fn from_spec(v: u8) -> Self {
        InvertIQ::spec_from_bits(v)
    }
}

// -------------------------------------------------------------------------------------------------
/// Gain of the low noise amplifier (RegLna bits 7-5).
#[derive(Clone, Copy, Debug, PartialEq, Eq, Structural)]
pub enum LnaGain {
    G1,
    G2,
    G3,
    G4,
    G5,
    G6,
}

impl LnaGain {
    pub open spec fn spec_bits(self) -> u8 {
        match self {
            LnaGain::G1 => 0x1,
            LnaGain::G2 => 0x2,
            LnaGain::G3 => 0x3,
            LnaGain::G4 => 0x4,
            LnaGain::G5 => 0x5,
            LnaGain::G6 => 0x6,
        }
    }

    /// Decodes the register field; codes that name no other gain decode to G6.
    pub open spec fn spec_from_bits(value: u8) -> LnaGain {
        match value {
            0x1 => LnaGain::G1,
            0x2 => LnaGain::G2,
            0x3 => LnaGain::G3,
            0x4 => LnaGain::G4,
            0x5 => LnaGain::G5,
            _ => LnaGain::G6,
        }
    }

    /// The register code of this value.
    pub fn into_bits(self) -> (r: u8)
        ensures
            r == self.spec_bits(),
    {
        match self {
            LnaGain::G1 => 0x1,
            LnaGain::G2 => 0x2,
            LnaGain::G3 => 0x3,
            LnaGain::G4 => 0x4,
            LnaGain::G5 => 0x5,
            LnaGain::G6 => 0x6,
        }
    }
}

impl Default for LnaGain {
    fn default() -> (r: Self)
        ensures
            r == LnaGain::G1,
    {
        LnaGain::G1
    }
}

impl From<u8> for LnaGain {
    fn from(value: u8) -> (r: Self) {
        match value {
            0x1 => LnaGain::G1,
            0x2 => LnaGain::G2,
            0x3 => LnaGain::G3,
            0x4 => LnaGain::G4,
            0x5 => LnaGain::G5,
            _ => LnaGain::G6,
        }
    }
}

impl vstd::std_specs::convert::FromSpecImpl<u8> for LnaGain {
    open spec fn obeys_from_spec() -> bool {
        true
    }

    open spec fn from_spec(v: u8) -> Self {
        LnaGain::spec_from_bits(v)
    }
}

// -------------------------------------------------------------------------------------------------
/// Settings of the low noise amplifier as read from RegLna.
#[derive(Clone, Copy, Debug, PartialEq, Eq, Structural)]
pub struct LnaGainConfig {
    pub boost_hf: bool,
    pub gain: LnaGain,
}

impl LnaGainConfig {
    /// Decodes RegLna: the boost is on when both LnaBoostHf bits are set.
    pub open spec fn spec_from_bits(value: u8) -> LnaGainConfig {
        LnaGainConfig {
            boost_hf: (value & LNA_BOOST_HF_MASK) == 0x3,
            gain: LnaGain::spec_from_bits((value & LNA_GAIN_MASK) >> 5u8),
        }
    }
}

impl From<u8> for LnaGainConfig {
    fn from(value: u8) -> (r: Self) {
        Self {
            boost_hf: (value & LNA_BOOST_HF_MASK) == 0x3,
            gain: LnaGain::from((value & LNA_GAIN_MASK) >> 5),
        }
    }
}

impl vstd::std_specs::convert::FromSpecImpl<u8> for LnaGainConfig {
    open spec fn obeys_from_spec() -> bool {
        true
    }

    open spec fn from_spec(v: u8) -> Self {
        LnaGainConfig::spec_from_bits(v)
    }
}

// -------------------------------------------------------------------------------------------------
/// Modem status as read from RegModemStat.
#[derive(Clone, Copy, Debug, PartialEq, Eq, Structural)]
pub enum ModemStatus {
    SignalDetected,
    SignalSynchronized,
    RxOnGoing,
    HeaderInfoValid,
    ModemClear,
}

impl ModemStatus {
    pub open spec fn spec_bits(self) -> u8 {
        match self {
            ModemStatus::SignalDetected => 0x0,
            ModemStatus::SignalSynchronized => 0x1,
            ModemStatus::RxOnGoing => 0x4,
            ModemStatus::HeaderInfoValid => 0x8,
            ModemStatus::ModemClear => 0x16,
        }
    }

    /// Decodes the register; values other than 0, 1, 4 and 8 decode to ModemClear.
    pub open spec fn spec_from_bits(value: u8) -> ModemStatus {
        match value {
            0x0 => ModemStatus::SignalDetected,
            0x1 => ModemStatus::SignalSynchronized,
            0x4 => ModemStatus::RxOnGoing,
            0x8 => ModemStatus::HeaderInfoValid,
            _ => ModemStatus::ModemClear,
        }
    }

    /// The register code of this value.
    pub fn into_bits(self) -> (r: u8)
        ensures
            r == self.spec_bits(),
    {
        match self {
            ModemStatus::SignalDetected => 0x0,
            ModemStatus::SignalSynchronized => 0x1,
            ModemStatus::RxOnGoing => 0x4,
            ModemStatus::HeaderInfoValid => 0x8,
            ModemStatus::ModemClear => 0x16,
        }
    }
}

impl From<u8> for ModemStatus {
    fn from(value: u8) -> (r: Self) {
        match value {
            0x0 => ModemStatus::SignalDetected,
            0x1 => ModemStatus::SignalSynchronized,
            0x4 => ModemStatus::RxOnGoing,
            0x8 => ModemStatus::HeaderInfoValid,
            _ => ModemStatus::ModemClear,
        }
    }
}

impl vstd::std_specs::convert::FromSpecImpl<u8> for ModemStatus {
    open spec fn obeys_from_spec() -> bool {
        true
    }

    open spec fn from_spec(v: u8) -> Self {
        ModemStatus::spec_from_bits(v)
    }
}

// -------------------------------------------------------------------------------------------------
/// Over-current protection as read from RegOcp.
#[derive(Clone, Copy, Debug, PartialEq, Eq, Structural)]
pub struct OverCurrentProtection {
    pub on: bool,
    /// The OcpTrim code.
    pub trim: u8,
}

impl OverCurrentProtection {
    /// Decodes RegOcp: OcpOn is bit 5, OcpTrim bits 4-0.
    pub open spec fn spec_from_bits(value: u8) -> OverCurrentProtection {
        OverCurrentProtection {
            on: (value & OCP_ON_MASK) >> 5u8 == 1,
            trim: value & OCP_TRIM_MASK,
        }
    }
}

impl From<u8> for OverCurrentProtection {
    fn from(value: u8) -> (r: Self) {
        Self { on: (value & OCP_ON_MASK) >> 5 == 1, trim: value & OCP_TRIM_MASK }
    }
}

impl vstd::std_specs::convert::FromSpecImpl<u8> for OverCurrentProtection {
    open spec fn obeys_from_spec() -> bool {
        true
    }

    open spec fn from_spec(v: u8) -> Self {
        OverCurrentProtection::spec_from_bits(v)
    }
}

// -------------------------------------------------------------------------------------------------
/// Rise/fall time of the power amplifier ramp (RegPaRamp bits 3-0).
#[derive(Clone, Copy, Debug, PartialEq, Eq, Structural)]
pub enum PARamp {
    Ms3_4,
    Ms2,
    Ms1,
    Us500,
    Us250,
    Us125,
    Us100,
    Us62,
    Us50,
    Us40,
    Us31,
    Us25,
    Us20,
    Us15,
    Us12,
    Us10,
}

impl PARamp {
    pub open spec fn spec_bits(self) -> u8 {
        match self {
            PARamp::Ms3_4 => 0x0,
            PARamp::Ms2 => 0x1,
            PARamp::Ms1 => 0x2,
            PARamp::Us500 => 0x3,
            PARamp::Us250 => 0x4,
            PARamp::Us125 => 0x5,
            PARamp::Us100 => 0x6,
            PARamp::Us62 => 0x7,
            PARamp::Us50 => 0x8,
            PARamp::Us40 => 0x9,
            PARamp::Us31 => 0xa,
            PARamp::Us25 => 0xb,
            PARamp::Us20 => 0xc,
            PARamp::Us15 => 0xd,
            PARamp::Us12 => 0xe,
            PARamp::Us10 => 0xf,
        }
    }

    /// Decodes the register field; codes above 14 decode to 10 us.
    pub open spec fn spec_from_bits(value: u8) -> PARamp {
        match value {
            0x0 => PARamp::Ms3_4,
            0x1 => PARamp::Ms2,
            0x2 => PARamp::Ms1,
            0x3 => PARamp::Us500,
            0x4 => PARamp::Us250,
            0x5 => PARamp::Us125,
            0x6 => PARamp::Us100,
            0x7 => PARamp::Us62,
            0x8 => PARamp::Us50,
            0x9 => PARamp::Us40,
            0xa => PARamp::Us31,
            0xb => PARamp::Us25,
            0xc => PARamp::Us20,
            0xd => PARamp::Us15,
            0xe => PARamp::Us12,
            _ => PARamp::Us10,
        }
    }

    /// The register code of this value.
    pub fn into_bits(self) -> (r: u8)
        ensures
            r == self.spec_bits(),
    {
        match self {
            PARamp::Ms3_4 => 0x0,
            PARamp::Ms2 => 0x1,
            PARamp::Ms1 => 0x2,
            PARamp::Us500 => 0x3,
            PARamp::Us250 => 0x4,
            PARamp::Us125 => 0x5,
            PARamp::Us100 => 0x6,
            PARamp::Us62 => 0x7,
            PARamp::Us50 => 0x8,
            PARamp::Us40 => 0x9,
            PARamp::Us31 => 0xa,
            PARamp::Us25 => 0xb,
            PARamp::Us20 => 0xc,
            PARamp::Us15 => 0xd,
            PARamp::Us12 => 0xe,
            PARamp::Us10 => 0xf,
        }
    }
}

impl Default for PARamp {
    fn default() -> (r: Self)
        ensures
            r == PARamp::Us40,
    {
        PARamp::Us40
    }
}

impl From<u8> for PARamp {
    fn from(value: u8) -> (r: Self) {
        match value {
            0x0 => PARamp::Ms3_4,
            0x1 => PARamp::Ms2,
            0x2 => PARamp::Ms1,
            0x3 => PARamp::Us500,
            0x4 => PARamp::Us250,
            0x5 => PARamp::Us125,
            0x6 => PARamp::Us100,
            0x7 => PARamp::Us62,
            0x8 => PARamp::Us50,
            0x9 => PARamp::Us40,
            0xa => PARamp::Us31,
            0xb => PARamp::Us25,
            0xc => PARamp::Us20,
            0xd => PARamp::Us15,
            0xe => PARamp::Us12,
            _ => PARamp::Us10,
        }
    }
}

impl vstd::std_specs::convert::FromSpecImpl<u8> for PARamp {
    open spec fn obeys_from_spec() -> bool {
        true
    }

    open spec fn from_spec(v: u8) -> Self {
        PARamp::spec_from_bits(v)
    }
}

// -------------------------------------------------------------------------------------------------
/// Spreading factor (RegModemConfig2 bits 7-4); Sf6 only works with the implicit header mode.
#[derive(Clone, Copy, Debug, PartialEq, Eq, Structural)]
pub enum SpreadingFactor {
    Sf6,
    Sf7,
    Sf8,
    Sf9,
    Sf10,
    Sf11,
    Sf12,
}

impl SpreadingFactor {
    pub open spec fn spec_bits(self) -> u8 {
        match self {
            SpreadingFactor::Sf6 => 0x6,
            SpreadingFactor::Sf7 => 0x7,
            SpreadingFactor::Sf8 => 0x8,
            SpreadingFactor::Sf9 => 0x9,
            SpreadingFactor::Sf10 => 0xa,
            SpreadingFactor::Sf11 => 0xb,
            SpreadingFactor::Sf12 => 0xc,
        }
    }

    /// Decodes the register field; codes that name no smaller factor decode to SF12.
    pub open spec fn spec_from_bits(value: u8) -> SpreadingFactor {
        match value {
            0x6 => SpreadingFactor::Sf6,
            0x7 => SpreadingFactor::Sf7,
            0x8 => SpreadingFactor::Sf8,
            0x9 => SpreadingFactor::Sf9,
            0xa => SpreadingFactor::Sf10,
            0xb => SpreadingFactor::Sf11,
            _ => SpreadingFactor::Sf12,
        }
    }

    /// The register code of this value.
    pub fn into_bits(self) -> (r: u8)
        ensures
            r == self.spec_bits(),
    {
        match self {
            SpreadingFactor::Sf6 => 0x6,
            SpreadingFactor::Sf7 => 0x7,
            SpreadingFactor::Sf8 => 0x8,
            SpreadingFactor::Sf9 => 0x9,
            SpreadingFactor::Sf10 => 0xa,
            SpreadingFactor::Sf11 => 0xb,
            SpreadingFactor::Sf12 => 0xc,
        }
    }
}

impl Default for SpreadingFactor {
    fn default() -> (r: Self)
        ensures
            r == SpreadingFactor::Sf7,
    {
        SpreadingFactor::Sf7
    }
}

impl From<u8> for SpreadingFactor {
    fn from(value: u8) -> (r: Self) {
        match value {
            0x6 => SpreadingFactor::Sf6,
            0x7 => SpreadingFactor::Sf7,
            0x8 => SpreadingFactor::Sf8,
            0x9 => SpreadingFactor::Sf9,
            0xa => SpreadingFactor::Sf10,
            0xb => SpreadingFactor::Sf11,
            _ => SpreadingFactor::Sf12,
        }
    }
}

impl vstd::std_specs::convert::FromSpecImpl<u8> for SpreadingFactor {
    open spec fn obeys_from_spec() -> bool {
        true
    }

    open spec fn from_spec(v: u8) -> Self {
        SpreadingFactor::spec_from_bits(v)
    }
}

// -------------------------------------------------------------------------------------------------
/// Decoding the register code of any bandwidth, coding rate, device mode, header mode, gain,
/// ramp or spreading factor gives the same value back.
pub proof fn lemma_register_codes_roundtrip(
    bandwidth: Bandwidth,
    coding_rate: CodingRate,
    device_mode: DeviceMode,
    header_mode: HeaderMode,
    gain: LnaGain,
    ramp: PARamp,
    spreading_factor: SpreadingFactor,
)
    ensures
        Bandwidth::spec_from_bits(bandwidth.spec_bits()) == bandwidth,
        CodingRate::spec_from_bits(coding_rate.spec_bits()) == coding_rate,
        DeviceMode::spec_from_bits(device_mode.spec_bits()) == device_mode,
        HeaderMode::spec_from_bits(header_mode.spec_bits()) == header_mode,
        LnaGain::spec_from_bits(gain.spec_bits()) == gain,
        PARamp::spec_from_bits(ramp.spec_bits()) == ramp,
        SpreadingFactor::spec_from_bits(spreading_factor.spec_bits()) == spreading_factor,
{
}

} // verus!
