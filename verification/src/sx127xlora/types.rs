//! Configuration and status types of the LoRa modem, with their register encodings.
use vstd::prelude::*;

use crate::common::error::Sx127xError;
use crate::common::{get_bits, spec_get_bits, Hz, DEFAULT_FREQUENCY_HZ};
use crate::sx127xlora::calculate::{ocp_trim, spec_ocp_trim};
use crate::sx127xlora::constants::PAYLOAD_SIZE;
use crate::sx127xlora::registers;
use crate::sx127xlora::registers::{PREAMBLE_LENGTH_DEFAULT, SYNC_WORD_DEFAULT};
use crate::sx127xlora::sealed::Sealed;
use crate::sx127xlora::validate;
use crate::sx127xlora::validate::{RX_TIMEOUT_SYMBOLS_MAX, RX_TIMEOUT_SYMBOLS_MIN};

verus! {

// -------------------------------------------------------------------------------------------------
/// Signal bandwidth (RegModemConfig1 bits 7-4).
#[derive(Clone, Copy, Debug, PartialEq, Eq, Structural)]
pub enum Bandwidth {
    Bw7_8kHz,
    Bw10_4kHz,
    Bw15_6kHz,
    Bw20_8kHz,
    Bw31_25kHz,
    Bw41_7kHz,
    Bw62_5kHz,
    Bw125kHz,
    Bw250kHz,
    Bw500kHz,
}

impl Bandwidth {
    pub open spec fn spec_bits(self) -> u8 {
        match self {
            Bandwidth::Bw7_8kHz => 0x0,
            Bandwidth::Bw10_4kHz => 0x1,
            Bandwidth::Bw15_6kHz => 0x2,
            Bandwidth::Bw20_8kHz => 0x3,
            Bandwidth::Bw31_25kHz => 0x4,
            Bandwidth::Bw41_7kHz => 0x5,
            Bandwidth::Bw62_5kHz => 0x6,
            Bandwidth::Bw125kHz => 0x7,
            Bandwidth::Bw250kHz => 0x8,
            Bandwidth::Bw500kHz => 0x9,
        }
    }

    /// Decodes the register field; codes that name no bandwidth decode to 125 kHz.
    pub open spec fn spec_from_bits(value: u8) -> Bandwidth {
        match value {
            0x0 => Bandwidth::Bw7_8kHz,
            0x1 => Bandwidth::Bw10_4kHz,
            0x2 => Bandwidth::Bw15_6kHz,
            0x3 => Bandwidth::Bw20_8kHz,
            0x4 => Bandwidth::Bw31_25kHz,
            0x5 => Bandwidth::Bw41_7kHz,
            0x6 => Bandwidth::Bw62_5kHz,
            0x8 => Bandwidth::Bw250kHz,
            0x9 => Bandwidth::Bw500kHz,
            _ => Bandwidth::Bw125kHz,
        }
    }

    pub open spec fn spec_hz(self) -> u32 {
        match self {
            Bandwidth::Bw7_8kHz => 7_800,
            Bandwidth::Bw10_4kHz => 10_400,
            Bandwidth::Bw15_6kHz => 15_600,
            Bandwidth::Bw20_8kHz => 20_800,
            Bandwidth::Bw31_25kHz => 31_250,
            Bandwidth::Bw41_7kHz => 41_700,
            Bandwidth::Bw62_5kHz => 62_500,
            Bandwidth::Bw125kHz => 125_000,
            Bandwidth::Bw250kHz => 250_000,
            Bandwidth::Bw500kHz => 500_000,
        }
    }

    /// The register code of this bandwidth.
    pub fn into_bits(self) -> (r: u8)
        ensures
            r == self.spec_bits(),
    {
        match self {
            Bandwidth::Bw7_8kHz => 0x0,
            Bandwidth::Bw10_4kHz => 0x1,
            Bandwidth::Bw15_6kHz => 0x2,
            Bandwidth::Bw20_8kHz => 0x3,
            Bandwidth::Bw31_25kHz => 0x4,
            Bandwidth::Bw41_7kHz => 0x5,
            Bandwidth::Bw62_5kHz => 0x6,
            Bandwidth::Bw125kHz => 0x7,
            Bandwidth::Bw250kHz => 0x8,
            Bandwidth::Bw500kHz => 0x9,
        }
    }

    /// The bandwidth in Hz.
    pub fn hz(&self) -> (r: u32)
        ensures
            r == self.spec_hz(),
    {
        match self {
            Bandwidth::Bw7_8kHz => 7_800,
            Bandwidth::Bw10_4kHz => 10_400,
            Bandwidth::Bw15_6kHz => 15_600,
            Bandwidth::Bw20_8kHz => 20_800,
            Bandwidth::Bw31_25kHz => 31_250,
            Bandwidth::Bw41_7kHz => 41_700,
            Bandwidth::Bw62_5kHz => 62_500,
            Bandwidth::Bw125kHz => 125_000,
            Bandwidth::Bw250kHz => 250_000,
            Bandwidth::Bw500kHz => 500_000,
        }
    }
}

impl Default for Bandwidth {
    fn default() -> (r: Self)
        ensures
            r == Bandwidth::Bw125kHz,
    {
        Bandwidth::Bw125kHz
    }
}

impl From<u8> for Bandwidth {
    fn from(value: u8) -> (r: Self) {
        match value {
            0x0 => Bandwidth::Bw7_8kHz,
            0x1 => Bandwidth::Bw10_4kHz,
            0x2 => Bandwidth::Bw15_6kHz,
            0x3 => Bandwidth::Bw20_8kHz,
            0x4 => Bandwidth::Bw31_25kHz,
            0x5 => Bandwidth::Bw41_7kHz,
            0x6 => Bandwidth::Bw62_5kHz,
            0x8 => Bandwidth::Bw250kHz,
            0x9 => Bandwidth::Bw500kHz,
            _ => Bandwidth::Bw125kHz,
        }
    }
}

impl vstd::std_specs::convert::FromSpecImpl<u8> for Bandwidth {
    open spec fn obeys_from_spec() -> bool {
        true
    }

    open spec fn from_spec(v: u8) -> Self {
        Bandwidth::spec_from_bits(v)
    }
}

// -------------------------------------------------------------------------------------------------
/// Error coding rate (RegModemConfig1 bits 3-1).
#[derive(Clone, Copy, Debug, PartialEq, Eq, Structural)]
pub enum CodingRate {
    Cr4_5,
    Cr4_6,
    Cr4_7,
    Cr4_8,
}

impl CodingRate {
    pub open spec fn spec_bits(self) -> u8 {
        match self {
            CodingRate::Cr4_5 => 0x1,
            CodingRate::Cr4_6 => 0x2,
            CodingRate::Cr4_7 => 0x3,
            CodingRate::Cr4_8 => 0x4,
        }
    }

    /// Decodes the register field; codes that name no rate decode to 4/5.
    pub open spec fn spec_from_bits(value: u8) -> CodingRate {
        match value {
            0x2 => CodingRate::Cr4_6,
            0x3 => CodingRate::Cr4_7,
            0x4 => CodingRate::Cr4_8,
            _ => CodingRate::Cr4_5,
        }
    }

    /// The rate is 4/denominator.
    pub open spec fn spec_denominator(self) -> u32 {
        match self {
            CodingRate::Cr4_5 => 5,
            CodingRate::Cr4_6 => 6,
            CodingRate::Cr4_7 => 7,
            CodingRate::Cr4_8 => 8,
        }
    }

    /// The register code of this coding rate.
    pub fn into_bits(self) -> (r: u8)
        ensures
            r == self.spec_bits(),
    {
        match self {
            CodingRate::Cr4_5 => 0x1,
            CodingRate::Cr4_6 => 0x2,
            CodingRate::Cr4_7 => 0x3,
            CodingRate::Cr4_8 => 0x4,
        }
    }

    /// The denominator of the rate 4/n.
    pub fn denominator(self) -> (r: u32)
        ensures
            r == self.spec_denominator(),
    {
        match self {
            CodingRate::Cr4_5 => 5,
            CodingRate::Cr4_6 => 6,
            CodingRate::Cr4_7 => 7,
            CodingRate::Cr4_8 => 8,
        }
    }
}

impl Default for CodingRate {
    fn default() -> (r: Self)
        ensures
            r == CodingRate::Cr4_5,
    {
        CodingRate::Cr4_5
    }
}

impl From<u8> for CodingRate {
    fn from(value: u8) -> (r: Self) {
        match value {
            0x2 => CodingRate::Cr4_6,
            0x3 => CodingRate::Cr4_7,
            0x4 => CodingRate::Cr4_8,
            _ => CodingRate::Cr4_5,
        }
    }
}

impl vstd::std_specs::convert::FromSpecImpl<u8> for CodingRate {
    open spec fn obeys_from_spec() -> bool {
        true
    }

    open spec fn from_spec(v: u8) -> Self {
        CodingRate::spec_from_bits(v)
    }
}

// -------------------------------------------------------------------------------------------------
/// Transceiver mode (RegOpMode bits 2-0).
///
/// See: datasheet table 16
#[derive(Clone, Copy, Debug, PartialEq, Eq, Structural)]
pub enum DeviceMode {
    SLEEP,
    STDBY,
    FSTX,
    TX,
    FSRX,
    RXCONTINUOUS,
    RXSINGLE,
    CAD,
}

impl DeviceMode {
    pub open spec fn spec_bits(self) -> u8 {
        match self {
            DeviceMode::SLEEP => 0x0,
            DeviceMode::STDBY => 0x1,
            DeviceMode::FSTX => 0x2,
            DeviceMode::TX => 0x3,
            DeviceMode::FSRX => 0x4,
            DeviceMode::RXCONTINUOUS => 0x5,
            DeviceMode::RXSINGLE => 0x6,
            DeviceMode::CAD => 0x7,
        }
    }

    /// Decodes the register field; codes above 7 decode to STDBY.
    pub open spec fn spec_from_bits(value: u8) -> DeviceMode {
        match value {
            0x0 => DeviceMode::SLEEP,
            0x2 => DeviceMode::FSTX,
            0x3 => DeviceMode::TX,
            0x4 => DeviceMode::FSRX,
            0x5 => DeviceMode::RXCONTINUOUS,
            0x6 => DeviceMode::RXSINGLE,
            0x7 => DeviceMode::CAD,
            _ => DeviceMode::STDBY,
        }
    }

    /// The register code of this mode.
    pub fn into_bits(self) -> (r: u8)
        ensures
            r == self.spec_bits(),
    {
        match self {
            DeviceMode::SLEEP => 0x0,
            DeviceMode::STDBY => 0x1,
            DeviceMode::FSTX => 0x2,
            DeviceMode::TX => 0x3,
            DeviceMode::FSRX => 0x4,
            DeviceMode::RXCONTINUOUS => 0x5,
            DeviceMode::RXSINGLE => 0x6,
            DeviceMode::CAD => 0x7,
        }
    }
}

impl Default for DeviceMode {
    fn default() -> (r: Self)
        ensures
            r == DeviceMode::STDBY,
    {
        DeviceMode::STDBY
    }
}

impl From<u8> for DeviceMode {
    fn from(value: u8) -> (r: Self) {
        match value {
            0x0 => DeviceMode::SLEEP,
            0x2 => DeviceMode::FSTX,
            0x3 => DeviceMode::TX,
            0x4 => DeviceMode::FSRX,
            0x5 => DeviceMode::RXCONTINUOUS,
            0x6 => DeviceMode::RXSINGLE,
            0x7 => DeviceMode::CAD,
            _ => DeviceMode::STDBY,
        }
    }
}

impl vstd::std_specs::convert::FromSpecImpl<u8> for DeviceMode {
    open spec fn obeys_from_spec() -> bool {
        true
    }

    open spec fn from_spec(v: u8) -> Self {
        DeviceMode::spec_from_bits(v)
    }
}

// -------------------------------------------------------------------------------------------------
/// Header mode (RegModemConfig1 bit 0).
#[derive(Clone, Copy, Debug, PartialEq, Eq, Structural)]
pub enum HeaderMode {
    Explicit,
    Implicit,
}

impl HeaderMode {
    pub open spec fn spec_bits(self) -> u8 {
        match self {
            HeaderMode::Explicit => 0x0,
            HeaderMode::Implicit => 0x1,
        }
    }

    /// Decodes the register field: zero is explicit, anything else implicit.
    pub open spec fn spec_from_bits(value: u8) -> HeaderMode {
        if value == 0 {
            HeaderMode::Explicit
        } else {
            HeaderMode::Implicit
        }
    }

    /// The register code of this header mode.
    pub fn into_bits(self) -> (r: u8)
        ensures
            r == self.spec_bits(),
    {
        match self {
            HeaderMode::Explicit => 0x0,
            HeaderMode::Implicit => 0x1,
        }
    }
}

impl Default for HeaderMode {
    fn default() -> (r: Self)
        ensures
            r == HeaderMode::Explicit,
    {
        HeaderMode::Explicit
    }
}

impl From<u8> for HeaderMode {
    fn from(value: u8) -> (r: Self) {
        if value == 0 {
            HeaderMode::Explicit
        } else {
            HeaderMode::Implicit
        }
    }
}

impl vstd::std_specs::convert::FromSpecImpl<u8> for HeaderMode {
    open spec fn obeys_from_spec() -> bool {
        true
    }

    open spec fn from_spec(v: u8) -> Self {
        HeaderMode::spec_from_bits(v)
    }
}

// IRQs --------------------------------------------------------------------------------------------
/// An interrupt source, named by its flag in RegIrqFlags and RegIrqFlagsMask.
pub trait IRQ: Sealed {
    const MASK: u8;
}

pub struct CadDetected {}

impl IRQ for CadDetected {
    const MASK: u8 = registers::IRQ_FLAGS_CAD_DETECTED_MASK;
}

pub struct CadDone {}

impl IRQ for CadDone {
    const MASK: u8 = registers::IRQ_FLAGS_CAD_DONE_MASK;
}

pub struct FhssChangeChannel {}

impl IRQ for FhssChangeChannel {
    const MASK: u8 = registers::IRQ_FLAGS_FHSS_CHANGE_CHANNEL_MASK;
}

pub struct PayloadCrcError {}

impl IRQ for PayloadCrcError {
    const MASK: u8 = registers::IRQ_FLAGS_PAYLOAD_CRC_ERROR_MASK;
}

pub struct RxDone {}

impl IRQ for RxDone {
    const MASK: u8 = registers::IRQ_FLAGS_RX_DONE_MASK;
}

pub struct RxTimeout {}

impl IRQ for RxTimeout {
    const MASK: u8 = registers::IRQ_FLAGS_RX_TIMEOUT_MASK;
}

pub struct TxDone {}

impl IRQ for TxDone {
    const MASK: u8 = registers::IRQ_FLAGS_TX_DONE_MASK;
}

pub struct ValidHeader {}

impl IRQ for ValidHeader {
    const MASK: u8 = registers::IRQ_FLAGS_VALID_HEADER_MASK;
}

// Dio0 --------------------------------------------------------------------------------------------
/// A signal that can be mapped to pin DIO0 (RegDioMapping1 bits 7-6).
///
/// See: datasheet table 18
pub trait Dio0Signal: Sealed {
    const VALUE: u8;
}

impl Dio0Signal for RxDone {
    const VALUE: u8 = 0x0;
}

impl Dio0Signal for TxDone {
    const VALUE: u8 = 0x1;
}

impl Dio0Signal for CadDone {
    const VALUE: u8 = 0x2;
}

// Dio1 --------------------------------------------------------------------------------------------
/// A signal that can be mapped to pin DIO1 (RegDioMapping1 bits 5-4).
pub trait Dio1Signal: Sealed {
    const VALUE: u8;
}

impl Dio1Signal for CadDetected {
    const VALUE: u8 = 0x2;
}

impl Dio1Signal for FhssChangeChannel {
    const VALUE: u8 = 0x1;
}

impl Dio1Signal for RxTimeout {
    const VALUE: u8 = 0x0;
}

// Dio2 --------------------------------------------------------------------------------------------
/// A signal that can be mapped to pin DIO2 (RegDioMapping1 bits 3-2).
pub trait Dio2Signal: Sealed {
    const VALUE: u8;
}

impl Dio2Signal for FhssChangeChannel {
    const VALUE: u8 = 0x0;
}

// Dio3 --------------------------------------------------------------------------------------------
/// A signal that can be mapped to pin DIO3 (RegDioMapping1 bits 1-0).
pub trait Dio3Signal: Sealed {
    const VALUE: u8;
}

impl Dio3Signal for CadDone {
    const VALUE: u8 = 0x0;
}

impl Dio3Signal for PayloadCrcError {
    const VALUE: u8 = 0x2;
}

impl Dio3Signal for ValidHeader {
    const VALUE: u8 = 0x1;
}

// Dio4 --------------------------------------------------------------------------------------------
/// A signal that can be mapped to pin DIO4 (RegDioMapping2 bits 7-6).
pub trait Dio4Signal: Sealed {
    const VALUE: u8;
}

pub struct PllLock {}

impl Dio4Signal for CadDetected {
    const VALUE: u8 = 0x0;
}

impl Dio4Signal for PllLock {
    const VALUE: u8 = 0x1;
}

// Dio5 --------------------------------------------------------------------------------------------
/// A signal that can be mapped to pin DIO5 (RegDioMapping2 bits 5-4).
pub trait Dio5Signal: Sealed {
    const VALUE: u8;
}

pub struct ClkOut {}

pub struct ModeReady {}

impl Dio5Signal for ClkOut {
    const VALUE: u8 = 0x1;
}

impl Dio5Signal for ModeReady {
    const VALUE: u8 = 0x0;
}

impl Sealed for CadDetected {}

impl Sealed for CadDone {}

impl Sealed for ClkOut {}

impl Sealed for FhssChangeChannel {}

impl Sealed for ModeReady {}

impl Sealed for PayloadCrcError {}

impl Sealed for PllLock {}

impl Sealed for RxDone {}

impl Sealed for RxTimeout {}

impl Sealed for TxDone {}

impl Sealed for ValidHeader {}

// -------------------------------------------------------------------------------------------------
/// Gain of the low noise amplifier (RegLna bits 7-5); `Auto` hands the gain to the AGC loop.
#[derive(Clone, Copy, Debug, PartialEq, Eq, Structural)]
pub enum LNAGain {
    Auto,
    G1,
    G2,
    G3,
    G4,
    G5,
    G6,
}

impl LNAGain {
    pub open spec fn spec_bits(self) -> u8 {
        match self {
            LNAGain::Auto => 0x0,
            LNAGain::G1 => 0x1,
            LNAGain::G2 => 0x2,
            LNAGain::G3 => 0x3,
            LNAGain::G4 => 0x4,
            LNAGain::G5 => 0x5,
            LNAGain::G6 => 0x6,
        }
    }

    /// Decodes the register field; codes that name no fixed gain decode to G1.
    pub open spec fn spec_from_bits(value: u8) -> LNAGain {
        match value {
            0x2 => LNAGain::G2,
            0x3 => LNAGain::G3,
            0x4 => LNAGain::G4,
            0x5 => LNAGain::G5,
            0x6 => LNAGain::G6,
            _ => LNAGain::G1,
        }
    }

    /// The register code of this gain.
    pub fn into_bits(self) -> (r: u8)
        ensures
            r == self.spec_bits(),
    {
        match self {
            LNAGain::Auto => 0x0,
            LNAGain::G1 => 0x1,
            LNAGain::G2 => 0x2,
            LNAGain::G3 => 0x3,
            LNAGain::G4 => 0x4,
            LNAGain::G5 => 0x5,
            LNAGain::G6 => 0x6,
        }
    }
}

impl Default for LNAGain {
    fn default() -> (r: Self)
        ensures
            r == LNAGain::G1,
    {
        LNAGain::G1
    }
}

impl From<u8> for LNAGain {
    fn from(value: u8) -> (r: Self) {
        match value {
            0x2 => LNAGain::G2,
            0x3 => LNAGain::G3,
            0x4 => LNAGain::G4,
            0x5 => LNAGain::G5,
            0x6 => LNAGain::G6,
            _ => LNAGain::G1,
        }
    }
}

impl vstd::std_specs::convert::FromSpecImpl<u8> for LNAGain {
    open spec fn obeys_from_spec() -> bool {
        true
    }

    open spec fn from_spec(v: u8) -> Self {
        LNAGain::spec_from_bits(v)
    }
}

/// Settings of the low noise amplifier (RegLna).
#[derive(Clone, Copy, Debug, PartialEq, Eq, Structural)]
pub struct LNA {
    pub boost_hf: bool,
    pub gain: LNAGain,
}

impl LNA {
    pub fn new(boost_hf: bool, gain: LNAGain) -> (r: Self)
        ensures
            r.boost_hf == boost_hf,
            r.gain == gain,
    {
        Self { boost_hf, gain }
    }

    /// Decodes RegLna: the boost is on when the LnaBoostHf field reads 1.
    pub open spec fn spec_from_bits(value: u8) -> LNA {
        LNA {
            boost_hf: spec_get_bits(
                value,
                registers::LNA_BOOST_HF_MASK,
                registers::LNA_BOOST_HF_OFFSET,
            ) == 1,
            gain: LNAGain::spec_from_bits(
                spec_get_bits(value, registers::LNA_GAIN_MASK, registers::LNA_GAIN_OFFSET),
            ),
        }
    }
}

impl Default for LNA {
    fn default() -> (r: Self)
        ensures
            r == (LNA { boost_hf: false, gain: LNAGain::G1 }),
    {
        Self { boost_hf: false, gain: LNAGain::G1 }
    }
}

impl From<u8> for LNA {
    fn from(value: u8) -> (r: Self) {
        Self {
            boost_hf: get_bits(value, registers::LNA_BOOST_HF_MASK, registers::LNA_BOOST_HF_OFFSET)
                == 1,
            gain: LNAGain::from(
                get_bits(value, registers::LNA_GAIN_MASK, registers::LNA_GAIN_OFFSET),
            ),
        }
    }
}

impl vstd::std_specs::convert::FromSpecImpl<u8> for LNA {
    open spec fn obeys_from_spec() -> bool {
        true
    }

    open spec fn from_spec(v: u8) -> Self {
        LNA::spec_from_bits(v)
    }
}

// -------------------------------------------------------------------------------------------------
/// Modem status (RegModemStat bits 4-0).
#[derive(Clone, Copy, Debug, PartialEq, Eq, Structural)]
pub enum RxStatus {
    SignalDetected,
    SignalSynchronized,
    RxOnGoing,
    HeaderInfoValid,
    ModemClear,
}

impl RxStatus {
    /// Decodes the status field; a value with other than exactly one of the four status bits
    /// decodes to ModemClear.
    pub open spec fn spec_from_bits(value: u8) -> RxStatus {
        if value == registers::MODEM_STAT_MODEM_STATUS_SIGNAL_DETECTED {
            RxStatus::SignalDetected
        } else if value == registers::MODEM_STAT_MODEM_STATUS_SIGNAL_SYNCHRONIZED {
            RxStatus::SignalSynchronized
        } else if value == registers::MODEM_STAT_MODEM_STATUS_RX_ONGOING_MASK {
            RxStatus::RxOnGoing
        } else if value == registers::MODEM_STAT_MODEM_STATUS_HEADER_INFO_VALID_MASK {
            RxStatus::HeaderInfoValid
        } else {
            RxStatus::ModemClear
        }
    }
}

impl Default for RxStatus {
    fn default() -> (r: Self)
        ensures
            r == RxStatus::ModemClear,
    {
        RxStatus::ModemClear
    }
}

impl From<u8> for RxStatus {
    fn from(value: u8) -> (r: Self) {
        if value == registers::MODEM_STAT_MODEM_STATUS_SIGNAL_DETECTED {
            RxStatus::SignalDetected
        } else if value == registers::MODEM_STAT_MODEM_STATUS_SIGNAL_SYNCHRONIZED {
            RxStatus::SignalSynchronized
        } else if value == registers::MODEM_STAT_MODEM_STATUS_RX_ONGOING_MASK {
            RxStatus::RxOnGoing
        } else if value == registers::MODEM_STAT_MODEM_STATUS_HEADER_INFO_VALID_MASK {
            RxStatus::HeaderInfoValid
        } else {
            RxStatus::ModemClear
        }
    }
}

impl vstd::std_specs::convert::FromSpecImpl<u8> for RxStatus {
    open spec fn obeys_from_spec() -> bool {
        true
    }

    open spec fn from_spec(v: u8) -> Self {
        RxStatus::spec_from_bits(v)
    }
}

// -------------------------------------------------------------------------------------------------
/// A preamble length of at least 6 symbols (on top of 4.25 fixed symbols).
#[derive(Clone, Copy, Debug, PartialEq, Eq, Structural)]
pub struct PreambleLength(pub(crate) u16);

impl PreambleLength {
    #[verifier::type_invariant]
    spec fn inv(self) -> bool {
        validate::spec_preamble_length(self.0)
    }

    pub closed spec fn spec_value(self) -> u16 {
        self.0
    }

    pub fn new(length: u16) -> (r: Result<Self, Sx127xError<()>>)
        ensures
            r is Ok <==> validate::spec_preamble_length(length),
            r matches Ok(p) ==> p.spec_value() == length,
            r matches Err(e) ==> e is InvalidInput,
    {
        if !validate::preamble_length(length) {
            return Err(Sx127xError::InvalidInput);
        }
        Ok(PreambleLength(length))
    }

    /// The length in symbols.
    pub fn value(&self) -> (r: u16)
        ensures
            r == self.spec_value(),
            validate::spec_preamble_length(r),
    {
        proof {
            use_type_invariant(self);
        }
        self.0
    }
}

impl Default for PreambleLength {
    fn default() -> (r: Self)
        ensures
            r.spec_value() == PREAMBLE_LENGTH_DEFAULT,
    {
        Self(PREAMBLE_LENGTH_DEFAULT)
    }
}

/// Receiver settings.
#[derive(Clone, Copy, Debug, Default, PartialEq)]
pub struct RxConfig {
    pub(crate) optimize_response: bool,
    pub(crate) preamble_length: PreambleLength,
}

impl RxConfig {
    pub closed spec fn spec_optimize_response(self) -> bool {
        self.optimize_response
    }

    pub closed spec fn spec_preamble_length(self) -> PreambleLength {
        self.preamble_length
    }

    pub fn new(optimize_response: bool, preamble_length: PreambleLength) -> (r: Self)
        ensures
            r.spec_optimize_response() == optimize_response,
            r.spec_preamble_length() == preamble_length,
    {
        Self { optimize_response, preamble_length }
    }

    pub fn optimize_response(&self) -> (r: bool)
        ensures
            r == self.spec_optimize_response(),
    {
        self.optimize_response
    }

    pub fn preamble_length(&self) -> (r: PreambleLength)
        ensures
            r == self.spec_preamble_length(),
    {
        self.preamble_length
    }
}

// -------------------------------------------------------------------------------------------------
/// A received packet with the coding rate, RSSI and SNR it was received with.
pub struct RxPacket {
    pub coding_rate: CodingRate,
    pub payload: [u8; PAYLOAD_SIZE],
    pub rssi: i16,
    pub snr: i16,
}

impl RxPacket {
    pub fn new(coding_rate: CodingRate, payload: [u8; PAYLOAD_SIZE], rssi: i16, snr: i16) -> (r:
        Self)
        ensures
            r.coding_rate == coding_rate,
            r.payload == payload,
            r.rssi == rssi,
            r.snr == snr,
    {
        Self { coding_rate, payload, rssi, snr }
    }
}

// -------------------------------------------------------------------------------------------------
/// Rise/fall time of the power amplifier ramp (RegPaRamp bits 3-0).
#[derive(Clone, Copy, Debug, PartialEq, Eq, Structural)]
pub enum PowerRamp {
    Ms3_4,
    Ms2,
    Ms1,
    Us500,
    Us250,
    Us125,
    Us100,
    Us62,
    Us50,
    Us40,
    Us31,
    Us25,
    Us20,
    Us15,
    Us12,
    Us10,
}

impl PowerRamp {
    pub open spec fn spec_bits(self) -> u8 {
        match self {
            PowerRamp::Ms3_4 => 0x0,
            PowerRamp::Ms2 => 0x1,
            PowerRamp::Ms1 => 0x2,
            PowerRamp::Us500 => 0x3,
            PowerRamp::Us250 => 0x4,
            PowerRamp::Us125 => 0x5,
            PowerRamp::Us100 => 0x6,
            PowerRamp::Us62 => 0x7,
            PowerRamp::Us50 => 0x8,
            PowerRamp::Us40 => 0x9,
            PowerRamp::Us31 => 0xa,
            PowerRamp::Us25 => 0xb,
            PowerRamp::Us20 => 0xc,
            PowerRamp::Us15 => 0xd,
            PowerRamp::Us12 => 0xe,
            PowerRamp::Us10 => 0xf,
        }
    }

    /// Decodes the register field; codes that name no ramp decode to 40 us.
    pub open spec fn spec_from_bits(value: u8) -> PowerRamp {
        match value {
            0x0 => PowerRamp::Ms3_4,
            0x1 => PowerRamp::Ms2,
            0x2 => PowerRamp::Ms1,
            0x3 => PowerRamp::Us500,
            0x4 => PowerRamp::Us250,
            0x5 => PowerRamp::Us125,
            0x6 => PowerRamp::Us100,
            0x7 => PowerRamp::Us62,
            0x8 => PowerRamp::Us50,
            0xa => PowerRamp::Us31,
            0xb => PowerRamp::Us25,
            0xc => PowerRamp::Us20,
            0xd => PowerRamp::Us15,
            0xe => PowerRamp::Us12,
            0xf => PowerRamp::Us10,
            _ => PowerRamp::Us40,
        }
    }

    /// The register code of this value.
    pub fn into_bits(self) -> (r: u8)
        ensures
            r == self.spec_bits(),
    {
        match self {
            PowerRamp::Ms3_4 => 0x0,
            PowerRamp::Ms2 => 0x1,
            PowerRamp::Ms1 => 0x2,
            PowerRamp::Us500 => 0x3,
            PowerRamp::Us250 => 0x4,
            PowerRamp::Us125 => 0x5,
            PowerRamp::Us100 => 0x6,
            PowerRamp::Us62 => 0x7,
            PowerRamp::Us50 => 0x8,
            PowerRamp::Us40 => 0x9,
            PowerRamp::Us31 => 0xa,
            PowerRamp::Us25 => 0xb,
            PowerRamp::Us20 => 0xc,
            PowerRamp::Us15 => 0xd,
            PowerRamp::Us12 => 0xe,
            PowerRamp::Us10 => 0xf,
        }
    }
}

impl Default for PowerRamp {
    fn default() -> (r: Self)
        ensures
            r == PowerRamp::Us40,
    {
        PowerRamp::Us40
    }
}

impl From<u8> for PowerRamp {
    fn from(value: u8) -> (r: Self) {
        match value {
            0x0 => PowerRamp::Ms3_4,
            0x1 => PowerRamp::Ms2,
            0x2 => PowerRamp::Ms1,
            0x3 => PowerRamp::Us500,
            0x4 => PowerRamp::Us250,
            0x5 => PowerRamp::Us125,
            0x6 => PowerRamp::Us100,
            0x7 => PowerRamp::Us62,
            0x8 => PowerRamp::Us50,
            0xa => PowerRamp::Us31,
            0xb => PowerRamp::Us25,
            0xc => PowerRamp::Us20,
            0xd => PowerRamp::Us15,
            0xe => PowerRamp::Us12,
            0xf => PowerRamp::Us10,
            _ => PowerRamp::Us40,
        }
    }
}

impl vstd::std_specs::convert::FromSpecImpl<u8> for PowerRamp {
    open spec fn obeys_from_spec() -> bool {
        true
    }

    open spec fn from_spec(v: u8) -> Self {
        PowerRamp::spec_from_bits(v)
    }
}

// -------------------------------------------------------------------------------------------------
/// Spreading factor (RegModemConfig2 bits 7-4); Sf6 only works with the implicit header mode.
#[derive(Clone, Copy, Debug, PartialEq, Eq, Structural)]
pub enum SpreadingFactor {
    Sf6,
    Sf7,
    Sf8,
    Sf9,
    Sf10,
    Sf11,
    Sf12,
}

impl SpreadingFactor {
    pub open spec fn spec_bits(self) -> u8 {
        match self {
            SpreadingFactor::Sf6 => 0x6,
            SpreadingFactor::Sf7 => 0x7,
            SpreadingFactor::Sf8 => 0x8,
            SpreadingFactor::Sf9 => 0x9,
            SpreadingFactor::Sf10 => 0xa,
            SpreadingFactor::Sf11 => 0xb,
            SpreadingFactor::Sf12 => 0xc,
        }
    }

    /// Decodes the register field; codes that name no spreading factor decode to SF7.
    pub open spec fn spec_from_bits(value: u8) -> SpreadingFactor {
        match value {
            0x6 => SpreadingFactor::Sf6,
            0x8 => SpreadingFactor::Sf8,
            0x9 => SpreadingFactor::Sf9,
            0xa => SpreadingFactor::Sf10,
            0xb => SpreadingFactor::Sf11,
            0xc => SpreadingFactor::Sf12,
            _ => SpreadingFactor::Sf7,
        }
    }

    /// The register code of this value.
    pub fn into_bits(self) -> (r: u8)
        ensures
            r == self.spec_bits(),
    {
        match self {
            SpreadingFactor::Sf6 => 0x6,
            SpreadingFactor::Sf7 => 0x7,
            SpreadingFactor::Sf8 => 0x8,
            SpreadingFactor::Sf9 => 0x9,
            SpreadingFactor::Sf10 => 0xa,
            SpreadingFactor::Sf11 => 0xb,
            SpreadingFactor::Sf12 => 0xc,
        }
    }
}

impl Default for SpreadingFactor {
    fn default() -> (r: Self)
        ensures
            r == SpreadingFactor::Sf7,
    {
        SpreadingFactor::Sf7
    }
}

impl From<u8> for SpreadingFactor {
    fn from(value: u8) -> (r: Self) {
        match value {
            0x6 => SpreadingFactor::Sf6,
            0x8 => SpreadingFactor::Sf8,
            0x9 => SpreadingFactor::Sf9,
            0xa => SpreadingFactor::Sf10,
            0xb => SpreadingFactor::Sf11,
            0xc => SpreadingFactor::Sf12,
            _ => SpreadingFactor::Sf7,
        }
    }
}

impl vstd::std_specs::convert::FromSpecImpl<u8> for SpreadingFactor {
    open spec fn obeys_from_spec() -> bool {
        true
    }

    open spec fn from_spec(v: u8) -> Self {
        SpreadingFactor::spec_from_bits(v)
    }
}

// -------------------------------------------------------------------------------------------------
/// Over-current protection of the power amplifier (RegOcp).
#[derive(Clone, Copy, Debug)]
pub struct OCP {
    pub on: bool,
    pub imax: u8,
}

impl OCP {
    pub fn new(on: bool, imax: u8) -> (r: Self)
        ensures
            r.on == on,
            r.imax == imax,
    {
        Self { on, imax }
    }

    /// The OcpTrim code for `imax`.
    pub fn trim(&self) -> (r: u8)
        requires
            crate::sx127xlora::calculate::spec_ocp_imax_valid(self.imax),
        ensures
            r == spec_ocp_trim(self.imax),
    {
        ocp_trim(self.imax)
    }
}

impl Default for OCP {
    fn default() -> (r: Self)
        ensures
            r.on,
            r.imax == 100,
    {
        Self { on: true, imax: 100 }
    }
}

// -------------------------------------------------------------------------------------------------
/// Transmitter settings; `power` holds the OutputPower field of RegPaConfig.
pub struct TxConfig {
    pub(crate) ocp: OCP,
    pub(crate) power: u8,
    pub(crate) preamble_length: PreambleLength,
    pub(crate) ramp: PowerRamp,
    pub(crate) use_rfo: bool,
}

/// The OutputPower field for `power` dBm: on the RFO pin the power itself; on PA_BOOST
/// power - 2, and 15 for the 20 dBm duty-cycled setting.
pub open spec fn spec_output_power(power: u8, use_rfo: bool) -> u8 {
    if use_rfo {
        power
    } else if power - 2 > 17 {
        (power - 5) as u8
    } else {
        (power - 2) as u8
    }
}

impl TxConfig {
    #[verifier::type_invariant]
    spec fn inv(self) -> bool {
        if self.use_rfo {
            self.power <= 15
        } else {
            self.power <= 17
        }
    }

    pub closed spec fn spec_ocp(self) -> OCP {
        self.ocp
    }

    pub closed spec fn spec_power(self) -> u8 {
        self.power
    }

    pub closed spec fn spec_preamble_length(self) -> PreambleLength {
        self.preamble_length
    }

    pub closed spec fn spec_ramp(self) -> PowerRamp {
        self.ramp
    }

    pub closed spec fn spec_use_rfo(self) -> bool {
        self.use_rfo
    }

    /// Checks `power` (dBm) against the output pin and stores the OutputPower field for it.
    pub fn new(
        ocp: OCP,
        power: u8,
        preamble_length: PreambleLength,
        ramp: PowerRamp,
        use_rfo: bool,
    ) -> (r: Result<Self, Sx127xError<()>>)
        ensures
            r is Ok <==> (if use_rfo {
                validate::spec_rfo_power(power)
            } else {
                validate::spec_boost_power(power)
            }),
            r matches Err(e) ==> e is InvalidInput,
            r matches Ok(c) ==> {
                &&& c.spec_ocp() == ocp
                &&& c.spec_power() == spec_output_power(power, use_rfo)
                &&& c.spec_preamble_length() == preamble_length
                &&& c.spec_ramp() == ramp
                &&& c.spec_use_rfo() == use_rfo
            },
    {
        let mut power = power;
        if use_rfo {
            if !validate::rfo_power(power) {
                return Err(Sx127xError::InvalidInput);
            }
        } else {
            if !validate::boost_power(power) {
                return Err(Sx127xError::InvalidInput);
            }
            power -= 2;
            if power > 17 {
                power -= 3
            }
        }
        Ok(Self { ocp, power, preamble_length, ramp, use_rfo })
    }

    pub fn ocp(&self) -> (r: OCP)
        ensures
            r == self.spec_ocp(),
    {
        self.ocp
    }

    /// The OutputPower field, at most 15 on the RFO pin and at most 17 on PA_BOOST.
    pub fn power(&self) -> (r: u8)
        ensures
            r == self.spec_power(),
            self.spec_use_rfo() ==> r <= 15,
            !self.spec_use_rfo() ==> r <= 17,
    {
        proof {
            use_type_invariant(self);
        }
        self.power
    }

    pub fn preamble_length(&self) -> (r: PreambleLength)
        ensures
            r == self.spec_preamble_length(),
    {
        self.preamble_length
    }

    pub fn ramp(&self) -> (r: PowerRamp)
        ensures
            r == self.spec_ramp(),
    {
        self.ramp
    }

    pub fn use_rfo(&self) -> (r: bool)
        ensures
            r == self.spec_use_rfo(),
    {
        self.use_rfo
    }
}

// -------------------------------------------------------------------------------------------------
/// A single-reception timeout of 4 to 1023 symbols.
pub struct TimeoutSymbols(pub(crate) u16);

impl TimeoutSymbols {
    #[verifier::type_invariant]
    spec fn inv(self) -> bool {
        validate::spec_rx_timeout_symbols(self.0)
    }

    pub closed spec fn spec_value(self) -> u16 {
        self.0
    }

    pub fn new(timeout: u16) -> (r: Result<Self, Sx127xError<()>>)
        ensures
            r is Ok <==> validate::spec_rx_timeout_symbols(timeout),
            r matches Ok(t) ==> t.spec_value() == timeout,
            r matches Err(e) ==> e is InvalidInput,
    {
        if !validate::rx_timeout_symbols(timeout) {
            return Err(Sx127xError::InvalidInput);
        }
        Ok(TimeoutSymbols(timeout))
    }

    pub fn max() -> (r: Self)
        ensures
            r.spec_value() == RX_TIMEOUT_SYMBOLS_MAX,
    {
        TimeoutSymbols(RX_TIMEOUT_SYMBOLS_MAX)
    }

    pub fn min() -> (r: Self)
        ensures
            r.spec_value() == RX_TIMEOUT_SYMBOLS_MIN,
    {
        TimeoutSymbols(RX_TIMEOUT_SYMBOLS_MIN)
    }

    /// The timeout in symbols.
    pub fn value(&self) -> (r: u16)
        ensures
            r == self.spec_value(),
            validate::spec_rx_timeout_symbols(r),
    {
        proof {
            use_type_invariant(self);
        }
        self.0
    }
}

// -------------------------------------------------------------------------------------------------
/// The settings the LoRa driver is initialized with.
pub struct Sx127xLoraConfig {
    pub bandwidth: Bandwidth,
    pub coding_rate: CodingRate,
    pub frequency: Hz,
    pub header_mode: HeaderMode,
    pub spreading_factor: SpreadingFactor,
    pub sync_word: u8,
    /// Whether or not to use the full automated (temperature-dependent) calibration.
    ///
    /// See: datasheet section 2.1.3.8
    pub use_auto_temp_calibration: bool,
    /// Whether or not to use the cyclic redundancy check (CRC) generation and verification on
    /// rx/tx payloads.
    pub use_crc: bool,
}

impl Sx127xLoraConfig {
    /// Builds a configuration; fails when SF6 is asked for without the implicit header mode.
    pub fn new(
        bandwidth: Bandwidth,
        coding_rate: CodingRate,
        frequency: Hz,
        header_mode: HeaderMode,
        spreading_factor: SpreadingFactor,
        sync_word: u8,
        use_auto_temp_calibration: bool,
        use_crc: bool,
    ) -> (r: Result<Self, Sx127xError<()>>)
        ensures
            r is Ok <==> validate::spec_header_mode_sf(header_mode, spreading_factor),
            r matches Err(e) ==> e is InvalidInput,
            r matches Ok(c) ==> {
                &&& c.bandwidth == bandwidth
                &&& c.coding_rate == coding_rate
                &&& c.frequency == frequency
                &&& c.header_mode == header_mode
                &&& c.spreading_factor == spreading_factor
                &&& c.sync_word == sync_word
                &&& c.use_auto_temp_calibration == use_auto_temp_calibration
                &&& c.use_crc == use_crc
            },
    {
        if !validate::header_mode_sf(header_mode, spreading_factor) {
            return Err(Sx127xError::InvalidInput);
        }
        Ok(
            Self {
                bandwidth,
                coding_rate,
                frequency,
                header_mode,
                spreading_factor,
                sync_word,
                use_auto_temp_calibration,
                use_crc,
            },
        )
    }
}

impl Default for Sx127xLoraConfig {
    fn default() -> (r: Self)
        ensures
            r.bandwidth == Bandwidth::Bw125kHz,
            r.coding_rate == CodingRate::Cr4_5,
            r.frequency == DEFAULT_FREQUENCY_HZ,
            r.header_mode == HeaderMode::Explicit,
            r.spreading_factor == SpreadingFactor::Sf7,
            r.sync_word == SYNC_WORD_DEFAULT,
            !r.use_auto_temp_calibration,
            !r.use_crc,
    {
        Self {
            bandwidth: Bandwidth::default(),
            coding_rate: CodingRate::default(),
            frequency: DEFAULT_FREQUENCY_HZ,
            header_mode: HeaderMode::default(),
            spreading_factor: SpreadingFactor::default(),
            sync_word: SYNC_WORD_DEFAULT,
            use_auto_temp_calibration: false,
            use_crc: false,
        }
    }
}

// -------------------------------------------------------------------------------------------------
/// Decoding the register code of any bandwidth, coding rate, device mode, header mode, gain,
/// power ramp or spreading factor gives the same value back.
pub proof fn lemma_register_codes_roundtrip(
    bandwidth: Bandwidth,
    coding_rate: CodingRate,
    device_mode: DeviceMode,
    header_mode: HeaderMode,
    gain: LNAGain,
    ramp: PowerRamp,
    spreading_factor: SpreadingFactor,
)
    ensures
        Bandwidth::spec_from_bits(bandwidth.spec_bits()) == bandwidth,
        CodingRate::spec_from_bits(coding_rate.spec_bits()) == coding_rate,
        DeviceMode::spec_from_bits(device_mode.spec_bits()) == device_mode,
        HeaderMode::spec_from_bits(header_mode.spec_bits()) == header_mode,
        gain != LNAGain::Auto ==> LNAGain::spec_from_bits(gain.spec_bits()) == gain,
        PowerRamp::spec_from_bits(ramp.spec_bits()) == ramp,
        SpreadingFactor::spec_from_bits(spreading_factor.spec_bits()) == spreading_factor,
{
}

} // verus!
