//! The chip's registers: their addresses, and bit-level views of the ones the driver decodes.
//!
//! Fields are listed from the most significant bit down.
use vstd::prelude::*;

use crate::common::{get_bits, set_bits, spec_get_bits, spec_set_bits};
use crate::lora::types::Interrupt;
use crate::types::{Bandwidth, CyclicErrorCoding, DeviceMode, SpreadingFactor};

verus! {

/// A register with a fixed address.
pub trait Register {
    fn addr() -> u8;
}

/// Register addresses of the LoRa page.
#[derive(Clone, Copy, Debug, PartialEq, Eq, Structural)]
pub enum Reg {
    Fifo,
    OpMode,
    FrMsb,
    FrMid,
    FrLsb,
    PaConfig,
    PaRamp,
    Ocp,
    Lna,
    FifoAddrPtr,
    FifoTxBaseAddr,
    FifoRxBaseAddr,
    FifoRxCurrentAddr,
    IrqFlagsMask,
    IrqFlags,
    RxNbBytes,
    RxHeaderCntValueMsb,
    RxHeaderCntValueLsb,
    RxPacketCntValueMsb,
    RxPacketCntValueLsb,
    ModemStat,
    PktSnrValue,
    PktRssiValue,
    RssiValue,
    HopChannel,
    ModemConfig1,
    ModemConfig2,
    SymbTimeoutLsb,
    PreambleMsb,
    PreambleLsb,
    PayloadLength,
    MaxPayloadLength,
    HopPeriod,
    FifoRxByteAddr,
    ModemConfig3,
    FeiMsb,
    FiMid,
    FeiLsb,
    RssiWideband,
    DetectOptimize,
    InvertIQ1,
    HighBWOptimize1,
    DetectionThreshold,
    SyncWord,
    HighBWOptimize2,
    InvertIQ2,
    DioMapping1,
    DioMapping2,
}

impl Reg {
    pub open spec fn spec_addr(self) -> u8 {
        match self {
            Reg::Fifo => 0x00,
            Reg::OpMode => 0x01,
            Reg::FrMsb => 0x06,
            Reg::FrMid => 0x07,
            Reg::FrLsb => 0x08,
            Reg::PaConfig => 0x09,
            Reg::PaRamp => 0x0a,
            Reg::Ocp => 0x0b,
            Reg::Lna => 0x0c,
            Reg::FifoAddrPtr => 0x0d,
            Reg::FifoTxBaseAddr => 0x0e,
            Reg::FifoRxBaseAddr => 0x0f,
            Reg::FifoRxCurrentAddr => 0x10,
            Reg::IrqFlagsMask => 0x11,
            Reg::IrqFlags => 0x12,
            Reg::RxNbBytes => 0x13,
            Reg::RxHeaderCntValueMsb => 0x14,
            Reg::RxHeaderCntValueLsb => 0x15,
            Reg::RxPacketCntValueMsb => 0x16,
            Reg::RxPacketCntValueLsb => 0x17,
            Reg::ModemStat => 0x18,
            Reg::PktSnrValue => 0x19,
            Reg::PktRssiValue => 0x1a,
            Reg::RssiValue => 0x1b,
            Reg::HopChannel => 0x1c,
            Reg::ModemConfig1 => 0x1d,
            Reg::ModemConfig2 => 0x1e,
            Reg::SymbTimeoutLsb => 0x1f,
            Reg::PreambleMsb => 0x20,
            Reg::PreambleLsb => 0x21,
            Reg::PayloadLength => 0x22,
            Reg::MaxPayloadLength => 0x23,
            Reg::HopPeriod => 0x24,
            Reg::FifoRxByteAddr => 0x25,
            Reg::ModemConfig3 => 0x26,
            Reg::FeiMsb => 0x28,
            Reg::FiMid => 0x29,
            Reg::FeiLsb => 0x2a,
            Reg::RssiWideband => 0x2c,
            Reg::DetectOptimize => 0x31,
            Reg::InvertIQ1 => 0x33,
            Reg::HighBWOptimize1 => 0x36,
            Reg::DetectionThreshold => 0x37,
            Reg::SyncWord => 0x39,
            Reg::HighBWOptimize2 => 0x3a,
            Reg::InvertIQ2 => 0x3b,
            Reg::DioMapping1 => 0x40,
            Reg::DioMapping2 => 0x41,
        }
    }

    pub fn addr(self) -> (r: u8)
        ensures
            r == self.spec_addr(),
    {
        match self {
            Reg::Fifo => 0x00,
            Reg::OpMode => 0x01,
            Reg::FrMsb => 0x06,
            Reg::FrMid => 0x07,
            Reg::FrLsb => 0x08,
            Reg::PaConfig => 0x09,
            Reg::PaRamp => 0x0a,
            Reg::Ocp => 0x0b,
            Reg::Lna => 0x0c,
            Reg::FifoAddrPtr => 0x0d,
            Reg::FifoTxBaseAddr => 0x0e,
            Reg::FifoRxBaseAddr => 0x0f,
            Reg::FifoRxCurrentAddr => 0x10,
            Reg::IrqFlagsMask => 0x11,
            Reg::IrqFlags => 0x12,
            Reg::RxNbBytes => 0x13,
            Reg::RxHeaderCntValueMsb => 0x14,
            Reg::RxHeaderCntValueLsb => 0x15,
            Reg::RxPacketCntValueMsb => 0x16,
            Reg::RxPacketCntValueLsb => 0x17,
            Reg::ModemStat => 0x18,
            Reg::PktSnrValue => 0x19,
            Reg::PktRssiValue => 0x1a,
            Reg::RssiValue => 0x1b,
            Reg::HopChannel => 0x1c,
            Reg::ModemConfig1 => 0x1d,
            Reg::ModemConfig2 => 0x1e,
            Reg::SymbTimeoutLsb => 0x1f,
            Reg::PreambleMsb => 0x20,
            Reg::PreambleLsb => 0x21,
            Reg::PayloadLength => 0x22,
            Reg::MaxPayloadLength => 0x23,
            Reg::HopPeriod => 0x24,
            Reg::FifoRxByteAddr => 0x25,
            Reg::ModemConfig3 => 0x26,
            Reg::FeiMsb => 0x28,
            Reg::FiMid => 0x29,
            Reg::FeiLsb => 0x2a,
            Reg::RssiWideband => 0x2c,
            Reg::DetectOptimize => 0x31,
            Reg::InvertIQ1 => 0x33,
            Reg::HighBWOptimize1 => 0x36,
            Reg::DetectionThreshold => 0x37,
            Reg::SyncWord => 0x39,
            Reg::HighBWOptimize2 => 0x3a,
            Reg::InvertIQ2 => 0x3b,
            Reg::DioMapping1 => 0x40,
            Reg::DioMapping2 => 0x41,
        }
    }
}

/// The register addresses of the datasheet's LoRa register map, from RegFifo at 0x00 to
/// RegDioMapping2 at 0x41; no two registers share an address.
pub proof fn lemma_register_addresses(a: Reg, b: Reg)
    ensures
        Reg::Fifo.spec_addr() == 0x00,
        Reg::OpMode.spec_addr() == 0x01,
        Reg::FrMsb.spec_addr() == 0x06,
        Reg::FrMid.spec_addr() == 0x07,
        Reg::FrLsb.spec_addr() == 0x08,
        Reg::PaConfig.spec_addr() == 0x09,
        Reg::PaRamp.spec_addr() == 0x0a,
        Reg::Ocp.spec_addr() == 0x0b,
        Reg::Lna.spec_addr() == 0x0c,
        Reg::FifoAddrPtr.spec_addr() == 0x0d,
        Reg::FifoTxBaseAddr.spec_addr() == 0x0e,
        Reg::FifoRxBaseAddr.spec_addr() == 0x0f,
        Reg::FifoRxCurrentAddr.spec_addr() == 0x10,
        Reg::IrqFlagsMask.spec_addr() == 0x11,
        Reg::IrqFlags.spec_addr() == 0x12,
        Reg::RxNbBytes.spec_addr() == 0x13,
        Reg::RxHeaderCntValueMsb.spec_addr() == 0x14,
        Reg::RxHeaderCntValueLsb.spec_addr() == 0x15,
        Reg::RxPacketCntValueMsb.spec_addr() == 0x16,
        Reg::RxPacketCntValueLsb.spec_addr() == 0x17,
        Reg::ModemStat.spec_addr() == 0x18,
        Reg::PktSnrValue.spec_addr() == 0x19,
        Reg::PktRssiValue.spec_addr() == 0x1a,
        Reg::RssiValue.spec_addr() == 0x1b,
        Reg::HopChannel.spec_addr() == 0x1c,
        Reg::ModemConfig1.spec_addr() == 0x1d,
        Reg::ModemConfig2.spec_addr() == 0x1e,
        Reg::SymbTimeoutLsb.spec_addr() == 0x1f,
        Reg::PreambleMsb.spec_addr() == 0x20,
        Reg::PreambleLsb.spec_addr() == 0x21,
        Reg::PayloadLength.spec_addr() == 0x22,
        Reg::MaxPayloadLength.spec_addr() == 0x23,
        Reg::HopPeriod.spec_addr() == 0x24,
        Reg::FifoRxByteAddr.spec_addr() == 0x25,
        Reg::ModemConfig3.spec_addr() == 0x26,
        Reg::FeiMsb.spec_addr() == 0x28,
        Reg::FiMid.spec_addr() == 0x29,
        Reg::FeiLsb.spec_addr() == 0x2a,
        Reg::RssiWideband.spec_addr() == 0x2c,
        Reg::DetectOptimize.spec_addr() == 0x31,
        Reg::InvertIQ1.spec_addr() == 0x33,
        Reg::HighBWOptimize1.spec_addr() == 0x36,
        Reg::DetectionThreshold.spec_addr() == 0x37,
        Reg::SyncWord.spec_addr() == 0x39,
        Reg::HighBWOptimize2.spec_addr() == 0x3a,
        Reg::InvertIQ2.spec_addr() == 0x3b,
        Reg::DioMapping1.spec_addr() == 0x40,
        Reg::DioMapping2.spec_addr() == 0x41,
        a != b ==> a.spec_addr() != b.spec_addr(),
{
}

// -------------------------------------------------------------------------------------------------
/// RegDioMapping1: the signals mapped to pins DIO0 to DIO3, two bits each.
#[derive(Clone, Copy, Debug, PartialEq, Eq, Structural)]
pub struct RegDioMapping1 {
    bits: u8,
}

impl View for RegDioMapping1 {
    type V = u8;

    closed spec fn view(&self) -> u8 {
        self.bits
    }
}

impl Register for RegDioMapping1 {
    fn addr() -> (r: u8)
        ensures
            r == Reg::DioMapping1.spec_addr(),
    {
        Reg::DioMapping1.addr()
    }
}

impl RegDioMapping1 {
    pub fn from_bits(bits: u8) -> (r: Self)
        ensures
            r@ == bits,
    {
        Self { bits }
    }

    pub fn into_bits(self) -> (r: u8)
        ensures
            r == self@,
    {
        self.bits
    }

    pub open spec fn spec_dio0(self) -> u8 {
        spec_get_bits(self@, 0xc0u8, 6u8)
    }

    pub fn dio0(&self) -> (r: u8)
        ensures
            r == self.spec_dio0(),
    {
        get_bits(self.bits, 0xc0u8, 6u8)
    }

    /// Sets the field; bits of `value` beyond the field's width are dropped.
    pub fn set_dio0(&mut self, value: u8)
        ensures
            final(self)@ == spec_set_bits(old(self)@, value, 0xc0u8, 6u8),
    {
        set_bits(&mut self.bits, value, 0xc0u8, 6u8);
    }

    pub open spec fn spec_dio1(self) -> u8 {
        spec_get_bits(self@, 0x30u8, 4u8)
    }

    pub fn dio1(&self) -> (r: u8)
        ensures
            r == self.spec_dio1(),
    {
        get_bits(self.bits, 0x30u8, 4u8)
    }

    /// Sets the field; bits of `value` beyond the field's width are dropped.
    pub fn set_dio1(&mut self, value: u8)
        ensures
            final(self)@ == spec_set_bits(old(self)@, value, 0x30u8, 4u8),
    {
        set_bits(&mut self.bits, value, 0x30u8, 4u8);
    }

    pub open spec fn spec_dio2(self) -> u8 {
        spec_get_bits(self@, 0x0cu8, 2u8)
    }

    pub fn dio2(&self) -> (r: u8)
        ensures
            r == self.spec_dio2(),
    {
        get_bits(self.bits, 0x0cu8, 2u8)
    }

    /// Sets the field; bits of `value` beyond the field's width are dropped.
    pub fn set_dio2(&mut self, value: u8)
        ensures
            final(self)@ == spec_set_bits(old(self)@, value, 0x0cu8, 2u8),
    {
        set_bits(&mut self.bits, value, 0x0cu8, 2u8);
    }

    pub open spec fn spec_dio3(self) -> u8 {
        spec_get_bits(self@, 0x03u8, 0u8)
    }

    pub fn dio3(&self) -> (r: u8)
        ensures
            r == self.spec_dio3(),
    {
        get_bits(self.bits, 0x03u8, 0u8)
    }

    /// Sets the field; bits of `value` beyond the field's width are dropped.
    pub fn set_dio3(&mut self, value: u8)
        ensures
            final(self)@ == spec_set_bits(old(self)@, value, 0x03u8, 0u8),
    {
        set_bits(&mut self.bits, value, 0x03u8, 0u8);
    }
}

// -------------------------------------------------------------------------------------------------
/// RegIrqFlags: one flag per interrupt source; writing 1 to a flag clears it.
#[derive(Clone, Copy, Debug, PartialEq, Eq, Structural)]
pub struct RegIrqFlags {
    bits: u8,
}

impl View for RegIrqFlags {
    type V = u8;

    closed spec fn view(&self) -> u8 {
        self.bits
    }
}

impl Register for RegIrqFlags {
    fn addr() -> (r: u8)
        ensures
            r == Reg::IrqFlags.spec_addr(),
    {
        Reg::IrqFlags.addr()
    }
}

impl RegIrqFlags {
    pub fn from_bits(bits: u8) -> (r: Self)
        ensures
            r@ == bits,
    {
        Self { bits }
    }

    pub fn into_bits(self) -> (r: u8)
        ensures
            r == self@,
    {
        self.bits
    }

    pub open spec fn spec_rx_timeout(self) -> bool {
        self@ & 0x80u8 != 0
    }

    pub fn rx_timeout(&self) -> (r: bool)
        ensures
            r == self.spec_rx_timeout(),
    {
        self.bits & 0x80u8 != 0
    }

    pub fn set_rx_timeout(&mut self, value: bool)
        ensures
            final(self)@ == spec_set_bits(old(self)@, if value { 1 } else { 0 }, 0x80u8, 7u8),
    {
        set_bits(&mut self.bits, if value { 1 } else { 0 }, 0x80u8, 7u8);
    }

    pub open spec fn spec_rx_done(self) -> bool {
        self@ & 0x40u8 != 0
    }

    pub fn rx_done(&self) -> (r: bool)
        ensures
            r == self.spec_rx_done(),
    {
        self.bits & 0x40u8 != 0
    }

    pub fn set_rx_done(&mut self, value: bool)
        ensures
            final(self)@ == spec_set_bits(old(self)@, if value { 1 } else { 0 }, 0x40u8, 6u8),
    {
        set_bits(&mut self.bits, if value { 1 } else { 0 }, 0x40u8, 6u8);
    }

    pub open spec fn spec_payload_crc_error(self) -> bool {
        self@ & 0x20u8 != 0
    }

    pub fn payload_crc_error(&self) -> (r: bool)
        ensures
            r == self.spec_payload_crc_error(),
    {
        self.bits & 0x20u8 != 0
    }

    pub fn set_payload_crc_error(&mut self, value: bool)
        ensures
            final(self)@ == spec_set_bits(old(self)@, if value { 1 } else { 0 }, 0x20u8, 5u8),
    {
        set_bits(&mut self.bits, if value { 1 } else { 0 }, 0x20u8, 5u8);
    }

    pub open spec fn spec_valid_header(self) -> bool {
        self@ & 0x10u8 != 0
    }

    pub fn valid_header(&self) -> (r: bool)
        ensures
            r == self.spec_valid_header(),
    {
        self.bits & 0x10u8 != 0
    }

    pub fn set_valid_header(&mut self, value: bool)
        ensures
            final(self)@ == spec_set_bits(old(self)@, if value { 1 } else { 0 }, 0x10u8, 4u8),
    {
        set_bits(&mut self.bits, if value { 1 } else { 0 }, 0x10u8, 4u8);
    }

    pub open spec fn spec_tx_done(self) -> bool {
        self@ & 0x08u8 != 0
    }

    pub fn tx_done(&self) -> (r: bool)
        ensures
            r == self.spec_tx_done(),
    {
        self.bits & 0x08u8 != 0
    }

    pub fn set_tx_done(&mut self, value: bool)
        ensures
            final(self)@ == spec_set_bits(old(self)@, if value { 1 } else { 0 }, 0x08u8, 3u8),
    {
        set_bits(&mut self.bits, if value { 1 } else { 0 }, 0x08u8, 3u8);
    }

    pub open spec fn spec_cad_done(self) -> bool {
        self@ & 0x04u8 != 0
    }

    pub fn cad_done(&self) -> (r: bool)
        ensures
            r == self.spec_cad_done(),
    {
        self.bits & 0x04u8 != 0
    }

    pub fn set_cad_done(&mut self, value: bool)
        ensures
            final(self)@ == spec_set_bits(old(self)@, if value { 1 } else { 0 }, 0x04u8, 2u8),
    {
        set_bits(&mut self.bits, if value { 1 } else { 0 }, 0x04u8, 2u8);
    }

    pub open spec fn spec_fhss_change_channel(self) -> bool {
        self@ & 0x02u8 != 0
    }

    pub fn fhss_change_channel(&self) -> (r: bool)
        ensures
            r == self.spec_fhss_change_channel(),
    {
        self.bits & 0x02u8 != 0
    }

    pub fn set_fhss_change_channel(&mut self, value: bool)
        ensures
            final(self)@ == spec_set_bits(old(self)@, if value { 1 } else { 0 }, 0x02u8, 1u8),
    {
        set_bits(&mut self.bits, if value { 1 } else { 0 }, 0x02u8, 1u8);
    }

    pub open spec fn spec_cad_detected(self) -> bool {
        self@ & 0x01u8 != 0
    }

    pub fn cad_detected(&self) -> (r: bool)
        ensures
            r == self.spec_cad_detected(),
    {
        self.bits & 0x01u8 != 0
    }

    pub fn set_cad_detected(&mut self, value: bool)
        ensures
            final(self)@ == spec_set_bits(old(self)@, if value { 1 } else { 0 }, 0x01u8, 0u8),
    {
        set_bits(&mut self.bits, if value { 1 } else { 0 }, 0x01u8, 0u8);
    }
}

impl RegIrqFlags {
    /// Whether the flag of `interrupt` is raised.
    pub open spec fn spec_interrupt_triggered(self, interrupt: Interrupt) -> bool {
        self@ & interrupt.spec_mask() != 0
    }

    /// Raises the flag of `interrupt`, which, once written to the chip, clears that interrupt.
    pub fn clear_interrupt(&mut self, interrupt: Interrupt)
        ensures
            final(self)@ == old(self)@ | interrupt.spec_mask(),
    {
        let old_bits = self.bits;
        match interrupt {
            Interrupt::CadDetected => self.set_cad_detected(true),
            Interrupt::FhssChangeChannel => self.set_fhss_change_channel(true),
            Interrupt::CadDone => self.set_cad_done(true),
            Interrupt::TxDone => self.set_tx_done(true),
            Interrupt::ValidHeader => self.set_valid_header(true),
            Interrupt::PayloadCrcError => self.set_payload_crc_error(true),
            Interrupt::RxDone => self.set_rx_done(true),
            Interrupt::RxTimeout => self.set_rx_timeout(true),
        }
        proof {
            lemma_set_one_bit(old_bits, interrupt);
        }
    }

    /// Whether the flag of `interrupt` is raised.
    pub fn interrupt_triggered(&self, interrupt: Interrupt) -> (r: bool)
        ensures
            r == self.spec_interrupt_triggered(interrupt),
    {
        match interrupt {
            Interrupt::CadDetected => self.cad_detected(),
            Interrupt::FhssChangeChannel => self.fhss_change_channel(),
            Interrupt::CadDone => self.cad_done(),
            Interrupt::TxDone => self.tx_done(),
            Interrupt::ValidHeader => self.valid_header(),
            Interrupt::PayloadCrcError => self.payload_crc_error(),
            Interrupt::RxDone => self.rx_done(),
            Interrupt::RxTimeout => self.rx_timeout(),
        }
    }
}

/// Raising a single flag with the field setter is or-ing in the interrupt's mask.
proof fn lemma_set_one_bit(b: u8, interrupt: Interrupt)
    ensures
        spec_set_bits(b, 1, interrupt.spec_mask(), interrupt.spec_bits()) == b | interrupt.spec_mask(),
{
    assert(((b & !0x01u8) | ((1u8 << 0u8) & 0x01u8)) == b | 0x01u8 && ((b & !0x02u8) | ((1u8
        << 1u8) & 0x02u8)) == b | 0x02u8 && ((b & !0x04u8) | ((1u8 << 2u8) & 0x04u8)) == b | 0x04u8
        && ((b & !0x08u8) | ((1u8 << 3u8) & 0x08u8)) == b | 0x08u8 && ((b & !0x10u8) | ((1u8
        << 4u8) & 0x10u8)) == b | 0x10u8 && ((b & !0x20u8) | ((1u8 << 5u8) & 0x20u8)) == b | 0x20u8
        && ((b & !0x40u8) | ((1u8 << 6u8) & 0x40u8)) == b | 0x40u8 && ((b & !0x80u8) | ((1u8
        << 7u8) & 0x80u8)) == b | 0x80u8) by (bit_vector);
}

/// After an interrupt is cleared its flag reads as raised (ready to be written back), and the
/// flags of all other interrupts read as before.
pub proof fn lemma_clear_interrupt_flags(flags: u8, cleared: Interrupt, other: Interrupt)
    ensures
        (flags | cleared.spec_mask()) & cleared.spec_mask() != 0,
        other != cleared ==> (((flags | cleared.spec_mask()) & other.spec_mask() != 0) == (flags
            & other.spec_mask() != 0)),
{
    let a = cleared.spec_mask();
    let b = other.spec_mask();
    assert(a != 0);
    assert((flags | a) & a != 0) by (bit_vector)
        requires
            a != 0,
    ;
    if other != cleared {
        crate::lora::types::lemma_interrupt_mask(cleared);
        crate::lora::types::lemma_interrupt_mask(other);
        let x = cleared.spec_bits();
        let y = other.spec_bits();
        assert(x != y);
        assert(a & b == 0) by (bit_vector)
            requires
                a == 1u8 << x,
                b == 1u8 << y,
                x != y,
                x < 8,
                y < 8,
        ;
        assert(((flags | a) & b != 0) == (flags & b != 0)) by (bit_vector)
            requires
                a & b == 0,
        ;
    }
}

// -------------------------------------------------------------------------------------------------
/// RegModemConfig1: bandwidth (bits 7-4), coding rate (bits 3-1) and the implicit header flag (bit 0).
#[derive(Clone, Copy, Debug, PartialEq, Eq, Structural)]
pub struct RegModemConfig1 {
    bits: u8,
}

impl View for RegModemConfig1 {
    type V = u8;

    closed spec fn view(&self) -> u8 {
        self.bits
    }
}

impl Register for RegModemConfig1 {
    fn addr() -> (r: u8)
        ensures
            r == Reg::ModemConfig1.spec_addr(),
    {
        Reg::ModemConfig1.addr()
    }
}

impl RegModemConfig1 {
    pub fn from_bits(bits: u8) -> (r: Self)
        ensures
            r@ == bits,
    {
        Self { bits }
    }

    pub fn into_bits(self) -> (r: u8)
        ensures
            r == self@,
    {
        self.bits
    }

    /// The raw code held in the field.
    pub open spec fn spec_bandwidth(self) -> u8 {
        spec_get_bits(self@, 0xf0u8, 4u8)
    }

    /// The raw code held in the field.
    pub fn bandwidth(&self) -> (r: u8)
        ensures
            r == self.spec_bandwidth(),
    {
        get_bits(self.bits, 0xf0u8, 4u8)
    }

    pub fn set_bandwidth(&mut self, value: Bandwidth)
        ensures
            final(self)@ == spec_set_bits(old(self)@, value.spec_bits(), 0xf0u8, 4u8),
    {
        set_bits(&mut self.bits, value.into_bits(), 0xf0u8, 4u8);
    }

    /// The raw code held in the field.
    pub open spec fn spec_coding_rate(self) -> u8 {
        spec_get_bits(self@, 0x0eu8, 1u8)
    }

    /// The raw code held in the field.
    pub fn coding_rate(&self) -> (r: u8)
        ensures
            r == self.spec_coding_rate(),
    {
        get_bits(self.bits, 0x0eu8, 1u8)
    }

    pub fn set_coding_rate(&mut self, value: CyclicErrorCoding)
        ensures
            final(self)@ == spec_set_bits(old(self)@, value.spec_bits(), 0x0eu8, 1u8),
    {
        set_bits(&mut self.bits, value.into_bits(), 0x0eu8, 1u8);
    }

    pub open spec fn spec_implicit_header_mode_on(self) -> bool {
        self@ & 0x01u8 != 0
    }

    pub fn implicit_header_mode_on(&self) -> (r: bool)
        ensures
            r == self.spec_implicit_header_mode_on(),
    {
        self.bits & 0x01u8 != 0
    }

    pub fn set_implicit_header_mode_on(&mut self, value: bool)
        ensures
            final(self)@ == spec_set_bits(old(self)@, if value { 1 } else { 0 }, 0x01u8, 0u8),
    {
        set_bits(&mut self.bits, if value { 1 } else { 0 }, 0x01u8, 0u8);
    }
}

// -------------------------------------------------------------------------------------------------
/// RegModemConfig2: spreading factor (bits 7-4), continuous TX (bit 3), payload CRC (bit 2) and
/// the top bits of the symbol timeout (bits 1-0).
#[derive(Clone, Copy, Debug, PartialEq, Eq, Structural)]
pub struct RegModemConfig2 {
    bits: u8,
}

impl View for RegModemConfig2 {
    type V = u8;

    closed spec fn view(&self) -> u8 {
        self.bits
    }
}

impl Register for RegModemConfig2 {
    fn addr() -> (r: u8)
        ensures
            r == Reg::ModemConfig2.spec_addr(),
    {
        Reg::ModemConfig2.addr()
    }
}

impl RegModemConfig2 {
    pub fn from_bits(bits: u8) -> (r: Self)
        ensures
            r@ == bits,
    {
        Self { bits }
    }

    pub fn into_bits(self) -> (r: u8)
        ensures
            r == self@,
    {
        self.bits
    }

    /// The raw code held in the field.
    pub open spec fn spec_spreading_factor(self) -> u8 {
        spec_get_bits(self@, 0xf0u8, 4u8)
    }

    /// The raw code held in the field.
    pub fn spreading_factor(&self) -> (r: u8)
        ensures
            r == self.spec_spreading_factor(),
    {
        get_bits(self.bits, 0xf0u8, 4u8)
    }

    pub fn set_spreading_factor(&mut self, value: SpreadingFactor)
        ensures
            final(self)@ == spec_set_bits(old(self)@, value.spec_bits(), 0xf0u8, 4u8),
    {
        set_bits(&mut self.bits, value.into_bits(), 0xf0u8, 4u8);
    }

    pub open spec fn spec_tx_continuous_mode(self) -> bool {
        self@ & 0x08u8 != 0
    }

    pub fn tx_continuous_mode(&self) -> (r: bool)
        ensures
            r == self.spec_tx_continuous_mode(),
    {
        self.bits & 0x08u8 != 0
    }

    pub fn set_tx_continuous_mode(&mut self, value: bool)
        ensures
            final(self)@ == spec_set_bits(old(self)@, if value { 1 } else { 0 }, 0x08u8, 3u8),
    {
        set_bits(&mut self.bits, if value { 1 } else { 0 }, 0x08u8, 3u8);
    }

    pub open spec fn spec_rx_payload_crc_on(self) -> bool {
        self@ & 0x04u8 != 0
    }

    pub fn rx_payload_crc_on(&self) -> (r: bool)
        ensures
            r == self.spec_rx_payload_crc_on(),
    {
        self.bits & 0x04u8 != 0
    }

    pub fn set_rx_payload_crc_on(&mut self, value: bool)
        ensures
            final(self)@ == spec_set_bits(old(self)@, if value { 1 } else { 0 }, 0x04u8, 2u8),
    {
        set_bits(&mut self.bits, if value { 1 } else { 0 }, 0x04u8, 2u8);
    }

    pub open spec fn spec_symbol_timeout(self) -> u8 {
        spec_get_bits(self@, 0x03u8, 0u8)
    }

    pub fn symbol_timeout(&self) -> (r: u8)
        ensures
            r == self.spec_symbol_timeout(),
    {
        get_bits(self.bits, 0x03u8, 0u8)
    }

    /// Sets the field; bits of `value` beyond the field's width are dropped.
    pub fn set_symbol_timeout(&mut self, value: u8)
        ensures
            final(self)@ == spec_set_bits(old(self)@, value, 0x03u8, 0u8),
    {
        set_bits(&mut self.bits, value, 0x03u8, 0u8);
    }
}

// -------------------------------------------------------------------------------------------------
/// RegModemStat: coding rate of the last header (bits 7-5) and five status flags.
#[derive(Clone, Copy, Debug, PartialEq, Eq, Structural)]
pub struct RegModemStat {
    bits: u8,
}

impl View for RegModemStat {
    type V = u8;

    closed spec fn view(&self) -> u8 {
        self.bits
    }
}

impl Register for RegModemStat {
    fn addr() -> (r: u8)
        ensures
            r == Reg::ModemStat.spec_addr(),
    {
        Reg::ModemStat.addr()
    }
}

impl RegModemStat {
    pub fn from_bits(bits: u8) -> (r: Self)
        ensures
            r@ == bits,
    {
        Self { bits }
    }

    pub fn into_bits(self) -> (r: u8)
        ensures
            r == self@,
    {
        self.bits
    }

    pub open spec fn spec_rx_coding_rate(self) -> u8 {
        spec_get_bits(self@, 0xe0u8, 5u8)
    }

    pub fn rx_coding_rate(&self) -> (r: u8)
        ensures
            r == self.spec_rx_coding_rate(),
    {
        get_bits(self.bits, 0xe0u8, 5u8)
    }

    /// Sets the field; bits of `value` beyond the field's width are dropped.
    pub fn set_rx_coding_rate(&mut self, value: u8)
        ensures
            final(self)@ == spec_set_bits(old(self)@, value, 0xe0u8, 5u8),
    {
        set_bits(&mut self.bits, value, 0xe0u8, 5u8);
    }

    pub open spec fn spec_modem_clear(self) -> bool {
        self@ & 0x10u8 != 0
    }

    pub fn modem_clear(&self) -> (r: bool)
        ensures
            r == self.spec_modem_clear(),
    {
        self.bits & 0x10u8 != 0
    }

    pub fn set_modem_clear(&mut self, value: bool)
        ensures
            final(self)@ == spec_set_bits(old(self)@, if value { 1 } else { 0 }, 0x10u8, 4u8),
    {
        set_bits(&mut self.bits, if value { 1 } else { 0 }, 0x10u8, 4u8);
    }

    pub open spec fn spec_header_info_valid(self) -> bool {
        self@ & 0x08u8 != 0
    }

    pub fn header_info_valid(&self) -> (r: bool)
        ensures
            r == self.spec_header_info_valid(),
    {
        self.bits & 0x08u8 != 0
    }

    pub fn set_header_info_valid(&mut self, value: bool)
        ensures
            final(self)@ == spec_set_bits(old(self)@, if value { 1 } else { 0 }, 0x08u8, 3u8),
    {
        set_bits(&mut self.bits, if value { 1 } else { 0 }, 0x08u8, 3u8);
    }

    pub open spec fn spec_rx_on_going(self) -> bool {
        self@ & 0x04u8 != 0
    }

    pub fn rx_on_going(&self) -> (r: bool)
        ensures
            r == self.spec_rx_on_going(),
    {
        self.bits & 0x04u8 != 0
    }

    pub fn set_rx_on_going(&mut self, value: bool)
        ensures
            final(self)@ == spec_set_bits(old(self)@, if value { 1 } else { 0 }, 0x04u8, 2u8),
    {
        set_bits(&mut self.bits, if value { 1 } else { 0 }, 0x04u8, 2u8);
    }

    pub open spec fn spec_signal_synchronized(self) -> bool {
        self@ & 0x02u8 != 0
    }

    pub fn signal_synchronized(&self) -> (r: bool)
        ensures
            r == self.spec_signal_synchronized(),
    {
        self.bits & 0x02u8 != 0
    }

    pub fn set_signal_synchronized(&mut self, value: bool)
        ensures
            final(self)@ == spec_set_bits(old(self)@, if value { 1 } else { 0 }, 0x02u8, 1u8),
    {
        set_bits(&mut self.bits, if value { 1 } else { 0 }, 0x02u8, 1u8);
    }

    pub open spec fn spec_signal_detected(self) -> bool {
        self@ & 0x01u8 != 0
    }

    pub fn signal_detected(&self) -> (r: bool)
        ensures
            r == self.spec_signal_detected(),
    {
        self.bits & 0x01u8 != 0
    }

    pub fn set_signal_detected(&mut self, value: bool)
        ensures
            final(self)@ == spec_set_bits(old(self)@, if value { 1 } else { 0 }, 0x01u8, 0u8),
    {
        set_bits(&mut self.bits, if value { 1 } else { 0 }, 0x01u8, 0u8);
    }
}

// -------------------------------------------------------------------------------------------------
/// RegOpMode: modem selection (bit 7), shared register access (bit 6), low frequency mode (bit 3)
/// and device mode (bits 2-0).
#[derive(Clone, Copy, Debug, PartialEq, Eq, Structural)]
pub struct RegOpMode {
    bits: u8,
}

impl View for RegOpMode {
    type V = u8;

    closed spec fn view(&self) -> u8 {
        self.bits
    }
}

impl Register for RegOpMode {
    fn addr() -> (r: u8)
        ensures
            r == Reg::OpMode.spec_addr(),
    {
        Reg::OpMode.addr()
    }
}

impl RegOpMode {
    pub fn from_bits(bits: u8) -> (r: Self)
        ensures
            r@ == bits,
    {
        Self { bits }
    }

    pub fn into_bits(self) -> (r: u8)
        ensures
            r == self@,
    {
        self.bits
    }

    pub open spec fn spec_long_range_mode(self) -> bool {
        self@ & 0x80u8 != 0
    }

    pub fn long_range_mode(&self) -> (r: bool)
        ensures
            r == self.spec_long_range_mode(),
    {
        self.bits & 0x80u8 != 0
    }

    pub fn set_long_range_mode(&mut self, value: bool)
        ensures
            final(self)@ == spec_set_bits(old(self)@, if value { 1 } else { 0 }, 0x80u8, 7u8),
    {
        set_bits(&mut self.bits, if value { 1 } else { 0 }, 0x80u8, 7u8);
    }

    pub open spec fn spec_access_shared_reg(self) -> bool {
        self@ & 0x40u8 != 0
    }

    pub fn access_shared_reg(&self) -> (r: bool)
        ensures
            r == self.spec_access_shared_reg(),
    {
        self.bits & 0x40u8 != 0
    }

    pub fn set_access_shared_reg(&mut self, value: bool)
        ensures
            final(self)@ == spec_set_bits(old(self)@, if value { 1 } else { 0 }, 0x40u8, 6u8),
    {
        set_bits(&mut self.bits, if value { 1 } else { 0 }, 0x40u8, 6u8);
    }

    pub open spec fn spec_low_frequency_mode_on(self) -> bool {
        self@ & 0x08u8 != 0
    }

    pub fn low_frequency_mode_on(&self) -> (r: bool)
        ensures
            r == self.spec_low_frequency_mode_on(),
    {
        self.bits & 0x08u8 != 0
    }

    pub fn set_low_frequency_mode_on(&mut self, value: bool)
        ensures
            final(self)@ == spec_set_bits(old(self)@, if value { 1 } else { 0 }, 0x08u8, 3u8),
    {
        set_bits(&mut self.bits, if value { 1 } else { 0 }, 0x08u8, 3u8);
    }
}

impl RegOpMode {
    pub open spec fn spec_mode(self) -> DeviceMode {
        DeviceMode::spec_from_bits(spec_get_bits(self@, 0x07u8, 0u8))
    }

    /// The device mode held in bits 2-0.
    pub fn mode(&self) -> (r: DeviceMode)
        ensures
            r == self.spec_mode(),
    {
        let raw = self.bits;
        let bits = get_bits(raw, 0x07, 0);
        assert((raw & 0x07u8) >> 0u8 < 8) by (bit_vector);
        DeviceMode::from_bits(bits)
    }

    pub fn set_mode(&mut self, value: DeviceMode)
        ensures
            final(self)@ == spec_set_bits(old(self)@, value.spec_bits(), 0x07u8, 0u8),
            final(self).spec_mode() == value,
    {
        let v = value.into_bits();
        let b = self.bits;
        set_bits(&mut self.bits, v, 0x07, 0);
        assert((((b & !0x07u8) | ((v << 0u8) & 0x07u8)) & 0x07u8) >> 0u8 == v) by (bit_vector)
            requires
                v < 8,
        ;
    }
}

} // verus!
