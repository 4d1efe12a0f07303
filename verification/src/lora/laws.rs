//! Laws of the LoRa driver, stated over the datasheet's numbers: the register codes of each
//! setting, the interrupt flags, the packet termination check and the over-current trim.
use vstd::prelude::*;

use crate::lora::driver::{spec_ocp_trim, spec_rx_termination_ok};
use crate::lora::types::{
    Bandwidth, CodingRate, DeviceMode, Dio0Signal, Dio1Signal, HeaderMode, Interrupt, LnaGain,
    PARamp, SpreadingFactor,
};

verus! {

/// With a payload CRC announced (RegHopChannel bit 6 set) a packet is refused when any flag of
/// RegIrqFlags bits 7-4 is raised; without one, it is refused for RxTimeout (bit 7),
/// RxDone (bit 6) or ValidHeader (bit 4), but not for PayloadCrcError (bit 5). Flags 3-0 never
/// refuse a packet.
pub proof fn lemma_rx_termination_flags(hop_channel: u8, irq_flags: u8)
    ensures
        hop_channel & 0x40 != 0 ==> (spec_rx_termination_ok(hop_channel, irq_flags) <==> irq_flags
            & 0xf0 == 0),
        hop_channel & 0x40 == 0 ==> (spec_rx_termination_ok(hop_channel, irq_flags) <==> irq_flags
            & 0xd0 == 0),
        spec_rx_termination_ok(hop_channel, irq_flags) == spec_rx_termination_ok(
            hop_channel,
            irq_flags & 0xf0,
        ),
{
    let h = hop_channel;
    let f = irq_flags;
    let g = f & 0xf0u8;
    assert({
        &&& (((h & 0x40u8) >> 6u8) == 1u8) == (h & 0x40u8 != 0)
        &&& (((f >> 4u8) & 0xfu8) == 0) == (f & 0xf0u8 == 0)
        &&& (((f >> 4u8) & 0xcu8) == 0 && ((f >> 4u8) & 0x1u8) == 0) == (f & 0xd0u8 == 0)
        &&& (g >> 4u8) == (f >> 4u8)
    }) by (bit_vector)
        requires
            g == f & 0xf0u8,
    ;
}

/// The register code of a spreading factor is its SF number: SF6 to SF12 are coded 6 to 12,
/// and each of those codes reads back as the spreading factor it codes.
pub proof fn lemma_spreading_factor_codes()
    ensures
        SpreadingFactor::Sf6.spec_bits() == 6,
        SpreadingFactor::Sf7.spec_bits() == 7,
        SpreadingFactor::Sf8.spec_bits() == 8,
        SpreadingFactor::Sf9.spec_bits() == 9,
        SpreadingFactor::Sf10.spec_bits() == 10,
        SpreadingFactor::Sf11.spec_bits() == 11,
        SpreadingFactor::Sf12.spec_bits() == 12,
        forall|code: u8| 6 <= code <= 12 ==> #[trigger] SpreadingFactor::spec_from_bits(code).spec_bits() == code,
{
}

/// The device modes are coded as in the datasheet's RegOpMode table: SLEEP 0, STDBY 1, FSTX 2,
/// TX 3, FSRX 4, RXCONTINUOUS 5, RXSINGLE 6, CAD 7; every code reads back as its mode.
pub proof fn lemma_device_mode_codes()
    ensures
        DeviceMode::SLEEP.spec_bits() == 0,
        DeviceMode::STDBY.spec_bits() == 1,
        DeviceMode::FSTX.spec_bits() == 2,
        DeviceMode::TX.spec_bits() == 3,
        DeviceMode::FSRX.spec_bits() == 4,
        DeviceMode::RXCONTINUOUS.spec_bits() == 5,
        DeviceMode::RXSINGLE.spec_bits() == 6,
        DeviceMode::CAD.spec_bits() == 7,
        forall|code: u8| code < 8 ==> #[trigger] DeviceMode::spec_from_bits(code).spec_bits() == code,
{
}

/// The bandwidths are coded 0 (7.8 kHz) to 9 (500 kHz) in increasing order of width, and every
/// code reads back as its bandwidth.
pub proof fn lemma_bandwidth_codes()
    ensures
        Bandwidth::Bw7_8kHz.spec_bits() == 0 && Bandwidth::Bw7_8kHz.spec_hz() == 7_800,
        Bandwidth::Bw10_4kHz.spec_bits() == 1 && Bandwidth::Bw10_4kHz.spec_hz() == 10_400,
        Bandwidth::Bw15_6kHz.spec_bits() == 2 && Bandwidth::Bw15_6kHz.spec_hz() == 15_600,
        Bandwidth::Bw20_8kHz.spec_bits() == 3 && Bandwidth::Bw20_8kHz.spec_hz() == 20_800,
        Bandwidth::Bw31_25kHz.spec_bits() == 4 && Bandwidth::Bw31_25kHz.spec_hz() == 31_250,
        Bandwidth::Bw41_7kHz.spec_bits() == 5 && Bandwidth::Bw41_7kHz.spec_hz() == 41_700,
        Bandwidth::Bw62_5kHz.spec_bits() == 6 && Bandwidth::Bw62_5kHz.spec_hz() == 62_500,
        Bandwidth::Bw125kHz.spec_bits() == 7 && Bandwidth::Bw125kHz.spec_hz() == 125_000,
        Bandwidth::Bw250kHz.spec_bits() == 8 && Bandwidth::Bw250kHz.spec_hz() == 250_000,
        Bandwidth::Bw500kHz.spec_bits() == 9 && Bandwidth::Bw500kHz.spec_hz() == 500_000,
        forall|code: u8| code <= 9 ==> #[trigger] Bandwidth::spec_from_bits(code).spec_bits() == code,
        forall|a: Bandwidth, b: Bandwidth|
            #![trigger a.spec_hz(), b.spec_hz()]
            a.spec_hz() < b.spec_hz() <==> a.spec_bits() < b.spec_bits(),
{
}

/// The coding rate 4/(4 + k) is coded k, for k from 1 to 4, and every code reads back as its
/// coding rate.
pub proof fn lemma_coding_rate_codes(coding_rate: CodingRate)
    ensures
        coding_rate.spec_denominator() == coding_rate.spec_bits() + 4,
        1 <= coding_rate.spec_bits() <= 4,
        CodingRate::Cr4_5.spec_denominator() == 5,
        CodingRate::Cr4_8.spec_denominator() == 8,
        forall|code: u8| 1 <= code <= 4 ==> #[trigger] CodingRate::spec_from_bits(code).spec_bits() == code,
{
}

/// The header mode bit is 1 for the implicit header mode and 0 for the explicit one.
pub proof fn lemma_header_mode_codes()
    ensures
        HeaderMode::Explicit.spec_bits() == 0,
        HeaderMode::Implicit.spec_bits() == 1,
        HeaderMode::spec_from_bits(0) == HeaderMode::Explicit,
        forall|code: u8| code != 0 ==> #[trigger] HeaderMode::spec_from_bits(code) == HeaderMode::Implicit,
{
}

/// The flags of RegIrqFlags, from bit 0 up: CadDetected, FhssChangeChannel, CadDone, TxDone,
/// ValidHeader, PayloadCrcError, RxDone, RxTimeout: each interrupt owns the one bit numbered by
/// its code.
pub proof fn lemma_interrupt_flags(a: Interrupt)
    ensures
        Interrupt::CadDetected.spec_mask() == 0x01,
        Interrupt::FhssChangeChannel.spec_mask() == 0x02,
        Interrupt::CadDone.spec_mask() == 0x04,
        Interrupt::TxDone.spec_mask() == 0x08,
        Interrupt::ValidHeader.spec_mask() == 0x10,
        Interrupt::PayloadCrcError.spec_mask() == 0x20,
        Interrupt::RxDone.spec_mask() == 0x40,
        Interrupt::RxTimeout.spec_mask() == 0x80,
        a.spec_mask() == 1u8 << a.spec_bits(),
{
    crate::lora::types::lemma_interrupt_mask(a);
}

/// The DIO0 mapping codes RxDone 0, TxDone 1, CadDone 2; the DIO1 mapping codes RxTimeout 0,
/// FhssChangeChannel 1, CadDetected 2; code 3 leaves the pin unmapped.
pub proof fn lemma_dio_codes()
    ensures
        Dio0Signal::RxDone.spec_bits() == 0,
        Dio0Signal::TxDone.spec_bits() == 1,
        Dio0Signal::CadDone.spec_bits() == 2,
        Dio0Signal::Unmapped.spec_bits() == 3,
        Dio1Signal::RxTimeout.spec_bits() == 0,
        Dio1Signal::FhssChangeChannel.spec_bits() == 1,
        Dio1Signal::CadDetected.spec_bits() == 2,
        Dio1Signal::Unmapped.spec_bits() == 3,
{
}

/// The LNA gains G1 (highest) to G6 (lowest) are coded 1 to 6, and every code reads back as its
/// gain.
pub proof fn lemma_lna_gain_codes()
    ensures
        LnaGain::G1.spec_bits() == 1,
        LnaGain::G2.spec_bits() == 2,
        LnaGain::G3.spec_bits() == 3,
        LnaGain::G4.spec_bits() == 4,
        LnaGain::G5.spec_bits() == 5,
        LnaGain::G6.spec_bits() == 6,
        forall|code: u8| 1 <= code <= 6 ==> #[trigger] LnaGain::spec_from_bits(code).spec_bits() == code,
{
}

/// The power amplifier ramp times are coded 0 (3.4 ms) to 15 (10 us), longest first, and every
/// code reads back as its ramp time.
pub proof fn lemma_pa_ramp_codes()
    ensures
        PARamp::Ms3_4.spec_bits() == 0,
        PARamp::Ms2.spec_bits() == 1,
        PARamp::Ms1.spec_bits() == 2,
        PARamp::Us500.spec_bits() == 3,
        PARamp::Us250.spec_bits() == 4,
        PARamp::Us125.spec_bits() == 5,
        PARamp::Us100.spec_bits() == 6,
        PARamp::Us62.spec_bits() == 7,
        PARamp::Us50.spec_bits() == 8,
        PARamp::Us40.spec_bits() == 9,
        PARamp::Us31.spec_bits() == 10,
        PARamp::Us25.spec_bits() == 11,
        PARamp::Us20.spec_bits() == 12,
        PARamp::Us15.spec_bits() == 13,
        PARamp::Us12.spec_bits() == 14,
        PARamp::Us10.spec_bits() == 15,
        forall|code: u8| code <= 15 ==> #[trigger] PARamp::spec_from_bits(code).spec_bits() == code,
{
}

/// The trim code is the largest whose current does not exceed `imax`: 45 + 5 * trim mA below
/// 130 mA, 10 * trim - 30 mA from there to 225 mA.
pub proof fn lemma_ocp_trim_current(imax: u8)
    requires
        45 <= imax <= 225,
    ensures
        imax < 130 ==> 45 + 5 * spec_ocp_trim(imax) <= imax < 50 + 5 * spec_ocp_trim(imax),
        imax >= 130 ==> 10 * spec_ocp_trim(imax) - 30 <= imax < 10 * spec_ocp_trim(imax) - 20,
{
}

} // verus!
