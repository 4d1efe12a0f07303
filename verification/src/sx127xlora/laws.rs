//! Laws of the LoRa modem driver, stated over the datasheet's numbers: the register codes of
//! each setting, the packet termination check, the output power field, the RSSI band constant
//! and the over-current trim.
use vstd::prelude::*;

use crate::common::Hz;
use crate::sx127xlora::calculate::{
    spec_last_packet_rssi_dbm, spec_ocp_imax_valid, spec_ocp_trim, spec_rssi_constant,
    spec_symbol_rate,
};
use crate::sx127xlora::driver::spec_rx_termination_ok;
use crate::sx127xlora::types::{
    spec_output_power, Bandwidth, CodingRate, DeviceMode, HeaderMode, LNAGain, PowerRamp,
    SpreadingFactor,
};
use crate::sx127xlora::validate::{
    spec_boost_power, spec_header_mode_sf, spec_preamble_length, spec_rfo_power,
    spec_rx_timeout_symbols,
};

verus! {

/// A received packet is refused only for its RxTimeout flag (RegIrqFlags bit 7) when
/// RegHopChannel announces no payload CRC (bit 6 clear), and only for its PayloadCrcError flag
/// (bit 5) when it announces one; no other flag, such as RxDone or ValidHeader, ever refuses it.
pub proof fn lemma_rx_termination_flags(hop_channel: u8, irq_flags: u8)
    ensures
        hop_channel & 0x40 == 0 ==> (spec_rx_termination_ok(hop_channel, irq_flags) <==> irq_flags
            & 0x80 == 0),
        hop_channel & 0x40 != 0 ==> (spec_rx_termination_ok(hop_channel, irq_flags) <==> irq_flags
            & 0x20 == 0),
        spec_rx_termination_ok(hop_channel, irq_flags) == spec_rx_termination_ok(
            hop_channel,
            irq_flags & 0xa0,
        ),
{
    let h = hop_channel;
    let f = irq_flags;
    let g = f & 0xa0u8;
    assert({
        &&& (((h & 0x40u8) >> 6u8) == 1u8) == (h & 0x40u8 != 0)
        &&& (((f >> 4u8) & 0x8u8) == 0) == (f & 0x80u8 == 0)
        &&& (((f >> 4u8) & 0x2u8) == 0) == (f & 0x20u8 == 0)
        &&& (((g >> 4u8) & 0x8u8) == 0) == (f & 0x80u8 == 0)
        &&& (((g >> 4u8) & 0x2u8) == 0) == (f & 0x20u8 == 0)
    }) by (bit_vector)
        requires
            g == f & 0xa0u8,
    ;
}

/// The register code of a spreading factor is its SF number, the base-2 logarithm of the
/// chips per symbol: SF6 to SF12 are coded 6 to 12, and each of those codes reads back as the
/// spreading factor it codes.
pub proof fn lemma_spreading_factor_codes()
    ensures
        SpreadingFactor::Sf6.spec_bits() == 6,
        SpreadingFactor::Sf7.spec_bits() == 7,
        SpreadingFactor::Sf8.spec_bits() == 8,
        SpreadingFactor::Sf9.spec_bits() == 9,
        SpreadingFactor::Sf10.spec_bits() == 10,
        SpreadingFactor::Sf11.spec_bits() == 11,
        SpreadingFactor::Sf12.spec_bits() == 12,
        forall|code: u8| 6 <= code <= 12 ==> #[trigger] SpreadingFactor::spec_from_bits(code).spec_bits() == code,
{
}

/// The symbol rate is the bandwidth divided by 2 to the power of the SF number: at 125 kHz,
/// SF7 gives 976 symbols/s, SF10 gives 122 and SF12 gives 30.
pub proof fn lemma_symbol_rate_by_sf_number()
    ensures
        spec_symbol_rate(Bandwidth::Bw125kHz, SpreadingFactor::Sf7) == 976,
        spec_symbol_rate(Bandwidth::Bw125kHz, SpreadingFactor::Sf10) == 122,
        spec_symbol_rate(Bandwidth::Bw125kHz, SpreadingFactor::Sf11) == 61,
        spec_symbol_rate(Bandwidth::Bw125kHz, SpreadingFactor::Sf12) == 30,
        forall|bandwidth: Bandwidth, spreading_factor: SpreadingFactor|
            #[trigger] spec_symbol_rate(bandwidth, spreading_factor) == bandwidth.spec_hz() as int
                / vstd::arithmetic::power2::pow2(spreading_factor.spec_bits() as nat) as int,
{
    vstd::arithmetic::power2::lemma2_to64();
    assert(125_000nat / 128 == 976);
    assert(125_000nat / 1024 == 122);
    assert(125_000nat / 2048 == 61);
    assert(125_000nat / 4096 == 30);
}

/// The device modes are coded as in the datasheet's RegOpMode table: SLEEP 0, STDBY 1, FSTX 2,
/// TX 3, FSRX 4, RXCONTINUOUS 5, RXSINGLE 6, CAD 7; every code reads back as its mode.
pub proof fn lemma_device_mode_codes()
    ensures
        DeviceMode::SLEEP.spec_bits() == 0,
        DeviceMode::STDBY.spec_bits() == 1,
        DeviceMode::FSTX.spec_bits() == 2,
        DeviceMode::TX.spec_bits() == 3,
        DeviceMode::FSRX.spec_bits() == 4,
        DeviceMode::RXCONTINUOUS.spec_bits() == 5,
        DeviceMode::RXSINGLE.spec_bits() == 6,
        DeviceMode::CAD.spec_bits() == 7,
        forall|code: u8| code < 8 ==> #[trigger] DeviceMode::spec_from_bits(code).spec_bits() == code,
{
}

/// The bandwidths are coded 0 (7.8 kHz) to 9 (500 kHz) in increasing order of width, every
/// code reads back as its bandwidth, and a wider bandwidth has a larger code.
pub proof fn lemma_bandwidth_codes()
    ensures
        Bandwidth::Bw7_8kHz.spec_bits() == 0 && Bandwidth::Bw7_8kHz.spec_hz() == 7_800,
        Bandwidth::Bw10_4kHz.spec_bits() == 1 && Bandwidth::Bw10_4kHz.spec_hz() == 10_400,
        Bandwidth::Bw15_6kHz.spec_bits() == 2 && Bandwidth::Bw15_6kHz.spec_hz() == 15_600,
        Bandwidth::Bw20_8kHz.spec_bits() == 3 && Bandwidth::Bw20_8kHz.spec_hz() == 20_800,
        Bandwidth::Bw31_25kHz.spec_bits() == 4 && Bandwidth::Bw31_25kHz.spec_hz() == 31_250,
        Bandwidth::Bw41_7kHz.spec_bits() == 5 && Bandwidth::Bw41_7kHz.spec_hz() == 41_700,
        Bandwidth::Bw62_5kHz.spec_bits() == 6 && Bandwidth::Bw62_5kHz.spec_hz() == 62_500,
        Bandwidth::Bw125kHz.spec_bits() == 7 && Bandwidth::Bw125kHz.spec_hz() == 125_000,
        Bandwidth::Bw250kHz.spec_bits() == 8 && Bandwidth::Bw250kHz.spec_hz() == 250_000,
        Bandwidth::Bw500kHz.spec_bits() == 9 && Bandwidth::Bw500kHz.spec_hz() == 500_000,
        forall|code: u8| code <= 9 ==> #[trigger] Bandwidth::spec_from_bits(code).spec_bits() == code,
        forall|a: Bandwidth, b: Bandwidth|
            #![trigger a.spec_hz(), b.spec_hz()]
            a.spec_hz() < b.spec_hz() <==> a.spec_bits() < b.spec_bits(),
{
}

/// The coding rate 4/(4 + k) is coded k, for k from 1 to 4, and every code reads back as its
/// coding rate.
pub proof fn lemma_coding_rate_codes(coding_rate: CodingRate)
    ensures
        coding_rate.spec_denominator() == coding_rate.spec_bits() + 4,
        1 <= coding_rate.spec_bits() <= 4,
        CodingRate::Cr4_5.spec_denominator() == 5,
        CodingRate::Cr4_8.spec_denominator() == 8,
        forall|code: u8| 1 <= code <= 4 ==> #[trigger] CodingRate::spec_from_bits(code).spec_bits() == code,
{
}

/// The header mode bit is 1 for the implicit header mode and 0 for the explicit one.
pub proof fn lemma_header_mode_codes()
    ensures
        HeaderMode::Explicit.spec_bits() == 0,
        HeaderMode::Implicit.spec_bits() == 1,
        HeaderMode::spec_from_bits(0) == HeaderMode::Explicit,
        forall|code: u8| code != 0 ==> #[trigger] HeaderMode::spec_from_bits(code) == HeaderMode::Implicit,
{
}

/// The LNA gains G1 (highest) to G6 (lowest) are coded 1 to 6, and code 0 is left to the AGC.
pub proof fn lemma_lna_gain_codes()
    ensures
        LNAGain::Auto.spec_bits() == 0,
        LNAGain::G1.spec_bits() == 1,
        LNAGain::G2.spec_bits() == 2,
        LNAGain::G3.spec_bits() == 3,
        LNAGain::G4.spec_bits() == 4,
        LNAGain::G5.spec_bits() == 5,
        LNAGain::G6.spec_bits() == 6,
        forall|code: u8| 1 <= code <= 6 ==> #[trigger] LNAGain::spec_from_bits(code).spec_bits() == code,
{
}

/// The power amplifier ramp times are coded 0 (3.4 ms) to 15 (10 us), longest first, and every
/// code reads back as its ramp time.
pub proof fn lemma_power_ramp_codes()
    ensures
        PowerRamp::Ms3_4.spec_bits() == 0,
        PowerRamp::Ms2.spec_bits() == 1,
        PowerRamp::Ms1.spec_bits() == 2,
        PowerRamp::Us500.spec_bits() == 3,
        PowerRamp::Us250.spec_bits() == 4,
        PowerRamp::Us125.spec_bits() == 5,
        PowerRamp::Us100.spec_bits() == 6,
        PowerRamp::Us62.spec_bits() == 7,
        PowerRamp::Us50.spec_bits() == 8,
        PowerRamp::Us40.spec_bits() == 9,
        PowerRamp::Us31.spec_bits() == 10,
        PowerRamp::Us25.spec_bits() == 11,
        PowerRamp::Us20.spec_bits() == 12,
        PowerRamp::Us15.spec_bits() == 13,
        PowerRamp::Us12.spec_bits() == 14,
        PowerRamp::Us10.spec_bits() == 15,
        forall|code: u8| code <= 15 ==> #[trigger] PowerRamp::spec_from_bits(code).spec_bits() == code,
{
}

/// On PA_BOOST the output power is 2 dBm above the OutputPower field for every power from 2 to
/// 19 dBm, and the 20 dBm duty-cycled setting uses field 15; on the RFO pin the field is the
/// power itself.
pub proof fn lemma_output_power(power: u8)
    ensures
        2 <= power <= 19 ==> spec_output_power(power, false) + 2 == power,
        spec_output_power(20, false) == 15,
        spec_rfo_power(power) ==> spec_output_power(power, true) == power,
        spec_boost_power(power) <==> 2 <= power <= 20,
        spec_rfo_power(power) <==> power <= 15,
{
}

/// The RSSI constant is -157 dB for every carrier in the high band (from 779 MHz on) and -164 dB
/// below it, so an RSSI reading converts the same way on every carrier of a band.
pub proof fn lemma_rssi_band(frequency: Hz, other: Hz)
    ensures
        frequency >= 779_000_000 ==> spec_rssi_constant(frequency) == -157,
        frequency < 779_000_000 ==> spec_rssi_constant(frequency) == -164,
        frequency <= other ==> spec_rssi_constant(frequency) <= spec_rssi_constant(other),
{
}

/// The RSSI of a packet received with a negative SNR is the packet RSSI reading plus the SNR,
/// over the band constant; with a non-negative SNR it is 16/15 of the current RSSI reading
/// (rounded toward zero) over the band constant.
pub proof fn lemma_last_packet_rssi(frequency: Hz, last_packet_rssi: i16, last_packet_snr: i16, rssi: i16)
    ensures
        last_packet_snr < 0 ==> spec_last_packet_rssi_dbm(
            frequency,
            last_packet_rssi,
            last_packet_snr,
            rssi,
        ) == spec_rssi_constant(frequency) + last_packet_rssi + last_packet_snr,
        last_packet_snr >= 0 && rssi >= 0 ==> spec_last_packet_rssi_dbm(
            frequency,
            last_packet_rssi,
            last_packet_snr,
            rssi,
        ) == spec_rssi_constant(frequency) + (rssi * 16) / 15,
{
}

/// The trim code is the largest whose current does not exceed `imax`: 45 + 5 * trim mA up to
/// 120 mA, 10 * trim - 30 mA from there to 240 mA; 0 mA gives code 0 and anything above
/// 240 mA the top code 27.
pub proof fn lemma_ocp_trim_current(imax: u8)
    requires
        spec_ocp_imax_valid(imax),
    ensures
        45 <= imax <= 120 ==> 45 + 5 * spec_ocp_trim(imax) <= imax < 50 + 5 * spec_ocp_trim(imax),
        120 < imax <= 240 ==> 10 * spec_ocp_trim(imax) - 30 <= imax < 10 * spec_ocp_trim(imax)
            - 20,
        imax == 0 ==> spec_ocp_trim(imax) == 0,
        imax > 240 ==> spec_ocp_trim(imax) == 27,
{
}

/// The accepted ranges of the user settings: a single-reception timeout of 4 to 1023 symbols, a
/// preamble of at least 6 symbols, and the explicit header mode with every spreading factor but
/// SF6, which needs the implicit one.
pub proof fn lemma_setting_ranges(timeout: u16, length: u16, spreading_factor: SpreadingFactor)
    ensures
        spec_rx_timeout_symbols(timeout) <==> 4 <= timeout <= 1023,
        spec_preamble_length(length) <==> length >= 6,
        spec_header_mode_sf(HeaderMode::Implicit, spreading_factor),
        spec_header_mode_sf(HeaderMode::Explicit, spreading_factor) <==> spreading_factor
            != SpreadingFactor::Sf6,
{
}

} // verus!
