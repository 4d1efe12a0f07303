//! Calculators: over-current trim, RSSI in dBm, symbol and data rates.
use vstd::prelude::*;

use crate::common::Hz;
use crate::sx127xlora::constants::HF_MIN_HZ;
use crate::sx127xlora::types::{Bandwidth, CodingRate, SpreadingFactor};

verus! {

pub const RSSI_LF_CONSTANT: i16 = -164;
pub const RSSI_HF_CONSTANT: i16 = -157;

/// The OcpTrim code for a maximum current of `imax` mA: zero for zero, 45 + 5 * trim mA up to
/// 120 mA, -30 + 10 * trim mA up to 240 mA, and 27 above.
///
/// See: datasheet section 5.4.4
pub open spec fn spec_ocp_trim(imax: u8) -> u8 {
    if imax == 0 {
        0
    } else if imax <= 120 {
        ((imax - 45) / 5) as u8
    } else if imax <= 240 {
        ((imax + 30) / 10) as u8
    } else {
        27
    }
}

/// Currents below 45 mA (other than zero) have no trim code.
pub open spec fn spec_ocp_imax_valid(imax: u8) -> bool {
    imax == 0 || imax >= 45
}

/// Whether `imax` has a trim code.
pub fn ocp_imax_valid(imax: u8) -> (r: bool)
    ensures
        r == spec_ocp_imax_valid(imax),
{
    imax == 0 || imax >= 45
}

/// Computes the OcpTrim code for a maximum current of `imax` mA.
pub fn ocp_trim(imax: u8) -> (r: u8)
    requires
        spec_ocp_imax_valid(imax),
    ensures
        r == spec_ocp_trim(imax),
        r <= 27,
{
    if imax == 0 {
        0
    } else if imax <= 120 {
        (imax - 45) / 5
    } else if imax <= 240 {
        (((imax as u16) + 30) / 10) as u8
    } else {
        27
    }
}

/// The constant that turns a raw RSSI reading into dBm for the band of `frequency`.
///
/// See: datasheet section 5.5.5
pub open spec fn spec_rssi_constant(frequency: Hz) -> i16 {
    if frequency >= HF_MIN_HZ {
        RSSI_HF_CONSTANT
    } else {
        RSSI_LF_CONSTANT
    }
}

pub fn rssi_constant(frequency: Hz) -> (r: i16)
    ensures
        r == spec_rssi_constant(frequency),
{
    if frequency >= HF_MIN_HZ {
        RSSI_HF_CONSTANT
    } else {
        RSSI_LF_CONSTANT
    }
}

/// A raw RSSI reading converted to dBm.
pub fn rssi_dbm(frequency: Hz, rssi: i16) -> (r: i16)
    requires
        i16::MIN <= spec_rssi_constant(frequency) + rssi,
    ensures
        r == spec_rssi_constant(frequency) + rssi,
{
    rssi_constant(frequency) + rssi
}

/// Integer division rounding toward zero, as Rust's `/` does.
pub open spec fn spec_div_toward_zero(a: int, b: int) -> int {
    if a >= 0 {
        a / b
    } else {
        -((-a) / b)
    }
}

/// The RSSI in dBm of the last packet: for a positive SNR the corrected packet strength
/// 16/15 * RSSI, otherwise the packet RSSI plus the (negative) SNR.
///
/// See: datasheet section 5.5.5
pub open spec fn spec_last_packet_rssi_dbm(
    frequency: Hz,
    last_packet_rssi: i16,
    last_packet_snr: i16,
    rssi: i16,
) -> int {
    if last_packet_snr >= 0 {
        spec_rssi_constant(frequency) + spec_div_toward_zero(rssi * 16, 15)
    } else {
        spec_rssi_constant(frequency) + last_packet_rssi + last_packet_snr
    }
}

/// The inputs for which the computation stays within `i16`.
pub open spec fn spec_last_packet_rssi_in_range(
    frequency: Hz,
    last_packet_rssi: i16,
    last_packet_snr: i16,
    rssi: i16,
) -> bool {
    if last_packet_snr >= 0 {
        i16::MIN <= rssi * 16 <= i16::MAX
    } else {
        &&& i16::MIN <= spec_rssi_constant(frequency) + last_packet_rssi
        &&& i16::MIN <= spec_rssi_constant(frequency) + last_packet_rssi + last_packet_snr
    }
}

/// Computes the RSSI in dBm of the last packet received.
pub fn last_packet_rssi_dbm(frequency: Hz, last_packet_rssi: i16, last_packet_snr: i16, rssi: i16) -> (r: i16)
    requires
        spec_last_packet_rssi_in_range(frequency, last_packet_rssi, last_packet_snr, rssi),
    ensures
        r == spec_last_packet_rssi_dbm(frequency, last_packet_rssi, last_packet_snr, rssi),
{
    if last_packet_snr >= 0 {
        let scaled: i16 = rssi * 16 / 15;
        assert(scaled == spec_div_toward_zero(rssi * 16, 15));
        rssi_dbm(frequency, scaled)
    } else {
        rssi_dbm(frequency, last_packet_rssi) + last_packet_snr
    }
}

/// Computes the data rate in bits/s from the symbol rate, spreading factor and coding rate.
///
/// See: datasheet section 4.1.1.3
pub fn data_rate(symbol_rate: u16, spreading_factor: u8, coding_rate: CodingRate) -> (r: u16)
    ensures
        r == crate::common::spec_data_rate(
            symbol_rate,
            spreading_factor,
            coding_rate.spec_denominator(),
        ),
{
    crate::common::calculate_data_rate(symbol_rate, spreading_factor, coding_rate.denominator())
}

/// The symbol rate Rs = BW / 2^SF in symbols/s, rounded down.
///
/// See: datasheet section 4.1.1.5
pub open spec fn spec_symbol_rate(bandwidth: Bandwidth, spreading_factor: SpreadingFactor) -> int {
    (bandwidth.spec_hz() as nat / vstd::arithmetic::power2::pow2(spreading_factor.spec_bits() as nat)) as int
}

/// Computes the symbol rate of a bandwidth and spreading factor.
pub fn symbol_rate(bandwidth: Bandwidth, spreading_factor: SpreadingFactor) -> (r: u16)
    ensures
        r == spec_symbol_rate(bandwidth, spreading_factor),
{
    let sf = spreading_factor.into_bits();
    let hz = bandwidth.hz();
    let rate = crate::common::calculate_symbol_rate(hz, sf as u32);
    proof {
        vstd::arithmetic::power2::lemma2_to64();
        if sf > 6 {
            vstd::arithmetic::power2::lemma_pow2_strictly_increases(6, sf as nat);
        }
        vstd::arithmetic::div_mod::lemma_div_is_ordered_by_denominator(
            hz as int,
            64,
            vstd::arithmetic::power2::pow2(sf as nat) as int,
        );
    }
    rate as u16
}

} // verus!
