//! Calculators of the LoRa driver.
use vstd::prelude::*;

use crate::lora::types::CodingRate;

verus! {

/// Computes the data rate in bits/s from the symbol rate, spreading factor and coding rate.
pub fn data_rate(symbol_rate: u16, spreading_factor: u8, coding_rate: CodingRate) -> (r: u16)
    ensures
        r == crate::common::spec_data_rate(
            symbol_rate,
            spreading_factor,
            coding_rate.spec_denominator(),
        ),
{
    crate::common::calculate_data_rate(symbol_rate, spreading_factor, coding_rate.denominator())
}

/// The RegFrf code for a carrier of `hz`.
pub fn frf(hz: u32) -> (r: u32)
    ensures
        r == crate::common::spec_frf(hz as int),
{
    crate::common::calculate_frf(hz)
}

/// The symbol rate BW / 2^SF in symbols/s, rounded down.
pub fn symbol_rate(bandwidth: u32, spreading_factor: u32) -> (r: u32)
    requires
        spreading_factor < 32,
    ensures
        r == bandwidth as nat / vstd::arithmetic::power2::pow2(spreading_factor as nat),
{
    crate::common::calculate_symbol_rate(bandwidth, spreading_factor)
}

} // verus!
