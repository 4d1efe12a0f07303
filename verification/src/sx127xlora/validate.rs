//! Range checks on the inputs of the LoRa configuration types.
use vstd::prelude::*;

use crate::sx127xlora::types::{HeaderMode, SpreadingFactor};

verus! {

pub const BOOST_POWER_MIN: u8 = 2;
pub const BOOST_POWER_MAX: u8 = 20;
pub const RFO_POWER_MAX: u8 = 15;
pub const PREAMBLE_LENGTH_MIN: u16 = 6;
pub const RX_TIMEOUT_SYMBOLS_MIN: u16 = 4;
pub const RX_TIMEOUT_SYMBOLS_MAX: u16 = 1023;

pub open spec fn spec_boost_power(power: u8) -> bool {
    BOOST_POWER_MIN <= power <= BOOST_POWER_MAX
}

pub open spec fn spec_preamble_length(length: u16) -> bool {
    length >= PREAMBLE_LENGTH_MIN
}

pub open spec fn spec_rfo_power(power: u8) -> bool {
    power <= RFO_POWER_MAX
}

pub open spec fn spec_rx_timeout_symbols(symbols: u16) -> bool {
    RX_TIMEOUT_SYMBOLS_MIN <= symbols <= RX_TIMEOUT_SYMBOLS_MAX
}

/// Spreading factor 6 can only be used with the implicit header mode.
pub open spec fn spec_header_mode_sf(header_mode: HeaderMode, spreading_factor: SpreadingFactor) -> bool {
    spreading_factor == SpreadingFactor::Sf6 ==> header_mode == HeaderMode::Implicit
}

/// Whether `power` (dBm) can be output on the PA_BOOST pin.
pub fn boost_power(power: u8) -> (r: bool)
    ensures
        r == spec_boost_power(power),
{
    power >= BOOST_POWER_MIN && power <= BOOST_POWER_MAX
}

/// Whether `length` is a valid preamble length.
pub fn preamble_length(length: u16) -> (r: bool)
    ensures
        r == spec_preamble_length(length),
{
    length >= PREAMBLE_LENGTH_MIN
}

/// Whether `power` (dBm) can be output on the RFO pin.
pub fn rfo_power(power: u8) -> (r: bool)
    ensures
        r == spec_rfo_power(power),
{
    power <= RFO_POWER_MAX
}

/// Whether `symbols` is a valid RX timeout.
pub fn rx_timeout_symbols(symbols: u16) -> (r: bool)
    ensures
        r == spec_rx_timeout_symbols(symbols),
{
    symbols >= RX_TIMEOUT_SYMBOLS_MIN && symbols <= RX_TIMEOUT_SYMBOLS_MAX
}

/// Whether `header_mode` can be used with `spreading_factor`.
pub fn header_mode_sf(header_mode: HeaderMode, spreading_factor: SpreadingFactor) -> (r: bool)
    ensures
        r == spec_header_mode_sf(header_mode, spreading_factor),
{
    match spreading_factor {
        SpreadingFactor::Sf6 => match header_mode {
            HeaderMode::Implicit => true,
            HeaderMode::Explicit => false,
        },
        _ => true,
    }
}

} // verus!
