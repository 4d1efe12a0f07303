use sx127x::sx127xlora::types::{HeaderMode, SpreadingFactor};
use sx127x::sx127xlora::validate::{
    boost_power, header_mode_sf, preamble_length, rfo_power, rx_timeout_symbols, BOOST_POWER_MAX,
    BOOST_POWER_MIN, PREAMBLE_LENGTH_MIN, RFO_POWER_MAX, RX_TIMEOUT_SYMBOLS_MAX,
    RX_TIMEOUT_SYMBOLS_MIN,
};

#[test]
fn boost_power_low() {
    assert!(!boost_power(BOOST_POWER_MIN - 1));
}

#[test]
fn boost_power_high() {
    assert!(!boost_power(BOOST_POWER_MAX + 1))
}

#[test]
fn boost_power_ok() {
    assert!(boost_power(BOOST_POWER_MIN));
}

#[test]
fn preamble_length_low() {
    assert!(!preamble_length(PREAMBLE_LENGTH_MIN - 1));
}

#[test]
fn preamble_length_ok() {
    assert!(preamble_length(PREAMBLE_LENGTH_MIN));
}

#[test]
fn rfo_power_high() {
    assert!(!rfo_power(RFO_POWER_MAX + 1))
}

#[test]
fn rfo_power_ok() {
    assert!(rfo_power(RFO_POWER_MAX));
}

#[test]
fn rx_timeout_symbols_low() {
    assert!(!rx_timeout_symbols(RX_TIMEOUT_SYMBOLS_MIN - 1));
}

#[test]
fn rx_timeout_symbols_high() {
    assert!(!rx_timeout_symbols(RX_TIMEOUT_SYMBOLS_MAX + 1));
}

#[test]
fn rx_timeout_symbols_ok() {
    assert!(rx_timeout_symbols(RX_TIMEOUT_SYMBOLS_MIN + 1));
}

#[test]
fn header_mode_sf_rules() {
    assert!(!header_mode_sf(HeaderMode::Explicit, SpreadingFactor::Sf6));
    assert!(header_mode_sf(HeaderMode::Implicit, SpreadingFactor::Sf6));
    assert!(header_mode_sf(HeaderMode::Explicit, SpreadingFactor::Sf7));
    assert!(header_mode_sf(HeaderMode::Implicit, SpreadingFactor::Sf12));
}
