use sx127x::core_driver::Sx127x;
use sx127x::fsk::driver::{Sx127xFsk, Sx127xFskError};
use sx127x::fsk::types::DeviceMode as FskDeviceMode;
use sx127x::registers::{Reg, Register, RegIrqFlags, RegModemConfig1, RegModemConfig2};
use sx127x::types::{Bandwidth, CyclicErrorCoding, SpreadingFactor};

#[test]
fn drivers_hold_their_spi_device() {
    let core = Sx127x::new(3u8);
    assert_eq!(core.spi, 3);
    let fsk = Sx127xFsk::new(4u8);
    assert_eq!(fsk.spi.spi, 4);
    let error: Sx127xFskError<u8> = Sx127xFskError::SPI(1);
    assert!(matches!(error, Sx127xFskError::SPI(1)));
}

#[test]
fn fsk_device_mode_codes() {
    assert_eq!(FskDeviceMode::SLEEP.into_bits(), 0);
    assert_eq!(FskDeviceMode::RX.into_bits(), 5);
}

#[test]
fn register_addresses() {
    assert_eq!(Reg::IrqFlags.addr(), 0x12);
    assert_eq!(Reg::DioMapping2.addr(), 0x41);
    assert_eq!(<RegIrqFlags as Register>::addr(), 0x12);
    assert_eq!(<RegModemConfig1 as Register>::addr(), 0x1d);
}

#[test]
fn modem_config_registers() {
    let mut config_1 = RegModemConfig1::from_bits(0x72);
    config_1.set_bandwidth(Bandwidth::Bw500kHz);
    config_1.set_coding_rate(CyclicErrorCoding::Rate4_8);
    config_1.set_implicit_header_mode_on(true);
    assert_eq!(config_1.into_bits(), 0x99);
    assert_eq!(config_1.bandwidth(), 0x9);
    assert_eq!(config_1.coding_rate(), 0x4);
    assert!(config_1.implicit_header_mode_on());
    let mut config_2 = RegModemConfig2::from_bits(0x70);
    config_2.set_spreading_factor(SpreadingFactor::Factor12);
    config_2.set_rx_payload_crc_on(true);
    config_2.set_symbol_timeout(0x7);
    assert_eq!(config_2.into_bits(), 0xc7);
    assert_eq!(config_2.symbol_timeout(), 0x3);
}
