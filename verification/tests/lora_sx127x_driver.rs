use sx127x::lora::driver::{
    bandwidth_of, clear_interrupt_value, coding_rate_of, detection_for, device_mode_of, frf_of,
    last_packet_snr_of, modem_status_of, ocp_value, pa_boost_registers, pa_rfo_registers,
    preamble_registers,
    receive_timeout_registers, rx_termination_ok, spreading_factor_of,
    with_bandwidth, with_calibration_start, with_coding_rate, with_crc, with_device_mode,
    with_dio0, with_dio1, with_header_mode, with_interrupt_masked, with_interrupt_unmasked,
    with_invert_iq, with_lna_gain, with_long_range_mode, with_low_data_rate_optimize,
    with_spreading_factor, with_temp_monitor, Sx127xConfig, Sx127xLoraError, DEFAULT_FREQUENCY_HZ,
};
use sx127x::lora::types::{
    Bandwidth, CodingRate, DeviceMode, Dio0Signal, Dio1Signal, HeaderMode, Interrupt, LnaGain,
    ModemStatus, SpreadingFactor,
};

#[test]
fn sx127x_modem_config_fields() {
    let byte = with_bandwidth(0x72, Bandwidth::Bw500kHz);
    assert_eq!(byte, 0x92);
    assert_eq!(bandwidth_of(byte), Bandwidth::Bw500kHz);
    assert_eq!(bandwidth_of(0xf0), Bandwidth::Bw500kHz);
    let byte = with_coding_rate(byte, CodingRate::Cr4_6);
    assert_eq!(coding_rate_of(byte), CodingRate::Cr4_6);
    assert_eq!(with_header_mode(0x72, HeaderMode::Implicit), 0x73);
    let byte = with_spreading_factor(0x74, SpreadingFactor::Sf10);
    assert_eq!(byte, 0xa4);
    assert_eq!(spreading_factor_of(byte), SpreadingFactor::Sf10);
    assert_eq!(with_crc(0x70, true), 0x74);
    assert_eq!(with_low_data_rate_optimize(0x04, true), 0x0c);
    assert_eq!(detection_for(0xc3, SpreadingFactor::Sf6), (0xc5, 0x0c));
}

#[test]
fn sx127x_op_mode_fields() {
    let byte = with_device_mode(0x81, DeviceMode::TX);
    assert_eq!(byte, 0x83);
    assert_eq!(device_mode_of(byte), DeviceMode::TX);
    assert_eq!(with_long_range_mode(0x01, true), 0x81);
    assert_eq!(with_long_range_mode(0x81, false), 0x01);
    assert_eq!(with_calibration_start(0x02), 0x42);
    assert_eq!(with_temp_monitor(0x02, false), 0x03);
    assert_eq!(with_temp_monitor(0x02, true), 0x02);
}

#[test]
fn sx127x_interrupts_and_dio() {
    assert_eq!(clear_interrupt_value(0x40, Interrupt::TxDone), 0x00);
    assert_eq!(clear_interrupt_value(0x48, Interrupt::TxDone), 0x08);
    assert_eq!(clear_interrupt_value(0x01, Interrupt::RxTimeout), 0x00);
    assert_eq!(clear_interrupt_value(0xff, Interrupt::RxTimeout), 0x80);
    assert_eq!(with_interrupt_masked(0x00, Interrupt::RxTimeout), 0x80);
    assert_eq!(with_interrupt_unmasked(0xff, Interrupt::CadDetected), 0xfe);
    assert_eq!(with_dio0(0x00, Dio0Signal::TxDone), 0x40);
    assert_eq!(with_dio1(0xff, Dio1Signal::RxTimeout), 0xcf);
    assert_eq!(Dio0Signal::default(), Dio0Signal::RxDone);
    assert_eq!(Dio1Signal::Unmapped.into_bits(), 0x3);
}

#[test]
fn sx127x_status_values() {
    assert_eq!(frf_of(0x6c, 0x80, 0x00), 0x6c8000);
    assert_eq!(last_packet_snr_of(0x28), 10);
    assert_eq!(last_packet_snr_of(0xfc), -1);
    assert_eq!(last_packet_snr_of(0xf9), -2);
    assert_eq!(modem_status_of(0x04), ModemStatus::RxOnGoing);
    assert_eq!(modem_status_of(0x05), ModemStatus::ModemClear);
    assert!(rx_termination_ok(0x40, 0x00));
    assert!(!rx_termination_ok(0x40, 0x20));
    assert!(rx_termination_ok(0x00, 0x20));
    assert!(!rx_termination_ok(0x00, 0x10));
    assert!(!rx_termination_ok(0x00, 0x80));
}

#[test]
fn sx127x_tx_settings() {
    assert_eq!(ocp_value(true, 100), 0x2b);
    assert_eq!(ocp_value(false, 130), 16);
    assert_eq!(ocp_value(true, 87), 0x28);
    assert_eq!(pa_boost_registers(0x00, 20), (0xff, 0x87, 120));
    assert_eq!(pa_boost_registers(0x00, 17), (0xff, 0x84, 87));
    assert_eq!(pa_boost_registers(0x00, 2), (0xf0, 0x84, 87));
    assert_eq!(pa_rfo_registers(0xff, -4), (0x00, 0x84, 0x00));
    assert_eq!(pa_rfo_registers(0xff, 0), (0x04, 0x84, 0x00));
    assert_eq!(pa_rfo_registers(0x80, 15), (0x7f, 0x84, 0x00));
    assert_eq!(pa_rfo_registers(0x00, 1), (0x71, 0x84, 0x00));
    assert!(matches!(preamble_registers::<()>(5), Err(Sx127xLoraError::InvalidPreambleLength)));
    assert!(matches!(preamble_registers::<()>(0x1234), Ok((0x12, 0x34))));
}

#[test]
fn sx127x_receive_timeout() {
    assert!(matches!(receive_timeout_registers::<()>(0x70, 3), Err(Sx127xLoraError::InvalidSymbolTimeout)));
    assert!(matches!(receive_timeout_registers::<()>(0x70, 1024), Err(Sx127xLoraError::InvalidSymbolTimeout)));
    assert!(matches!(receive_timeout_registers::<()>(0x70, 0x3ff), Ok((0x73, 0xff))));
}

#[test]
fn sx127x_config_default() {
    let config = Sx127xConfig::default();
    assert_eq!(config.frequency, DEFAULT_FREQUENCY_HZ);
    assert_eq!(config.bandwidth, Bandwidth::Bw125kHz);
    assert_eq!(config.coding_rate, CodingRate::Cr4_5);
    assert_eq!(config.spreading_factor, SpreadingFactor::Sf7);
    assert_eq!(LnaGain::from(0x3), LnaGain::G3);
    assert_eq!(with_lna_gain(0x03, LnaGain::G2), 0x43);
    assert_eq!(with_invert_iq(0x27, true, false), 0x66);
}
