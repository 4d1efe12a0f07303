use sx127x::common::error::Sx127xError;
use sx127x::common::Modem;
use sx127x::sx127xlora::driver::{
    band_specific_op_mode, bandwidth_of, check_spreading_factor, clear_interrupt_value,
    coding_rate_of, counter_of, crc_of, detection_for, device_mode_of, fei_of, frequency_of,
    frf_registers, header_mode_of, hop_channel_of, interrupt_flag_of,
    invert_iq_registers, last_packet_snr_of, lna_register, ocp_register, preamble_registers,
    rx_coding_rate_of, rx_status_of, rx_termination_ok, rx_timeout_registers, spreading_factor_of,
    tx_pa_registers, with_agc_auto,
    with_automatic_if, with_bandwidth, with_coding_rate, with_crc, with_device_mode,
    with_dio_mapping, with_header_mode, with_interrupt_masked, with_interrupt_unmasked, with_modem,
    with_power_ramp, with_spreading_factor, RandomByte, RandomStep,
};
use sx127x::sx127xlora::registers::{
    DIO_MAPPING_1_DIO0_MASK, DIO_MAPPING_1_DIO0_OFFSET, IRQ_FLAGS_RX_DONE_MASK,
    IRQ_FLAGS_TX_DONE_MASK,
};
use sx127x::sx127xlora::types::{
    Bandwidth, CodingRate, DeviceMode, HeaderMode, LNAGain, PowerRamp, PreambleLength, RxStatus,
    SpreadingFactor, TimeoutSymbols, TxConfig, LNA, OCP,
};

#[test]
fn modem_config_1_fields_roundtrip() {
    let byte = with_bandwidth(0x72, Bandwidth::Bw250kHz);
    assert_eq!(byte, 0x82);
    assert_eq!(bandwidth_of(byte), Bandwidth::Bw250kHz);
    assert_eq!(coding_rate_of(byte), CodingRate::Cr4_5);
    let byte = with_coding_rate(byte, CodingRate::Cr4_8);
    assert_eq!(byte, 0x88);
    assert_eq!(coding_rate_of(byte), CodingRate::Cr4_8);
    let byte = with_header_mode(byte, HeaderMode::Implicit);
    assert_eq!(byte, 0x89);
    assert_eq!(header_mode_of(byte), HeaderMode::Implicit);
    assert_eq!(bandwidth_of(byte), Bandwidth::Bw250kHz);
}

#[test]
fn modem_config_2_fields_roundtrip() {
    let byte = with_spreading_factor(0x70, SpreadingFactor::Sf12);
    assert_eq!(byte, 0xc0);
    assert_eq!(spreading_factor_of(byte), SpreadingFactor::Sf12);
    let byte = with_crc(byte, true);
    assert_eq!(byte, 0xc4);
    assert!(crc_of(byte));
    assert!(!crc_of(with_crc(byte, false)));
}

#[test]
fn header_mode_needs_implicit_with_sf6() {
    assert!(matches!(
        check_spreading_factor::<()>(SpreadingFactor::Sf6, 0x72),
        Err(Sx127xError::SF6RequiresImplicitHeaderMode)
    ));
    assert!(check_spreading_factor::<()>(SpreadingFactor::Sf6, 0x73).is_ok());
    assert!(check_spreading_factor::<()>(SpreadingFactor::Sf9, 0x72).is_ok());
}

#[test]
fn detection_settings() {
    assert_eq!(detection_for(0xc3, SpreadingFactor::Sf6), (0xc5, 0x0c));
    assert_eq!(detection_for(0xc5, SpreadingFactor::Sf7), (0xc3, 0x0a));
}

#[test]
fn op_mode_fields() {
    let byte = with_device_mode(0x81, DeviceMode::RXSINGLE);
    assert_eq!(byte, 0x86);
    assert_eq!(device_mode_of(byte), DeviceMode::RXSINGLE);
    assert_eq!(with_modem(0x01, Modem::LoRa), 0x81);
    assert_eq!(with_modem(0x81, Modem::Fsk), 0x01);
    assert_eq!(band_specific_op_mode(0x81, 915_000_000), 0x89);
    assert_eq!(band_specific_op_mode(0x89, 434_000_000), 0x81);
}

#[test]
fn modem_config_3_and_detect_optimize_bits() {
    assert_eq!(with_agc_auto(0x00, true), 0x04);
    assert_eq!(with_agc_auto(0x0c, false), 0x08);
    assert_eq!(with_automatic_if(0x03, true), 0x83);
}

#[test]
fn dio_mapping() {
    assert_eq!(with_dio_mapping(0x3f, 0x1, DIO_MAPPING_1_DIO0_MASK, DIO_MAPPING_1_DIO0_OFFSET), 0x7f);
}

#[test]
fn lna_settings() {
    assert_eq!(lna_register(0x20, LNA::new(true, LNAGain::G1)), 0x21);
    assert_eq!(lna_register(0x20, LNA::new(false, LNAGain::Auto)), 0x20);
    assert_eq!(lna_register(0x23, LNA::new(false, LNAGain::G6)), 0xc0);
    let lna = LNA::from(0xc3);
    assert!(!lna.boost_hf);
    assert_eq!(lna.gain, LNAGain::G6);
    assert!(LNA::from(0x21).boost_hf);
}

#[test]
fn invert_iq() {
    assert_eq!(invert_iq_registers(0x27, true, false), (0x66, 0x19));
    assert_eq!(invert_iq_registers(0x27, false, false), (0x26, 0x1d));
}

#[test]
fn ocp_and_ramp() {
    assert_eq!(ocp_register(OCP::new(true, 100)), 0x2b);
    assert_eq!(ocp_register(OCP::new(false, 240)), 0x1b);
    assert_eq!(OCP::default().trim(), 11);
    assert_eq!(with_power_ramp(0x00, PowerRamp::Us40), 0x09);
}

#[test]
fn tx_config_power_mapping() {
    let rfo = TxConfig::new(OCP::default(), 15, PreambleLength::default(), PowerRamp::default(), true).unwrap();
    assert_eq!(rfo.power(), 15);
    assert_eq!(tx_pa_registers(&rfo), (0x7f, 0x04));
    let boost = TxConfig::new(OCP::default(), 20, PreambleLength::default(), PowerRamp::default(), false).unwrap();
    assert_eq!(boost.power(), 15);
    assert_eq!(tx_pa_registers(&boost), (0x8f, 0x04));
    let boost = TxConfig::new(OCP::default(), 17, PreambleLength::default(), PowerRamp::default(), false).unwrap();
    assert_eq!(boost.power(), 15);
    let boost = TxConfig::new(OCP::default(), 19, PreambleLength::default(), PowerRamp::default(), false).unwrap();
    assert_eq!(boost.power(), 17);
    assert!(matches!(
        TxConfig::new(OCP::default(), 16, PreambleLength::default(), PowerRamp::default(), true),
        Err(Sx127xError::InvalidInput)
    ));
    assert!(matches!(
        TxConfig::new(OCP::default(), 1, PreambleLength::default(), PowerRamp::default(), false),
        Err(Sx127xError::InvalidInput)
    ));
}

#[test]
fn preamble_and_timeout_registers() {
    assert_eq!(preamble_registers(PreambleLength::new(0x0123).unwrap()), (0x01, 0x23));
    assert_eq!(preamble_registers(PreambleLength::default()), (0x00, 0x08));
    assert!(matches!(PreambleLength::new(5), Err(Sx127xError::InvalidInput)));
    assert_eq!(rx_timeout_registers(0x74, &TimeoutSymbols::max()), (0x77, 0xff));
    assert_eq!(rx_timeout_registers(0x77, &TimeoutSymbols::min()), (0x74, 0x04));
    assert_eq!(rx_timeout_registers(0x70, &TimeoutSymbols::new(0x1ff).unwrap()), (0x71, 0xff));
    assert!(matches!(TimeoutSymbols::new(3), Err(Sx127xError::InvalidInput)));
    assert!(matches!(TimeoutSymbols::new(1024), Err(Sx127xError::InvalidInput)));
    assert_eq!(TimeoutSymbols::new(500).unwrap().value(), 500);
}

#[test]
fn frequency_registers() {
    assert_eq!(frf_registers(434_000_000), (0x6c, 0x80, 0x00));
    assert_eq!(frf_registers(915_000_000), (0xe4, 0xc0, 0x00));
    assert_eq!(frequency_of(0x6c, 0x80, 0x00), 434_000_000);
    assert_eq!(frequency_of(0xe4, 0xc0, 0x00), 915_000_000);
    assert_eq!(fei_of(0x0f, 0xff, 0xfe), 0x0f_fffe);
    assert_eq!(counter_of(0x01, 0x02), 0x0102);
}

#[test]
fn interrupt_helpers() {
    assert!(interrupt_flag_of(0x48, IRQ_FLAGS_TX_DONE_MASK));
    assert!(!interrupt_flag_of(0x40, IRQ_FLAGS_TX_DONE_MASK));
    assert_eq!(clear_interrupt_value(0x48, IRQ_FLAGS_TX_DONE_MASK), 0x08);
    assert_eq!(clear_interrupt_value(0x40, IRQ_FLAGS_TX_DONE_MASK), 0x00);
    assert_eq!(clear_interrupt_value(0xff, IRQ_FLAGS_TX_DONE_MASK), 0x08);
    assert_eq!(with_interrupt_masked(0x00, IRQ_FLAGS_RX_DONE_MASK), 0x40);
    assert_eq!(with_interrupt_unmasked(0xff, IRQ_FLAGS_RX_DONE_MASK), 0xbf);
}

#[test]
fn status_registers() {
    assert_eq!(hop_channel_of(0xc5), 0x05);
    assert_eq!(last_packet_snr_of(0xfc), -1);
    assert_eq!(last_packet_snr_of(0xf8), -2);
    assert_eq!(last_packet_snr_of(0xf9), -2);
    assert_eq!(last_packet_snr_of(0x80), -32);
    assert_eq!(last_packet_snr_of(0x28), 10);
    assert_eq!(rx_status_of(0xe1), RxStatus::SignalDetected);
    assert_eq!(rx_status_of(0x04), RxStatus::RxOnGoing);
    assert_eq!(rx_status_of(0x10), RxStatus::ModemClear);
    assert_eq!(rx_status_of(0x03), RxStatus::ModemClear);
    assert_eq!(rx_coding_rate_of(0x60), CodingRate::Cr4_7);
}

#[test]
fn rx_termination() {
    assert!(rx_termination_ok(0x00, 0x40));
    assert!(!rx_termination_ok(0x00, 0x80));
    assert!(rx_termination_ok(0x40, 0x80));
    assert!(!rx_termination_ok(0x40, 0x20));
    assert!(rx_termination_ok(0x00, 0x20));
}

#[test]
fn random_byte_von_neumann() {
    let mut random = RandomByte::new();
    // pairs: (0,0) skipped, then (1,0) -> 1, (0,1) -> 0, (1,1) skipped, and six more pairs.
    let samples: [u8; 20] = [0, 2, 3, 4, 6, 5, 7, 9, 1, 0, 0, 1, 1, 0, 0, 1, 1, 0, 0, 1];
    let mut result = None;
    for (i, &s) in samples.iter().enumerate() {
        match random.feed(s) {
            RandomStep::Sample => {}
            RandomStep::Done(b) => {
                result = Some((i, b));
                break;
            }
        }
    }
    assert_eq!(result, Some((19, 0b1010_1010)));
}

#[test]
fn chip_version_check() {
    assert!(sx127x::sx127xlora::driver::check_version::<()>(0x12).is_ok());
    assert!(matches!(
        sx127x::sx127xlora::driver::check_version::<()>(0x11),
        Err(Sx127xError::InvalidVersion)
    ));
}
