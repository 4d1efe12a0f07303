use sx127x::common::error::Sx127xError;
use sx127x::common::DEFAULT_FREQUENCY_HZ;
use sx127x::sx127xlora::registers::{PREAMBLE_LENGTH_DEFAULT, SYNC_WORD_DEFAULT};
use sx127x::sx127xlora::types::{
    Bandwidth, CodingRate, DeviceMode, HeaderMode, LNAGain, PowerRamp, PreambleLength, RxConfig,
    RxPacket, RxStatus, SpreadingFactor, Sx127xLoraConfig, TimeoutSymbols, IRQ, LNA, OCP,
    RxDone, TxDone, CadDetected,
};
use sx127x::sx127xlora::validate::{RX_TIMEOUT_SYMBOLS_MAX, RX_TIMEOUT_SYMBOLS_MIN};

#[test]
fn lora_crate_enum_decoding() {
    assert_eq!(Bandwidth::from(0x7), Bandwidth::Bw125kHz);
    assert_eq!(Bandwidth::from(0xa), Bandwidth::Bw125kHz);
    assert_eq!(Bandwidth::from(0x9), Bandwidth::Bw500kHz);
    assert_eq!(Bandwidth::Bw500kHz.hz(), 500_000);
    assert_eq!(CodingRate::from(0x3), CodingRate::Cr4_7);
    assert_eq!(CodingRate::from(0x0), CodingRate::Cr4_5);
    assert_eq!(DeviceMode::from(0x7), DeviceMode::CAD);
    assert_eq!(DeviceMode::from(0x8), DeviceMode::STDBY);
    assert_eq!(HeaderMode::from(0x0), HeaderMode::Explicit);
    assert_eq!(HeaderMode::from(0x2), HeaderMode::Implicit);
    assert_eq!(LNAGain::from(0x0), LNAGain::G1);
    assert_eq!(LNAGain::from(0x6), LNAGain::G6);
    assert_eq!(PowerRamp::from(0x9), PowerRamp::Us40);
    assert_eq!(PowerRamp::from(0xf), PowerRamp::Us10);
    assert_eq!(PowerRamp::from(0x10), PowerRamp::Us40);
    assert_eq!(SpreadingFactor::from(0x6), SpreadingFactor::Sf6);
    assert_eq!(SpreadingFactor::from(0xd), SpreadingFactor::Sf7);
    assert_eq!(RxStatus::from(0x01), RxStatus::SignalDetected);
    assert_eq!(RxStatus::from(0x08), RxStatus::HeaderInfoValid);
    assert_eq!(RxStatus::from(0x03), RxStatus::ModemClear);
}

#[test]
fn lora_crate_enum_codes_roundtrip() {
    for code in 0u8..=0xf {
        assert_eq!(PowerRamp::from(code).into_bits(), if code == 0x9 { 0x9 } else { code });
    }
    for bw in [Bandwidth::Bw7_8kHz, Bandwidth::Bw41_7kHz, Bandwidth::Bw500kHz] {
        assert_eq!(Bandwidth::from(bw.into_bits()), bw);
    }
}

#[test]
fn defaults() {
    assert_eq!(CodingRate::default(), CodingRate::Cr4_5);
    assert_eq!(DeviceMode::default(), DeviceMode::STDBY);
    assert_eq!(HeaderMode::default(), HeaderMode::Explicit);
    assert_eq!(LNAGain::default(), LNAGain::G1);
    assert_eq!(PowerRamp::default(), PowerRamp::Us40);
    assert_eq!(SpreadingFactor::default(), SpreadingFactor::Sf7);
    assert_eq!(RxStatus::default(), RxStatus::ModemClear);
    assert_eq!(LNA::default(), LNA::new(false, LNAGain::G1));
    assert_eq!(PreambleLength::default().value(), PREAMBLE_LENGTH_DEFAULT);
    let ocp = OCP::default();
    assert!(ocp.on);
    assert_eq!(ocp.imax, 100);
    let config = Sx127xLoraConfig::default();
    assert_eq!(config.frequency, DEFAULT_FREQUENCY_HZ);
    assert_eq!(config.sync_word, SYNC_WORD_DEFAULT);
    assert_eq!(config.spreading_factor, SpreadingFactor::Sf7);
    assert!(!config.use_crc);
}

#[test]
fn lora_config_sf6_needs_implicit_header() {
    let refused = Sx127xLoraConfig::new(
        Bandwidth::Bw125kHz,
        CodingRate::Cr4_5,
        868_000_000,
        HeaderMode::Explicit,
        SpreadingFactor::Sf6,
        0x12,
        false,
        true,
    );
    assert!(matches!(refused, Err(Sx127xError::InvalidInput)));
    let accepted = Sx127xLoraConfig::new(
        Bandwidth::Bw125kHz,
        CodingRate::Cr4_5,
        868_000_000,
        HeaderMode::Implicit,
        SpreadingFactor::Sf6,
        0x34,
        false,
        true,
    )
    .unwrap();
    assert_eq!(accepted.sync_word, 0x34);
    assert!(accepted.use_crc);
}

#[test]
fn timeout_symbols_bounds() {
    assert_eq!(TimeoutSymbols::max().value(), RX_TIMEOUT_SYMBOLS_MAX);
    assert_eq!(TimeoutSymbols::min().value(), RX_TIMEOUT_SYMBOLS_MIN);
}

#[test]
fn rx_config_and_packet() {
    let config = RxConfig::new(true, PreambleLength::new(12).unwrap());
    assert!(config.optimize_response());
    assert_eq!(config.preamble_length().value(), 12);
    assert_eq!(RxConfig::default().preamble_length().value(), PREAMBLE_LENGTH_DEFAULT);
    let packet = RxPacket::new(CodingRate::Cr4_6, [7; 128], -90, 5);
    assert_eq!(packet.payload[127], 7);
    assert_eq!(packet.rssi, -90);
    assert_eq!(packet.snr, 5);
    assert_eq!(packet.coding_rate, CodingRate::Cr4_6);
}

#[test]
fn irq_masks() {
    assert_eq!(<RxDone as IRQ>::MASK, 0x40);
    assert_eq!(<TxDone as IRQ>::MASK, 0x08);
    assert_eq!(<CadDetected as IRQ>::MASK, 0x01);
}
