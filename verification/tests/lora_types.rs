use sx127x::lora::types::{
    Bandwidth, CodingRate, DeviceMode, Interrupt, InvertIQ, LnaGain, LnaGainConfig, ModemStatus,
    OverCurrentProtection, PARamp, SpreadingFactor,
};

#[test]
fn invert_iq_from_u8_ok() {
    let byte = 0b100_0000;
    let invert_iq = InvertIQ::from(byte);
    assert!(invert_iq.rx_path);
    assert!(!invert_iq.tx_path);
}

#[test]
fn over_current_protection_from_u8_ok() {
    let byte = 0b11_0000;
    let ocp = OverCurrentProtection::from(byte);
    assert_eq!(true, ocp.on);
    assert_eq!(0x10, ocp.trim);
}

#[test]
fn lora_bandwidth_decoding() {
    assert_eq!(Bandwidth::from(0x0), Bandwidth::Bw7_8kHz);
    assert_eq!(Bandwidth::from(0x8), Bandwidth::Bw250kHz);
    assert_eq!(Bandwidth::from(0xf), Bandwidth::Bw500kHz);
    assert_eq!(Bandwidth::Bw41_7kHz.hz(), 41_700);
    assert_eq!(Bandwidth::default(), Bandwidth::Bw125kHz);
}

#[test]
fn lora_enum_fallbacks() {
    assert_eq!(CodingRate::from(0), CodingRate::Cr4_8);
    assert_eq!(DeviceMode::from(9), DeviceMode::CAD);
    assert_eq!(LnaGain::from(0), LnaGain::G6);
    assert_eq!(ModemStatus::from(0x16), ModemStatus::ModemClear);
    assert_eq!(ModemStatus::from(0x8), ModemStatus::HeaderInfoValid);
    assert_eq!(PARamp::from(0xf), PARamp::Us10);
    assert_eq!(SpreadingFactor::from(0xd), SpreadingFactor::Sf12);
}

#[test]
fn lna_gain_config_from_u8() {
    let config = LnaGainConfig::from(0b0110_0011);
    assert!(config.boost_hf);
    assert_eq!(config.gain, LnaGain::G3);
    assert!(!LnaGainConfig::from(0b0010_0001).boost_hf);
}

#[test]
fn interrupt_masks() {
    assert_eq!(Interrupt::CadDetected.mask(), 0x01);
    assert_eq!(Interrupt::TxDone.mask(), 0x08);
    assert_eq!(Interrupt::RxTimeout.mask(), 0x80);
}
