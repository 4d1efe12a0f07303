use sx127x::lora::types::{Dio0Signal, Interrupt};
use sx127x::registers::{RegDioMapping1, RegIrqFlags, RegModemStat, RegOpMode};
use sx127x::types::{DeviceMode, RxStatus};

#[test]
fn test_set_dio0() {
    let mut byte = RegDioMapping1::from_bits(0b0);
    byte.set_dio0(Dio0Signal::TxDone.into_bits());
    assert_eq!(byte.dio0(), Dio0Signal::TxDone.into_bits());
}

#[test]
fn test_clear_interrupt_cad_detected() {
    let mut byte = RegIrqFlags::from_bits(0b0);
    byte.clear_interrupt(Interrupt::CadDetected);
    assert_eq!(0b1, byte.into_bits());
}

#[test]
fn test_clear_interrupt_fhss_change_channel() {
    let mut byte = RegIrqFlags::from_bits(0b0);
    byte.clear_interrupt(Interrupt::FhssChangeChannel);
    assert_eq!(0b10, byte.into_bits());
}

#[test]
fn test_clear_interrupt_cad_done() {
    let mut byte = RegIrqFlags::from_bits(0b0);
    byte.clear_interrupt(Interrupt::CadDone);
    assert_eq!(0b100, byte.into_bits());
}

#[test]
fn test_clear_interrupt_tx_done() {
    let mut byte = RegIrqFlags::from_bits(0b0);
    byte.clear_interrupt(Interrupt::TxDone);
    assert_eq!(0b1000, byte.into_bits());
}

#[test]
fn test_clear_interrupt_valid_header() {
    let mut byte = RegIrqFlags::from_bits(0b0);
    byte.clear_interrupt(Interrupt::ValidHeader);
    assert_eq!(0b10000, byte.into_bits());
}

#[test]
fn test_clear_interrupt_payload_crc_error() {
    let mut byte = RegIrqFlags::from_bits(0b0);
    byte.clear_interrupt(Interrupt::PayloadCrcError);
    assert_eq!(0b100000, byte.into_bits());
}

#[test]
fn test_clear_interrupt_rx_done() {
    let mut byte = RegIrqFlags::from_bits(0b0);
    byte.clear_interrupt(Interrupt::RxDone);
    assert_eq!(0b1000000, byte.into_bits());
}

#[test]
fn test_clear_interrupt_rx_timeout() {
    let mut byte = RegIrqFlags::from_bits(0b0);
    byte.clear_interrupt(Interrupt::RxTimeout);
    assert_eq!(0b10000000, byte.into_bits());
}

#[test]
fn test_interrupt_triggered_cad_detected_false() {
    let byte = RegIrqFlags::from_bits(0b0);
    assert!(!byte.interrupt_triggered(Interrupt::CadDetected));
}

#[test]
fn test_interrupt_triggered_cad_detected_true() {
    let byte = RegIrqFlags::from_bits(0b1);
    assert!(byte.interrupt_triggered(Interrupt::CadDetected));
}

#[test]
fn test_interrupt_triggered_fhss_change_channel_false() {
    let byte = RegIrqFlags::from_bits(0b0);
    assert!(!byte.interrupt_triggered(Interrupt::FhssChangeChannel));
}

#[test]
fn test_interrupt_triggered_fhss_change_channel_true() {
    let byte = RegIrqFlags::from_bits(0b10);
    assert!(byte.interrupt_triggered(Interrupt::FhssChangeChannel));
}

#[test]
fn test_interrupt_triggered_cad_done_false() {
    let byte = RegIrqFlags::from_bits(0b0);
    assert!(!byte.interrupt_triggered(Interrupt::CadDone));
}

#[test]
fn test_interrupt_triggered_cad_done_true() {
    let byte = RegIrqFlags::from_bits(0b100);
    assert!(byte.interrupt_triggered(Interrupt::CadDone));
}

#[test]
fn test_interrupt_triggered_tx_done_false() {
    let byte = RegIrqFlags::from_bits(0b0);
    assert!(!byte.interrupt_triggered(Interrupt::TxDone));
}

#[test]
fn test_interrupt_triggered_tx_done_true() {
    let byte = RegIrqFlags::from_bits(0b1000);
    assert!(byte.interrupt_triggered(Interrupt::TxDone));
}

#[test]
fn test_interrupt_triggered_valid_header_false() {
    let byte = RegIrqFlags::from_bits(0b0);
    assert!(!byte.interrupt_triggered(Interrupt::ValidHeader));
}

#[test]
fn test_interrupt_triggered_valid_header_true() {
    let byte = RegIrqFlags::from_bits(0b10000);
    assert!(byte.interrupt_triggered(Interrupt::ValidHeader));
}

#[test]
fn test_interrupt_triggered_payload_crc_error_false() {
    let byte = RegIrqFlags::from_bits(0b0);
    assert!(!byte.interrupt_triggered(Interrupt::PayloadCrcError));
}

#[test]
fn test_interrupt_triggered_payload_crc_error_true() {
    let byte = RegIrqFlags::from_bits(0b100000);
    assert!(byte.interrupt_triggered(Interrupt::PayloadCrcError));
}

#[test]
fn test_interrupt_triggered_rx_done_false() {
    let byte = RegIrqFlags::from_bits(0b0);
    assert!(!byte.interrupt_triggered(Interrupt::RxDone));
}

#[test]
fn test_interrupt_triggered_rx_done_true() {
    let byte = RegIrqFlags::from_bits(0b1000000);
    assert!(byte.interrupt_triggered(Interrupt::RxDone));
}

#[test]
fn test_interrupt_triggered_rx_timeout_false() {
    let byte = RegIrqFlags::from_bits(0b0);
    assert!(!byte.interrupt_triggered(Interrupt::RxTimeout));
}

#[test]
fn test_interrupt_triggered_rx_timeout_true() {
    let byte = RegIrqFlags::from_bits(0b10000000);
    assert!(byte.interrupt_triggered(Interrupt::RxTimeout));
}

#[test]
fn clear_interrupt_keeps_other_flags() {
    let mut byte = RegIrqFlags::from_bits(0b0100_0001);
    byte.clear_interrupt(Interrupt::TxDone);
    assert_eq!(byte.into_bits(), 0b0100_1001);
    assert!(byte.interrupt_triggered(Interrupt::RxDone));
    assert!(!byte.interrupt_triggered(Interrupt::RxTimeout));
}

#[test]
fn rx_status_from_modem_stat_priority() {
    assert_eq!(RxStatus::from(RegModemStat::from_bits(0b0001_1111)), RxStatus::ModemClear);
    assert_eq!(RxStatus::from(RegModemStat::from_bits(0b0000_1100)), RxStatus::HeaderInfoValid);
    assert_eq!(RxStatus::from(RegModemStat::from_bits(0b0000_0011)), RxStatus::SignalSynchronized);
    assert_eq!(RxStatus::from(RegModemStat::from_bits(0b0000_0001)), RxStatus::SignalDetected);
    assert_eq!(RxStatus::from(RegModemStat::from_bits(0b1110_0000)), RxStatus::Unknown);
}

#[test]
fn op_mode_device_mode_roundtrip() {
    let mut op_mode = RegOpMode::from_bits(0b1000_0000);
    op_mode.set_mode(DeviceMode::RxSingle);
    assert_eq!(op_mode.into_bits(), 0b1000_0110);
    assert_eq!(op_mode.mode(), DeviceMode::RxSingle);
    assert!(op_mode.long_range_mode());
    assert_eq!(DeviceMode::from_bits(DeviceMode::Cad.into_bits()), DeviceMode::Cad);
}
