use sx127x::sx127xlora::calculate::{
    data_rate, last_packet_rssi_dbm, ocp_trim, rssi_constant, rssi_dbm, symbol_rate,
};
use sx127x::sx127xlora::constants::HF_MIN_HZ;
use sx127x::sx127xlora::types::{Bandwidth, CodingRate, SpreadingFactor};

#[test]
fn data_rate_ok() {
    let res = data_rate(1953, 6, CodingRate::Cr4_5);
    assert_eq!(res, 9374u16);
}

#[test]
fn data_rate_other_coding_rates() {
    assert_eq!(data_rate(976, 7, CodingRate::Cr4_6), 4554);
    assert_eq!(data_rate(976, 7, CodingRate::Cr4_7), 3904);
    assert_eq!(data_rate(976, 7, CodingRate::Cr4_8), 3416);
}

#[test]
fn data_rate_saturates() {
    assert_eq!(data_rate(u16::MAX, 12, CodingRate::Cr4_5), u16::MAX);
}

#[test]
fn last_packet_rssi_dbm_snr_negative() {
    assert_eq!(last_packet_rssi_dbm(HF_MIN_HZ - 1, 46, -2, 42), -120);
}

#[test]
fn last_packet_rssi_dbm_snr_positive() {
    assert_eq!(last_packet_rssi_dbm(HF_MIN_HZ, 46, 10, 42), -113);
}

#[test]
fn last_packet_rssi_dbm_negative_rssi_rounds_toward_zero() {
    assert_eq!(last_packet_rssi_dbm(HF_MIN_HZ, 0, 0, -1), -158);
}

#[test]
fn ocp_trim_imax_0() {
    let res = ocp_trim(0);
    assert_eq!(res, 0);
}

#[test]
fn ocp_trim_imax_45() {
    let res = ocp_trim(45);
    assert_eq!(res, 0);
}

#[test]
fn ocp_trim_imax_50() {
    let res = ocp_trim(50);
    assert_eq!(res, 1);
}

#[test]
fn ocp_trim_imax_120() {
    let res = ocp_trim(120);
    assert_eq!(res, 15);
}

#[test]
fn ocp_trim_imax_125() {
    let res = ocp_trim(125);
    assert_eq!(res, 15);
}

#[test]
fn ocp_trim_imax_130() {
    let res = ocp_trim(130);
    assert_eq!(res, 16);
}

#[test]
fn ocp_trim_imax_230() {
    let res = ocp_trim(230);
    assert_eq!(res, 26);
}

#[test]
fn ocp_trim_imax_240() {
    let res = ocp_trim(240);
    assert_eq!(res, 27);
}

#[test]
fn ocp_trim_imax_above_240() {
    assert_eq!(ocp_trim(241), 27);
    assert_eq!(ocp_trim(255), 27);
}

#[test]
fn rssi_constant_hf() {
    assert_eq!(rssi_constant(HF_MIN_HZ), -157);
}

#[test]
fn rssi_constant_lf() {
    assert_eq!(rssi_constant(HF_MIN_HZ - 1), -164);
}

#[test]
fn rssi_dbm_hf() {
    assert_eq!(rssi_dbm(HF_MIN_HZ, 42), -115);
}

#[test]
fn rssi_dbm_lf() {
    assert_eq!(rssi_dbm(HF_MIN_HZ - 1, 42), -122);
}

#[test]
fn symbol_rate_rounds_down() {
    assert_eq!(symbol_rate(Bandwidth::Bw125kHz, SpreadingFactor::Sf7), 976);
    assert_eq!(symbol_rate(Bandwidth::Bw500kHz, SpreadingFactor::Sf6), 7812);
    assert_eq!(symbol_rate(Bandwidth::Bw7_8kHz, SpreadingFactor::Sf12), 1);
}
