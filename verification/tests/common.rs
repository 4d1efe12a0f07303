use sx127x::common::{
    calculate_data_rate, calculate_frequency, calculate_frf, calculate_symbol_rate, get_bits,
    set_bits, spi_read_frame, spi_read_value, spi_write_frame, Sx127xSpi,
};

#[test]
fn calculate_data_rate_ok() {
    let data_rate = calculate_data_rate(1953, 6, 5);
    assert_eq!(data_rate, 9374u16);
}

#[test]
fn calculate_frf_ok() {
    let frf = calculate_frf(434_000_000);
    assert_eq!(frf, 0x6c8000);
}

#[test]
fn calculate_frf_rounds_down() {
    assert_eq!(calculate_frf(915_000_000), 0xe4c000);
    assert_eq!(calculate_frf(434_000_061), 0x6c8000);
    assert_eq!(calculate_frf(434_000_062), 0x6c8001);
}

#[test]
fn calculate_frequency_inverts_frf() {
    assert_eq!(calculate_frequency(0x6c8000), 434_000_000);
    assert_eq!(calculate_frequency(0x6c8001), 434_000_061);
    assert_eq!(calculate_frequency(calculate_frf(868_100_000)), 868_099_975);
}

#[test]
fn calculate_symbol_rate_ok() {
    let bandwidth = 125_000u32;
    let spreading_factor = 7u32;
    let symbol_rate = calculate_symbol_rate(bandwidth, spreading_factor);
    assert_eq!(symbol_rate, 976u32);
}

#[test]
fn get_bits_ok() {
    let byte = 0b1010_0011;
    assert_eq!(get_bits(byte, 0b111_0000, 4), 0b010);
}

#[test]
fn set_bits_ok() {
    let mut byte = 0b0011_0101;
    set_bits(&mut byte, 0b101, 0b1110, 1);
    assert_eq!(byte, 0b0011_1011);
}

#[test]
fn set_bits_then_get_bits_gives_value_back() {
    let mut byte = 0b1111_1111;
    set_bits(&mut byte, 0b01, 0b0011_0000, 4);
    assert_eq!(byte, 0b1101_1111);
    assert_eq!(get_bits(byte, 0b0011_0000, 4), 0b01);
}

#[test]
fn spi_frames() {
    assert_eq!(spi_read_frame(0x42), [0x42, 0]);
    assert_eq!(spi_read_frame(0xc2), [0x42, 0]);
    assert_eq!(spi_write_frame(0x01, 0x81), [0x81, 0x81]);
    assert_eq!(spi_read_value(&[0xff, 0x12]), 0x12);
}

#[test]
fn spi_holder_keeps_device() {
    let spi = Sx127xSpi::new(7u8);
    assert_eq!(spi.spi, 7);
}
