//! Items shared by both modems: bit-field helpers, SPI framing, carrier-frequency arithmetic
//! and chip constants.

use vstd::prelude::*;

pub mod error;

verus! {

/// A frequency in Hz.
pub type Hz = u32;

/// Identifies silicon version 1b.
pub const CHIP_VERSION: u8 = 0x12;
pub const DEFAULT_FREQUENCY_HZ: u32 = 434_000_000;
/// Crystal oscillator frequency.
pub const FXOSC_HZ: u32 = 32_000_000;
pub const LF_MAX_HZ: u32 = 525_000_000;
pub const HF_MIN_HZ: u32 = 779_000_000;
/// Denominator of the synthesizer step: FSTEP = FXOSC / 2^19.
pub const FRF_DIVISOR: u32 = 524_288;

/// The two modems of the chip, selected by the LongRangeMode bit of RegOpMode.
#[derive(Clone, Copy, Debug, PartialEq, Eq, Structural)]
pub enum Modem {
    Fsk,
    LoRa,
}

impl Modem {
    pub open spec fn spec_bits(self) -> u8 {
        match self {
            Modem::Fsk => 0x0,
            Modem::LoRa => 0x1,
        }
    }

    /// The value of the LongRangeMode bit that selects this modem.
    pub fn into_bits(self) -> (r: u8)
        ensures
            r == self.spec_bits(),
    {
        match self {
            Modem::Fsk => 0x0,
            Modem::LoRa => 0x1,
        }
    }
}

/// The field of `byte` selected by `mask`, shifted down to bit 0.
pub open spec fn spec_get_bits(byte: u8, mask: u8, lsb_offset: u8) -> u8 {
    (byte & mask) >> lsb_offset
}

/// `byte` with the bits under `mask` replaced by `bits` shifted up to `lsb_offset`.
pub open spec fn spec_set_bits(byte: u8, bits: u8, mask: u8, lsb_offset: u8) -> u8 {
    (byte & !mask) | ((bits << lsb_offset) & mask)
}

/// A field is `mask` laid at `lsb_offset`: no bit of `mask` lies below the offset.
pub open spec fn is_field(mask: u8, lsb_offset: u8) -> bool {
    &&& lsb_offset < 8
    &&& (mask >> lsb_offset) << lsb_offset == mask
}

/// `bits` fits into the field `mask` laid at `lsb_offset`.
pub open spec fn fits_field(bits: u8, mask: u8, lsb_offset: u8) -> bool {
    bits & (mask >> lsb_offset) == bits
}

/// Extracts the field selected by `mask` from `byte`, shifted down by `lsb_offset`.
pub fn get_bits(byte: u8, mask: u8, lsb_offset: u8) -> (r: u8)
    requires
        lsb_offset < 8,
    ensures
        r == spec_get_bits(byte, mask, lsb_offset),
{
    (byte & mask) >> lsb_offset
}

/// Replaces the field selected by `mask` in `byte` with `bits` shifted up by `lsb_offset`;
/// the bits of `bits` that fall outside `mask` are dropped.
pub fn set_bits(byte: &mut u8, bits: u8, mask: u8, lsb_offset: u8)
    requires
        lsb_offset < 8,
    ensures
        *final(byte) == spec_set_bits(*old(byte), bits, mask, lsb_offset),
{
    *byte &= !mask;
    *byte |= (bits << lsb_offset) & mask
}

/// Writing a field leaves every bit outside the field as it was.
pub proof fn lemma_set_bits_keeps_other_bits(byte: u8, bits: u8, mask: u8, lsb_offset: u8)
    requires
        lsb_offset < 8,
    ensures
        spec_set_bits(byte, bits, mask, lsb_offset) & !mask == byte & !mask,
{
    assert(((byte & !mask) | ((bits << lsb_offset) & mask)) & !mask == byte & !mask)
        by (bit_vector);
}

/// Reading a field back after writing it gives the value written, when the value fits the field.
pub proof fn lemma_get_bits_of_set_bits(byte: u8, bits: u8, mask: u8, lsb_offset: u8)
    requires
        is_field(mask, lsb_offset),
        fits_field(bits, mask, lsb_offset),
    ensures
        spec_get_bits(spec_set_bits(byte, bits, mask, lsb_offset), mask, lsb_offset) == bits,
{
    assert((((byte & !mask) | ((bits << lsb_offset) & mask)) & mask) >> lsb_offset == bits)
        by (bit_vector)
        requires
            lsb_offset < 8,
            (mask >> lsb_offset) << lsb_offset == mask,
            bits & (mask >> lsb_offset) == bits,
    ;
}

/// Writing a field twice is the same as writing it once with the second value.
pub proof fn lemma_set_bits_overwrites(byte: u8, first: u8, second: u8, mask: u8, lsb_offset: u8)
    requires
        lsb_offset < 8,
    ensures
        spec_set_bits(spec_set_bits(byte, first, mask, lsb_offset), second, mask, lsb_offset)
            == spec_set_bits(byte, second, mask, lsb_offset),
{
    assert(((((byte & !mask) | ((first << lsb_offset) & mask)) & !mask) | ((second << lsb_offset)
        & mask)) == ((byte & !mask) | ((second << lsb_offset) & mask))) by (bit_vector);
}

/// Writing back a field's current value leaves the byte unchanged.
pub proof fn lemma_set_bits_of_get_bits(byte: u8, mask: u8, lsb_offset: u8)
    requires
        is_field(mask, lsb_offset),
    ensures
        spec_set_bits(byte, spec_get_bits(byte, mask, lsb_offset), mask, lsb_offset) == byte,
{
    assert(((byte & !mask) | ((((byte & mask) >> lsb_offset) << lsb_offset) & mask)) == byte)
        by (bit_vector)
        requires
            lsb_offset < 8,
            (mask >> lsb_offset) << lsb_offset == mask,
    ;
}

/// The first byte of an SPI register access: the write-not-read bit (bit 7), then the
/// 7-bit register address.
pub open spec fn spec_access_byte(addr: u8, write: bool) -> u8 {
    if write {
        addr | 0x80
    } else {
        addr & 0x7f
    }
}

/// The two bytes clocked out to read the register at `addr`; the register's value comes back
/// in the second byte clocked in.
pub fn spi_read_frame(addr: u8) -> (r: [u8; 2])
    ensures
        r@ == seq![spec_access_byte(addr, false), 0u8],
{
    let r = [addr & 0x7f, 0];
    assert(r@ =~= seq![spec_access_byte(addr, false), 0u8]);
    r
}

/// The two bytes clocked out to write `data` to the register at `addr`.
pub fn spi_write_frame(addr: u8, data: u8) -> (r: [u8; 2])
    ensures
        r@ == seq![spec_access_byte(addr, true), data],
{
    let r = [addr | 0x80, data];
    assert(r@ =~= seq![spec_access_byte(addr, true), data]);
    r
}

/// The register value carried by the bytes clocked in during a read frame.
pub fn spi_read_value(received: &[u8; 2]) -> (r: u8)
    ensures
        r == received@[1],
{
    received[1]
}

/// A read frame and a write frame to the same address differ only in the write-not-read bit,
/// and both carry the address's low seven bits.
pub proof fn lemma_access_byte_bits(addr: u8)
    ensures
        spec_access_byte(addr, false) & 0x80 == 0,
        spec_access_byte(addr, true) & 0x80 == 0x80,
        spec_access_byte(addr, false) & 0x7f == addr & 0x7f,
        spec_access_byte(addr, true) & 0x7f == addr & 0x7f,
{
    assert((addr & 0x7f) & 0x80 == 0 && (addr | 0x80) & 0x80 == 0x80 && (addr & 0x7f) & 0x7f
        == addr & 0x7f && (addr | 0x80) & 0x7f == addr & 0x7f) by (bit_vector);
}

/// Owner of the SPI device through which registers are read and written.
pub struct Sx127xSpi<SPI> {
    pub spi: SPI,
}

impl<SPI> Sx127xSpi<SPI> {
    pub fn new(spi: SPI) -> (r: Self)
        ensures
            r.spi == spi,
    {
        Self { spi }
    }
}

/// The 24-bit RegFrf value for a carrier of `hz`: Frf = hz / FSTEP = hz * 2^19 / FXOSC,
/// rounded down.
pub open spec fn spec_frf(hz: int) -> int {
    (hz * FRF_DIVISOR) / (FXOSC_HZ as int)
}

/// The carrier frequency in Hz that the RegFrf value `frf` selects, rounded down.
pub open spec fn spec_frequency(frf: int) -> int {
    (frf * (FXOSC_HZ as int)) / (FRF_DIVISOR as int)
}

/// The synthesizer runs from a 32 MHz crystal in steps of 32 MHz / 2^19 (about 61 Hz): a
/// 434 MHz carrier is RegFrf 0x6c8000, a 915 MHz carrier 0xe4c000, and each RegFrf step adds
/// 61 or 62 Hz.
pub proof fn lemma_frf_scale(frf: int)
    requires
        0 <= frf,
    ensures
        spec_frf(434_000_000) == 0x6c8000,
        spec_frf(915_000_000) == 0xe4c000,
        spec_frequency(0x6c8000) == 434_000_000,
        spec_frequency(frf) == (frf * 32_000_000) / 524_288,
        61 <= spec_frequency(frf + 1) - spec_frequency(frf) <= 62,
{
    assert(spec_frequency(frf + 1) - spec_frequency(frf) <= 62) by (nonlinear_arith)
        requires
            frf >= 0,
            spec_frequency(frf + 1) == ((frf + 1) * 32_000_000) / 524_288,
            spec_frequency(frf) == (frf * 32_000_000) / 524_288,
    {
    }
    assert(spec_frequency(frf + 1) - spec_frequency(frf) >= 61) by (nonlinear_arith)
        requires
            frf >= 0,
            spec_frequency(frf + 1) == ((frf + 1) * 32_000_000) / 524_288,
            spec_frequency(frf) == (frf * 32_000_000) / 524_288,
    {
    }
}

/// The LongRangeMode bit selects the LoRa modem when 1 and the FSK/OOK modem when 0.
pub proof fn lemma_modem_codes()
    ensures
        Modem::Fsk.spec_bits() == 0,
        Modem::LoRa.spec_bits() == 1,
{
}

/// Computes the RegFrf value for a carrier of `hz`.
///
/// See: datasheet section 4.1.4
pub fn calculate_frf(hz: u32) -> (r: u32)
    ensures
        r == spec_frf(hz as int),
{
    let wide: u64 = hz as u64 * 524_288u64;
    assert(wide == hz * FRF_DIVISOR);
    let q: u64 = wide / 32_000_000u64;
    assert(q <= 70_368_744) by (nonlinear_arith)
        requires
            wide <= 2_251_799_813_160_960,
            q == wide / 32_000_000,
    ;
    q as u32
}

/// Computes the carrier frequency in Hz selected by the RegFrf value `frf`.
///
/// See: datasheet section 4.1.4
pub fn calculate_frequency(frf: u32) -> (r: Hz)
    requires
        frf < 0x100_0000,
    ensures
        r == spec_frequency(frf as int),
{
    let wide: u64 = frf as u64 * 32_000_000u64;
    let q: u64 = wide / 524_288u64;
    assert(q < 0x1_0000_0000u64) by (nonlinear_arith)
        requires
            wide == frf * 32_000_000,
            frf < 0x100_0000,
            q == wide / 524_288u64,
    ;
    q as u32
}

/// Setting a carrier and reading it back loses at most the rounding of one synthesizer step
/// (FSTEP, about 61 Hz): the value read back is at most the value set and at most 62 Hz below it.
pub proof fn lemma_frequency_of_frf(hz: u32)
    requires
        spec_frf(hz as int) < 0x100_0000,
    ensures
        spec_frequency(spec_frf(hz as int)) <= hz,
        hz <= spec_frequency(spec_frf(hz as int)) + 62,
{
    let f = spec_frf(hz as int);
    let h = hz as int;
    assert(f * 32_000_000 <= h * 524_288) by (nonlinear_arith)
        requires
            f == (h * 524_288) / 32_000_000,
            h >= 0,
    ;
    assert(h * 524_288 < f * 32_000_000 + 32_000_000) by (nonlinear_arith)
        requires
            f == (h * 524_288) / 32_000_000,
            h >= 0,
    ;
    assert((f * 32_000_000) / 524_288 <= h) by (nonlinear_arith)
        requires
            f * 32_000_000 <= h * 524_288,
            f >= 0,
    ;
    let g = (f * 32_000_000) / 524_288;
    assert(f * 32_000_000 < g * 524_288 + 524_288) by (nonlinear_arith)
        requires
            g == (f * 32_000_000) / 524_288,
            f >= 0,
    ;
    assert(h <= g + 62) by (nonlinear_arith)
        requires
            h * 524_288 < f * 32_000_000 + 32_000_000,
            f * 32_000_000 < g * 524_288 + 524_288,
    ;
}

/// The symbol rate Rs = BW / 2^SF in symbols/s, rounded down.
///
/// See: datasheet section 4.1.1.5
pub fn calculate_symbol_rate(bandwidth: u32, spreading_factor: u32) -> (r: u32)
    requires
        spreading_factor < 32,
    ensures
        r == bandwidth as nat / vstd::arithmetic::power2::pow2(spreading_factor as nat),
{
    proof {
        vstd::bits::lemma_u32_shr_is_div(bandwidth, spreading_factor);
    }
    bandwidth >> spreading_factor
}

/// The data rate in bits/s: SF * Rs * 4/`cr_denominator`, rounded down and capped at
/// `u16::MAX`.
pub open spec fn spec_data_rate(symbol_rate: u16, spreading_factor: u8, cr_denominator: u32) -> int {
    let rate = (symbol_rate * spreading_factor * 4) / (cr_denominator as int);
    if rate > u16::MAX {
        u16::MAX as int
    } else {
        rate
    }
}

/// The data rate in bits/s for a symbol rate, a spreading factor and a coding rate of
/// 4/`cr_denominator`.
pub fn calculate_data_rate(symbol_rate: u16, spreading_factor: u8, cr_denominator: u32) -> (r: u16)
    requires
        cr_denominator > 0,
    ensures
        r == spec_data_rate(symbol_rate, spreading_factor, cr_denominator),
{
    let sr = symbol_rate as u64;
    let sf = spreading_factor as u64;
    assert(sr * sf * 4 <= 65535 * 255 * 4) by (nonlinear_arith)
        requires
            sr <= 65535,
            sf <= 255,
    ;
    let product: u64 = sr * sf * 4;
    let rate: u64 = product / cr_denominator as u64;
    if rate > u16::MAX as u64 {
        u16::MAX
    } else {
        rate as u16
    }
}

} // verus!
