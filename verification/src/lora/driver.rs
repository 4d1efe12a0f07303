//! Errors, configuration and register-level decisions of the LoRa driver.
//!
//! Each driver command reads registers, decides, and writes registers. The functions here take
//! the bytes read and give the bytes to write (or the value to report); the SPI transfers
//! themselves belong to the caller.
use vstd::prelude::*;

use crate::common::{get_bits, set_bits, spec_get_bits, spec_set_bits};
use crate::lora::registers::{
    DETECT_OPTIMIZE_DETECTION_OPTIMIZE_MASK, DIO_MAPPING_1_DIO0_MASK, DIO_MAPPING_1_DIO0_SHIFT,
    DIO_MAPPING_1_DIO1_MASK, DIO_MAPPING_1_DIO1_SHIFT, HOP_CHANNEL_CRC_ON_PAYLOAD_MASK,
    INVERT_IQ_RX_MASK, INVERT_IQ_TX_MASK, LNA_GAIN_MASK, MODEM_CONFIG_1_BW_MASK,
    MODEM_CONFIG_1_CODING_RATE_MASK, MODEM_CONFIG_1_IMPLICIT_HEADER_MODE_ON_MASK,
    MODEM_CONFIG_2_RX_PAYLOAD_CRC_ON_MASK, MODEM_CONFIG_2_SPREADING_FACTOR_MASK,
    MODEM_CONFIG_2_SYMB_TIMEOUT_MASK, MODEM_CONFIG_3_LOW_DATA_RATE_OPTIMIZE_MASK,
    OCP_ON_MASK, OP_MODE_LONG_RANGE_MODE_MASK, OP_MODE_MODE_MASK, PA_CONFIG_MAX_POWER_MASK,
    PA_CONFIG_OUTPUT_POWER_MASK, PA_CONFIG_PA_SELECT_MASK,
};
use crate::lora::types::{
    Bandwidth, CodingRate, DeviceMode, Dio0Signal, Dio1Signal, HeaderMode, Interrupt, LnaGain,
    ModemStatus, PARamp, SpreadingFactor,
};

verus! {

pub const DEFAULT_FREQUENCY_HZ: u32 = 434_000_000;
/// The largest payload: the whole FIFO but one byte.
pub const PAYLOAD_SIZE: usize = 255;
pub const RX_TIMEOUT_MIN_SYMBOLS: u16 = 4;
pub const RX_TIMEOUT_MAX_SYMBOLS: u16 = 1023;

/// Errors of the LoRa driver; `SPI` is the error type of the SPI device.
#[derive(Debug)]
pub enum Sx127xLoraError<SPI> {
    InvalidPayloadLength,
    InvalidPreambleLength,
    InvalidState,
    InvalidSymbolTimeout,
    PacketTermination,
    SPI(SPI),
}

/// The settings the LoRa driver is initialized with.
pub struct Sx127xConfig {
    pub bandwidth: Bandwidth,
    pub coding_rate: CodingRate,
    /// The carrier in Hz.
    pub frequency: u32,
    pub spreading_factor: SpreadingFactor,
}

impl Default for Sx127xConfig {
    fn default() -> (r: Self)
        ensures
            r.bandwidth == Bandwidth::Bw125kHz,
            r.coding_rate == CodingRate::Cr4_5,
            r.frequency == DEFAULT_FREQUENCY_HZ,
            r.spreading_factor == SpreadingFactor::Sf7,
    {
        Self {
            bandwidth: Bandwidth::default(),
            coding_rate: CodingRate::default(),
            frequency: DEFAULT_FREQUENCY_HZ,
            spreading_factor: SpreadingFactor::default(),
        }
    }
}

pub open spec fn spec_bool_bit(on: bool) -> u8 {
    if on {
        1
    } else {
        0
    }
}

// Register fields -------------------------------------------------------------------------------
/// The bandwidth field of RegModemConfig1.
pub open spec fn spec_bandwidth_of(modem_config_1: u8) -> Bandwidth {
    Bandwidth::spec_from_bits((modem_config_1 & MODEM_CONFIG_1_BW_MASK) >> 4u8)
}

/// The coding rate field of RegModemConfig1.
pub open spec fn spec_coding_rate_of(modem_config_1: u8) -> CodingRate {
    CodingRate::spec_from_bits(spec_get_bits(modem_config_1, MODEM_CONFIG_1_CODING_RATE_MASK, 1))
}

/// The spreading factor field of RegModemConfig2.
pub open spec fn spec_spreading_factor_of(modem_config_2: u8) -> SpreadingFactor {
    SpreadingFactor::spec_from_bits(
        spec_get_bits(modem_config_2, MODEM_CONFIG_2_SPREADING_FACTOR_MASK, 4),
    )
}

/// The mode field of RegOpMode.
pub open spec fn spec_device_mode_of(op_mode: u8) -> DeviceMode {
    DeviceMode::spec_from_bits(spec_get_bits(op_mode, OP_MODE_MODE_MASK, 0))
}

/// The bandwidth configured in RegModemConfig1.
pub fn bandwidth_of(modem_config_1: u8) -> (r: Bandwidth)
    ensures
        r == spec_bandwidth_of(modem_config_1),
{
    Bandwidth::from((modem_config_1 & MODEM_CONFIG_1_BW_MASK) >> 4)
}

/// The coding rate configured in RegModemConfig1.
pub fn coding_rate_of(modem_config_1: u8) -> (r: CodingRate)
    ensures
        r == spec_coding_rate_of(modem_config_1),
{
    CodingRate::from(get_bits(modem_config_1, MODEM_CONFIG_1_CODING_RATE_MASK, 1))
}

/// The spreading factor configured in RegModemConfig2.
pub fn spreading_factor_of(modem_config_2: u8) -> (r: SpreadingFactor)
    ensures
        r == spec_spreading_factor_of(modem_config_2),
{
    SpreadingFactor::from(get_bits(modem_config_2, MODEM_CONFIG_2_SPREADING_FACTOR_MASK, 4))
}

/// The device mode held in RegOpMode.
pub fn device_mode_of(op_mode: u8) -> (r: DeviceMode)
    ensures
        r == spec_device_mode_of(op_mode),
{
    DeviceMode::from(get_bits(op_mode, OP_MODE_MODE_MASK, 0))
}

/// RegModemConfig1 with its bandwidth field set.
///
/// See: datasheet section 4.1.1.4
pub fn with_bandwidth(modem_config_1: u8, bandwidth: Bandwidth) -> (r: u8)
    ensures
        r == spec_set_bits(modem_config_1, bandwidth.spec_bits(), MODEM_CONFIG_1_BW_MASK, 4),
{
    let mut byte = modem_config_1;
    set_bits(&mut byte, bandwidth.into_bits(), MODEM_CONFIG_1_BW_MASK, 4);
    byte
}

/// RegModemConfig1 with its coding rate field set.
///
/// See: datasheet section 4.1.1.3
pub fn with_coding_rate(modem_config_1: u8, coding_rate: CodingRate) -> (r: u8)
    ensures
        r == spec_set_bits(
            modem_config_1,
            coding_rate.spec_bits(),
            MODEM_CONFIG_1_CODING_RATE_MASK,
            1,
        ),
{
    let mut byte = modem_config_1;
    set_bits(&mut byte, coding_rate.into_bits(), MODEM_CONFIG_1_CODING_RATE_MASK, 1);
    byte
}

/// RegModemConfig1 with its header mode bit set.
///
/// See: datasheet section 4.1.1.6
pub fn with_header_mode(modem_config_1: u8, mode: HeaderMode) -> (r: u8)
    ensures
        r == spec_set_bits(
            modem_config_1,
            mode.spec_bits(),
            MODEM_CONFIG_1_IMPLICIT_HEADER_MODE_ON_MASK,
            0,
        ),
{
    let mut byte = modem_config_1;
    set_bits(&mut byte, mode.into_bits(), MODEM_CONFIG_1_IMPLICIT_HEADER_MODE_ON_MASK, 0);
    byte
}

/// RegModemConfig2 with its payload CRC flag set.
///
/// See: section 4.1.1.6
pub fn with_crc(modem_config_2: u8, on: bool) -> (r: u8)
    ensures
        r == spec_set_bits(
            modem_config_2,
            spec_bool_bit(on),
            MODEM_CONFIG_2_RX_PAYLOAD_CRC_ON_MASK,
            2,
        ),
{
    let mut byte = modem_config_2;
    set_bits(&mut byte, if on { 1 } else { 0 }, MODEM_CONFIG_2_RX_PAYLOAD_CRC_ON_MASK, 2);
    byte
}

/// RegModemConfig2 with its spreading factor field set.
///
/// See: datasheet section 4.1.1.2
pub fn with_spreading_factor(modem_config_2: u8, spreading_factor: SpreadingFactor) -> (r: u8)
    ensures
        r == spec_set_bits(
            modem_config_2,
            spreading_factor.spec_bits(),
            MODEM_CONFIG_2_SPREADING_FACTOR_MASK,
            4,
        ),
{
    let mut byte = modem_config_2;
    set_bits(&mut byte, spreading_factor.into_bits(), MODEM_CONFIG_2_SPREADING_FACTOR_MASK, 4);
    byte
}

/// The new RegDetectOptimize and the RegDetectionThreshold value for `spreading_factor`:
/// DetectionOptimize 0x5 and threshold 0x0c for SF6, 0x3 and 0x0a otherwise.
pub fn detection_for(detect_optimize: u8, spreading_factor: SpreadingFactor) -> (r: (u8, u8))
    ensures
        spreading_factor == SpreadingFactor::Sf6 ==> r == ((detect_optimize
            & !DETECT_OPTIMIZE_DETECTION_OPTIMIZE_MASK) | 0x5, 0x0cu8),
        spreading_factor != SpreadingFactor::Sf6 ==> r == ((detect_optimize
            & !DETECT_OPTIMIZE_DETECTION_OPTIMIZE_MASK) | 0x3, 0x0au8),
{
    let byte = detect_optimize & !DETECT_OPTIMIZE_DETECTION_OPTIMIZE_MASK;
    if spreading_factor == SpreadingFactor::Sf6 {
        (byte | 0x5, 0x0c)
    } else {
        (byte | 0x3, 0x0a)
    }
}

/// RegModemConfig3 with the LowDataRateOptimize flag set.
///
/// See: datasheet section 4.1.1.6
pub fn with_low_data_rate_optimize(modem_config_3: u8, on: bool) -> (r: u8)
    ensures
        r == spec_set_bits(
            modem_config_3,
            spec_bool_bit(on),
            MODEM_CONFIG_3_LOW_DATA_RATE_OPTIMIZE_MASK,
            3,
        ),
{
    let mut byte = modem_config_3;
    set_bits(&mut byte, if on { 1 } else { 0 }, MODEM_CONFIG_3_LOW_DATA_RATE_OPTIMIZE_MASK, 3);
    byte
}

/// RegOpMode with its mode field set.
///
/// See: datasheet section 2.1.4
pub fn with_device_mode(op_mode: u8, device_mode: DeviceMode) -> (r: u8)
    ensures
        r == spec_set_bits(op_mode, device_mode.spec_bits(), OP_MODE_MODE_MASK, 0),
{
    let mut byte = op_mode;
    set_bits(&mut byte, device_mode.into_bits(), OP_MODE_MODE_MASK, 0);
    byte
}

/// RegOpMode selecting the LoRa modem when `on`, the FSK/OOK modem otherwise.
pub fn with_long_range_mode(op_mode: u8, on: bool) -> (r: u8)
    ensures
        r == spec_set_bits(op_mode, spec_bool_bit(on), OP_MODE_LONG_RANGE_MODE_MASK, 7),
{
    let mut byte = op_mode;
    set_bits(&mut byte, if on { 1 } else { 0 }, OP_MODE_LONG_RANGE_MODE_MASK, 7);
    byte
}

/// RegImageCal with ImageCalStart set, which starts the IQ and RSSI calibration.
pub fn with_calibration_start(image_cal: u8) -> (r: u8)
    ensures
        r == image_cal | 0x40,
{
    image_cal | 0x40
}

/// RegImageCal with TempMonitorOff (bit 0) raised when the monitor is to be off; a raised bit is
/// never lowered.
///
/// See: datasheet section 2.1.3.8
pub fn with_temp_monitor(image_cal: u8, on: bool) -> (r: u8)
    ensures
        r == image_cal | (if on { 0u8 } else { 1u8 }),
{
    image_cal | (!on as u8)
}

/// The value written back to RegIrqFlags to clear `interrupt`: its flag as read. The register
/// clears the flags written as 1, so a raised flag of `interrupt` is cleared and every other
/// flag stays as it is.
///
/// See: datasheet section 4.1.2.4
pub fn clear_interrupt_value(irq_flags: u8, interrupt: Interrupt) -> (r: u8)
    ensures
        r == irq_flags & interrupt.spec_mask(),
        r & !interrupt.spec_mask() == 0,
{
    let r = irq_flags & interrupt.mask();
    let m = interrupt.mask();
    assert((irq_flags & m) & !m == 0) by (bit_vector);
    r
}

/// RegIrqFlagsMask with `interrupt` masked.
pub fn with_interrupt_masked(irq_flags_mask: u8, interrupt: Interrupt) -> (r: u8)
    ensures
        r == irq_flags_mask | interrupt.spec_mask(),
{
    irq_flags_mask | interrupt.mask()
}

/// RegIrqFlagsMask with `interrupt` unmasked.
pub fn with_interrupt_unmasked(irq_flags_mask: u8, interrupt: Interrupt) -> (r: u8)
    ensures
        r == irq_flags_mask & !interrupt.spec_mask(),
{
    irq_flags_mask & !interrupt.mask()
}

/// RegDioMapping1 with pin DIO0 mapped to `signal`.
pub fn with_dio0(dio_mapping_1: u8, signal: Dio0Signal) -> (r: u8)
    ensures
        r == spec_set_bits(
            dio_mapping_1,
            signal.spec_bits(),
            DIO_MAPPING_1_DIO0_MASK,
            DIO_MAPPING_1_DIO0_SHIFT,
        ),
{
    let mut byte = dio_mapping_1;
    set_bits(&mut byte, signal.into_bits(), DIO_MAPPING_1_DIO0_MASK, DIO_MAPPING_1_DIO0_SHIFT);
    byte
}

/// RegDioMapping1 with pin DIO1 mapped to `signal`.
pub fn with_dio1(dio_mapping_1: u8, signal: Dio1Signal) -> (r: u8)
    ensures
        r == spec_set_bits(
            dio_mapping_1,
            signal.spec_bits(),
            DIO_MAPPING_1_DIO1_MASK,
            DIO_MAPPING_1_DIO1_SHIFT,
        ),
{
    let mut byte = dio_mapping_1;
    set_bits(&mut byte, signal.into_bits(), DIO_MAPPING_1_DIO1_MASK, DIO_MAPPING_1_DIO1_SHIFT);
    byte
}

/// RegInvertIQ with the RX path (bit 6) and TX path (bit 0) inversion set.
///
/// See: datasheet section 2.1.3.8
pub fn with_invert_iq(invert_iq: u8, rx_path: bool, tx_path: bool) -> (r: u8)
    ensures
        r == spec_set_bits(
            spec_set_bits(invert_iq, spec_bool_bit(rx_path), INVERT_IQ_RX_MASK, 6),
            spec_bool_bit(tx_path),
            INVERT_IQ_TX_MASK,
            0,
        ),
{
    let mut byte = invert_iq;
    set_bits(&mut byte, if rx_path { 1 } else { 0 }, INVERT_IQ_RX_MASK, 6);
    set_bits(&mut byte, if tx_path { 1 } else { 0 }, INVERT_IQ_TX_MASK, 0);
    byte
}

/// RegLna with its gain field set.
///
/// See: datasheet page 110
pub fn with_lna_gain(lna: u8, gain: LnaGain) -> (r: u8)
    ensures
        r == spec_set_bits(lna, gain.spec_bits(), LNA_GAIN_MASK, 5),
{
    let mut byte = lna;
    set_bits(&mut byte, gain.into_bits(), LNA_GAIN_MASK, 5);
    byte
}

/// The RegFrf code held in RegFrfMsb, RegFrfMid and RegFrfLsb.
pub fn frf_of(msb: u8, mid: u8, lsb: u8) -> (r: u32)
    ensures
        r == msb * 65536 + mid * 256 + lsb,
{
    let r = ((msb as u32) << 16) | ((mid as u32) << 8) | (lsb as u32);
    assert(r == msb * 65536 + mid * 256 + lsb) by (bit_vector)
        requires
            r == ((msb as u32) << 16) | ((mid as u32) << 8) | (lsb as u32),
    ;
    r
}

/// The SNR in dB of the last packet: RegPktSnrValue read as a signed byte and divided by four,
/// rounding down.
///
/// See: datasheet section 3.5.5
pub fn last_packet_snr_of(pkt_snr_value: u8) -> (r: i8)
    ensures
        r == (pkt_snr_value as i8) as int / 4,
{
    let v = pkt_snr_value as i8;
    let r = v >> 2;
    assert(r == (v as int) / 4) by (bit_vector)
        requires
            r == v >> 2,
    ;
    r
}

/// The modem status held in RegModemStat.
pub fn modem_status_of(modem_stat: u8) -> (r: ModemStatus)
    ensures
        r == ModemStatus::spec_from_bits(modem_stat),
{
    ModemStatus::from(modem_stat)
}

// Reception -------------------------------------------------------------------------------------
/// A packet ended well when, with a payload CRC, none of the upper four IRQ flags is raised,
/// and otherwise none of RxTimeout, RxDone and ValidHeader.
pub open spec fn spec_rx_termination_ok(hop_channel: u8, irq_flags: u8) -> bool {
    let bits = irq_flags >> 4u8;
    if spec_get_bits(hop_channel, HOP_CHANNEL_CRC_ON_PAYLOAD_MASK, 6) == 1 {
        bits & 0xf == 0
    } else {
        bits & 0xc == 0 && bits & 0x1 == 0
    }
}

/// Whether the packet in the FIFO ended well, judged from RegHopChannel and RegIrqFlags.
///
/// See: datasheet figure 10
pub fn rx_termination_ok(hop_channel: u8, irq_flags: u8) -> (r: bool)
    ensures
        r == spec_rx_termination_ok(hop_channel, irq_flags),
{
    let crc_on_payload = get_bits(hop_channel, HOP_CHANNEL_CRC_ON_PAYLOAD_MASK, 6) == 1;
    let irq_flags_bits = irq_flags >> 4;
    if crc_on_payload {
        irq_flags_bits & 0xf == 0
    } else {
        irq_flags_bits & 0xc == 0 && irq_flags_bits & 0x1 == 0
    }
}

/// Checks a single-reception `timeout` and gives the RegModemConfig2 carrying its bits 9-8 and
/// the RegSymbTimeoutLsb value carrying bits 7-0.
///
/// See: datasheet pages 40-42
pub fn receive_timeout_registers<E>(modem_config_2: u8, timeout: u16) -> (r: Result<
    (u8, u8),
    Sx127xLoraError<E>,
>)
    ensures
        r is Ok <==> RX_TIMEOUT_MIN_SYMBOLS <= timeout <= RX_TIMEOUT_MAX_SYMBOLS,
        r matches Err(e) ==> e is InvalidSymbolTimeout,
        r matches Ok(v) ==> {
            &&& v.0 == spec_set_bits(
                modem_config_2,
                (timeout >> 8u16) as u8,
                MODEM_CONFIG_2_SYMB_TIMEOUT_MASK,
                0,
            )
            &&& v.1 == (timeout & 0xffu16) as u8
            &&& spec_get_bits(v.0, MODEM_CONFIG_2_SYMB_TIMEOUT_MASK, 0) * 256 + v.1 == timeout
        },
{
    if timeout < RX_TIMEOUT_MIN_SYMBOLS || timeout > RX_TIMEOUT_MAX_SYMBOLS {
        return Err(Sx127xLoraError::InvalidSymbolTimeout);
    }
    let hi = (timeout >> 8) as u8;
    let mut byte = modem_config_2;
    set_bits(&mut byte, hi, MODEM_CONFIG_2_SYMB_TIMEOUT_MASK, 0);
    let lsb = (timeout & 0xff) as u8;
    assert(((byte & 3u8) >> 0u8) * 256 + lsb == timeout) by (bit_vector)
        requires
            timeout <= 1023,
            hi == (timeout >> 8) as u8,
            lsb == (timeout & 0xff) as u8,
            byte == (modem_config_2 & !3u8) | ((hi << 0u8) & 3u8),
    ;
    Ok((byte, lsb))
}

// Transmission ----------------------------------------------------------------------------------
/// The OcpTrim code for a maximum current of `imax` mA, as this driver computes it.
pub open spec fn spec_ocp_trim(imax: u8) -> int {
    if imax < 130 {
        (imax - 45) / 5
    } else {
        (imax + 30) / 10
    }
}

/// The RegOcp value for over-current protection `on` with a maximum of `imax` mA: the OcpOn bit
/// over the trim code.
///
/// See: datasheet section 3.4.4
pub fn ocp_value(on: bool, imax: u8) -> (r: u8)
    requires
        45 <= imax <= 225,
    ensures
        r == (spec_bool_bit(on) << 5u8) | (spec_ocp_trim(imax) as u8),
        spec_ocp_trim(imax) <= 25,
{
    let trim = if imax < 130 {
        (imax - 45) / 5
    } else {
        (imax + 30) / 10
    };
    ((on as u8) << 5) | trim
}

/// The duty-cycled 20 dBm setting or a continuous 2 to 17 dBm.
pub open spec fn spec_pa_boost_power_valid(power: u8) -> bool {
    power == 20 || (2 <= power && power <= 17)
}

/// RegPaConfig selecting PA_BOOST at maximum power with the OutputPower for `power` dBm, the
/// RegPaDac value, and the current limit in mA to protect it with.
///
/// See: datasheet section 3.4.2
pub fn pa_boost_registers(pa_config: u8, power: u8) -> (r: (u8, u8, u8))
    requires
        spec_pa_boost_power_valid(power),
    ensures
        r.0 == spec_set_bits(
            spec_set_bits(
                spec_set_bits(pa_config, 1, PA_CONFIG_PA_SELECT_MASK, 7),
                7,
                PA_CONFIG_MAX_POWER_MASK,
                4,
            ),
            if power == 20 { 15u8 } else { (power - 2) as u8 },
            PA_CONFIG_OUTPUT_POWER_MASK,
            0,
        ),
        r.1 == (if power == 20 { 0x87u8 } else { 0x84u8 }),
        r.2 == (if power == 20 { 120u8 } else { 87u8 }),
{
    let mut byte = pa_config;
    set_bits(&mut byte, 1, PA_CONFIG_PA_SELECT_MASK, 7);
    set_bits(&mut byte, 7, PA_CONFIG_MAX_POWER_MASK, 4);
    set_bits(
        &mut byte,
        if power == 20 { power - 5 } else { power - 2 },
        PA_CONFIG_OUTPUT_POWER_MASK,
        0,
    );
    (byte, if power == 20 { 0x87 } else { 0x84 }, if power == 20 { 120 } else { 87 })
}

/// An output power the RFO pin takes: -4 to 15 dBm.
pub open spec fn spec_pa_rfo_power_valid(power: i8) -> bool {
    -4 <= power <= 15
}

/// RegPaConfig selecting the RFO pin for `power` dBm, the RegPaDac value, and the RegOcp value
/// that turns the over-current protection off: from -4 to 0 dBm the low MaxPower setting with
/// OutputPower `power + 4`, above it MaxPower 7 with OutputPower `power`; RegOcp has OcpOn
/// cleared over the trim code of a 0 mA limit, which is 0.
///
/// See: datasheet sections 3.4.2 and 5.4.4
pub fn pa_rfo_registers(pa_config: u8, power: i8) -> (r: (u8, u8, u8))
    requires
        spec_pa_rfo_power_valid(power),
    ensures
        r.0 == spec_set_bits(
            spec_set_bits(
                spec_set_bits(pa_config, 0, PA_CONFIG_PA_SELECT_MASK, 7),
                if power <= 0 { 0u8 } else { 7u8 },
                PA_CONFIG_MAX_POWER_MASK,
                4,
            ),
            if power <= 0 { (power + 4) as u8 } else { power as u8 },
            PA_CONFIG_OUTPUT_POWER_MASK,
            0,
        ),
        r.1 == 0x84,
        r.2 == 0x00,
        r.2 & OCP_ON_MASK == 0,
{
    let mut byte = pa_config;
    set_bits(&mut byte, 0, PA_CONFIG_PA_SELECT_MASK, 7);
    if power <= 0 {
        set_bits(&mut byte, 0, PA_CONFIG_MAX_POWER_MASK, 4);
        set_bits(&mut byte, (power + 4) as u8, PA_CONFIG_OUTPUT_POWER_MASK, 0);
    } else {
        set_bits(&mut byte, 7, PA_CONFIG_MAX_POWER_MASK, 4);
        set_bits(&mut byte, power as u8, PA_CONFIG_OUTPUT_POWER_MASK, 0);
    }
    assert(0x00u8 & OCP_ON_MASK == 0) by (bit_vector);
    (byte, 0x84, 0x00)
}

/// RegPaRamp with the ramp code of `pa_ramp` or-ed in.
pub fn with_pa_ramp(pa_ramp_reg: u8, pa_ramp: PARamp) -> (r: u8)
    ensures
        r == pa_ramp_reg | pa_ramp.spec_bits(),
{
    pa_ramp_reg | pa_ramp.into_bits()
}

/// Checks a preamble `length` (at least 6) and gives RegPreambleMsb and RegPreambleLsb.
///
/// See: datasheet section 4.1.1.6
pub fn preamble_registers<E>(length: u16) -> (r: Result<(u8, u8), Sx127xLoraError<E>>)
    ensures
        r is Ok <==> length >= 6,
        r matches Err(e) ==> e is InvalidPreambleLength,
        r matches Ok(v) ==> v.0 * 256 + v.1 == length,
{
    if length < 6 {
        return Err(Sx127xLoraError::InvalidPreambleLength);
    }
    let msb = (length >> 8) as u8;
    let lsb = (length & 0xff) as u8;
    assert(msb * 256 + lsb == length) by (bit_vector)
        requires
            msb == (length >> 8) as u8,
            lsb == (length & 0xff) as u8,
    ;
    Ok((msb, lsb))
}

// Laws ------------------------------------------------------------------------------------------
/// Reading the bandwidth back after setting it gives the bandwidth set.
pub proof fn lemma_bandwidth_roundtrip(modem_config_1: u8, bandwidth: Bandwidth)
    ensures
        spec_bandwidth_of(
            spec_set_bits(modem_config_1, bandwidth.spec_bits(), MODEM_CONFIG_1_BW_MASK, 4),
        ) == bandwidth,
{
    let v = bandwidth.spec_bits();
    let b = modem_config_1;
    assert((((b & !0xf0u8) | ((v << 4u8) & 0xf0u8)) & 0xf0u8) >> 4u8 == v) by (bit_vector)
        requires
            v <= 9,
    ;
}

/// Reading the coding rate back after setting it gives the coding rate set.
pub proof fn lemma_coding_rate_roundtrip(modem_config_1: u8, coding_rate: CodingRate)
    ensures
        spec_coding_rate_of(
            spec_set_bits(
                modem_config_1,
                coding_rate.spec_bits(),
                MODEM_CONFIG_1_CODING_RATE_MASK,
                1,
            ),
        ) == coding_rate,
{
    let v = coding_rate.spec_bits();
    let b = modem_config_1;
    assert((((b & !0x0eu8) | ((v << 1u8) & 0x0eu8)) & 0x0eu8) >> 1u8 == v) by (bit_vector)
        requires
            v <= 4,
    ;
}

/// Reading the spreading factor back after setting it gives the spreading factor set.
pub proof fn lemma_spreading_factor_roundtrip(modem_config_2: u8, spreading_factor: SpreadingFactor)
    ensures
        spec_spreading_factor_of(
            spec_set_bits(
                modem_config_2,
                spreading_factor.spec_bits(),
                MODEM_CONFIG_2_SPREADING_FACTOR_MASK,
                4,
            ),
        ) == spreading_factor,
{
    let v = spreading_factor.spec_bits();
    let b = modem_config_2;
    assert((((b & !0xf0u8) | ((v << 4u8) & 0xf0u8)) & 0xf0u8) >> 4u8 == v) by (bit_vector)
        requires
            v <= 12,
    ;
}

/// Reading the device mode back after setting it gives the mode set.
pub proof fn lemma_device_mode_roundtrip(op_mode: u8, device_mode: DeviceMode)
    ensures
        spec_device_mode_of(spec_set_bits(op_mode, device_mode.spec_bits(), OP_MODE_MODE_MASK, 0))
            == device_mode,
{
    let v = device_mode.spec_bits();
    let b = op_mode;
    assert((((b & !0x07u8) | ((v << 0u8) & 0x07u8)) & 0x07u8) >> 0u8 == v) by (bit_vector)
        requires
            v <= 7,
    ;
}

} // verus!
