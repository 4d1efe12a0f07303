//! The register-level decisions of the LoRa driver.
//!
//! Each driver command reads registers, decides, and writes registers. The functions here take
//! the bytes read and give the bytes to write (or the value to report); the SPI transfers
//! themselves belong to the caller.
use vstd::prelude::*;

use crate::common::error::Sx127xError;
use crate::common::{
    calculate_frequency, calculate_frf, get_bits, is_field, lemma_get_bits_of_set_bits,
    lemma_set_bits_keeps_other_bits, set_bits, spec_frequency, spec_frf, spec_get_bits,
    spec_set_bits, Hz,
};
use crate::sx127xlora::calculate::spec_ocp_imax_valid;
use crate::sx127xlora::calculate::spec_ocp_trim;
use crate::sx127xlora::constants::{HF_MIN_HZ, PAYLOAD_SIZE};
use crate::sx127xlora::registers::{
    DETECTION_THRESHOLD_SF6,
    DETECTION_THRESHOLD_SF7_TO_SF12,
    DETECT_OPTIMIZE_AUTOMATIC_IF_ON_MASK,
    DETECT_OPTIMIZE_AUTOMATIC_IF_ON_OFFSET,
    DETECT_OPTIMIZE_DETECTION_OPTIMIZE_MASK,
    DETECT_OPTIMIZE_DETECTION_OPTIMIZE_SF6,
    DETECT_OPTIMIZE_DETECTION_OPTIMIZE_SF7_TO_SF12,
    FIFO,
    HOP_CHANNEL_CRC_ON_PAYLOAD_MASK,
    HOP_CHANNEL_CRC_ON_PAYLOAD_OFFSET,
    HOP_CHANNEL_FHSS_PRESENT_CHANNEL_MASK,
    INVERT_IQ_2_OFF,
    INVERT_IQ_2_ON,
    INVERT_IQ_RX_MASK,
    INVERT_IQ_RX_OFFSET,
    INVERT_IQ_TX_MASK,
    INVERT_IQ_TX_OFFSET,
    LNA,
    LNA_BOOST_HF_MASK,
    LNA_BOOST_HF_OFFSET,
    LNA_GAIN_MASK,
    LNA_GAIN_OFFSET,
    MODEM_CONFIG_1_BW_MASK,
    MODEM_CONFIG_1_BW_OFFSET,
    MODEM_CONFIG_1_CODING_RATE_MASK,
    MODEM_CONFIG_1_CODING_RATE_OFFSET,
    MODEM_CONFIG_1_IMPLICIT_HEADER_MODE_ON_MASK,
    MODEM_CONFIG_1_IMPLICIT_HEADER_MODE_ON_OFFSET,
    MODEM_CONFIG_2_RX_PAYLOAD_CRC_ON_MASK,
    MODEM_CONFIG_2_RX_PAYLOAD_CRC_ON_OFFSET,
    MODEM_CONFIG_2_SPREADING_FACTOR_MASK,
    MODEM_CONFIG_2_SPREADING_FACTOR_OFFSET,
    MODEM_CONFIG_2_SYMB_TIMEOUT_MASK,
    MODEM_CONFIG_2_SYMB_TIMEOUT_OFFSET,
    MODEM_CONFIG_3_AGC_AUTO_ON_MASK,
    MODEM_CONFIG_3_AGC_AUTO_ON_OFFSET,
    MODEM_STAT_MODEM_STATUS_MASK,
    MODEM_STAT_RX_CODING_RATE_MASK,
    MODEM_STAT_RX_CODING_RATE_OFFSET,
    OCP,
    OCP_ON_MASK,
    OCP_ON_OFFSET,
    OP_MODE_LONG_RANGE_MODE_MASK,
    OP_MODE_LONG_RANGE_MODE_OFFSET,
    OP_MODE_LOW_FREQUENCY_MODE_ON_MASK,
    OP_MODE_LOW_FREQUENCY_MODE_ON_OFFSET,
    OP_MODE_MODE_MASK,
    OP_MODE_MODE_OFFSET,
};
use crate::sx127xlora::types::{
    Bandwidth, CodingRate, DeviceMode, HeaderMode, LNAGain, PowerRamp, PreambleLength, RxStatus,
    SpreadingFactor, TimeoutSymbols, TxConfig, LNA, OCP,
};

verus! {

/// Checks the silicon version read from RegVersion.
pub fn check_version<E>(version: u8) -> (r: Result<(), Sx127xError<E>>)
    ensures
        r is Ok <==> version == crate::common::CHIP_VERSION,
        r matches Err(e) ==> e is InvalidVersion,
{
    if version != crate::common::CHIP_VERSION {
        return Err(Sx127xError::InvalidVersion);
    }
    Ok(())
}

// Register fields -------------------------------------------------------------------------------
/// The bandwidth field of RegModemConfig1.
pub open spec fn spec_bandwidth_of(modem_config_1: u8) -> Bandwidth {
    Bandwidth::spec_from_bits(
        spec_get_bits(modem_config_1, MODEM_CONFIG_1_BW_MASK, MODEM_CONFIG_1_BW_OFFSET),
    )
}

/// The coding rate field of RegModemConfig1.
pub open spec fn spec_coding_rate_of(modem_config_1: u8) -> CodingRate {
    CodingRate::spec_from_bits(
        spec_get_bits(
            modem_config_1,
            MODEM_CONFIG_1_CODING_RATE_MASK,
            MODEM_CONFIG_1_CODING_RATE_OFFSET,
        ),
    )
}

/// The header mode field of RegModemConfig1.
pub open spec fn spec_header_mode_of(modem_config_1: u8) -> HeaderMode {
    HeaderMode::spec_from_bits(
        spec_get_bits(
            modem_config_1,
            MODEM_CONFIG_1_IMPLICIT_HEADER_MODE_ON_MASK,
            MODEM_CONFIG_1_IMPLICIT_HEADER_MODE_ON_OFFSET,
        ),
    )
}

/// The spreading factor field of RegModemConfig2.
pub open spec fn spec_spreading_factor_of(modem_config_2: u8) -> SpreadingFactor {
    SpreadingFactor::spec_from_bits(
        spec_get_bits(
            modem_config_2,
            MODEM_CONFIG_2_SPREADING_FACTOR_MASK,
            MODEM_CONFIG_2_SPREADING_FACTOR_OFFSET,
        ),
    )
}

/// The payload CRC flag of RegModemConfig2.
pub open spec fn spec_crc_of(modem_config_2: u8) -> bool {
    spec_get_bits(
        modem_config_2,
        MODEM_CONFIG_2_RX_PAYLOAD_CRC_ON_MASK,
        MODEM_CONFIG_2_RX_PAYLOAD_CRC_ON_OFFSET,
    ) == 1
}

/// The mode field of RegOpMode.
pub open spec fn spec_device_mode_of(op_mode: u8) -> DeviceMode {
    DeviceMode::spec_from_bits(spec_get_bits(op_mode, OP_MODE_MODE_MASK, OP_MODE_MODE_OFFSET))
}

/// The bandwidth configured in RegModemConfig1.
///
/// See: datasheet section 4.1.1.4
pub fn bandwidth_of(modem_config_1: u8) -> (r: Bandwidth)
    ensures
        r == spec_bandwidth_of(modem_config_1),
{
    Bandwidth::from(get_bits(modem_config_1, MODEM_CONFIG_1_BW_MASK, MODEM_CONFIG_1_BW_OFFSET))
}

/// The coding rate configured in RegModemConfig1.
///
/// See: datasheet section 4.1.1.3
pub fn coding_rate_of(modem_config_1: u8) -> (r: CodingRate)
    ensures
        r == spec_coding_rate_of(modem_config_1),
{
    CodingRate::from(
        get_bits(modem_config_1, MODEM_CONFIG_1_CODING_RATE_MASK, MODEM_CONFIG_1_CODING_RATE_OFFSET),
    )
}

/// The header mode configured in RegModemConfig1.
///
/// See: datasheet section 4.1.1.6
pub fn header_mode_of(modem_config_1: u8) -> (r: HeaderMode)
    ensures
        r == spec_header_mode_of(modem_config_1),
{
    HeaderMode::from(
        get_bits(
            modem_config_1,
            MODEM_CONFIG_1_IMPLICIT_HEADER_MODE_ON_MASK,
            MODEM_CONFIG_1_IMPLICIT_HEADER_MODE_ON_OFFSET,
        ),
    )
}

/// The spreading factor configured in RegModemConfig2.
pub fn spreading_factor_of(modem_config_2: u8) -> (r: SpreadingFactor)
    ensures
        r == spec_spreading_factor_of(modem_config_2),
{
    SpreadingFactor::from(
        get_bits(
            modem_config_2,
            MODEM_CONFIG_2_SPREADING_FACTOR_MASK,
            MODEM_CONFIG_2_SPREADING_FACTOR_OFFSET,
        ),
    )
}

/// Whether RegModemConfig2 turns the payload CRC on.
///
/// See: datasheet section 4.1.1.6
pub fn crc_of(modem_config_2: u8) -> (r: bool)
    ensures
        r == spec_crc_of(modem_config_2),
{
    get_bits(
        modem_config_2,
        MODEM_CONFIG_2_RX_PAYLOAD_CRC_ON_MASK,
        MODEM_CONFIG_2_RX_PAYLOAD_CRC_ON_OFFSET,
    ) == 1
}

/// The device mode held in RegOpMode.
///
/// See: datasheet table 16
pub fn device_mode_of(op_mode: u8) -> (r: DeviceMode)
    ensures
        r == spec_device_mode_of(op_mode),
{
    DeviceMode::from(get_bits(op_mode, OP_MODE_MODE_MASK, OP_MODE_MODE_OFFSET))
}

/// RegModemConfig1 with its bandwidth field set to `bandwidth`.
pub fn with_bandwidth(modem_config_1: u8, bandwidth: Bandwidth) -> (r: u8)
    ensures
        r == spec_set_bits(
            modem_config_1,
            bandwidth.spec_bits(),
            MODEM_CONFIG_1_BW_MASK,
            MODEM_CONFIG_1_BW_OFFSET,
        ),
{
    let mut byte = modem_config_1;
    set_bits(&mut byte, bandwidth.into_bits(), MODEM_CONFIG_1_BW_MASK, MODEM_CONFIG_1_BW_OFFSET);
    byte
}

/// RegModemConfig1 with its coding rate field set to `coding_rate`.
pub fn with_coding_rate(modem_config_1: u8, coding_rate: CodingRate) -> (r: u8)
    ensures
        r == spec_set_bits(
            modem_config_1,
            coding_rate.spec_bits(),
            MODEM_CONFIG_1_CODING_RATE_MASK,
            MODEM_CONFIG_1_CODING_RATE_OFFSET,
        ),
{
    let mut byte = modem_config_1;
    set_bits(
        &mut byte,
        coding_rate.into_bits(),
        MODEM_CONFIG_1_CODING_RATE_MASK,
        MODEM_CONFIG_1_CODING_RATE_OFFSET,
    );
    byte
}

/// RegModemConfig1 with its header mode bit set to `header_mode`.
pub fn with_header_mode(modem_config_1: u8, header_mode: HeaderMode) -> (r: u8)
    ensures
        r == spec_set_bits(
            modem_config_1,
            header_mode.spec_bits(),
            MODEM_CONFIG_1_IMPLICIT_HEADER_MODE_ON_MASK,
            MODEM_CONFIG_1_IMPLICIT_HEADER_MODE_ON_OFFSET,
        ),
{
    let mut byte = modem_config_1;
    set_bits(
        &mut byte,
        header_mode.into_bits(),
        MODEM_CONFIG_1_IMPLICIT_HEADER_MODE_ON_MASK,
        MODEM_CONFIG_1_IMPLICIT_HEADER_MODE_ON_OFFSET,
    );
    byte
}

/// RegModemConfig2 with its spreading factor field set to `spreading_factor`.
pub fn with_spreading_factor(modem_config_2: u8, spreading_factor: SpreadingFactor) -> (r: u8)
    ensures
        r == spec_set_bits(
            modem_config_2,
            spreading_factor.spec_bits(),
            MODEM_CONFIG_2_SPREADING_FACTOR_MASK,
            MODEM_CONFIG_2_SPREADING_FACTOR_OFFSET,
        ),
{
    let mut byte = modem_config_2;
    set_bits(
        &mut byte,
        spreading_factor.into_bits(),
        MODEM_CONFIG_2_SPREADING_FACTOR_MASK,
        MODEM_CONFIG_2_SPREADING_FACTOR_OFFSET,
    );
    byte
}

/// Checks a change of spreading factor against the header mode in RegModemConfig1: SF6 needs
/// the implicit header mode.
///
/// See: datasheet section 4.1.1.2
pub fn check_spreading_factor<E>(
    spreading_factor: SpreadingFactor,
    modem_config_1: u8,
) -> (r: Result<(), Sx127xError<E>>)
    ensures
        r is Ok <==> (spreading_factor == SpreadingFactor::Sf6 ==> spec_header_mode_of(
            modem_config_1,
        ) == HeaderMode::Implicit),
        r matches Err(e) ==> e is SF6RequiresImplicitHeaderMode,
{
    if spreading_factor == SpreadingFactor::Sf6 {
        if header_mode_of(modem_config_1) != HeaderMode::Implicit {
            return Err(Sx127xError::SF6RequiresImplicitHeaderMode);
        }
    }
    Ok(())
}

/// The DetectionOptimize code a spreading factor needs.
pub open spec fn spec_detection_optimize(spreading_factor: SpreadingFactor) -> u8 {
    if spreading_factor == SpreadingFactor::Sf6 {
        DETECT_OPTIMIZE_DETECTION_OPTIMIZE_SF6
    } else {
        DETECT_OPTIMIZE_DETECTION_OPTIMIZE_SF7_TO_SF12
    }
}

/// The RegDetectionThreshold value a spreading factor needs.
pub open spec fn spec_detection_threshold(spreading_factor: SpreadingFactor) -> u8 {
    if spreading_factor == SpreadingFactor::Sf6 {
        DETECTION_THRESHOLD_SF6
    } else {
        DETECTION_THRESHOLD_SF7_TO_SF12
    }
}

/// The new RegDetectOptimize and the RegDetectionThreshold value for `spreading_factor`.
///
/// See: datasheet section 4.1.1.2
pub fn detection_for(detect_optimize: u8, spreading_factor: SpreadingFactor) -> (r: (u8, u8))
    ensures
        r.0 == (detect_optimize & !DETECT_OPTIMIZE_DETECTION_OPTIMIZE_MASK) | spec_detection_optimize(
            spreading_factor,
        ),
        r.1 == spec_detection_threshold(spreading_factor),
{
    let mut byte = detect_optimize & !DETECT_OPTIMIZE_DETECTION_OPTIMIZE_MASK;
    if spreading_factor == SpreadingFactor::Sf6 {
        byte = byte | DETECT_OPTIMIZE_DETECTION_OPTIMIZE_SF6;
        (byte, DETECTION_THRESHOLD_SF6)
    } else {
        byte = byte | DETECT_OPTIMIZE_DETECTION_OPTIMIZE_SF7_TO_SF12;
        (byte, DETECTION_THRESHOLD_SF7_TO_SF12)
    }
}

/// RegModemConfig2 with the payload CRC flag set to `on`.
///
/// See: datasheet section 4.1.1.6
pub fn with_crc(modem_config_2: u8, on: bool) -> (r: u8)
    ensures
        r == spec_set_bits(
            modem_config_2,
            if on { 1 } else { 0 },
            MODEM_CONFIG_2_RX_PAYLOAD_CRC_ON_MASK,
            MODEM_CONFIG_2_RX_PAYLOAD_CRC_ON_OFFSET,
        ),
{
    let mut byte = modem_config_2;
    set_bits(
        &mut byte,
        if on { 1 } else { 0 },
        MODEM_CONFIG_2_RX_PAYLOAD_CRC_ON_MASK,
        MODEM_CONFIG_2_RX_PAYLOAD_CRC_ON_OFFSET,
    );
    byte
}

/// RegOpMode with its mode field set to `device_mode`.
///
/// See: datasheet table 16
pub fn with_device_mode(op_mode: u8, device_mode: DeviceMode) -> (r: u8)
    ensures
        r == spec_set_bits(op_mode, device_mode.spec_bits(), OP_MODE_MODE_MASK, OP_MODE_MODE_OFFSET),
{
    let mut byte = op_mode;
    set_bits(&mut byte, device_mode.into_bits(), OP_MODE_MODE_MASK, OP_MODE_MODE_OFFSET);
    byte
}

/// RegOpMode with the LongRangeMode bit selecting `modem`.
pub fn with_modem(op_mode: u8, modem: crate::common::Modem) -> (r: u8)
    ensures
        r == spec_set_bits(
            op_mode,
            modem.spec_bits(),
            OP_MODE_LONG_RANGE_MODE_MASK,
            OP_MODE_LONG_RANGE_MODE_OFFSET,
        ),
{
    let mut byte = op_mode;
    set_bits(
        &mut byte,
        modem.into_bits(),
        OP_MODE_LONG_RANGE_MODE_MASK,
        OP_MODE_LONG_RANGE_MODE_OFFSET,
    );
    byte
}

/// RegOpMode with the LowFrequencyModeOn bit set from the programmed carrier `frequency`: the bit
/// is written 1 when the carrier lies above HF_MIN_HZ.
///
/// See: datasheet section 4.3
pub fn band_specific_op_mode(op_mode: u8, frequency: Hz) -> (r: u8)
    ensures
        r == spec_set_bits(
            op_mode,
            if frequency > HF_MIN_HZ { 1 } else { 0 },
            OP_MODE_LOW_FREQUENCY_MODE_ON_MASK,
            OP_MODE_LOW_FREQUENCY_MODE_ON_OFFSET,
        ),
{
    let mut byte = op_mode;
    set_bits(
        &mut byte,
        if frequency > HF_MIN_HZ { 1 } else { 0 },
        OP_MODE_LOW_FREQUENCY_MODE_ON_MASK,
        OP_MODE_LOW_FREQUENCY_MODE_ON_OFFSET,
    );
    byte
}

/// RegModemConfig3 with the AgcAutoOn bit set to `on`.
///
/// See: datasheet table 24
pub fn with_agc_auto(modem_config_3: u8, on: bool) -> (r: u8)
    ensures
        r == spec_set_bits(
            modem_config_3,
            if on { 1 } else { 0 },
            MODEM_CONFIG_3_AGC_AUTO_ON_MASK,
            MODEM_CONFIG_3_AGC_AUTO_ON_OFFSET,
        ),
{
    let mut byte = modem_config_3;
    set_bits(
        &mut byte,
        if on { 1 } else { 0 },
        MODEM_CONFIG_3_AGC_AUTO_ON_MASK,
        MODEM_CONFIG_3_AGC_AUTO_ON_OFFSET,
    );
    byte
}

/// The register byte with the automatic IF bit set to `on`.
pub fn with_automatic_if(byte: u8, on: bool) -> (r: u8)
    ensures
        r == spec_set_bits(
            byte,
            if on { 1 } else { 0 },
            DETECT_OPTIMIZE_AUTOMATIC_IF_ON_MASK,
            DETECT_OPTIMIZE_AUTOMATIC_IF_ON_OFFSET,
        ),
{
    let mut b = byte;
    set_bits(
        &mut b,
        if on { 1 } else { 0 },
        DETECT_OPTIMIZE_AUTOMATIC_IF_ON_MASK,
        DETECT_OPTIMIZE_AUTOMATIC_IF_ON_OFFSET,
    );
    b
}

/// A DIO mapping register with the pin field (`mask` at `offset`) set to the signal `value`.
///
/// See: datasheet table 18
pub fn with_dio_mapping(mapping: u8, value: u8, mask: u8, offset: u8) -> (r: u8)
    requires
        offset < 8,
    ensures
        r == spec_set_bits(mapping, value, mask, offset),
{
    let mut byte = mapping;
    set_bits(&mut byte, value, mask, offset);
    byte
}

/// RegLna for `lna`: the boost field always; the gain field unless the gain is left to the AGC.
///
/// See: datasheet page 110
pub fn lna_register(lna_reg: u8, lna: LNA) -> (r: u8)
    ensures
        r == (if lna.gain == LNAGain::Auto {
            spec_set_bits(
                lna_reg,
                if lna.boost_hf { 1 } else { 0 },
                LNA_BOOST_HF_MASK,
                LNA_BOOST_HF_OFFSET,
            )
        } else {
            spec_set_bits(
                spec_set_bits(
                    lna_reg,
                    if lna.boost_hf { 1 } else { 0 },
                    LNA_BOOST_HF_MASK,
                    LNA_BOOST_HF_OFFSET,
                ),
                lna.gain.spec_bits(),
                LNA_GAIN_MASK,
                LNA_GAIN_OFFSET,
            )
        }),
{
    let mut byte = lna_reg;
    set_bits(&mut byte, if lna.boost_hf { 1 } else { 0 }, LNA_BOOST_HF_MASK, LNA_BOOST_HF_OFFSET);
    if lna.gain != LNAGain::Auto {
        set_bits(&mut byte, lna.gain.into_bits(), LNA_GAIN_MASK, LNA_GAIN_OFFSET);
    }
    byte
}

/// RegInvertIQ with the RX and TX inversion bits set, and the RegInvertIQ2 value that goes
/// with them.
pub fn invert_iq_registers(invert_iq: u8, rx: bool, tx: bool) -> (r: (u8, u8))
    ensures
        r.0 == spec_set_bits(
            spec_set_bits(invert_iq, if rx { 1 } else { 0 }, INVERT_IQ_RX_MASK, INVERT_IQ_RX_OFFSET),
            if tx { 1 } else { 0 },
            INVERT_IQ_TX_MASK,
            INVERT_IQ_TX_OFFSET,
        ),
        r.1 == (if rx || tx { INVERT_IQ_2_ON } else { INVERT_IQ_2_OFF }),
{
    let mut byte = invert_iq;
    set_bits(&mut byte, if rx { 1 } else { 0 }, INVERT_IQ_RX_MASK, INVERT_IQ_RX_OFFSET);
    set_bits(&mut byte, if tx { 1 } else { 0 }, INVERT_IQ_TX_MASK, INVERT_IQ_TX_OFFSET);
    (byte, if rx || tx { INVERT_IQ_2_ON } else { INVERT_IQ_2_OFF })
}

/// RegOcp for `ocp`: the trim code with the OcpOn bit.
///
/// See: datasheet section 5.4.4
pub fn ocp_register(ocp: OCP) -> (r: u8)
    requires
        spec_ocp_imax_valid(ocp.imax),
    ensures
        r == spec_set_bits(
            spec_ocp_trim(ocp.imax),
            if ocp.on { 1 } else { 0 },
            OCP_ON_MASK,
            OCP_ON_OFFSET,
        ),
{
    let mut byte = ocp.trim();
    set_bits(&mut byte, if ocp.on { 1 } else { 0 }, OCP_ON_MASK, OCP_ON_OFFSET);
    byte
}

/// RegPaRamp with the ramp code of `ramp` or-ed in.
pub fn with_power_ramp(pa_ramp: u8, ramp: PowerRamp) -> (r: u8)
    ensures
        r == pa_ramp | ramp.spec_bits(),
{
    pa_ramp | ramp.into_bits()
}

/// The RegPaConfig and RegPaDac values for `config`: the RFO pin at maximum power 0x7 with the
/// default DAC, or PA_BOOST with the high-power DAC setting above 17 dBm.
///
/// See: datasheet section 5.4.3
pub fn tx_pa_registers(config: &TxConfig) -> (r: (u8, u8))
    ensures
        config.spec_use_rfo() ==> r == (0x70 | config.spec_power(), 0x04u8),
        !config.spec_use_rfo() ==> r == (0x80 | config.spec_power(), if config.spec_power() > 17 {
            0x07u8
        } else {
            0x04u8
        }),
{
    let power = config.power();
    if config.use_rfo() {
        (0x70 | power, 0x04)
    } else {
        (0x80 | power, if power > 17 { 0x07 } else { 0x04 })
    }
}

/// The RegPreambleMsb and RegPreambleLsb values for `preamble_length`.
pub fn preamble_registers(preamble_length: PreambleLength) -> (r: (u8, u8))
    ensures
        r.0 * 256 + r.1 == preamble_length.spec_value(),
{
    let length = preamble_length.value();
    let msb = (length >> 8) as u8;
    let lsb = (length & 0xff) as u8;
    assert(msb * 256 + lsb == length) by (bit_vector)
        requires
            msb == (length >> 8) as u8,
            lsb == (length & 0xff) as u8,
    ;
    (msb, lsb)
}

/// The three RegFrf bytes of the low 24 bits of the Frf code for `hz`, most significant first.
pub open spec fn spec_frf_registers(hz: u32) -> (u8, u8, u8) {
    let frf = spec_frf(hz as int) % 0x100_0000;
    ((frf / 65536) as u8, ((frf / 256) % 256) as u8, (frf % 256) as u8)
}

/// The RegFrfMsb, RegFrfMid and RegFrfLsb values for a carrier of `hz`: the low 24 bits of
/// the Frf code.
///
/// See: datasheet section 4.1.4
pub fn frf_registers(hz: Hz) -> (r: (u8, u8, u8))
    ensures
        r.0 * 65536 + r.1 * 256 + r.2 == spec_frf(hz as int) % 0x100_0000,
        r == spec_frf_registers(hz),
{
    let frf = calculate_frf(hz);
    let msb = (frf >> 16) as u8;
    let mid = (frf >> 8) as u8;
    let lsb = frf as u8;
    assert(msb * 65536 + mid * 256 + lsb == frf % 0x100_0000 && msb == ((frf % 0x100_0000)
        / 65536) as u8 && mid == (((frf % 0x100_0000) / 256) % 256) as u8 && lsb == ((frf
        % 0x100_0000) % 256) as u8) by (bit_vector)
        requires
            msb == (frf >> 16) as u8,
            mid == (frf >> 8) as u8,
            lsb == frf as u8,
    ;
    (msb, mid, lsb)
}

/// The 24-bit value held in three consecutive registers, most significant first.
pub open spec fn spec_u24(msb: u8, mid: u8, lsb: u8) -> int {
    msb * 65536 + mid * 256 + lsb
}

fn u24(msb: u8, mid: u8, lsb: u8) -> (r: u32)
    ensures
        r == spec_u24(msb, mid, lsb),
        r < 0x100_0000,
{
    let r = ((msb as u32) << 16) | ((mid as u32) << 8) | (lsb as u32);
    assert(r == msb * 65536 + mid * 256 + lsb && r < 0x100_0000) by (bit_vector)
        requires
            r == ((msb as u32) << 16) | ((mid as u32) << 8) | (lsb as u32),
    ;
    r
}

/// The carrier frequency programmed in RegFrfMsb, RegFrfMid and RegFrfLsb.
///
/// See: datasheet section 4.1.4
pub fn frequency_of(msb: u8, mid: u8, lsb: u8) -> (r: Hz)
    ensures
        r == spec_frequency(spec_u24(msb, mid, lsb)),
{
    calculate_frequency(u24(msb, mid, lsb))
}

/// The raw frequency error held in RegFeiMsb, RegFeiMid and RegFeiLsb.
pub fn fei_of(msb: u8, mid: u8, lsb: u8) -> (r: i32)
    ensures
        r == spec_u24(msb, mid, lsb),
{
    u24(msb, mid, lsb) as i32
}

/// A 16-bit counter held in two registers, most significant first.
pub fn counter_of(msb: u8, lsb: u8) -> (r: u16)
    ensures
        r == msb * 256 + lsb,
{
    let r = ((msb as u16) << 8) | (lsb as u16);
    assert(r == msb * 256 + lsb) by (bit_vector)
        requires
            r == ((msb as u16) << 8) | (lsb as u16),
    ;
    r
}

/// The current FHSS channel held in RegHopChannel.
///
/// See: datasheet section 4.1.1.8
pub fn hop_channel_of(hop_channel: u8) -> (r: u8)
    ensures
        r == hop_channel & HOP_CHANNEL_FHSS_PRESENT_CHANNEL_MASK,
{
    hop_channel & HOP_CHANNEL_FHSS_PRESENT_CHANNEL_MASK
}

/// Whether the interrupt flag `mask` is raised in RegIrqFlags.
pub fn interrupt_flag_of(irq_flags: u8, mask: u8) -> (r: bool)
    ensures
        r == (irq_flags & mask != 0),
{
    irq_flags & mask != 0
}

/// The value written back to RegIrqFlags to clear the interrupt `mask`: the flag as read, so a
/// raised flag is cleared and nothing else is touched.
pub fn clear_interrupt_value(irq_flags: u8, mask: u8) -> (r: u8)
    ensures
        r == irq_flags & mask,
        r & !mask == 0,
{
    let r = irq_flags & mask;
    assert((irq_flags & mask) & !mask == 0) by (bit_vector);
    r
}

/// RegIrqFlagsMask with the interrupt `mask` masked.
///
/// See: datasheet section 4.1.2.4
pub fn with_interrupt_masked(irq_flags_mask: u8, mask: u8) -> (r: u8)
    ensures
        r == irq_flags_mask | mask,
{
    irq_flags_mask | mask
}

/// RegIrqFlagsMask with the interrupt `mask` unmasked.
///
/// See: datasheet section 4.1.2.4
pub fn with_interrupt_unmasked(irq_flags_mask: u8, mask: u8) -> (r: u8)
    ensures
        r == irq_flags_mask & !mask,
{
    irq_flags_mask & !mask
}

/// The SNR of the last packet in dB: RegPktSnrValue holds it in two's complement in steps of
/// a quarter dB, so it is shifted right by two with its sign kept (rounding towards minus
/// infinity).
///
/// See: datasheet section 3.5.5
pub fn last_packet_snr_of(pkt_snr_value: u8) -> (r: i16)
    ensures
        r == (pkt_snr_value as i8) as int / 4,
{
    let v = pkt_snr_value as i8;
    let q = v >> 2;
    assert(q == (v as int) / 4) by (bit_vector)
        requires
            q == v >> 2,
    ;
    q as i16
}

/// The modem status held in RegModemStat.
///
/// See: datasheet section 2.0.2
pub fn rx_status_of(modem_stat: u8) -> (r: RxStatus)
    ensures
        r == RxStatus::spec_from_bits(modem_stat & MODEM_STAT_MODEM_STATUS_MASK),
{
    RxStatus::from(modem_stat & MODEM_STAT_MODEM_STATUS_MASK)
}

/// The coding rate of the last packet's header, held in RegModemStat.
pub fn rx_coding_rate_of(modem_stat: u8) -> (r: CodingRate)
    ensures
        r == CodingRate::spec_from_bits(
            spec_get_bits(modem_stat, MODEM_STAT_RX_CODING_RATE_MASK, MODEM_STAT_RX_CODING_RATE_OFFSET),
        ),
{
    CodingRate::from(
        get_bits(modem_stat, MODEM_STAT_RX_CODING_RATE_MASK, MODEM_STAT_RX_CODING_RATE_OFFSET),
    )
}

// Reception -------------------------------------------------------------------------------------
/// A packet ended well when no timeout was flagged, or, when the header announced a payload
/// CRC, when no CRC error was flagged.
pub open spec fn spec_rx_termination_ok(hop_channel: u8, irq_flags: u8) -> bool {
    let crc_on_payload = spec_get_bits(
        hop_channel,
        HOP_CHANNEL_CRC_ON_PAYLOAD_MASK,
        HOP_CHANNEL_CRC_ON_PAYLOAD_OFFSET,
    ) == 1;
    if crc_on_payload {
        (irq_flags >> 4u8) & 0x2 == 0
    } else {
        (irq_flags >> 4u8) & 0x8 == 0
    }
}

/// Whether the packet in the FIFO ended well, judged from RegHopChannel and RegIrqFlags.
///
/// See: datasheet figure 10
pub fn rx_termination_ok(hop_channel: u8, irq_flags: u8) -> (r: bool)
    ensures
        r == spec_rx_termination_ok(hop_channel, irq_flags),
{
    let crc_on_payload = get_bits(
        hop_channel,
        HOP_CHANNEL_CRC_ON_PAYLOAD_MASK,
        HOP_CHANNEL_CRC_ON_PAYLOAD_OFFSET,
    ) == 1;
    let irq_flags_bits = irq_flags >> 4;
    let mut ok = irq_flags_bits & 0x8 == 0;
    if crc_on_payload {
        ok = irq_flags_bits & 0x2 == 0;
    }
    ok
}

/// RegModemConfig2 carrying bits 9-8 of a single-reception `timeout`, and the RegSymbTimeoutLsb
/// value carrying bits 7-0.
///
/// See: datasheet section 4.1.6
pub fn rx_timeout_registers(modem_config_2: u8, timeout: &TimeoutSymbols) -> (r: (u8, u8))
    ensures
        r.0 == spec_set_bits(
            modem_config_2,
            (timeout.spec_value() >> 8u16) as u8,
            MODEM_CONFIG_2_SYMB_TIMEOUT_MASK,
            MODEM_CONFIG_2_SYMB_TIMEOUT_OFFSET,
        ),
        r.1 == (timeout.spec_value() & 0xffu16) as u8,
        spec_get_bits(r.0, MODEM_CONFIG_2_SYMB_TIMEOUT_MASK, MODEM_CONFIG_2_SYMB_TIMEOUT_OFFSET)
            * 256 + r.1 == timeout.spec_value(),
{
    let t = timeout.value();
    let hi = (t >> 8) as u8;
    let mut byte = modem_config_2;
    set_bits(&mut byte, hi, MODEM_CONFIG_2_SYMB_TIMEOUT_MASK, MODEM_CONFIG_2_SYMB_TIMEOUT_OFFSET);
    let lsb = (t & 0xff) as u8;
    assert(((byte & 3u8) >> 0u8) * 256 + lsb == t) by (bit_vector)
        requires
            t <= 1023,
            hi == (t >> 8) as u8,
            lsb == (t & 0xff) as u8,
            byte == (modem_config_2 & !3u8) | ((hi << 0u8) & 3u8),
    ;
    (byte, lsb)
}

// Random numbers --------------------------------------------------------------------------------
/// The bit a von Neumann extractor takes from the pair of samples (a, b): the low bit of `a`
/// when the low bits differ, nothing when they agree.
pub open spec fn spec_pair_bit(a: u8, b: u8) -> Seq<u8> {
    if a & 1 != b & 1 {
        seq![a & 1]
    } else {
        seq![]
    }
}

/// The bits a von Neumann extractor takes from `samples`, read as consecutive pairs; a trailing
/// unpaired sample gives nothing yet.
pub open spec fn spec_extracted_bits(samples: Seq<u8>) -> Seq<u8>
    decreases samples.len(),
{
    if samples.len() < 2 {
        seq![]
    } else if samples.len() % 2 == 1 {
        spec_extracted_bits(samples.drop_last())
    } else {
        let n = samples.len() as int;
        spec_extracted_bits(samples.subrange(0, n - 2)) + spec_pair_bit(samples[n - 2], samples[n - 1])
    }
}

/// The number whose binary digits, most significant first, are `bits`.
pub open spec fn spec_bits_value(bits: Seq<u8>) -> int
    decreases bits.len(),
{
    if bits.len() == 0 {
        0
    } else {
        2 * spec_bits_value(bits.drop_last()) + bits.last()
    }
}

/// What the extractor asks for next.
#[derive(Clone, Copy, Debug, PartialEq, Eq, Structural)]
pub enum RandomStep {
    /// Read RegRssiWideband once more and feed the value.
    Sample,
    /// The random byte is complete.
    Done(u8),
}

/// A von Neumann extractor that builds a random byte from the wideband RSSI readings of the
/// receiver: each pair of readings whose low bits differ gives the low bit of the first
/// reading, most significant bit first.
///
/// See: https://learn.rakwireless.com/hc/en-us/articles/26580705507607-Random-Numbers-and-LoRa
pub struct RandomByte {
    res: u8,
    count: u8,
    pending: Option<u8>,
    samples: Ghost<Seq<u8>>,
}

impl RandomByte {
    /// The readings fed so far.
    pub closed spec fn samples(&self) -> Seq<u8> {
        self.samples@
    }

    /// Fewer than eight bits have been extracted, so the extractor takes more readings.
    pub closed spec fn wf(&self) -> bool {
        let bits = spec_extracted_bits(self.samples@);
        &&& self.count < 8
        &&& bits.len() == self.count
        &&& self.res == spec_bits_value(bits)
        &&& (self.res as int) < vstd::arithmetic::power2::pow2(self.count as nat)
        &&& (self.pending is None <==> self.samples@.len() % 2 == 0)
        &&& (self.pending matches Some(p) ==> p == self.samples@.last() & 1)
    }

    pub fn new() -> (r: Self)
        ensures
            r.wf(),
            r.samples() == Seq::<u8>::empty(),
    {
        proof {
            vstd::arithmetic::power2::lemma2_to64();
        }
        RandomByte { res: 0, count: 0, pending: None, samples: Ghost(Seq::empty()) }
    }

    /// Feeds one RegRssiWideband reading.
    pub fn feed(&mut self, sample: u8) -> (r: RandomStep)
        requires
            old(self).wf(),
        ensures
            final(self).samples() == old(self).samples().push(sample),
            r is Sample ==> final(self).wf() && spec_extracted_bits(final(self).samples()).len() < 8,
            r matches RandomStep::Done(b) ==> {
                &&& spec_extracted_bits(final(self).samples()).len() == 8
                &&& b == spec_bits_value(spec_extracted_bits(final(self).samples()))
                &&& spec_extracted_bits(old(self).samples()).len() == 7
            },
    {
        let ghost old_samples = self.samples@;
        let ghost new_samples = old_samples.push(sample);
        proof {
            self.samples = Ghost(new_samples);
        }
        match self.pending {
            None => {
                self.pending = Some(sample & 1);
                proof {
                    assert(new_samples.drop_last() =~= old_samples);
                    assert(new_samples.len() % 2 == 1);
                }
                RandomStep::Sample
            },
            Some(p) => {
                self.pending = None;
                let bit = sample & 1;
                proof {
                    let n = new_samples.len() as int;
                    assert(new_samples.subrange(0, n - 2) =~= old_samples.drop_last());
                    assert(new_samples[n - 2] == old_samples.last());
                    assert(new_samples[n - 1] == sample);
                    assert(spec_extracted_bits(old_samples) == spec_extracted_bits(
                        old_samples.drop_last(),
                    ));
                    assert(spec_extracted_bits(new_samples) == spec_extracted_bits(old_samples)
                        + spec_pair_bit(old_samples.last(), sample));
                }
                if p == bit {
                    proof {
                        assert(spec_pair_bit(old_samples.last(), sample) =~= Seq::<u8>::empty());
                        assert(spec_extracted_bits(new_samples) =~= spec_extracted_bits(
                            old_samples,
                        ));
                    }
                    RandomStep::Sample
                } else {
                    let old_res = self.res;
                    proof {
                        vstd::arithmetic::power2::lemma2_to64();
                        vstd::arithmetic::power2::lemma_pow2_unfold((self.count + 1) as nat);
                        let last = old_samples.last();
                        assert(p <= 1) by (bit_vector)
                            requires
                                p == last & 1,
                        ;
                        if self.count < 7 {
                            vstd::arithmetic::power2::lemma_pow2_strictly_increases(
                                self.count as nat,
                                7,
                            );
                        }
                        assert(old_res < 128);
                    }
                    let new_res = (old_res << 1) | p;
                    assert(new_res == 2 * old_res + p) by (bit_vector)
                        requires
                            old_res < 128,
                            p <= 1,
                            new_res == (old_res << 1) | p,
                    ;
                    self.res = new_res;
                    self.count = self.count + 1;
                    proof {
                        let bits = spec_extracted_bits(new_samples);
                        assert(bits =~= spec_extracted_bits(old_samples).push(p));
                        assert(bits.drop_last() =~= spec_extracted_bits(old_samples));
                    }
                    if self.count == 8 {
                        RandomStep::Done(self.res)
                    } else {
                        RandomStep::Sample
                    }
                }
            },
        }
    }
}

// Laws ------------------------------------------------------------------------------------------
/// Reading the bandwidth back after setting it gives the bandwidth set, and the coding rate and
/// header mode sharing the register are left as they were.
pub proof fn lemma_bandwidth_roundtrip(modem_config_1: u8, bandwidth: Bandwidth)
    ensures
        spec_bandwidth_of(
            spec_set_bits(
                modem_config_1,
                bandwidth.spec_bits(),
                MODEM_CONFIG_1_BW_MASK,
                MODEM_CONFIG_1_BW_OFFSET,
            ),
        ) == bandwidth,
        spec_coding_rate_of(
            spec_set_bits(
                modem_config_1,
                bandwidth.spec_bits(),
                MODEM_CONFIG_1_BW_MASK,
                MODEM_CONFIG_1_BW_OFFSET,
            ),
        ) == spec_coding_rate_of(modem_config_1),
        spec_header_mode_of(
            spec_set_bits(
                modem_config_1,
                bandwidth.spec_bits(),
                MODEM_CONFIG_1_BW_MASK,
                MODEM_CONFIG_1_BW_OFFSET,
            ),
        ) == spec_header_mode_of(modem_config_1),
{
    let v = bandwidth.spec_bits();
    let b = modem_config_1;
    assert(
        ((((b & !0xf0u8) | ((v << 4u8) & 0xf0u8)) & 0xf0u8) >> 4u8 == v)
        && ((((b & !0xf0u8) | ((v << 4u8) & 0xf0u8)) & 0x0eu8) >> 1u8 == (b & 0x0eu8) >> 1u8)
        && ((((b & !0xf0u8) | ((v << 4u8) & 0xf0u8)) & 0x01u8) >> 0u8 == (b & 0x01u8) >> 0u8)
    ) by (bit_vector)
        requires
            v <= 9,
    ;
}

/// Reading the coding rate back after setting it gives the coding rate set, and the bandwidth
/// and header mode sharing the register are left as they were.
pub proof fn lemma_coding_rate_roundtrip(modem_config_1: u8, coding_rate: CodingRate)
    ensures
        spec_coding_rate_of(
            spec_set_bits(
                modem_config_1,
                coding_rate.spec_bits(),
                MODEM_CONFIG_1_CODING_RATE_MASK,
                MODEM_CONFIG_1_CODING_RATE_OFFSET,
            ),
        ) == coding_rate,
        spec_bandwidth_of(
            spec_set_bits(
                modem_config_1,
                coding_rate.spec_bits(),
                MODEM_CONFIG_1_CODING_RATE_MASK,
                MODEM_CONFIG_1_CODING_RATE_OFFSET,
            ),
        ) == spec_bandwidth_of(modem_config_1),
        spec_header_mode_of(
            spec_set_bits(
                modem_config_1,
                coding_rate.spec_bits(),
                MODEM_CONFIG_1_CODING_RATE_MASK,
                MODEM_CONFIG_1_CODING_RATE_OFFSET,
            ),
        ) == spec_header_mode_of(modem_config_1),
{
    let v = coding_rate.spec_bits();
    let b = modem_config_1;
    assert(
        ((((b & !0x0eu8) | ((v << 1u8) & 0x0eu8)) & 0x0eu8) >> 1u8 == v)
        && ((((b & !0x0eu8) | ((v << 1u8) & 0x0eu8)) & 0xf0u8) >> 4u8 == (b & 0xf0u8) >> 4u8)
        && ((((b & !0x0eu8) | ((v << 1u8) & 0x0eu8)) & 0x01u8) >> 0u8 == (b & 0x01u8) >> 0u8)
    ) by (bit_vector)
        requires
            v <= 4,
    ;
}

/// Reading the header mode back after setting it gives the header mode set, and the bandwidth
/// and coding rate sharing the register are left as they were.
pub proof fn lemma_header_mode_roundtrip(modem_config_1: u8, header_mode: HeaderMode)
    ensures
        spec_header_mode_of(
            spec_set_bits(
                modem_config_1,
                header_mode.spec_bits(),
                MODEM_CONFIG_1_IMPLICIT_HEADER_MODE_ON_MASK,
                MODEM_CONFIG_1_IMPLICIT_HEADER_MODE_ON_OFFSET,
            ),
        ) == header_mode,
        spec_bandwidth_of(
            spec_set_bits(
                modem_config_1,
                header_mode.spec_bits(),
                MODEM_CONFIG_1_IMPLICIT_HEADER_MODE_ON_MASK,
                MODEM_CONFIG_1_IMPLICIT_HEADER_MODE_ON_OFFSET,
            ),
        ) == spec_bandwidth_of(modem_config_1),
        spec_coding_rate_of(
            spec_set_bits(
                modem_config_1,
                header_mode.spec_bits(),
                MODEM_CONFIG_1_IMPLICIT_HEADER_MODE_ON_MASK,
                MODEM_CONFIG_1_IMPLICIT_HEADER_MODE_ON_OFFSET,
            ),
        ) == spec_coding_rate_of(modem_config_1),
{
    let v = header_mode.spec_bits();
    let b = modem_config_1;
    assert(
        ((((b & !0x01u8) | ((v << 0u8) & 0x01u8)) & 0x01u8) >> 0u8 == v)
        && ((((b & !0x01u8) | ((v << 0u8) & 0x01u8)) & 0xf0u8) >> 4u8 == (b & 0xf0u8) >> 4u8)
        && ((((b & !0x01u8) | ((v << 0u8) & 0x01u8)) & 0x0eu8) >> 1u8 == (b & 0x0eu8) >> 1u8)
    ) by (bit_vector)
        requires
            v <= 1,
    ;
}

/// Reading the spreading factor back after setting it gives the spreading factor set, and the
/// payload CRC flag sharing the register is left as it was.
pub proof fn lemma_spreading_factor_roundtrip(modem_config_2: u8, spreading_factor: SpreadingFactor)
    ensures
        spec_spreading_factor_of(
            spec_set_bits(
                modem_config_2,
                spreading_factor.spec_bits(),
                MODEM_CONFIG_2_SPREADING_FACTOR_MASK,
                MODEM_CONFIG_2_SPREADING_FACTOR_OFFSET,
            ),
        ) == spreading_factor,
        spec_crc_of(
            spec_set_bits(
                modem_config_2,
                spreading_factor.spec_bits(),
                MODEM_CONFIG_2_SPREADING_FACTOR_MASK,
                MODEM_CONFIG_2_SPREADING_FACTOR_OFFSET,
            ),
        ) == spec_crc_of(modem_config_2),
{
    let v = spreading_factor.spec_bits();
    let b = modem_config_2;
    assert(
        ((((b & !0xf0u8) | ((v << 4u8) & 0xf0u8)) & 0xf0u8) >> 4u8 == v)
        && ((((b & !0xf0u8) | ((v << 4u8) & 0xf0u8)) & 0x04u8) >> 2u8 == (b & 0x04u8) >> 2u8)
    ) by (bit_vector)
        requires
            v <= 12,
    ;
}

/// Reading the payload CRC flag back after setting it gives the flag set, and the spreading
/// factor sharing the register is left as it was.
pub proof fn lemma_crc_roundtrip(modem_config_2: u8, on: bool)
    ensures
        spec_crc_of(
            spec_set_bits(
                modem_config_2,
                if on { 1 } else { 0 },
                MODEM_CONFIG_2_RX_PAYLOAD_CRC_ON_MASK,
                MODEM_CONFIG_2_RX_PAYLOAD_CRC_ON_OFFSET,
            ),
        ) == on,
        spec_spreading_factor_of(
            spec_set_bits(
                modem_config_2,
                if on { 1 } else { 0 },
                MODEM_CONFIG_2_RX_PAYLOAD_CRC_ON_MASK,
                MODEM_CONFIG_2_RX_PAYLOAD_CRC_ON_OFFSET,
            ),
        ) == spec_spreading_factor_of(modem_config_2),
{
    let v: u8 = if on { 1 } else { 0 };
    let b = modem_config_2;
    assert(
        ((((b & !0x04u8) | ((v << 2u8) & 0x04u8)) & 0x04u8) >> 2u8 == v)
        && ((((b & !0x04u8) | ((v << 2u8) & 0x04u8)) & 0xf0u8) >> 4u8 == (b & 0xf0u8) >> 4u8)
    ) by (bit_vector)
        requires
            v <= 1,
    ;
}

/// Reading the device mode back after setting it gives the mode set, and the modem selection
/// (LongRangeMode) in the same register is left as it was.
pub proof fn lemma_device_mode_roundtrip(op_mode: u8, device_mode: DeviceMode)
    ensures
        spec_device_mode_of(
            spec_set_bits(op_mode, device_mode.spec_bits(), OP_MODE_MODE_MASK, OP_MODE_MODE_OFFSET),
        ) == device_mode,
        spec_set_bits(op_mode, device_mode.spec_bits(), OP_MODE_MODE_MASK, OP_MODE_MODE_OFFSET)
            & OP_MODE_LONG_RANGE_MODE_MASK == op_mode & OP_MODE_LONG_RANGE_MODE_MASK,
{
    let v = device_mode.spec_bits();
    let b = op_mode;
    assert(
        ((((b & !0x07u8) | ((v << 0u8) & 0x07u8)) & 0x07u8) >> 0u8 == v)
        && (((b & !0x07u8) | ((v << 0u8) & 0x07u8)) & 0x80u8 == b & 0x80u8)
    ) by (bit_vector)
        requires
            v <= 7,
    ;
}

/// Masking an interrupt sets its flag in RegIrqFlagsMask, unmasking clears it, and neither
/// touches the other flags.
pub proof fn lemma_mask_unmask(irq_flags_mask: u8, mask: u8)
    ensures
        (irq_flags_mask | mask) & mask == mask,
        (irq_flags_mask & !mask) & mask == 0,
        (irq_flags_mask | mask) & !mask == irq_flags_mask & !mask,
        (irq_flags_mask & !mask) & !mask == irq_flags_mask & !mask,
        ((irq_flags_mask | mask) & !mask) == (irq_flags_mask & !mask),
{
    let b = irq_flags_mask;
    assert(
        ((b | mask) & mask == mask)
        && ((b & !mask) & mask == 0)
        && ((b | mask) & !mask == b & !mask)
        && ((b & !mask) & !mask == b & !mask)
    ) by (bit_vector);
}

/// Reading the carrier frequency back after setting it gives the frequency set, rounded down to
/// the synthesizer step: at most 62 Hz lower, for every carrier the 24-bit Frf code can hold.
pub proof fn lemma_frequency_roundtrip(hz: u32)
    requires
        spec_frf(hz as int) < 0x100_0000,
    ensures
        ({
            let (msb, mid, lsb) = spec_frf_registers(hz);
            &&& spec_frequency(spec_u24(msb, mid, lsb)) <= hz
            &&& hz <= spec_frequency(spec_u24(msb, mid, lsb)) + 62
        }),
{
    crate::common::lemma_frequency_of_frf(hz);
}

} // verus!
