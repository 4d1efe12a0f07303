use sx127x::common::error::Sx127xError;
use sx127x::lora::command::{
    ReadRxDataCommand, ReceiveCommand, SpreadingFactorCommand as LoraSpreadingFactorCommand,
    TransmitCommand,
};
use sx127x::lora::driver::Sx127xLoraError;
use sx127x::lora::types::SpreadingFactor as LoraSpreadingFactor;
use sx127x::sx127xlora::command::{
    Access, HeaderModeCommand, RxCommand, RxPacketCommand, SpreadingFactorCommand, Step, TxCommand,
};
use sx127x::sx127xlora::registers::{
    FIFO, FIFO_ADDR_PTR, FIFO_RX_CURRENT_ADDR, FIFO_TX_BASE_ADDR, FRF_LSB, FRF_MID, FRF_MSB,
    HOP_CHANNEL, IRQ_FLAGS, MODEM_CONFIG_2, MODEM_STAT, OP_MODE, PAYLOAD_LENGTH, PKT_RSSI_VALUE,
    PKT_SNR_VALUE, RSSI_VALUE, RX_NB_BYTES, SYMB_TIMEOUT_LSB, MODEM_CONFIG_1, DETECT_OPTIMIZE,
    DETECTION_THRESHOLD, DETECTION_THRESHOLD_SF6, DETECTION_THRESHOLD_SF7_TO_SF12,
};
use sx127x::sx127xlora::types::{
    CodingRate, HeaderMode, RxPacket, SpreadingFactor, TimeoutSymbols,
};

/// A register file with a FIFO behind RegFifo, recording every access.
struct Radio {
    regs: [u8; 128],
    fifo: [u8; 256],
    log: Vec<Access>,
}

impl Radio {
    fn new() -> Self {
        Radio { regs: [0; 128], fifo: [0; 256], log: Vec::new() }
    }

    fn access(&mut self, access: Access) -> u8 {
        self.log.push(access);
        match access {
            Access::Read(addr) if addr == FIFO => {
                let ptr = self.regs[FIFO_ADDR_PTR as usize];
                self.regs[FIFO_ADDR_PTR as usize] = ptr.wrapping_add(1);
                self.fifo[ptr as usize]
            }
            Access::Read(addr) => self.regs[addr as usize],
            Access::Write(addr, data) if addr == FIFO => {
                let ptr = self.regs[FIFO_ADDR_PTR as usize];
                self.regs[FIFO_ADDR_PTR as usize] = ptr.wrapping_add(1);
                self.fifo[ptr as usize] = data;
                0
            }
            Access::Write(addr, data) => {
                self.regs[addr as usize] = data;
                0
            }
        }
    }

    fn run<T, E>(&mut self, mut step: impl FnMut(u8) -> Step<T, E>) -> Result<T, E> {
        let mut input = 0u8;
        loop {
            match step(input) {
                Step::Access(access) => input = self.access(access),
                Step::Done(result) => return result,
            }
        }
    }
}

#[test]
fn tx_command_writes_payload_and_switches_to_tx() {
    let mut radio = Radio::new();
    radio.regs[OP_MODE as usize] = 0x85;
    let payload = [1u8, 2, 3];
    let mut command = TxCommand::new(&payload);
    assert!(radio.run(|input| command.step::<()>(input)).is_ok());
    assert_eq!(
        radio.log,
        vec![
            Access::Write(FIFO_TX_BASE_ADDR, 0x80),
            Access::Read(OP_MODE),
            Access::Write(OP_MODE, 0x81),
            Access::Write(FIFO_ADDR_PTR, 0x80),
            Access::Write(FIFO, 1),
            Access::Write(FIFO, 2),
            Access::Write(FIFO, 3),
            Access::Write(PAYLOAD_LENGTH, 3),
            Access::Read(OP_MODE),
            Access::Write(OP_MODE, 0x83),
        ]
    );
    assert_eq!(&radio.fifo[0x80..0x83], &[1, 2, 3]);
}

#[test]
fn tx_command_refuses_oversized_payload() {
    let mut radio = Radio::new();
    let payload = [0u8; 129];
    let mut command = TxCommand::new(&payload);
    assert!(matches!(
        radio.run(|input| command.step::<()>(input)),
        Err(Sx127xError::InvalidPayloadLength)
    ));
    assert!(radio.log.is_empty());
}

#[test]
fn tx_command_accepts_full_payload() {
    let mut radio = Radio::new();
    let payload = [0xa5u8; 128];
    let mut command = TxCommand::new(&payload);
    assert!(radio.run(|input| command.step::<()>(input)).is_ok());
    assert_eq!(radio.log.len(), 7 + 128);
    assert_eq!(radio.log[4 + 128], Access::Write(PAYLOAD_LENGTH, 128));
}

#[test]
fn rx_command_continuous() {
    let mut radio = Radio::new();
    radio.regs[OP_MODE as usize] = 0x83;
    let mut command = RxCommand::new(None);
    assert!(radio.run(|input| command.step::<()>(input)).is_ok());
    assert_eq!(
        radio.log,
        vec![
            Access::Read(OP_MODE),
            Access::Write(OP_MODE, 0x81),
            Access::Write(FIFO_ADDR_PTR, 0x00),
            Access::Read(OP_MODE),
            Access::Write(OP_MODE, 0x85),
        ]
    );
}

#[test]
fn rx_command_single_with_timeout() {
    let mut radio = Radio::new();
    radio.regs[OP_MODE as usize] = 0x81;
    radio.regs[MODEM_CONFIG_2 as usize] = 0x74;
    let mut command = RxCommand::new(Some(TimeoutSymbols::new(0x1ff).unwrap()));
    assert!(radio.run(|input| command.step::<()>(input)).is_ok());
    assert_eq!(
        radio.log,
        vec![
            Access::Read(OP_MODE),
            Access::Write(OP_MODE, 0x81),
            Access::Read(MODEM_CONFIG_2),
            Access::Write(MODEM_CONFIG_2, 0x75),
            Access::Write(SYMB_TIMEOUT_LSB, 0xff),
            Access::Write(FIFO_ADDR_PTR, 0x00),
            Access::Read(OP_MODE),
            Access::Write(OP_MODE, 0x86),
        ]
    );
    let programmed = (((radio.regs[MODEM_CONFIG_2 as usize] & 0x03) as u16) << 8)
        | radio.regs[SYMB_TIMEOUT_LSB as usize] as u16;
    assert_eq!(programmed, 0x1ff);
}

fn radio_with_packet() -> Radio {
    let mut radio = Radio::new();
    radio.regs[HOP_CHANNEL as usize] = 0x00;
    radio.regs[IRQ_FLAGS as usize] = 0x40;
    radio.regs[FIFO_RX_CURRENT_ADDR as usize] = 0x10;
    radio.regs[RX_NB_BYTES as usize] = 3;
    radio.fifo[0x10..0x13].copy_from_slice(&[7, 8, 9]);
    radio.regs[MODEM_STAT as usize] = 0x40;
    radio.regs[PKT_SNR_VALUE as usize] = 0x28;
    radio.regs[FRF_MSB as usize] = 0x6c;
    radio.regs[FRF_MID as usize] = 0x80;
    radio.regs[FRF_LSB as usize] = 0x00;
    radio.regs[PKT_RSSI_VALUE as usize] = 0x50;
    radio.regs[RSSI_VALUE as usize] = 0x40;
    radio
}

#[test]
fn rx_packet_command_reads_packet() {
    let mut radio = radio_with_packet();
    let mut command = RxPacketCommand::new();
    let packet: RxPacket = radio.run(|input| command.step::<()>(input)).ok().unwrap();
    assert_eq!(packet.coding_rate, CodingRate::Cr4_6);
    assert_eq!(&packet.payload[..4], &[7, 8, 9, 0]);
    assert!(packet.payload[3..].iter().all(|&b| b == 0));
    assert_eq!(packet.snr, 10);
    // 434 MHz is below the high band: -164 + 64 * 16 / 15
    assert_eq!(packet.rssi, -96);
    assert_eq!(
        radio.log,
        vec![
            Access::Read(HOP_CHANNEL),
            Access::Read(IRQ_FLAGS),
            Access::Read(FIFO_RX_CURRENT_ADDR),
            Access::Write(FIFO_ADDR_PTR, 0x10),
            Access::Read(RX_NB_BYTES),
            Access::Read(FIFO),
            Access::Read(FIFO),
            Access::Read(FIFO),
            Access::Read(MODEM_STAT),
            Access::Read(PKT_SNR_VALUE),
            Access::Read(FRF_MSB),
            Access::Read(FRF_MID),
            Access::Read(FRF_LSB),
            Access::Read(PKT_RSSI_VALUE),
            Access::Read(PKT_SNR_VALUE),
            Access::Read(RSSI_VALUE),
        ]
    );
}

#[test]
fn rx_packet_command_empty_payload() {
    let mut radio = radio_with_packet();
    radio.regs[RX_NB_BYTES as usize] = 0;
    let mut command = RxPacketCommand::new();
    let packet = radio.run(|input| command.step::<()>(input)).ok().unwrap();
    assert!(packet.payload.iter().all(|&b| b == 0));
    assert_eq!(radio.log.len(), 13);
}

#[test]
fn rx_packet_command_refuses_timed_out_packet() {
    let mut radio = radio_with_packet();
    radio.regs[IRQ_FLAGS as usize] = 0x80;
    let mut command = RxPacketCommand::new();
    assert!(matches!(
        radio.run(|input| command.step::<()>(input)),
        Err(Sx127xError::PacketTermination)
    ));
    assert_eq!(radio.log, vec![Access::Read(HOP_CHANNEL), Access::Read(IRQ_FLAGS)]);
}

#[test]
fn rx_packet_command_refuses_crc_error() {
    let mut radio = radio_with_packet();
    radio.regs[HOP_CHANNEL as usize] = 0x40;
    radio.regs[IRQ_FLAGS as usize] = 0x20;
    let mut command = RxPacketCommand::new();
    assert!(matches!(
        radio.run(|input| command.step::<()>(input)),
        Err(Sx127xError::PacketTermination)
    ));
}

#[test]
fn rx_packet_command_refuses_oversized_count() {
    let mut radio = radio_with_packet();
    radio.regs[RX_NB_BYTES as usize] = 200;
    let mut command = RxPacketCommand::new();
    assert!(matches!(
        radio.run(|input| command.step::<()>(input)),
        Err(Sx127xError::InvalidPayloadLength)
    ));
    assert_eq!(radio.log.len(), 5);
}

#[test]
fn spreading_factor_command_refuses_sf6_in_explicit_header_mode() {
    let mut radio = Radio::new();
    radio.regs[MODEM_CONFIG_1 as usize] = 0x72;
    let mut command = SpreadingFactorCommand::new(SpreadingFactor::Sf6);
    assert!(matches!(
        radio.run(|input| command.step::<()>(input)),
        Err(Sx127xError::SF6RequiresImplicitHeaderMode)
    ));
    assert_eq!(radio.log, vec![Access::Read(MODEM_CONFIG_1)]);
}

#[test]
fn spreading_factor_command_sets_sf6_in_implicit_header_mode() {
    let mut radio = Radio::new();
    radio.regs[MODEM_CONFIG_1 as usize] = 0x73;
    radio.regs[MODEM_CONFIG_2 as usize] = 0x74;
    radio.regs[DETECT_OPTIMIZE as usize] = 0xc3;
    let mut command = SpreadingFactorCommand::new(SpreadingFactor::Sf6);
    assert!(radio.run(|input| command.step::<()>(input)).is_ok());
    assert_eq!(
        radio.log,
        vec![
            Access::Read(MODEM_CONFIG_1),
            Access::Read(MODEM_CONFIG_2),
            Access::Write(MODEM_CONFIG_2, 0x64),
            Access::Read(DETECT_OPTIMIZE),
            Access::Write(DETECTION_THRESHOLD, DETECTION_THRESHOLD_SF6),
            Access::Write(DETECT_OPTIMIZE, 0xc5),
        ]
    );
}

#[test]
fn spreading_factor_command_sets_sf9() {
    let mut radio = Radio::new();
    radio.regs[MODEM_CONFIG_2 as usize] = 0x74;
    radio.regs[DETECT_OPTIMIZE as usize] = 0xc5;
    let mut command = SpreadingFactorCommand::new(SpreadingFactor::Sf9);
    assert!(radio.run(|input| command.step::<()>(input)).is_ok());
    assert_eq!(
        radio.log,
        vec![
            Access::Read(MODEM_CONFIG_2),
            Access::Write(MODEM_CONFIG_2, 0x94),
            Access::Read(DETECT_OPTIMIZE),
            Access::Write(DETECTION_THRESHOLD, DETECTION_THRESHOLD_SF7_TO_SF12),
            Access::Write(DETECT_OPTIMIZE, 0xc3),
        ]
    );
}

#[test]
fn transmit_command_writes_payload() {
    let mut radio = Radio::new();
    radio.regs[OP_MODE as usize] = 0x85;
    let payload = [1u8, 2];
    let mut command = TransmitCommand::new(&payload);
    assert!(radio.run(|input| command.step::<()>(input)).is_ok());
    assert_eq!(
        radio.log,
        vec![
            Access::Read(OP_MODE),
            Access::Read(OP_MODE),
            Access::Write(OP_MODE, 0x81),
            Access::Write(FIFO_ADDR_PTR, 0x0e),
            Access::Write(FIFO, 1),
            Access::Write(FIFO, 2),
            Access::Write(PAYLOAD_LENGTH, 2),
            Access::Read(OP_MODE),
            Access::Write(OP_MODE, 0x83),
        ]
    );
    assert_eq!(&radio.fifo[0x0e..0x10], &[1, 2]);
}

#[test]
fn transmit_command_does_nothing_while_transmitting() {
    let mut radio = Radio::new();
    radio.regs[OP_MODE as usize] = 0x83;
    let payload = [1u8, 2];
    let mut command = TransmitCommand::new(&payload);
    assert!(radio.run(|input| command.step::<()>(input)).is_ok());
    assert_eq!(radio.log, vec![Access::Read(OP_MODE)]);
}

#[test]
fn transmit_command_refuses_oversized_payload() {
    let mut radio = Radio::new();
    radio.regs[OP_MODE as usize] = 0x81;
    let payload = [0u8; 256];
    let mut command = TransmitCommand::new(&payload);
    assert!(matches!(
        radio.run(|input| command.step::<()>(input)),
        Err(Sx127xLoraError::InvalidPayloadLength)
    ));
    assert_eq!(radio.log, vec![Access::Read(OP_MODE)]);
}

#[test]
fn receive_command_continuous() {
    let mut radio = Radio::new();
    radio.regs[OP_MODE as usize] = 0x83;
    let mut command = ReceiveCommand::new(None);
    assert!(radio.run(|input| command.step::<()>(input)).is_ok());
    assert_eq!(
        radio.log,
        vec![
            Access::Read(OP_MODE),
            Access::Write(OP_MODE, 0x81),
            Access::Write(FIFO_ADDR_PTR, 0x0f),
            Access::Read(OP_MODE),
            Access::Write(OP_MODE, 0x85),
        ]
    );
}

#[test]
fn receive_command_single_with_timeout() {
    let mut radio = Radio::new();
    radio.regs[OP_MODE as usize] = 0x81;
    radio.regs[MODEM_CONFIG_2 as usize] = 0x70;
    let mut command = ReceiveCommand::new(Some(0x3ff));
    assert!(radio.run(|input| command.step::<()>(input)).is_ok());
    assert_eq!(
        radio.log,
        vec![
            Access::Read(OP_MODE),
            Access::Write(OP_MODE, 0x81),
            Access::Read(MODEM_CONFIG_2),
            Access::Write(MODEM_CONFIG_2, 0x73),
            Access::Write(SYMB_TIMEOUT_LSB, 0xff),
            Access::Write(FIFO_ADDR_PTR, 0x0f),
            Access::Read(OP_MODE),
            Access::Write(OP_MODE, 0x86),
        ]
    );
    let programmed = (((radio.regs[MODEM_CONFIG_2 as usize] & 0x03) as u16) << 8)
        | radio.regs[SYMB_TIMEOUT_LSB as usize] as u16;
    assert_eq!(programmed, 0x3ff);
}

#[test]
fn receive_command_refuses_timeout_after_standby() {
    let mut radio = Radio::new();
    radio.regs[OP_MODE as usize] = 0x85;
    let mut command = ReceiveCommand::new(Some(3));
    assert!(matches!(
        radio.run(|input| command.step::<()>(input)),
        Err(Sx127xLoraError::InvalidSymbolTimeout)
    ));
    assert_eq!(radio.log, vec![Access::Read(OP_MODE), Access::Write(OP_MODE, 0x81)]);
    let mut command = ReceiveCommand::new(Some(1024));
    assert!(matches!(
        radio.run(|input| command.step::<()>(input)),
        Err(Sx127xLoraError::InvalidSymbolTimeout)
    ));
}

#[test]
fn read_rx_data_command_reads_bytes() {
    let mut radio = radio_with_packet();
    radio.regs[IRQ_FLAGS as usize] = 0x00;
    let mut command = ReadRxDataCommand::new();
    let buffer = radio.run(|input| command.step::<()>(input)).ok().unwrap();
    assert_eq!(buffer.len(), 255);
    assert_eq!(&buffer[..4], &[7, 8, 9, 0]);
    assert!(buffer[3..].iter().all(|&b| b == 0));
    assert_eq!(
        radio.log,
        vec![
            Access::Read(HOP_CHANNEL),
            Access::Read(IRQ_FLAGS),
            Access::Read(FIFO_RX_CURRENT_ADDR),
            Access::Write(FIFO_ADDR_PTR, 0x10),
            Access::Read(RX_NB_BYTES),
            Access::Read(FIFO),
            Access::Read(FIFO),
            Access::Read(FIFO),
        ]
    );
}

#[test]
fn read_rx_data_command_refuses_bad_packet() {
    let mut radio = radio_with_packet();
    radio.regs[IRQ_FLAGS as usize] = 0x10;
    let mut command = ReadRxDataCommand::new();
    assert!(matches!(
        radio.run(|input| command.step::<()>(input)),
        Err(Sx127xLoraError::PacketTermination)
    ));
    assert_eq!(radio.log.len(), 2);
}

#[test]
fn lora_spreading_factor_command_sf6_sets_implicit_header() {
    let mut radio = Radio::new();
    radio.regs[MODEM_CONFIG_2 as usize] = 0x70;
    radio.regs[DETECT_OPTIMIZE as usize] = 0xc3;
    radio.regs[MODEM_CONFIG_1 as usize] = 0x72;
    let mut command = LoraSpreadingFactorCommand::new(LoraSpreadingFactor::Sf6);
    assert!(radio.run(|input| command.step::<()>(input)).is_ok());
    assert_eq!(
        radio.log,
        vec![
            Access::Read(MODEM_CONFIG_2),
            Access::Write(MODEM_CONFIG_2, 0x60),
            Access::Read(DETECT_OPTIMIZE),
            Access::Read(MODEM_CONFIG_1),
            Access::Write(MODEM_CONFIG_1, 0x73),
            Access::Write(DETECTION_THRESHOLD, 0x0c),
            Access::Write(DETECT_OPTIMIZE, 0xc5),
        ]
    );
}

#[test]
fn lora_spreading_factor_command_sf9() {
    let mut radio = Radio::new();
    radio.regs[MODEM_CONFIG_2 as usize] = 0x70;
    radio.regs[DETECT_OPTIMIZE as usize] = 0xc5;
    let mut command = LoraSpreadingFactorCommand::new(LoraSpreadingFactor::Sf9);
    assert!(radio.run(|input| command.step::<()>(input)).is_ok());
    assert_eq!(
        radio.log,
        vec![
            Access::Read(MODEM_CONFIG_2),
            Access::Write(MODEM_CONFIG_2, 0x90),
            Access::Read(DETECT_OPTIMIZE),
            Access::Write(DETECTION_THRESHOLD, 0x0a),
            Access::Write(DETECT_OPTIMIZE, 0xc3),
        ]
    );
}

#[test]
fn header_mode_command_refuses_explicit_with_sf6() {
    let mut radio = Radio::new();
    radio.regs[MODEM_CONFIG_2 as usize] = 0x64;
    radio.regs[MODEM_CONFIG_1 as usize] = 0x73;
    let mut command = HeaderModeCommand::new(HeaderMode::Explicit);
    assert!(matches!(
        radio.run(|input| command.step::<()>(input)),
        Err(Sx127xError::InvalidInput)
    ));
    assert_eq!(radio.log, vec![Access::Read(MODEM_CONFIG_2)]);
}

#[test]
fn header_mode_command_sets_implicit_with_sf6() {
    let mut radio = Radio::new();
    radio.regs[MODEM_CONFIG_2 as usize] = 0x64;
    radio.regs[MODEM_CONFIG_1 as usize] = 0x72;
    let mut command = HeaderModeCommand::new(HeaderMode::Implicit);
    assert!(radio.run(|input| command.step::<()>(input)).is_ok());
    assert_eq!(
        radio.log,
        vec![
            Access::Read(MODEM_CONFIG_2),
            Access::Read(MODEM_CONFIG_1),
            Access::Write(MODEM_CONFIG_1, 0x73),
        ]
    );
}

#[test]
fn header_mode_command_sets_explicit_with_sf9() {
    let mut radio = Radio::new();
    radio.regs[MODEM_CONFIG_2 as usize] = 0x94;
    radio.regs[MODEM_CONFIG_1 as usize] = 0x73;
    let mut command = HeaderModeCommand::new(HeaderMode::Explicit);
    assert!(radio.run(|input| command.step::<()>(input)).is_ok());
    assert_eq!(radio.log[2], Access::Write(MODEM_CONFIG_1, 0x72));
}

#[test]
fn rx_packet_command_negative_snr() {
    let mut radio = radio_with_packet();
    radio.regs[PKT_SNR_VALUE as usize] = 0xf8;
    let mut command = RxPacketCommand::new();
    let packet = radio.run(|input| command.step::<()>(input)).ok().unwrap();
    assert_eq!(packet.snr, -2);
    // negative SNR: -164 + 0x50 + (-2)
    assert_eq!(packet.rssi, -86);
}
