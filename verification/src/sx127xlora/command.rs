//! Multi-step driver commands as state machines.
//!
//! A command asks for one register access at a time; the caller performs it and hands back the
//! value of each read. The contracts state the whole sequence of accesses a command makes, as a
//! function of the values read.
use vstd::prelude::*;

use crate::common::error::Sx127xError;
use crate::common::{spec_frequency, spec_get_bits, spec_set_bits};
use crate::sx127xlora::calculate::{last_packet_rssi_dbm, spec_last_packet_rssi_dbm};
use crate::sx127xlora::constants::PAYLOAD_SIZE;
use crate::sx127xlora::driver::{
    check_spreading_factor, detection_for, frequency_of, last_packet_snr_of, rx_coding_rate_of,
    rx_termination_ok, rx_timeout_registers, spec_detection_optimize, spec_detection_threshold,
    spec_header_mode_of, spec_rx_termination_ok, spec_spreading_factor_of, spec_u24,
    spreading_factor_of, with_device_mode, with_header_mode, with_spreading_factor,
};
use crate::sx127xlora::registers::{
    DETECTION_THRESHOLD, DETECT_OPTIMIZE, DETECT_OPTIMIZE_DETECTION_OPTIMIZE_MASK, FIFO,
    FIFO_ADDR_PTR, FIFO_RX_BASE_ADDR_VALUE, FIFO_RX_CURRENT_ADDR, FIFO_TX_BASE_ADDR,
    FIFO_TX_BASE_ADDR_VALUE, FRF_LSB, FRF_MID, FRF_MSB, HOP_CHANNEL, IRQ_FLAGS, MODEM_CONFIG_1,
    MODEM_CONFIG_1_IMPLICIT_HEADER_MODE_ON_MASK, MODEM_CONFIG_1_IMPLICIT_HEADER_MODE_ON_OFFSET,
    MODEM_CONFIG_2, MODEM_CONFIG_2_SPREADING_FACTOR_MASK, MODEM_CONFIG_2_SPREADING_FACTOR_OFFSET,
    MODEM_CONFIG_2_SYMB_TIMEOUT_MASK, MODEM_CONFIG_2_SYMB_TIMEOUT_OFFSET, MODEM_STAT,
    MODEM_STAT_RX_CODING_RATE_MASK, MODEM_STAT_RX_CODING_RATE_OFFSET, OP_MODE, OP_MODE_MODE_MASK,
    OP_MODE_MODE_OFFSET, PAYLOAD_LENGTH, PKT_RSSI_VALUE, PKT_SNR_VALUE, RSSI_VALUE, RX_NB_BYTES,
    SYMB_TIMEOUT_LSB,
};
use crate::sx127xlora::types::{
    CodingRate, DeviceMode, HeaderMode, RxPacket, SpreadingFactor, TimeoutSymbols,
};
use crate::sx127xlora::validate::{header_mode_sf, spec_header_mode_sf};

verus! {

/// One register access over SPI.
#[derive(Clone, Copy, Debug, PartialEq, Eq, Structural)]
pub enum Access {
    /// Read the register at this address.
    Read(u8),
    /// Write the value to the register at this address.
    Write(u8, u8),
}

/// What a command asks for next.
#[derive(Debug)]
pub enum Step<T, E> {
    /// Perform this access; after a read, hand its value to the next step.
    Access(Access),
    /// The command is over, with this outcome.
    Done(Result<T, E>),
}

/// RegOpMode after switching the mode field to `mode`.
pub open spec fn spec_op_mode_with(op_mode: u8, mode: DeviceMode) -> u8 {
    spec_set_bits(op_mode, mode.spec_bits(), OP_MODE_MODE_MASK, OP_MODE_MODE_OFFSET)
}

// Transmission ----------------------------------------------------------------------------------
/// Access number `i` of a transmission of `payload`, given the RegOpMode values read so far:
/// set the TX base address, switch to STDBY, point the FIFO at the TX base, write the payload
/// byte by byte, write the payload length, and switch to TX.
///
/// See: datasheet figure 9
pub open spec fn spec_tx_access(payload: Seq<u8>, reads: Seq<u8>, i: int) -> Access {
    let n = payload.len() as int;
    if i == 0 {
        Access::Write(FIFO_TX_BASE_ADDR, FIFO_TX_BASE_ADDR_VALUE)
    } else if i == 1 {
        Access::Read(OP_MODE)
    } else if i == 2 {
        Access::Write(OP_MODE, spec_op_mode_with(reads[0], DeviceMode::STDBY))
    } else if i == 3 {
        Access::Write(FIFO_ADDR_PTR, FIFO_TX_BASE_ADDR_VALUE)
    } else if i < 4 + n {
        Access::Write(FIFO, payload[i - 4])
    } else if i == 4 + n {
        Access::Write(PAYLOAD_LENGTH, n as u8)
    } else if i == 5 + n {
        Access::Read(OP_MODE)
    } else {
        Access::Write(OP_MODE, spec_op_mode_with(reads[1], DeviceMode::TX))
    }
}

/// The number of accesses of a transmission of `n` bytes.
pub open spec fn spec_tx_length(n: int) -> int {
    7 + n
}

/// All accesses of a transmission of `payload`, given the two RegOpMode values read.
pub open spec fn spec_tx_accesses(payload: Seq<u8>, reads: Seq<u8>) -> Seq<Access> {
    Seq::new(spec_tx_length(payload.len() as int) as nat, |i: int| spec_tx_access(payload, reads, i))
}

/// The number of reads among the first `k` accesses of a transmission of `n` bytes.
pub open spec fn spec_tx_reads_before(n: int, k: int) -> int {
    if k <= 1 {
        0
    } else if k <= 5 + n {
        1
    } else {
        2
    }
}

/// Transmits a payload of up to PAYLOAD_SIZE bytes.
pub struct TxCommand<'a> {
    payload: &'a [u8],
    next: usize,
    op_mode: u8,
    finished: bool,
    emitted: Ghost<Seq<Access>>,
    reads: Ghost<Seq<u8>>,
}

impl<'a> TxCommand<'a> {
    pub closed spec fn payload(&self) -> Seq<u8> {
        self.payload@
    }

    /// The accesses asked for so far.
    pub closed spec fn emitted(&self) -> Seq<Access> {
        self.emitted@
    }

    /// The values handed back for the reads so far.
    pub closed spec fn reads(&self) -> Seq<u8> {
        self.reads@
    }

    /// The command is over.
    pub closed spec fn finished(&self) -> bool {
        self.finished
    }

    /// The last access asked for was a read, whose value the next step takes.
    pub open spec fn awaiting_read(&self) -> bool {
        self.emitted().len() > 0 && self.emitted().last() is Read
    }

    /// The invariant that construction establishes and every step keeps.
    pub closed spec fn wf(&self) -> bool {
        let n = self.payload@.len() as int;
        &&& (n > PAYLOAD_SIZE ==> self.next == 0)
        &&& self.next == self.emitted@.len()
        &&& self.next <= spec_tx_length(n)
        &&& self.reads@.len() == spec_tx_reads_before(n, self.next as int) - (if self.next == 2
            || self.next == 6 + n {
            1int
        } else {
            0int
        })
        &&& (self.next >= 3 ==> self.op_mode == self.reads@[0])
        &&& forall|i: int|
            0 <= i < self.next ==> #[trigger] self.emitted@[i] == spec_tx_access(
                self.payload@,
                self.reads@,
                i,
            )
    }

    pub fn new(payload: &'a [u8]) -> (r: Self)
        ensures
            r.payload() == payload@,
            r.emitted() == Seq::<Access>::empty(),
            r.reads() == Seq::<u8>::empty(),
            !r.finished(),
            r.wf(),
    {
        TxCommand {
            payload,
            next: 0,
            op_mode: 0,
            finished: false,
            emitted: Ghost(Seq::empty()),
            reads: Ghost(Seq::empty()),
        }
    }

    /// Asks for the next access; `input` is the value of the previous access when it was a
    /// read, and is ignored otherwise. A payload longer than PAYLOAD_SIZE ends the command before
    /// any access.
    pub fn step<E>(&mut self, input: u8) -> (r: Step<(), Sx127xError<E>>)
        requires
            old(self).wf(),
            !old(self).finished(),
        ensures
            final(self).wf(),
            final(self).payload() == old(self).payload(),
            final(self).reads() == (if old(self).awaiting_read() {
                old(self).reads().push(input)
            } else {
                old(self).reads()
            }),
            r matches Step::Access(a) ==> {
                &&& !final(self).finished()
                &&& final(self).emitted() == old(self).emitted().push(a)
                &&& final(self).emitted().len() <= spec_tx_length(final(self).payload().len() as int)
                &&& final(self).payload().len() <= PAYLOAD_SIZE
                &&& a == spec_tx_access(
                    final(self).payload(),
                    final(self).reads(),
                    old(self).emitted().len() as int,
                )
            },
            r matches Step::Done(res) ==> {
                &&& final(self).finished()
                &&& final(self).emitted() == old(self).emitted()
                &&& (res is Err <==> final(self).payload().len() > PAYLOAD_SIZE)
                &&& (res matches Err(e) ==> e is InvalidPayloadLength && final(self).emitted()
                    == Seq::<Access>::empty())
                &&& (res is Ok ==> final(self).emitted() == spec_tx_accesses(
                    final(self).payload(),
                    final(self).reads(),
                ))
            },
    {
        let n = self.payload.len();
        let k = self.next;
        let ghost old_emitted = self.emitted@;
        let ghost old_reads = self.reads@;
        if k == 2 || (n <= PAYLOAD_SIZE && k == 6 + n) {
            proof {
                self.reads = Ghost(old_reads.push(input));
                assert(old_emitted.last() == spec_tx_access(self.payload@, old_reads, k - 1));
            }
        } else {
            proof {
                if k > 0 {
                    assert(old_emitted.last() == spec_tx_access(self.payload@, old_reads, k - 1));
                }
            }
        }
        if k == 0 && n > PAYLOAD_SIZE {
            self.finished = true;
            return Step::Done(Err(Sx127xError::InvalidPayloadLength));
        }
        if k == 7 + n {
            self.finished = true;
            proof {
                assert(self.emitted@ =~= spec_tx_accesses(self.payload@, self.reads@));
            }
            return Step::Done(Ok(()));
        }
        let a = if k == 0 {
            Access::Write(FIFO_TX_BASE_ADDR, FIFO_TX_BASE_ADDR_VALUE)
        } else if k == 1 {
            Access::Read(OP_MODE)
        } else if k == 2 {
            self.op_mode = input;
            Access::Write(OP_MODE, with_device_mode(input, DeviceMode::STDBY))
        } else if k == 3 {
            Access::Write(FIFO_ADDR_PTR, FIFO_TX_BASE_ADDR_VALUE)
        } else if k < 4 + n {
            Access::Write(FIFO, self.payload[k - 4])
        } else if k == 4 + n {
            Access::Write(PAYLOAD_LENGTH, n as u8)
        } else if k == 5 + n {
            Access::Read(OP_MODE)
        } else {
            Access::Write(OP_MODE, with_device_mode(input, DeviceMode::TX))
        };
        self.next = k + 1;
        proof {
            self.emitted = Ghost(old_emitted.push(a));
            assert forall|i: int| 0 <= i < self.next implies #[trigger] self.emitted@[i]
                == spec_tx_access(self.payload@, self.reads@, i) by {
                if i < k {
                    assert(self.emitted@[i] == old_emitted[i]);
                    assert(spec_tx_access(self.payload@, self.reads@, i) == spec_tx_access(
                        self.payload@,
                        old_reads,
                        i,
                    ));
                }
            }
        }
        Step::Access(a)
    }
}

// Reception -------------------------------------------------------------------------------------
/// The mode a reception runs in: a single reception when a timeout is given, continuous
/// reception otherwise.
pub open spec fn spec_rx_mode(timeout: Option<u16>) -> DeviceMode {
    if timeout is Some {
        DeviceMode::RXSINGLE
    } else {
        DeviceMode::RXCONTINUOUS
    }
}

/// The number of accesses a reception makes.
pub open spec fn spec_rx_length(timeout: Option<u16>) -> int {
    if timeout is Some {
        8
    } else {
        5
    }
}

/// Access number `i` of the start of a reception, given the values read so far: switch to
/// STDBY, with a timeout write its bits 9-8 into RegModemConfig2 and bits 7-0 into
/// RegSymbTimeoutLsb, point the FIFO at the RX base, and switch to the reception mode.
///
/// See: datasheet pages 40-42
pub open spec fn spec_rx_access(timeout: Option<u16>, reads: Seq<u8>, i: int) -> Access {
    let off: int = if timeout is Some {
        3
    } else {
        0
    };
    if i == 0 {
        Access::Read(OP_MODE)
    } else if i == 1 {
        Access::Write(OP_MODE, spec_op_mode_with(reads[0], DeviceMode::STDBY))
    } else if timeout is Some && i == 2 {
        Access::Read(MODEM_CONFIG_2)
    } else if timeout is Some && i == 3 {
        Access::Write(
            MODEM_CONFIG_2,
            spec_set_bits(
                reads[1],
                (timeout->0 >> 8u16) as u8,
                MODEM_CONFIG_2_SYMB_TIMEOUT_MASK,
                MODEM_CONFIG_2_SYMB_TIMEOUT_OFFSET,
            ),
        )
    } else if timeout is Some && i == 4 {
        Access::Write(SYMB_TIMEOUT_LSB, (timeout->0 & 0xffu16) as u8)
    } else if i == 2 + off {
        Access::Write(FIFO_ADDR_PTR, FIFO_RX_BASE_ADDR_VALUE)
    } else if i == 3 + off {
        Access::Read(OP_MODE)
    } else {
        Access::Write(OP_MODE, spec_op_mode_with(reads[reads.len() - 1], spec_rx_mode(timeout)))
    }
}

/// All accesses of the start of a reception, given the values read.
pub open spec fn spec_rx_accesses(timeout: Option<u16>, reads: Seq<u8>) -> Seq<Access> {
    Seq::new(spec_rx_length(timeout) as nat, |i: int| spec_rx_access(timeout, reads, i))
}

/// A single reception programs its timeout whole: the symbol-timeout field of the
/// RegModemConfig2 value it writes and the RegSymbTimeoutLsb value it writes give back the
/// timeout, whatever RegModemConfig2 held.
pub proof fn lemma_rx_timeout_written(timeout: u16, reads: Seq<u8>)
    requires
        crate::sx127xlora::validate::spec_rx_timeout_symbols(timeout),
    ensures
        spec_rx_access(Some(timeout), reads, 3) == Access::Write(
            MODEM_CONFIG_2,
            spec_set_bits(
                reads[1],
                (timeout >> 8u16) as u8,
                MODEM_CONFIG_2_SYMB_TIMEOUT_MASK,
                MODEM_CONFIG_2_SYMB_TIMEOUT_OFFSET,
            ),
        ),
        spec_rx_access(Some(timeout), reads, 4) == Access::Write(
            SYMB_TIMEOUT_LSB,
            (timeout & 0xffu16) as u8,
        ),
        spec_get_bits(
            spec_set_bits(
                reads[1],
                (timeout >> 8u16) as u8,
                MODEM_CONFIG_2_SYMB_TIMEOUT_MASK,
                MODEM_CONFIG_2_SYMB_TIMEOUT_OFFSET,
            ),
            MODEM_CONFIG_2_SYMB_TIMEOUT_MASK,
            MODEM_CONFIG_2_SYMB_TIMEOUT_OFFSET,
        ) * 256 + ((timeout & 0xffu16) as u8) == timeout,
{
    let b = reads[1];
    let t = timeout;
    let hi = (t >> 8u16) as u8;
    let w = (b & !3u8) | ((hi << 0u8) & 3u8);
    let lsb = (t & 0xffu16) as u8;
    assert(((w & 3u8) >> 0u8) * 256 + lsb == t) by (bit_vector)
        requires
            t <= 1023,
            hi == (t >> 8u16) as u8,
            w == (b & !3u8) | ((hi << 0u8) & 3u8),
            lsb == (t & 0xffu16) as u8,
    ;
}

/// Puts the modem in a reception mode; see `spec_rx_access`.
pub struct RxCommand {
    symbols: Option<TimeoutSymbols>,
    next: usize,
    symb_timeout_lsb: u8,
    emitted: Ghost<Seq<Access>>,
    reads: Ghost<Seq<u8>>,
    finished: bool,
}

impl RxCommand {
    /// The timeout in symbols, when a single reception was asked for.
    pub closed spec fn timeout(&self) -> Option<u16> {
        match self.symbols {
            Some(t) => Some(t.spec_value()),
            None => None,
        }
    }

    /// The accesses asked for so far.
    pub closed spec fn emitted(&self) -> Seq<Access> {
        self.emitted@
    }

    /// The values handed back for the reads so far.
    pub closed spec fn reads(&self) -> Seq<u8> {
        self.reads@
    }

    /// The command is over.
    pub closed spec fn finished(&self) -> bool {
        self.finished
    }

    /// The last access asked for was a read, whose value the next step takes.
    pub open spec fn awaiting_read(&self) -> bool {
        self.emitted().len() > 0 && self.emitted().last() is Read
    }

    /// The invariant that construction establishes and every step keeps.
    pub closed spec fn wf(&self) -> bool {
        let off: int = if self.timeout() is Some {
            3
        } else {
            0
        };
        let k = self.next as int;
        &&& k == self.emitted@.len()
        &&& k <= spec_rx_length(self.timeout())
        &&& (k == 4 ==> (self.timeout() matches Some(t) ==> self.symb_timeout_lsb == (t & 0xffu16)
            as u8))
        &&& self.reads@.len() == (if k <= 1 {
            0int
        } else if self.timeout() is Some && k <= 3 {
            1int
        } else if k <= 4 + off {
            1 + (if self.timeout() is Some {
                1int
            } else {
                0int
            })
        } else {
            2 + (if self.timeout() is Some {
                1int
            } else {
                0int
            })
        })
        &&& forall|i: int|
            0 <= i < k ==> #[trigger] self.emitted@[i] == spec_rx_access(
                self.timeout(),
                self.reads@,
                i,
            )
    }

    pub fn new(timeout: Option<TimeoutSymbols>) -> (r: Self)
        ensures
            r.wf(),
            !r.finished(),
            r.emitted() == Seq::<Access>::empty(),
            r.reads() == Seq::<u8>::empty(),
            r.timeout() == (match timeout {
                Some(t) => Some(t.spec_value()),
                None => None,
            }),
    {
        RxCommand {
            symbols: timeout,
            next: 0,
            symb_timeout_lsb: 0,
            emitted: Ghost(Seq::empty()),
            reads: Ghost(Seq::empty()),
            finished: false,
        }
    }

    /// Asks for the next access; `input` is the value of the previous access when it was a
    /// read, and is ignored otherwise.
    pub fn step<E>(&mut self, input: u8) -> (r: Step<(), Sx127xError<E>>)
        requires
            old(self).wf(),
            !old(self).finished(),
        ensures
            final(self).wf(),
            final(self).timeout() == old(self).timeout(),
            final(self).reads() == (if old(self).awaiting_read() {
                old(self).reads().push(input)
            } else {
                old(self).reads()
            }),
            r matches Step::Access(a) ==> {
                &&& !final(self).finished()
                &&& final(self).emitted() == old(self).emitted().push(a)
                &&& final(self).emitted().len() <= spec_rx_length(final(self).timeout())
                &&& a == spec_rx_access(
                    final(self).timeout(),
                    final(self).reads(),
                    old(self).emitted().len() as int,
                )
            },
            r matches Step::Done(res) ==> {
                &&& final(self).finished()
                &&& res is Ok
                &&& final(self).emitted() == spec_rx_accesses(
                    final(self).timeout(),
                    final(self).reads(),
                )
            },
    {
        let k = self.next;
        let timeout: Option<u16> = match &self.symbols {
            Some(t) => Some(t.value()),
            None => None,
        };
        let off: usize = if timeout.is_some() {
            3
        } else {
            0
        };
        let ghost old_emitted = self.emitted@;
        let ghost old_reads = self.reads@;
        let awaiting = k == 1 || (timeout.is_some() && k == 3) || k == 4 + off;
        if awaiting {
            proof {
                self.reads = Ghost(old_reads.push(input));
            }
        }
        proof {
            if k > 0 {
                assert(old_emitted.last() == spec_rx_access(timeout, old_reads, k - 1));
            }
        }
        if k == 5 + off {
            self.finished = true;
            proof {
                assert(self.emitted@ =~= spec_rx_accesses(timeout, self.reads@));
            }
            return Step::Done(Ok(()));
        }
        let a = if k == 0 {
            Access::Read(OP_MODE)
        } else if k == 1 {
            Access::Write(OP_MODE, with_device_mode(input, DeviceMode::STDBY))
        } else if k == 2 + off {
            Access::Write(FIFO_ADDR_PTR, FIFO_RX_BASE_ADDR_VALUE)
        } else if k == 3 + off {
            Access::Read(OP_MODE)
        } else if k == 4 + off {
            let mode = if timeout.is_some() {
                DeviceMode::RXSINGLE
            } else {
                DeviceMode::RXCONTINUOUS
            };
            Access::Write(OP_MODE, with_device_mode(input, mode))
        } else {
            match &self.symbols {
                Some(t) => {
                    if k == 2 {
                        Access::Read(MODEM_CONFIG_2)
                    } else if k == 3 {
                        let (modem_config_2, symb_timeout_lsb) = rx_timeout_registers(input, t);
                        self.symb_timeout_lsb = symb_timeout_lsb;
                        Access::Write(MODEM_CONFIG_2, modem_config_2)
                    } else {
                        Access::Write(SYMB_TIMEOUT_LSB, self.symb_timeout_lsb)
                    }
                },
                None => Access::Read(OP_MODE),
            }
        };
        self.next = k + 1;
        proof {
            self.emitted = Ghost(old_emitted.push(a));
            assert forall|i: int| 0 <= i < self.next implies #[trigger] self.emitted@[i]
                == spec_rx_access(timeout, self.reads@, i) by {
                if i < k {
                    assert(self.emitted@[i] == old_emitted[i]);
                }
            }
        }
        Step::Access(a)
    }
}

// Packet read-out ------------------------------------------------------------------------------
/// The number of values handed back before step `k` of a packet read-out: every access but
/// number 3 is a read, and the value of the last access asked for is still outstanding.
pub open spec fn spec_rx_packet_answered(k: int) -> int {
    if k == 0 {
        0
    } else if k <= 4 {
        k - 1
    } else {
        k - 2
    }
}

/// The number of accesses of a packet read-out of `n` payload bytes.
pub open spec fn spec_rx_packet_length(n: int) -> int {
    13 + n
}

/// Access number `i` of a packet read-out, given the values read so far: read RegHopChannel and
/// RegIrqFlags, read the current RX address and point the FIFO at it, read the byte count, read
/// that many bytes from the FIFO, then read RegModemStat, the SNR, the carrier frequency, the
/// packet RSSI, the SNR again and the current RSSI.
///
/// See: datasheet figure 10
pub open spec fn spec_rx_packet_access(reads: Seq<u8>, i: int) -> Access {
    let n = reads[3] as int;
    if i == 0 {
        Access::Read(HOP_CHANNEL)
    } else if i == 1 {
        Access::Read(IRQ_FLAGS)
    } else if i == 2 {
        Access::Read(FIFO_RX_CURRENT_ADDR)
    } else if i == 3 {
        Access::Write(FIFO_ADDR_PTR, reads[2])
    } else if i == 4 {
        Access::Read(RX_NB_BYTES)
    } else if i < 5 + n {
        Access::Read(FIFO)
    } else if i == 5 + n {
        Access::Read(MODEM_STAT)
    } else if i == 6 + n {
        Access::Read(PKT_SNR_VALUE)
    } else if i == 7 + n {
        Access::Read(FRF_MSB)
    } else if i == 8 + n {
        Access::Read(FRF_MID)
    } else if i == 9 + n {
        Access::Read(FRF_LSB)
    } else if i == 10 + n {
        Access::Read(PKT_RSSI_VALUE)
    } else if i == 11 + n {
        Access::Read(PKT_SNR_VALUE)
    } else {
        Access::Read(RSSI_VALUE)
    }
}

/// All accesses of a packet read-out that got to the end, given the values read.
pub open spec fn spec_rx_packet_accesses(reads: Seq<u8>) -> Seq<Access> {
    Seq::new(spec_rx_packet_length(reads[3] as int) as nat, |i: int| spec_rx_packet_access(reads, i))
}

/// The packet a read-out gives from the values it read: the coding rate from RegModemStat, the
/// payload bytes read from the FIFO followed by zeros, the SNR of the first SNR reading and the
/// RSSI of the last packet.
pub open spec fn spec_rx_packet(reads: Seq<u8>, packet: RxPacket) -> bool {
    let n = reads[3] as int;
    &&& packet.coding_rate == CodingRate::spec_from_bits(
        spec_get_bits(reads[4 + n], MODEM_STAT_RX_CODING_RATE_MASK, MODEM_STAT_RX_CODING_RATE_OFFSET),
    )
    &&& (forall|j: int| 0 <= j < n ==> #[trigger] packet.payload@[j] == reads[4 + j])
    &&& (forall|j: int| n <= j < PAYLOAD_SIZE ==> #[trigger] packet.payload@[j] == 0)
    &&& packet.snr == (reads[5 + n] as i8) as int / 4
    &&& packet.rssi == spec_last_packet_rssi_dbm(
        spec_frequency(spec_u24(reads[6 + n], reads[7 + n], reads[8 + n])) as u32,
        reads[9 + n] as i16,
        ((reads[10 + n] as i8) as int / 4) as i16,
        reads[11 + n] as i16,
    )
}

/// What a packet read-out ends with, given the values read and the accesses made: a packet
/// that did not end well is refused after RegIrqFlags, a byte count larger than the buffer is
/// refused after RegRxNbBytes, and otherwise the packet of `spec_rx_packet` comes back after
/// all accesses of `spec_rx_packet_accesses`.
pub open spec fn spec_rx_packet_outcome<E>(
    reads: Seq<u8>,
    emitted: Seq<Access>,
    res: Result<RxPacket, Sx127xError<E>>,
) -> bool {
    if !spec_rx_termination_ok(reads[0], reads[1]) {
        &&& reads.len() == 2
        &&& emitted.len() == 2
        &&& res matches Err(e) && e is PacketTermination
    } else if reads[3] > PAYLOAD_SIZE {
        &&& reads.len() == 4
        &&& emitted.len() == 5
        &&& res matches Err(e) && e is InvalidPayloadLength
    } else {
        &&& reads.len() == 12 + reads[3]
        &&& emitted == spec_rx_packet_accesses(reads)
        &&& res matches Ok(p) && spec_rx_packet(reads, p)
    }
}

/// An access already asked for stays the same when a value is handed back.
proof fn lemma_rx_packet_access_stable(r: Seq<u8>, x: u8, i: int)
    requires
        0 <= i,
        i == 3 ==> r.len() >= 3,
        i >= 5 ==> r.len() >= 4,
    ensures
        spec_rx_packet_access(r.push(x), i) == spec_rx_packet_access(r, i),
{
    if i == 3 || i >= 5 {
        assert(r.push(x)[2] == r[2]);
    }
    if i >= 5 {
        assert(r.push(x)[3] == r[3]);
    }
}

/// Reads the packet received into the FIFO; see `spec_rx_packet_access`.
pub struct RxPacketCommand {
    next: usize,
    finished: bool,
    hop_channel: u8,
    count: usize,
    buffer: [u8; PAYLOAD_SIZE],
    modem_stat: u8,
    snr: u8,
    frf: (u8, u8, u8),
    packet_rssi: u8,
    snr_again: u8,
    emitted: Ghost<Seq<Access>>,
    reads: Ghost<Seq<u8>>,
}

impl RxPacketCommand {
    /// The accesses asked for so far.
    pub closed spec fn emitted(&self) -> Seq<Access> {
        self.emitted@
    }

    /// The values handed back for the reads so far.
    pub closed spec fn reads(&self) -> Seq<u8> {
        self.reads@
    }

    /// The command is over.
    pub closed spec fn finished(&self) -> bool {
        self.finished
    }

    /// The last access asked for was a read, whose value the next step takes.
    pub open spec fn awaiting_read(&self) -> bool {
        self.emitted().len() > 0 && self.emitted().last() is Read
    }

    /// The invariant that construction establishes and every step keeps.
    pub closed spec fn wf(&self) -> bool {
        let k = self.next as int;
        let r = self.reads@;
        let n = self.count as int;
        let full = k >= 6;
        &&& k == self.emitted@.len()
        &&& r.len() == spec_rx_packet_answered(k) + (if self.finished {
            1int
        } else {
            0int
        })
        &&& self.buffer@.len() == PAYLOAD_SIZE
        &&& (r.len() >= 1 ==> self.hop_channel == r[0])
        &&& (k > 2 ==> spec_rx_termination_ok(r[0], r[1]))
        &&& (full ==> self.count == r[3] && n <= PAYLOAD_SIZE && k <= spec_rx_packet_length(n))
        &&& (forall|j: int|
            0 <= j < PAYLOAD_SIZE && !(full && j < n && 4 + j < r.len())
                ==> #[trigger] self.buffer@[j] == 0)
        &&& (forall|j: int|
            full && 0 <= j < n && 4 + j < r.len() ==> #[trigger] self.buffer@[j] == r[4 + j])
        &&& (full && r.len() > 4 + n ==> self.modem_stat == r[4 + n])
        &&& (full && r.len() > 5 + n ==> self.snr == r[5 + n])
        &&& (full && r.len() > 6 + n ==> self.frf.0 == r[6 + n])
        &&& (full && r.len() > 7 + n ==> self.frf.1 == r[7 + n])
        &&& (full && r.len() > 8 + n ==> self.frf.2 == r[8 + n])
        &&& (full && r.len() > 9 + n ==> self.packet_rssi == r[9 + n])
        &&& (full && r.len() > 10 + n ==> self.snr_again == r[10 + n])
        &&& forall|i: int| 0 <= i < k ==> #[trigger] self.emitted@[i] == spec_rx_packet_access(r, i)
    }

    pub fn new() -> (r: Self)
        ensures
            r.wf(),
            !r.finished(),
            r.emitted() == Seq::<Access>::empty(),
            r.reads() == Seq::<u8>::empty(),
    {
        RxPacketCommand {
            next: 0,
            finished: false,
            hop_channel: 0,
            count: 0,
            buffer: [0u8; PAYLOAD_SIZE],
            modem_stat: 0,
            snr: 0,
            frf: (0, 0, 0),
            packet_rssi: 0,
            snr_again: 0,
            emitted: Ghost(Seq::empty()),
            reads: Ghost(Seq::empty()),
        }
    }

    /// Asks for the next access; `input` is the value of the previous access when it was a
    /// read, and is ignored otherwise.
    #[verifier::rlimit(40)]
    pub fn step<E>(&mut self, input: u8) -> (r: Step<RxPacket, Sx127xError<E>>)
        requires
            old(self).wf(),
            !old(self).finished(),
        ensures
            final(self).wf(),
            final(self).reads() == (if old(self).awaiting_read() {
                old(self).reads().push(input)
            } else {
                old(self).reads()
            }),
            r matches Step::Access(a) ==> {
                &&& !final(self).finished()
                &&& final(self).emitted() == old(self).emitted().push(a)
                &&& final(self).emitted().len() <= spec_rx_packet_length(PAYLOAD_SIZE as int)
                &&& final(self).reads().len() >= 2 ==> spec_rx_termination_ok(
                    final(self).reads()[0],
                    final(self).reads()[1],
                )
                &&& final(self).reads().len() >= 4 ==> final(self).reads()[3] <= PAYLOAD_SIZE
                &&& a == spec_rx_packet_access(final(self).reads(), old(self).emitted().len() as int)
            },
            r matches Step::Done(res) ==> {
                &&& final(self).finished()
                &&& final(self).emitted() == old(self).emitted()
                &&& spec_rx_packet_outcome(final(self).reads(), final(self).emitted(), res)
            },
    {
        let k = self.next;
        let ghost old_emitted = self.emitted@;
        let ghost old_reads = self.reads@;
        proof {
            if k > 0 {
                assert(old_emitted.last() == spec_rx_packet_access(old_reads, k - 1));
            }
            if k > 0 && k != 4 {
                self.reads = Ghost(old_reads.push(input));
            }
        }
        let n = self.count;
        if k == 1 {
            self.hop_channel = input;
        } else if k == 2 {
            if !rx_termination_ok(self.hop_channel, input) {
                self.finished = true;
                return Step::Done(Err(Sx127xError::PacketTermination));
            }
        } else if k == 5 {
            if input as usize > PAYLOAD_SIZE {
                self.finished = true;
                return Step::Done(Err(Sx127xError::InvalidPayloadLength));
            }
            self.count = input as usize;
        } else if k >= 6 && k < 6 + n {
            self.buffer[k - 6] = input;
        } else if k >= 6 && k == 6 + n {
            self.modem_stat = input;
        } else if k >= 6 && k == 7 + n {
            self.snr = input;
        } else if k >= 6 && k == 8 + n {
            self.frf.0 = input;
        } else if k >= 6 && k == 9 + n {
            self.frf.1 = input;
        } else if k >= 6 && k == 10 + n {
            self.frf.2 = input;
        } else if k >= 6 && k == 11 + n {
            self.packet_rssi = input;
        } else if k >= 6 && k == 12 + n {
            self.snr_again = input;
        } else if k >= 6 && k == 13 + n {
            let coding_rate = rx_coding_rate_of(self.modem_stat);
            let snr = last_packet_snr_of(self.snr);
            let frequency = frequency_of(self.frf.0, self.frf.1, self.frf.2);
            let rssi = last_packet_rssi_dbm(
                frequency,
                self.packet_rssi as i16,
                last_packet_snr_of(self.snr_again),
                input as i16,
            );
            let packet = RxPacket::new(coding_rate, self.buffer, rssi, snr);
            self.finished = true;
            proof {
                let r = self.reads@;
                assert(r.len() == 12 + n);
                assert(self.emitted@ =~= spec_rx_packet_accesses(r));
                assert forall|j: int| 0 <= j < n implies #[trigger] packet.payload@[j] == r[4 + j] by {
                    assert(self.buffer@[j] == r[4 + j]);
                }
                assert forall|j: int| n <= j < PAYLOAD_SIZE implies #[trigger] packet.payload@[j] == 0 by {
                    assert(self.buffer@[j] == 0);
                }
            }
            return Step::Done(Ok(packet));
        }
        let n = self.count;
        let a = if k == 0 {
            Access::Read(HOP_CHANNEL)
        } else if k == 1 {
            Access::Read(IRQ_FLAGS)
        } else if k == 2 {
            Access::Read(FIFO_RX_CURRENT_ADDR)
        } else if k == 3 {
            Access::Write(FIFO_ADDR_PTR, input)
        } else if k == 4 {
            Access::Read(RX_NB_BYTES)
        } else if k < 5 + n {
            Access::Read(FIFO)
        } else if k == 5 + n {
            Access::Read(MODEM_STAT)
        } else if k == 6 + n {
            Access::Read(PKT_SNR_VALUE)
        } else if k == 7 + n {
            Access::Read(FRF_MSB)
        } else if k == 8 + n {
            Access::Read(FRF_MID)
        } else if k == 9 + n {
            Access::Read(FRF_LSB)
        } else if k == 10 + n {
            Access::Read(PKT_RSSI_VALUE)
        } else if k == 11 + n {
            Access::Read(PKT_SNR_VALUE)
        } else {
            Access::Read(RSSI_VALUE)
        };
        self.next = k + 1;
        proof {
            self.emitted = Ghost(old_emitted.push(a));
            assert forall|i: int| 0 <= i < self.next implies #[trigger] self.emitted@[i]
                == spec_rx_packet_access(self.reads@, i) by {
                if i < k {
                    assert(self.emitted@[i] == old_emitted[i]);
                    if k > 0 && k != 4 {
                        lemma_rx_packet_access_stable(old_reads, input, i);
                    }
                }
            }
        }
        Step::Access(a)
    }
}

// Spreading factor ------------------------------------------------------------------------------
/// Access number `i` of a change of spreading factor, given the values read: for SF6 first
/// read RegModemConfig1 to check the header mode, then set the field in RegModemConfig2, read
/// RegDetectOptimize and write the detection threshold and the detection optimization.
///
/// See: datasheet section 4.1.1.2
pub open spec fn spec_spreading_factor_access(
    spreading_factor: SpreadingFactor,
    reads: Seq<u8>,
    i: int,
) -> Access {
    let off: int = if spreading_factor == SpreadingFactor::Sf6 {
        1
    } else {
        0
    };
    if off == 1 && i == 0 {
        Access::Read(MODEM_CONFIG_1)
    } else if i == off {
        Access::Read(MODEM_CONFIG_2)
    } else if i == off + 1 {
        Access::Write(
            MODEM_CONFIG_2,
            spec_set_bits(
                reads[off],
                spreading_factor.spec_bits(),
                MODEM_CONFIG_2_SPREADING_FACTOR_MASK,
                MODEM_CONFIG_2_SPREADING_FACTOR_OFFSET,
            ),
        )
    } else if i == off + 2 {
        Access::Read(DETECT_OPTIMIZE)
    } else if i == off + 3 {
        Access::Write(DETECTION_THRESHOLD, spec_detection_threshold(spreading_factor))
    } else {
        Access::Write(
            DETECT_OPTIMIZE,
            (reads[off + 1] & !DETECT_OPTIMIZE_DETECTION_OPTIMIZE_MASK) | spec_detection_optimize(
                spreading_factor,
            ),
        )
    }
}

/// The number of accesses of a change of spreading factor that gets to the end.
pub open spec fn spec_spreading_factor_length(spreading_factor: SpreadingFactor) -> int {
    if spreading_factor == SpreadingFactor::Sf6 {
        6
    } else {
        5
    }
}

/// All accesses of a change of spreading factor, given the values read.
pub open spec fn spec_spreading_factor_accesses(
    spreading_factor: SpreadingFactor,
    reads: Seq<u8>,
) -> Seq<Access> {
    Seq::new(
        spec_spreading_factor_length(spreading_factor) as nat,
        |i: int| spec_spreading_factor_access(spreading_factor, reads, i),
    )
}

/// The number of reads among the first `m` accesses of a change of spreading factor.
pub open spec fn spec_spreading_factor_reads_among(spreading_factor: SpreadingFactor, m: int) -> int {
    if m <= 0 {
        0
    } else if spreading_factor == SpreadingFactor::Sf6 {
        if m == 1 {
            1
        } else if m <= 3 {
            2
        } else {
            3
        }
    } else if m <= 2 {
        1
    } else {
        2
    }
}

/// What a change of spreading factor ends with: SF6 is refused unless RegModemConfig1 holds
/// the implicit header mode, and otherwise all accesses of `spec_spreading_factor_accesses`
/// are made.
pub open spec fn spec_spreading_factor_outcome<E>(
    spreading_factor: SpreadingFactor,
    reads: Seq<u8>,
    emitted: Seq<Access>,
    res: Result<(), Sx127xError<E>>,
) -> bool {
    if spreading_factor == SpreadingFactor::Sf6 && spec_header_mode_of(reads[0])
        != HeaderMode::Implicit {
        &&& emitted.len() == 1
        &&& res matches Err(e) && e is SF6RequiresImplicitHeaderMode
    } else {
        &&& emitted == spec_spreading_factor_accesses(spreading_factor, reads)
        &&& res is Ok
    }
}

/// After a change of spreading factor that gets to the end, with the registers keeping the
/// values written: RegModemConfig2 is written once and reading the spreading factor back from
/// it gives the one set, the detection threshold written is the one the spreading factor needs,
/// and so is the DetectionOptimize field of the RegDetectOptimize value written.
pub proof fn lemma_spreading_factor_written(spreading_factor: SpreadingFactor, reads: Seq<u8>)
    ensures
        ({
            let accesses = spec_spreading_factor_accesses(spreading_factor, reads);
            let off: int = if spreading_factor == SpreadingFactor::Sf6 {
                1
            } else {
                0
            };
            let n = accesses.len() as int;
            let modem_config_2 = spec_set_bits(
                reads[off],
                spreading_factor.spec_bits(),
                MODEM_CONFIG_2_SPREADING_FACTOR_MASK,
                MODEM_CONFIG_2_SPREADING_FACTOR_OFFSET,
            );
            let detect_optimize = (reads[off + 1] & !DETECT_OPTIMIZE_DETECTION_OPTIMIZE_MASK)
                | spec_detection_optimize(spreading_factor);
            &&& accesses[off + 1] == Access::Write(MODEM_CONFIG_2, modem_config_2)
            &&& spec_spreading_factor_of(modem_config_2) == spreading_factor
            &&& forall|i: int|
                0 <= i < n && i != off + 1 ==> !(#[trigger] accesses[i] matches Access::Write(
                    MODEM_CONFIG_2,
                    _,
                ))
            &&& accesses[n - 2] == Access::Write(
                DETECTION_THRESHOLD,
                spec_detection_threshold(spreading_factor),
            )
            &&& accesses[n - 1] == Access::Write(DETECT_OPTIMIZE, detect_optimize)
            &&& detect_optimize & DETECT_OPTIMIZE_DETECTION_OPTIMIZE_MASK == spec_detection_optimize(
                spreading_factor,
            )
        }),
{
    let off: int = if spreading_factor == SpreadingFactor::Sf6 {
        1
    } else {
        0
    };
    let d = reads[off + 1];
    crate::sx127xlora::driver::lemma_spreading_factor_roundtrip(reads[off], spreading_factor);
    assert(((d & !7u8) | 0x5u8) & 7u8 == 0x5u8 && ((d & !7u8) | 0x3u8) & 7u8 == 0x3u8)
        by (bit_vector);
}

/// Sets the spreading factor; SF6 needs the implicit header mode to be set already.
pub struct SpreadingFactorCommand {
    spreading_factor: SpreadingFactor,
    next: usize,
    detect_optimize: u8,
    finished: bool,
    emitted: Ghost<Seq<Access>>,
    reads: Ghost<Seq<u8>>,
}

impl SpreadingFactorCommand {
    pub closed spec fn spreading_factor(&self) -> SpreadingFactor {
        self.spreading_factor
    }

    /// The accesses asked for so far.
    pub closed spec fn emitted(&self) -> Seq<Access> {
        self.emitted@
    }

    /// The values handed back for the reads so far.
    pub closed spec fn reads(&self) -> Seq<u8> {
        self.reads@
    }

    /// The command is over.
    pub closed spec fn finished(&self) -> bool {
        self.finished
    }

    /// The last access asked for was a read, whose value the next step takes.
    pub open spec fn awaiting_read(&self) -> bool {
        self.emitted().len() > 0 && self.emitted().last() is Read
    }

    /// The invariant that construction establishes and every step keeps.
    pub closed spec fn wf(&self) -> bool {
        let k = self.next as int;
        let sf6 = self.spreading_factor == SpreadingFactor::Sf6;
        let off: int = if sf6 {
            1
        } else {
            0
        };
        &&& k == self.emitted@.len()
        &&& k <= spec_spreading_factor_length(self.spreading_factor)
        &&& self.reads@.len() == spec_spreading_factor_reads_among(
            self.spreading_factor,
            if self.finished {
                k
            } else {
                k - 1
            },
        )
        &&& (sf6 && k > 1 ==> spec_header_mode_of(self.reads@[0]) == HeaderMode::Implicit)
        &&& (self.reads@.len() >= 2 + off ==> self.detect_optimize == self.reads@[1 + off])
        &&& forall|i: int|
            0 <= i < k ==> #[trigger] self.emitted@[i] == spec_spreading_factor_access(
                self.spreading_factor,
                self.reads@,
                i,
            )
    }

    pub fn new(spreading_factor: SpreadingFactor) -> (r: Self)
        ensures
            r.wf(),
            !r.finished(),
            r.spreading_factor() == spreading_factor,
            r.emitted() == Seq::<Access>::empty(),
            r.reads() == Seq::<u8>::empty(),
    {
        SpreadingFactorCommand {
            spreading_factor,
            next: 0,
            detect_optimize: 0,
            finished: false,
            emitted: Ghost(Seq::empty()),
            reads: Ghost(Seq::empty()),
        }
    }

    /// Asks for the next access; `input` is the value of the previous access when it was a
    /// read, and is ignored otherwise.
    pub fn step<E>(&mut self, input: u8) -> (r: Step<(), Sx127xError<E>>)
        requires
            old(self).wf(),
            !old(self).finished(),
        ensures
            final(self).wf(),
            final(self).spreading_factor() == old(self).spreading_factor(),
            final(self).reads() == (if old(self).awaiting_read() {
                old(self).reads().push(input)
            } else {
                old(self).reads()
            }),
            r matches Step::Access(a) ==> {
                &&& !final(self).finished()
                &&& final(self).emitted() == old(self).emitted().push(a)
                &&& final(self).emitted().len() <= spec_spreading_factor_length(final(self).spreading_factor())
                &&& (final(self).spreading_factor() == SpreadingFactor::Sf6 && final(self).reads().len()
                    >= 1 ==> spec_header_mode_of(final(self).reads()[0]) == HeaderMode::Implicit)
                &&& a == spec_spreading_factor_access(
                    final(self).spreading_factor(),
                    final(self).reads(),
                    old(self).emitted().len() as int,
                )
            },
            r matches Step::Done(res) ==> {
                &&& final(self).finished()
                &&& final(self).emitted() == old(self).emitted()
                &&& spec_spreading_factor_outcome(
                    final(self).spreading_factor(),
                    final(self).reads(),
                    final(self).emitted(),
                    res,
                )
            },
    {
        let k = self.next;
        let sf = self.spreading_factor;
        let off: usize = if sf == SpreadingFactor::Sf6 {
            1
        } else {
            0
        };
        let ghost old_emitted = self.emitted@;
        let ghost old_reads = self.reads@;
        proof {
            if k > 0 {
                assert(old_emitted.last() == spec_spreading_factor_access(sf, old_reads, k - 1));
            }
        }
        if k == 1 || k == off + 1 || k == off + 3 {
            proof {
                self.reads = Ghost(old_reads.push(input));
            }
        }
        if off == 1 && k == 1 {
            if let Err(e) = check_spreading_factor::<E>(sf, input) {
                self.finished = true;
                return Step::Done(Err(e));
            }
        }
        if k == off + 3 {
            self.detect_optimize = input;
        }
        if k == off + 5 {
            self.finished = true;
            proof {
                assert(self.emitted@ =~= spec_spreading_factor_accesses(sf, self.reads@));
            }
            return Step::Done(Ok(()));
        }
        let a = if off == 1 && k == 0 {
            Access::Read(MODEM_CONFIG_1)
        } else if k == off {
            Access::Read(MODEM_CONFIG_2)
        } else if k == off + 1 {
            Access::Write(MODEM_CONFIG_2, with_spreading_factor(input, sf))
        } else if k == off + 2 {
            Access::Read(DETECT_OPTIMIZE)
        } else if k == off + 3 {
            Access::Write(DETECTION_THRESHOLD, detection_for(self.detect_optimize, sf).1)
        } else {
            Access::Write(DETECT_OPTIMIZE, detection_for(self.detect_optimize, sf).0)
        };
        self.next = k + 1;
        proof {
            self.emitted = Ghost(old_emitted.push(a));
            assert forall|i: int| 0 <= i < self.next implies #[trigger] self.emitted@[i]
                == spec_spreading_factor_access(sf, self.reads@, i) by {
                if i < k {
                    assert(self.emitted@[i] == old_emitted[i]);
                }
            }
        }
        Step::Access(a)
    }
}

// Header mode -----------------------------------------------------------------------------------
/// Access number `i` of a change of header mode, given the values read: read RegModemConfig2
/// for the spreading factor, read RegModemConfig1, and write it back with the header mode bit
/// set to `mode`.
pub open spec fn spec_header_mode_access(mode: HeaderMode, reads: Seq<u8>, i: int) -> Access {
    if i == 0 {
        Access::Read(MODEM_CONFIG_2)
    } else if i == 1 {
        Access::Read(MODEM_CONFIG_1)
    } else {
        Access::Write(
            MODEM_CONFIG_1,
            spec_set_bits(
                reads[1],
                mode.spec_bits(),
                MODEM_CONFIG_1_IMPLICIT_HEADER_MODE_ON_MASK,
                MODEM_CONFIG_1_IMPLICIT_HEADER_MODE_ON_OFFSET,
            ),
        )
    }
}

/// What a change of header mode does, given the values read: read the spreading factor in
/// RegModemConfig2, refuse the explicit header mode with SF6, and otherwise set the header mode
/// bit of RegModemConfig1.
///
/// See: datasheet section 4.1.1.6
pub open spec fn spec_header_mode_outcome<E>(
    mode: HeaderMode,
    reads: Seq<u8>,
    emitted: Seq<Access>,
    res: Result<(), Sx127xError<E>>,
) -> bool {
    if !spec_header_mode_sf(mode, spec_spreading_factor_of(reads[0])) {
        &&& emitted == seq![Access::Read(MODEM_CONFIG_2)]
        &&& res matches Err(e) && e is InvalidInput
    } else {
        &&& emitted == seq![
            Access::Read(MODEM_CONFIG_2),
            Access::Read(MODEM_CONFIG_1),
            Access::Write(
                MODEM_CONFIG_1,
                spec_set_bits(
                    reads[1],
                    mode.spec_bits(),
                    MODEM_CONFIG_1_IMPLICIT_HEADER_MODE_ON_MASK,
                    MODEM_CONFIG_1_IMPLICIT_HEADER_MODE_ON_OFFSET,
                ),
            ),
        ]
        &&& res is Ok
    }
}

/// Sets the header mode; the explicit header mode is refused while SF6 is set.
pub struct HeaderModeCommand {
    mode: HeaderMode,
    next: usize,
    finished: bool,
    emitted: Ghost<Seq<Access>>,
    reads: Ghost<Seq<u8>>,
}

impl HeaderModeCommand {
    pub closed spec fn mode(&self) -> HeaderMode {
        self.mode
    }

    /// The accesses asked for so far.
    pub closed spec fn emitted(&self) -> Seq<Access> {
        self.emitted@
    }

    /// The values handed back for the reads so far.
    pub closed spec fn reads(&self) -> Seq<u8> {
        self.reads@
    }

    /// The command is over.
    pub closed spec fn finished(&self) -> bool {
        self.finished
    }

    /// The last access asked for was a read, whose value the next step takes.
    pub open spec fn awaiting_read(&self) -> bool {
        self.emitted().len() > 0 && self.emitted().last() is Read
    }

    /// The invariant that construction establishes and every step keeps.
    pub closed spec fn wf(&self) -> bool {
        let k = self.next as int;
        let r = self.reads@;
        let e = self.emitted@;
        &&& k == e.len()
        &&& k <= 3
        &&& r.len() == (if self.finished {
            if k == 3 {
                2int
            } else {
                k
            }
        } else if k == 0 {
            0int
        } else {
            k - 1
        })
        &&& (k >= 1 ==> e[0] == Access::Read(MODEM_CONFIG_2))
        &&& (k >= 2 ==> spec_header_mode_sf(self.mode, spec_spreading_factor_of(r[0])))
        &&& (k >= 2 ==> e[1] == Access::Read(MODEM_CONFIG_1))
        &&& (k >= 3 ==> e[2] == Access::Write(
            MODEM_CONFIG_1,
            spec_set_bits(
                r[1],
                self.mode.spec_bits(),
                MODEM_CONFIG_1_IMPLICIT_HEADER_MODE_ON_MASK,
                MODEM_CONFIG_1_IMPLICIT_HEADER_MODE_ON_OFFSET,
            ),
        ))
    }

    pub fn new(mode: HeaderMode) -> (r: Self)
        ensures
            r.wf(),
            !r.finished(),
            r.mode() == mode,
            r.emitted() == Seq::<Access>::empty(),
            r.reads() == Seq::<u8>::empty(),
    {
        HeaderModeCommand {
            mode,
            next: 0,
            finished: false,
            emitted: Ghost(Seq::empty()),
            reads: Ghost(Seq::empty()),
        }
    }

    /// Asks for the next access; `input` is the value of the previous access when it was a
    /// read, and is ignored otherwise.
    pub fn step<E>(&mut self, input: u8) -> (r: Step<(), Sx127xError<E>>)
        requires
            old(self).wf(),
            !old(self).finished(),
        ensures
            final(self).wf(),
            final(self).mode() == old(self).mode(),
            final(self).reads() == (if old(self).awaiting_read() {
                old(self).reads().push(input)
            } else {
                old(self).reads()
            }),
            r matches Step::Access(a) ==> {
                &&& !final(self).finished()
                &&& final(self).emitted() == old(self).emitted().push(a)
                &&& final(self).emitted().len() <= 3
                &&& a == spec_header_mode_access(
                    final(self).mode(),
                    final(self).reads(),
                    old(self).emitted().len() as int,
                )
                &&& final(self).reads().len() >= 1 ==> spec_header_mode_sf(
                    final(self).mode(),
                    spec_spreading_factor_of(final(self).reads()[0]),
                )
            },
            r matches Step::Done(res) ==> {
                &&& final(self).finished()
                &&& final(self).emitted() == old(self).emitted()
                &&& spec_header_mode_outcome(
                    final(self).mode(),
                    final(self).reads(),
                    final(self).emitted(),
                    res,
                )
            },
    {
        let k = self.next;
        let ghost old_emitted = self.emitted@;
        let ghost old_reads = self.reads@;
        if k == 1 || k == 2 {
            proof {
                self.reads = Ghost(old_reads.push(input));
            }
        }
        if k == 1 {
            if !header_mode_sf(self.mode, spreading_factor_of(input)) {
                self.finished = true;
                proof {
                    assert(self.emitted@ =~= seq![Access::Read(MODEM_CONFIG_2)]);
                }
                return Step::Done(Err(Sx127xError::InvalidInput));
            }
        }
        if k == 3 {
            self.finished = true;
            proof {
                assert(self.emitted@ =~= seq![
                    Access::Read(MODEM_CONFIG_2),
                    Access::Read(MODEM_CONFIG_1),
                    Access::Write(
                        MODEM_CONFIG_1,
                        spec_set_bits(
                            self.reads@[1],
                            self.mode.spec_bits(),
                            MODEM_CONFIG_1_IMPLICIT_HEADER_MODE_ON_MASK,
                            MODEM_CONFIG_1_IMPLICIT_HEADER_MODE_ON_OFFSET,
                        ),
                    ),
                ]);
            }
            return Step::Done(Ok(()));
        }
        let a = if k == 0 {
            Access::Read(MODEM_CONFIG_2)
        } else if k == 1 {
            Access::Read(MODEM_CONFIG_1)
        } else {
            Access::Write(MODEM_CONFIG_1, with_header_mode(input, self.mode))
        };
        self.next = k + 1;
        proof {
            self.emitted = Ghost(old_emitted.push(a));
            if k >= 1 {
                assert(self.emitted@[0] == old_emitted[0]);
            }
            if k >= 2 {
                assert(self.emitted@[1] == old_emitted[1]);
                assert(self.reads@[0] == old_reads[0]);
            }
        }
        Step::Access(a)
    }
}

} // verus!
