//! Multi-step commands of the LoRa driver as state machines, in the form of
//! `crate::sx127xlora::command`: each step asks for one register access, and the contracts
//! state the whole sequence of accesses as a function of the values read.
use vstd::prelude::*;

use crate::common::{spec_get_bits, spec_set_bits};
use crate::lora::driver::{
    detection_for, device_mode_of, receive_timeout_registers, rx_termination_ok,
    spec_device_mode_of, spec_rx_termination_ok, spec_spreading_factor_of, with_device_mode, with_header_mode,
    with_spreading_factor, Sx127xLoraError, PAYLOAD_SIZE, RX_TIMEOUT_MAX_SYMBOLS,
    RX_TIMEOUT_MIN_SYMBOLS,
};
use crate::lora::registers::{
    DETECTION_THRESHOLD, DETECT_OPTIMIZE, DETECT_OPTIMIZE_DETECTION_OPTIMIZE_MASK, FIFO,
    FIFO_ADDR_PTR, FIFO_RX_BASE_ADDR, FIFO_RX_CURRENT_ADDR, FIFO_TX_BASE_ADDR, HOP_CHANNEL,
    IRQ_FLAGS, MODEM_CONFIG_1, MODEM_CONFIG_1_IMPLICIT_HEADER_MODE_ON_MASK, MODEM_CONFIG_2,
    MODEM_CONFIG_2_SPREADING_FACTOR_MASK, MODEM_CONFIG_2_SYMB_TIMEOUT_MASK, OP_MODE,
    OP_MODE_MODE_MASK, PAYLOAD_LENGTH, RX_NB_BYTES, SYMB_TIMEOUT_LSB,
};
use crate::lora::types::{DeviceMode, HeaderMode, SpreadingFactor};
use crate::sx127xlora::command::{Access, Step};

verus! {

/// RegOpMode after switching the mode field to `mode`.
pub open spec fn spec_op_mode_with(op_mode: u8, mode: DeviceMode) -> u8 {
    spec_set_bits(op_mode, mode.spec_bits(), OP_MODE_MODE_MASK, 0)
}

// Transmission ----------------------------------------------------------------------------------
/// Access number `i` of a transmission of `payload`, given the RegOpMode values read: read the
/// mode, switch to STDBY, point the FIFO pointer at RegFifoTxBaseAddr, write the payload byte by
/// byte, write the payload length and switch to TX.
pub open spec fn spec_transmit_access(payload: Seq<u8>, reads: Seq<u8>, i: int) -> Access {
    let n = payload.len() as int;
    if i == 0 || i == 1 {
        Access::Read(OP_MODE)
    } else if i == 2 {
        Access::Write(OP_MODE, spec_op_mode_with(reads[1], DeviceMode::STDBY))
    } else if i == 3 {
        Access::Write(FIFO_ADDR_PTR, FIFO_TX_BASE_ADDR)
    } else if i < 4 + n {
        Access::Write(FIFO, payload[i - 4])
    } else if i == 4 + n {
        Access::Write(PAYLOAD_LENGTH, n as u8)
    } else if i == 5 + n {
        Access::Read(OP_MODE)
    } else {
        Access::Write(OP_MODE, spec_op_mode_with(reads[2], DeviceMode::TX))
    }
}

/// The number of accesses of a transmission of `n` bytes.
pub open spec fn spec_transmit_length(n: int) -> int {
    7 + n
}

/// All accesses of a transmission of `payload`, given the RegOpMode values read.
pub open spec fn spec_transmit_accesses(payload: Seq<u8>, reads: Seq<u8>) -> Seq<Access> {
    Seq::new(
        spec_transmit_length(payload.len() as int) as nat,
        |i: int| spec_transmit_access(payload, reads, i),
    )
}

/// The number of reads among the first `m` accesses of a transmission of `n` bytes.
pub open spec fn spec_transmit_reads_among(n: int, m: int) -> int {
    if m <= 0 {
        0
    } else if m == 1 {
        1
    } else if m <= 5 + n {
        2
    } else {
        3
    }
}

/// What a transmission ends with: nothing is done while the modem already transmits, a
/// payload longer than PAYLOAD_SIZE is refused, and otherwise all accesses of
/// `spec_transmit_accesses` are made.
pub open spec fn spec_transmit_outcome<E>(
    payload: Seq<u8>,
    reads: Seq<u8>,
    emitted: Seq<Access>,
    res: Result<(), Sx127xLoraError<E>>,
) -> bool {
    if spec_device_mode_of(reads[0]) == DeviceMode::TX {
        &&& emitted.len() == 1
        &&& res is Ok
    } else if payload.len() > PAYLOAD_SIZE {
        &&& emitted.len() == 1
        &&& res matches Err(e) && e is InvalidPayloadLength
    } else {
        &&& emitted == spec_transmit_accesses(payload, reads)
        &&& res is Ok
    }
}

/// Transmits a payload of up to PAYLOAD_SIZE bytes, unless the modem already transmits.
pub struct TransmitCommand<'a> {
    payload: &'a [u8],
    next: usize,
    finished: bool,
    emitted: Ghost<Seq<Access>>,
    reads: Ghost<Seq<u8>>,
}

impl<'a> TransmitCommand<'a> {
    pub closed spec fn payload(&self) -> Seq<u8> {
        self.payload@
    }

    /// The accesses asked for so far.
    pub closed spec fn emitted(&self) -> Seq<Access> {
        self.emitted@
    }

    /// The values handed back for the reads so far.
    pub closed spec fn reads(&self) -> Seq<u8> {
        self.reads@
    }

    /// The command is over.
    pub closed spec fn finished(&self) -> bool {
        self.finished
    }

    /// The last access asked for was a read, whose value the next step takes.
    pub open spec fn awaiting_read(&self) -> bool {
        self.emitted().len() > 0 && self.emitted().last() is Read
    }

    /// The invariant that construction establishes and every step keeps.
    pub closed spec fn wf(&self) -> bool {
        let n = self.payload@.len() as int;
        let k = self.next as int;
        &&& k == self.emitted@.len()
        &&& k <= spec_transmit_length(n)
        &&& self.reads@.len() == spec_transmit_reads_among(
            n,
            if self.finished {
                k
            } else {
                k - 1
            },
        )
        &&& (k > 1 ==> spec_device_mode_of(self.reads@[0]) != DeviceMode::TX && n <= PAYLOAD_SIZE)
        &&& forall|i: int|
            0 <= i < k ==> #[trigger] self.emitted@[i] == spec_transmit_access(
                self.payload@,
                self.reads@,
                i,
            )
    }

    pub fn new(payload: &'a [u8]) -> (r: Self)
        ensures
            r.wf(),
            !r.finished(),
            r.payload() == payload@,
            r.emitted() == Seq::<Access>::empty(),
            r.reads() == Seq::<u8>::empty(),
    {
        TransmitCommand {
            payload,
            next: 0,
            finished: false,
            emitted: Ghost(Seq::empty()),
            reads: Ghost(Seq::empty()),
        }
    }

    /// Asks for the next access; `input` is the value of the previous access when it was a
    /// read, and is ignored otherwise.
    pub fn step<E>(&mut self, input: u8) -> (r: Step<(), Sx127xLoraError<E>>)
        requires
            old(self).wf(),
            !old(self).finished(),
        ensures
            final(self).wf(),
            final(self).payload() == old(self).payload(),
            final(self).reads() == (if old(self).awaiting_read() {
                old(self).reads().push(input)
            } else {
                old(self).reads()
            }),
            r matches Step::Access(a) ==> {
                &&& !final(self).finished()
                &&& final(self).emitted() == old(self).emitted().push(a)
                &&& final(self).emitted().len() <= spec_transmit_length(final(self).payload().len() as int)
                &&& final(self).reads().len() >= 1 ==> spec_device_mode_of(final(self).reads()[0])
                    != DeviceMode::TX && final(self).payload().len() <= PAYLOAD_SIZE
                &&& a == spec_transmit_access(
                    final(self).payload(),
                    final(self).reads(),
                    old(self).emitted().len() as int,
                )
            },
            r matches Step::Done(res) ==> {
                &&& final(self).finished()
                &&& final(self).emitted() == old(self).emitted()
                &&& spec_transmit_outcome(
                    final(self).payload(),
                    final(self).reads(),
                    final(self).emitted(),
                    res,
                )
            },
    {
        let n = self.payload.len();
        let k = self.next;
        let ghost old_emitted = self.emitted@;
        let ghost old_reads = self.reads@;
        proof {
            if k > 0 {
                assert(old_emitted.last() == spec_transmit_access(self.payload@, old_reads, k - 1));
            }
        }
        let awaiting = k == 1 || k == 2 || (n <= PAYLOAD_SIZE && k == 6 + n);
        if awaiting {
            proof {
                self.reads = Ghost(old_reads.push(input));
            }
        }
        if k == 1 {
            if device_mode_of(input) == DeviceMode::TX {
                self.finished = true;
                return Step::Done(Ok(()));
            }
            if n > PAYLOAD_SIZE {
                self.finished = true;
                return Step::Done(Err(Sx127xLoraError::InvalidPayloadLength));
            }
        }
        if k >= 2 && k == 7 + n {
            self.finished = true;
            proof {
                assert(self.emitted@ =~= spec_transmit_accesses(self.payload@, self.reads@));
            }
            return Step::Done(Ok(()));
        }
        let a = if k == 0 || k == 1 {
            Access::Read(OP_MODE)
        } else if k == 2 {
            Access::Write(OP_MODE, with_device_mode(input, DeviceMode::STDBY))
        } else if k == 3 {
            Access::Write(FIFO_ADDR_PTR, FIFO_TX_BASE_ADDR)
        } else if k < 4 + n {
            Access::Write(FIFO, self.payload[k - 4])
        } else if k == 4 + n {
            Access::Write(PAYLOAD_LENGTH, n as u8)
        } else if k == 5 + n {
            Access::Read(OP_MODE)
        } else {
            Access::Write(OP_MODE, with_device_mode(input, DeviceMode::TX))
        };
        self.next = k + 1;
        proof {
            self.emitted = Ghost(old_emitted.push(a));
            assert forall|i: int| 0 <= i < self.next implies #[trigger] self.emitted@[i]
                == spec_transmit_access(self.payload@, self.reads@, i) by {
                if i < k {
                    assert(self.emitted@[i] == old_emitted[i]);
                    assert(spec_transmit_access(self.payload@, self.reads@, i)
                        == spec_transmit_access(self.payload@, old_reads, i));
                }
            }
        }
        Step::Access(a)
    }
}

// Reception -------------------------------------------------------------------------------------
/// A single-reception timeout the modem accepts, in symbols.
pub open spec fn spec_timeout_valid(timeout: u16) -> bool {
    RX_TIMEOUT_MIN_SYMBOLS <= timeout <= RX_TIMEOUT_MAX_SYMBOLS
}

/// The mode a reception runs in: a single reception when a timeout is given, continuous
/// reception otherwise.
pub open spec fn spec_receive_mode(timeout: Option<u16>) -> DeviceMode {
    if timeout is Some {
        DeviceMode::RXSINGLE
    } else {
        DeviceMode::RXCONTINUOUS
    }
}

/// The number of accesses of a reception that gets to the end.
pub open spec fn spec_receive_length(timeout: Option<u16>) -> int {
    if timeout is Some {
        8
    } else {
        5
    }
}

/// Access number `i` of the start of a reception, given the values read: switch to STDBY,
/// with a timeout write its bits 9-8 into RegModemConfig2 and bits 7-0 into RegSymbTimeoutLsb,
/// point the FIFO pointer at RegFifoRxBaseAddr, and switch to the reception mode.
///
/// See: datasheet pages 40-42
pub open spec fn spec_receive_access(timeout: Option<u16>, reads: Seq<u8>, i: int) -> Access {
    let off: int = if timeout is Some {
        3
    } else {
        0
    };
    if i == 0 {
        Access::Read(OP_MODE)
    } else if i == 1 {
        Access::Write(OP_MODE, spec_op_mode_with(reads[0], DeviceMode::STDBY))
    } else if timeout is Some && i == 2 {
        Access::Read(MODEM_CONFIG_2)
    } else if timeout is Some && i == 3 {
        Access::Write(
            MODEM_CONFIG_2,
            spec_set_bits(reads[1], (timeout->0 >> 8u16) as u8, MODEM_CONFIG_2_SYMB_TIMEOUT_MASK, 0),
        )
    } else if timeout is Some && i == 4 {
        Access::Write(SYMB_TIMEOUT_LSB, (timeout->0 & 0xffu16) as u8)
    } else if i == 2 + off {
        Access::Write(FIFO_ADDR_PTR, FIFO_RX_BASE_ADDR)
    } else if i == 3 + off {
        Access::Read(OP_MODE)
    } else {
        Access::Write(OP_MODE, spec_op_mode_with(reads[reads.len() - 1], spec_receive_mode(timeout)))
    }
}

/// All accesses of a reception that gets to the end, given the values read.
pub open spec fn spec_receive_accesses(timeout: Option<u16>, reads: Seq<u8>) -> Seq<Access> {
    Seq::new(spec_receive_length(timeout) as nat, |i: int| spec_receive_access(timeout, reads, i))
}

/// The number of reads among the first `m` accesses of a reception.
pub open spec fn spec_receive_reads_among(timeout: Option<u16>, m: int) -> int {
    if m <= 0 {
        0
    } else if m <= 2 {
        1
    } else if timeout is Some {
        if m <= 6 {
            2
        } else {
            3
        }
    } else if m <= 3 {
        1
    } else {
        2
    }
}

/// What a reception ends with: a timeout out of range is refused once the modem is in STDBY,
/// and otherwise all accesses of `spec_receive_accesses` are made.
pub open spec fn spec_receive_outcome<E>(
    timeout: Option<u16>,
    reads: Seq<u8>,
    emitted: Seq<Access>,
    res: Result<(), Sx127xLoraError<E>>,
) -> bool {
    if timeout matches Some(t) && !spec_timeout_valid(t) {
        &&& emitted.len() == 2
        &&& res matches Err(e) && e is InvalidSymbolTimeout
    } else {
        &&& emitted == spec_receive_accesses(timeout, reads)
        &&& res is Ok
    }
}

/// A single reception with a timeout in range programs it whole: the symbol-timeout field of
/// the RegModemConfig2 value it writes and the RegSymbTimeoutLsb value it writes give back the
/// timeout, whatever RegModemConfig2 held.
pub proof fn lemma_receive_timeout_written(timeout: u16, reads: Seq<u8>)
    requires
        spec_timeout_valid(timeout),
    ensures
        spec_receive_access(Some(timeout), reads, 3) == Access::Write(
            MODEM_CONFIG_2,
            spec_set_bits(
                reads[1],
                (timeout >> 8u16) as u8,
                MODEM_CONFIG_2_SYMB_TIMEOUT_MASK,
                0,
            ),
        ),
        spec_receive_access(Some(timeout), reads, 4) == Access::Write(
            SYMB_TIMEOUT_LSB,
            (timeout & 0xffu16) as u8,
        ),
        spec_get_bits(
            spec_set_bits(
                reads[1],
                (timeout >> 8u16) as u8,
                MODEM_CONFIG_2_SYMB_TIMEOUT_MASK,
                0,
            ),
            MODEM_CONFIG_2_SYMB_TIMEOUT_MASK,
            0,
        ) * 256 + ((timeout & 0xffu16) as u8) == timeout,
{
    let b = reads[1];
    let t = timeout;
    let hi = (t >> 8u16) as u8;
    let w = (b & !3u8) | ((hi << 0u8) & 3u8);
    let lsb = (t & 0xffu16) as u8;
    assert(((w & 3u8) >> 0u8) * 256 + lsb == t) by (bit_vector)
        requires
            t <= 1023,
            hi == (t >> 8u16) as u8,
            w == (b & !3u8) | ((hi << 0u8) & 3u8),
            lsb == (t & 0xffu16) as u8,
    ;
}

/// Puts the modem in a reception mode; see `spec_receive_access`.
pub struct ReceiveCommand {
    timeout: Option<u16>,
    next: usize,
    symb_timeout_lsb: u8,
    finished: bool,
    emitted: Ghost<Seq<Access>>,
    reads: Ghost<Seq<u8>>,
}

impl ReceiveCommand {
    pub closed spec fn timeout(&self) -> Option<u16> {
        self.timeout
    }

    /// The accesses asked for so far.
    pub closed spec fn emitted(&self) -> Seq<Access> {
        self.emitted@
    }

    /// The values handed back for the reads so far.
    pub closed spec fn reads(&self) -> Seq<u8> {
        self.reads@
    }

    /// The command is over.
    pub closed spec fn finished(&self) -> bool {
        self.finished
    }

    /// The last access asked for was a read, whose value the next step takes.
    pub open spec fn awaiting_read(&self) -> bool {
        self.emitted().len() > 0 && self.emitted().last() is Read
    }

    /// The invariant that construction establishes and every step keeps.
    pub closed spec fn wf(&self) -> bool {
        let k = self.next as int;
        &&& k == self.emitted@.len()
        &&& k <= spec_receive_length(self.timeout)
        &&& self.reads@.len() == spec_receive_reads_among(
            self.timeout,
            if self.finished {
                k
            } else {
                k - 1
            },
        )
        &&& (k > 2 ==> (self.timeout matches Some(t) ==> spec_timeout_valid(t)))
        &&& (k == 4 ==> (self.timeout matches Some(t) ==> self.symb_timeout_lsb == (t & 0xffu16)
            as u8))
        &&& forall|i: int|
            0 <= i < k ==> #[trigger] self.emitted@[i] == spec_receive_access(
                self.timeout,
                self.reads@,
                i,
            )
    }

    pub fn new(timeout: Option<u16>) -> (r: Self)
        ensures
            r.wf(),
            !r.finished(),
            r.timeout() == timeout,
            r.emitted() == Seq::<Access>::empty(),
            r.reads() == Seq::<u8>::empty(),
    {
        ReceiveCommand {
            timeout,
            next: 0,
            symb_timeout_lsb: 0,
            finished: false,
            emitted: Ghost(Seq::empty()),
            reads: Ghost(Seq::empty()),
        }
    }

    /// Asks for the next access; `input` is the value of the previous access when it was a
    /// read, and is ignored otherwise.
    pub fn step<E>(&mut self, input: u8) -> (r: Step<(), Sx127xLoraError<E>>)
        requires
            old(self).wf(),
            !old(self).finished(),
        ensures
            final(self).wf(),
            final(self).timeout() == old(self).timeout(),
            final(self).reads() == (if old(self).awaiting_read() {
                old(self).reads().push(input)
            } else {
                old(self).reads()
            }),
            r matches Step::Access(a) ==> {
                &&& !final(self).finished()
                &&& final(self).emitted() == old(self).emitted().push(a)
                &&& final(self).emitted().len() <= spec_receive_length(final(self).timeout())
                &&& final(self).emitted().len() > 2 ==> (final(self).timeout() matches Some(t)
                    ==> spec_timeout_valid(t))
                &&& a == spec_receive_access(
                    final(self).timeout(),
                    final(self).reads(),
                    old(self).emitted().len() as int,
                )
            },
            r matches Step::Done(res) ==> {
                &&& final(self).finished()
                &&& final(self).emitted() == old(self).emitted()
                &&& spec_receive_outcome(
                    final(self).timeout(),
                    final(self).reads(),
                    final(self).emitted(),
                    res,
                )
            },
    {
        let k = self.next;
        let off: usize = if self.timeout.is_some() {
            3
        } else {
            0
        };
        let ghost old_emitted = self.emitted@;
        let ghost old_reads = self.reads@;
        proof {
            if k > 0 {
                assert(old_emitted.last() == spec_receive_access(self.timeout, old_reads, k - 1));
            }
        }
        if k == 1 || (self.timeout.is_some() && k == 3) || k == 4 + off {
            proof {
                self.reads = Ghost(old_reads.push(input));
            }
        }
        if k == 2 {
            if let Some(t) = self.timeout {
                if t < RX_TIMEOUT_MIN_SYMBOLS || t > RX_TIMEOUT_MAX_SYMBOLS {
                    self.finished = true;
                    return Step::Done(Err(Sx127xLoraError::InvalidSymbolTimeout));
                }
            }
        }
        if k == 5 + off {
            self.finished = true;
            proof {
                assert(self.emitted@ =~= spec_receive_accesses(self.timeout, self.reads@));
            }
            return Step::Done(Ok(()));
        }
        let a = if k == 0 {
            Access::Read(OP_MODE)
        } else if k == 1 {
            Access::Write(OP_MODE, with_device_mode(input, DeviceMode::STDBY))
        } else if k == 2 + off {
            Access::Write(FIFO_ADDR_PTR, FIFO_RX_BASE_ADDR)
        } else if k == 3 + off {
            Access::Read(OP_MODE)
        } else if k == 4 + off {
            let mode = if self.timeout.is_some() {
                DeviceMode::RXSINGLE
            } else {
                DeviceMode::RXCONTINUOUS
            };
            Access::Write(OP_MODE, with_device_mode(input, mode))
        } else {
            match self.timeout {
                Some(t) => {
                    if k == 2 {
                        Access::Read(MODEM_CONFIG_2)
                    } else if k == 3 {
                        match receive_timeout_registers::<E>(input, t) {
                            Ok((modem_config_2, symb_timeout_lsb)) => {
                                self.symb_timeout_lsb = symb_timeout_lsb;
                                Access::Write(MODEM_CONFIG_2, modem_config_2)
                            },
                            Err(e) => {
                                proof {
                                    assert(false);
                                }
                                self.finished = true;
                                return Step::Done(Err(e));
                            },
                        }
                    } else {
                        Access::Write(SYMB_TIMEOUT_LSB, self.symb_timeout_lsb)
                    }
                },
                None => Access::Read(OP_MODE),
            }
        };
        self.next = k + 1;
        proof {
            self.emitted = Ghost(old_emitted.push(a));
            assert forall|i: int| 0 <= i < self.next implies #[trigger] self.emitted@[i]
                == spec_receive_access(self.timeout, self.reads@, i) by {
                if i < k {
                    assert(self.emitted@[i] == old_emitted[i]);
                }
            }
        }
        Step::Access(a)
    }
}

// Packet read-out ------------------------------------------------------------------------------
/// Access number `i` of a read-out of the received data, given the values read: read
/// RegHopChannel and RegIrqFlags, read the current RX address and point the FIFO pointer at it,
/// read the byte count and read that many bytes from the FIFO.
///
/// See: datasheet figure 10
pub open spec fn spec_read_rx_data_access(reads: Seq<u8>, i: int) -> Access {
    if i == 0 {
        Access::Read(HOP_CHANNEL)
    } else if i == 1 {
        Access::Read(IRQ_FLAGS)
    } else if i == 2 {
        Access::Read(FIFO_RX_CURRENT_ADDR)
    } else if i == 3 {
        Access::Write(FIFO_ADDR_PTR, reads[2])
    } else if i == 4 {
        Access::Read(RX_NB_BYTES)
    } else {
        Access::Read(FIFO)
    }
}

/// All accesses of a read-out that got to the end, given the values read.
pub open spec fn spec_read_rx_data_accesses(reads: Seq<u8>) -> Seq<Access> {
    Seq::new((5 + reads[3]) as nat, |i: int| spec_read_rx_data_access(reads, i))
}

/// The number of reads among the first `m` accesses of a read-out.
pub open spec fn spec_read_rx_data_reads_among(m: int) -> int {
    if m <= 0 {
        0
    } else if m <= 3 {
        m
    } else if m == 4 {
        3
    } else {
        m - 1
    }
}

/// What a read-out ends with: a packet that did not end well is refused after RegIrqFlags,
/// and otherwise the buffer holds the bytes read from the FIFO followed by zeros.
pub open spec fn spec_read_rx_data_outcome<E>(
    reads: Seq<u8>,
    emitted: Seq<Access>,
    res: Result<[u8; PAYLOAD_SIZE], Sx127xLoraError<E>>,
) -> bool {
    if !spec_rx_termination_ok(reads[0], reads[1]) {
        &&& emitted.len() == 2
        &&& res matches Err(e) && e is PacketTermination
    } else {
        &&& reads.len() == 4 + reads[3]
        &&& emitted == spec_read_rx_data_accesses(reads)
        &&& res matches Ok(buffer) && {
            &&& forall|j: int| 0 <= j < reads[3] ==> #[trigger] buffer@[j] == reads[4 + j]
            &&& forall|j: int| reads[3] <= j < PAYLOAD_SIZE ==> #[trigger] buffer@[j] == 0
        }
    }
}

/// Reads the data received into the FIFO; see `spec_read_rx_data_access`.
pub struct ReadRxDataCommand {
    next: usize,
    finished: bool,
    hop_channel: u8,
    count: usize,
    buffer: [u8; PAYLOAD_SIZE],
    emitted: Ghost<Seq<Access>>,
    reads: Ghost<Seq<u8>>,
}

impl ReadRxDataCommand {
    /// The accesses asked for so far.
    pub closed spec fn emitted(&self) -> Seq<Access> {
        self.emitted@
    }

    /// The values handed back for the reads so far.
    pub closed spec fn reads(&self) -> Seq<u8> {
        self.reads@
    }

    /// The command is over.
    pub closed spec fn finished(&self) -> bool {
        self.finished
    }

    /// The last access asked for was a read, whose value the next step takes.
    pub open spec fn awaiting_read(&self) -> bool {
        self.emitted().len() > 0 && self.emitted().last() is Read
    }

    /// The invariant that construction establishes and every step keeps.
    pub closed spec fn wf(&self) -> bool {
        let k = self.next as int;
        let r = self.reads@;
        let n = self.count as int;
        let full = k >= 6;
        &&& k == self.emitted@.len()
        &&& r.len() == spec_read_rx_data_reads_among(
            if self.finished {
                k
            } else {
                k - 1
            },
        )
        &&& self.buffer@.len() == PAYLOAD_SIZE
        &&& (r.len() >= 1 ==> self.hop_channel == r[0])
        &&& (k > 2 ==> spec_rx_termination_ok(r[0], r[1]))
        &&& (full ==> self.count == r[3] && k <= 5 + n)
        &&& (forall|j: int|
            0 <= j < PAYLOAD_SIZE && !(full && j < n && 4 + j < r.len())
                ==> #[trigger] self.buffer@[j] == 0)
        &&& (forall|j: int|
            full && 0 <= j < n && 4 + j < r.len() ==> #[trigger] self.buffer@[j] == r[4 + j])
        &&& forall|i: int|
            0 <= i < k ==> #[trigger] self.emitted@[i] == spec_read_rx_data_access(r, i)
    }

    pub fn new() -> (r: Self)
        ensures
            r.wf(),
            !r.finished(),
            r.emitted() == Seq::<Access>::empty(),
            r.reads() == Seq::<u8>::empty(),
    {
        ReadRxDataCommand {
            next: 0,
            finished: false,
            hop_channel: 0,
            count: 0,
            buffer: [0u8; PAYLOAD_SIZE],
            emitted: Ghost(Seq::empty()),
            reads: Ghost(Seq::empty()),
        }
    }

    /// Asks for the next access; `input` is the value of the previous access when it was a
    /// read, and is ignored otherwise.
    pub fn step<E>(&mut self, input: u8) -> (r: Step<[u8; PAYLOAD_SIZE], Sx127xLoraError<E>>)
        requires
            old(self).wf(),
            !old(self).finished(),
        ensures
            final(self).wf(),
            final(self).reads() == (if old(self).awaiting_read() {
                old(self).reads().push(input)
            } else {
                old(self).reads()
            }),
            r matches Step::Access(a) ==> {
                &&& !final(self).finished()
                &&& final(self).emitted() == old(self).emitted().push(a)
                &&& final(self).emitted().len() <= 5 + PAYLOAD_SIZE
                &&& final(self).reads().len() >= 2 ==> spec_rx_termination_ok(
                    final(self).reads()[0],
                    final(self).reads()[1],
                )
                &&& a == spec_read_rx_data_access(
                    final(self).reads(),
                    old(self).emitted().len() as int,
                )
            },
            r matches Step::Done(res) ==> {
                &&& final(self).finished()
                &&& final(self).emitted() == old(self).emitted()
                &&& spec_read_rx_data_outcome(final(self).reads(), final(self).emitted(), res)
            },
    {
        let k = self.next;
        let ghost old_emitted = self.emitted@;
        let ghost old_reads = self.reads@;
        proof {
            if k > 0 {
                assert(old_emitted.last() == spec_read_rx_data_access(old_reads, k - 1));
            }
            if k > 0 && k != 4 {
                self.reads = Ghost(old_reads.push(input));
            }
        }
        if k == 1 {
            self.hop_channel = input;
        } else if k == 2 {
            if !rx_termination_ok(self.hop_channel, input) {
                self.finished = true;
                return Step::Done(Err(Sx127xLoraError::PacketTermination));
            }
        } else if k == 5 {
            self.count = input as usize;
        } else if k >= 6 {
            self.buffer[k - 6] = input;
        }
        if k >= 5 && k == 5 + self.count {
            self.finished = true;
            proof {
                let r = self.reads@;
                assert(self.emitted@ =~= spec_read_rx_data_accesses(r));
                assert forall|j: int| 0 <= j < r[3] implies #[trigger] self.buffer@[j] == r[4 + j] by {}
            }
            return Step::Done(Ok(self.buffer));
        }
        let a = if k == 0 {
            Access::Read(HOP_CHANNEL)
        } else if k == 1 {
            Access::Read(IRQ_FLAGS)
        } else if k == 2 {
            Access::Read(FIFO_RX_CURRENT_ADDR)
        } else if k == 3 {
            Access::Write(FIFO_ADDR_PTR, input)
        } else if k == 4 {
            Access::Read(RX_NB_BYTES)
        } else {
            Access::Read(FIFO)
        };
        self.next = k + 1;
        proof {
            self.emitted = Ghost(old_emitted.push(a));
            assert forall|i: int| 0 <= i < self.next implies #[trigger] self.emitted@[i]
                == spec_read_rx_data_access(self.reads@, i) by {
                if i < k {
                    assert(self.emitted@[i] == old_emitted[i]);
                    if i == 3 && k != 4 {
                        assert(self.reads@[2] == old_reads[2]);
                    }
                }
            }
        }
        Step::Access(a)
    }
}

// Spreading factor ------------------------------------------------------------------------------
/// The RegDetectOptimize value and the RegDetectionThreshold value for `spreading_factor`,
/// from RegDetectOptimize as read.
///
/// See: datasheet section 4.1.1.2
pub open spec fn spec_detection(detect_optimize: u8, spreading_factor: SpreadingFactor) -> (u8, u8) {
    if spreading_factor == SpreadingFactor::Sf6 {
        ((detect_optimize & !DETECT_OPTIMIZE_DETECTION_OPTIMIZE_MASK) | 0x5, 0x0cu8)
    } else {
        ((detect_optimize & !DETECT_OPTIMIZE_DETECTION_OPTIMIZE_MASK) | 0x3, 0x0au8)
    }
}

/// Access number `i` of a change of spreading factor, given the values read: set the field in
/// RegModemConfig2, read RegDetectOptimize, for SF6 switch RegModemConfig1 to the implicit
/// header mode, then write the detection threshold and the detection optimization.
pub open spec fn spec_spreading_factor_access(
    spreading_factor: SpreadingFactor,
    reads: Seq<u8>,
    i: int,
) -> Access {
    let sf6 = spreading_factor == SpreadingFactor::Sf6;
    let off: int = if sf6 {
        2
    } else {
        0
    };
    if i == 0 {
        Access::Read(MODEM_CONFIG_2)
    } else if i == 1 {
        Access::Write(
            MODEM_CONFIG_2,
            spec_set_bits(
                reads[0],
                spreading_factor.spec_bits(),
                MODEM_CONFIG_2_SPREADING_FACTOR_MASK,
                4,
            ),
        )
    } else if i == 2 {
        Access::Read(DETECT_OPTIMIZE)
    } else if sf6 && i == 3 {
        Access::Read(MODEM_CONFIG_1)
    } else if sf6 && i == 4 {
        Access::Write(
            MODEM_CONFIG_1,
            spec_set_bits(
                reads[2],
                HeaderMode::Implicit.spec_bits(),
                MODEM_CONFIG_1_IMPLICIT_HEADER_MODE_ON_MASK,
                0,
            ),
        )
    } else if i == 3 + off {
        Access::Write(DETECTION_THRESHOLD, spec_detection(reads[1], spreading_factor).1)
    } else {
        Access::Write(DETECT_OPTIMIZE, spec_detection(reads[1], spreading_factor).0)
    }
}

/// The number of accesses of a change of spreading factor.
pub open spec fn spec_spreading_factor_length(spreading_factor: SpreadingFactor) -> int {
    if spreading_factor == SpreadingFactor::Sf6 {
        7
    } else {
        5
    }
}

/// All accesses of a change of spreading factor, given the values read.
pub open spec fn spec_spreading_factor_accesses(
    spreading_factor: SpreadingFactor,
    reads: Seq<u8>,
) -> Seq<Access> {
    Seq::new(
        spec_spreading_factor_length(spreading_factor) as nat,
        |i: int| spec_spreading_factor_access(spreading_factor, reads, i),
    )
}

/// The number of reads among the first `m` accesses of a change of spreading factor.
pub open spec fn spec_spreading_factor_reads_among(spreading_factor: SpreadingFactor, m: int) -> int {
    if m <= 0 {
        0
    } else if m <= 2 {
        1
    } else if spreading_factor == SpreadingFactor::Sf6 && m >= 4 {
        3
    } else {
        2
    }
}

/// After a change of spreading factor, with the registers keeping the values written:
/// RegModemConfig2 is written once, and reading the spreading factor back from it gives the one
/// set; with SF6, RegModemConfig1 is written once and reads back the implicit header mode; the
/// detection threshold is 0x0c for SF6 and 0x0a otherwise, and the DetectionOptimize field of
/// the RegDetectOptimize value written is 0x5 for SF6 and 0x3 otherwise.
pub proof fn lemma_spreading_factor_written(spreading_factor: SpreadingFactor, reads: Seq<u8>)
    ensures
        ({
            let accesses = spec_spreading_factor_accesses(spreading_factor, reads);
            let sf6 = spreading_factor == SpreadingFactor::Sf6;
            let n = accesses.len() as int;
            let modem_config_2 = spec_set_bits(
                reads[0],
                spreading_factor.spec_bits(),
                MODEM_CONFIG_2_SPREADING_FACTOR_MASK,
                4,
            );
            let modem_config_1 = spec_set_bits(
                reads[2],
                HeaderMode::Implicit.spec_bits(),
                MODEM_CONFIG_1_IMPLICIT_HEADER_MODE_ON_MASK,
                0,
            );
            &&& accesses[1] == Access::Write(MODEM_CONFIG_2, modem_config_2)
            &&& spec_spreading_factor_of(modem_config_2) == spreading_factor
            &&& forall|i: int|
                0 <= i < n && i != 1 ==> !(#[trigger] accesses[i] matches Access::Write(
                    MODEM_CONFIG_2,
                    _,
                ))
            &&& sf6 ==> {
                &&& accesses[4] == Access::Write(MODEM_CONFIG_1, modem_config_1)
                &&& HeaderMode::spec_from_bits(
                    spec_get_bits(modem_config_1, MODEM_CONFIG_1_IMPLICIT_HEADER_MODE_ON_MASK, 0),
                ) == HeaderMode::Implicit
            }
            &&& forall|i: int|
                0 <= i < n && !(sf6 && i == 4) ==> !(#[trigger] accesses[i] matches Access::Write(
                    MODEM_CONFIG_1,
                    _,
                ))
            &&& accesses[n - 2] == Access::Write(
                DETECTION_THRESHOLD,
                if sf6 {
                    0x0cu8
                } else {
                    0x0au8
                },
            )
            &&& accesses[n - 1] == Access::Write(DETECT_OPTIMIZE, spec_detection(reads[1], spreading_factor).0)
            &&& spec_detection(reads[1], spreading_factor).0 & DETECT_OPTIMIZE_DETECTION_OPTIMIZE_MASK
                == (if sf6 {
                0x5u8
            } else {
                0x3u8
            })
        }),
{
    let d = reads[1];
    let m = reads[2];
    crate::lora::driver::lemma_spreading_factor_roundtrip(reads[0], spreading_factor);
    assert(((d & !7u8) | 0x5u8) & 7u8 == 0x5u8 && ((d & !7u8) | 0x3u8) & 7u8 == 0x3u8)
        by (bit_vector);
    assert((((m & !1u8) | ((1u8 << 0u8) & 1u8)) & 1u8) >> 0u8 == 1u8) by (bit_vector);
}

/// Sets the spreading factor; SF6 also sets the implicit header mode.
pub struct SpreadingFactorCommand {
    spreading_factor: SpreadingFactor,
    next: usize,
    detect_optimize: u8,
    finished: bool,
    emitted: Ghost<Seq<Access>>,
    reads: Ghost<Seq<u8>>,
}

impl SpreadingFactorCommand {
    pub closed spec fn spreading_factor(&self) -> SpreadingFactor {
        self.spreading_factor
    }

    /// The accesses asked for so far.
    pub closed spec fn emitted(&self) -> Seq<Access> {
        self.emitted@
    }

    /// The values handed back for the reads so far.
    pub closed spec fn reads(&self) -> Seq<u8> {
        self.reads@
    }

    /// The command is over.
    pub closed spec fn finished(&self) -> bool {
        self.finished
    }

    /// The last access asked for was a read, whose value the next step takes.
    pub open spec fn awaiting_read(&self) -> bool {
        self.emitted().len() > 0 && self.emitted().last() is Read
    }

    /// The invariant that construction establishes and every step keeps.
    pub closed spec fn wf(&self) -> bool {
        let k = self.next as int;
        &&& k == self.emitted@.len()
        &&& k <= spec_spreading_factor_length(self.spreading_factor)
        &&& self.reads@.len() == spec_spreading_factor_reads_among(
            self.spreading_factor,
            if self.finished {
                k
            } else {
                k - 1
            },
        )
        &&& (self.reads@.len() >= 2 ==> self.detect_optimize == self.reads@[1])
        &&& forall|i: int|
            0 <= i < k ==> #[trigger] self.emitted@[i] == spec_spreading_factor_access(
                self.spreading_factor,
                self.reads@,
                i,
            )
    }

    pub fn new(spreading_factor: SpreadingFactor) -> (r: Self)
        ensures
            r.wf(),
            !r.finished(),
            r.spreading_factor() == spreading_factor,
            r.emitted() == Seq::<Access>::empty(),
            r.reads() == Seq::<u8>::empty(),
    {
        SpreadingFactorCommand {
            spreading_factor,
            next: 0,
            detect_optimize: 0,
            finished: false,
            emitted: Ghost(Seq::empty()),
            reads: Ghost(Seq::empty()),
        }
    }

    /// Asks for the next access; `input` is the value of the previous access when it was a
    /// read, and is ignored otherwise.
    pub fn step<E>(&mut self, input: u8) -> (r: Step<(), Sx127xLoraError<E>>)
        requires
            old(self).wf(),
            !old(self).finished(),
        ensures
            final(self).wf(),
            final(self).spreading_factor() == old(self).spreading_factor(),
            final(self).reads() == (if old(self).awaiting_read() {
                old(self).reads().push(input)
            } else {
                old(self).reads()
            }),
            r matches Step::Access(a) ==> {
                &&& !final(self).finished()
                &&& final(self).emitted() == old(self).emitted().push(a)
                &&& final(self).emitted().len() <= spec_spreading_factor_length(final(self).spreading_factor())
                &&& a == spec_spreading_factor_access(
                    final(self).spreading_factor(),
                    final(self).reads(),
                    old(self).emitted().len() as int,
                )
            },
            r matches Step::Done(res) ==> {
                &&& final(self).finished()
                &&& res is Ok
                &&& final(self).emitted() == spec_spreading_factor_accesses(
                    final(self).spreading_factor(),
                    final(self).reads(),
                )
            },
    {
        let k = self.next;
        let sf6 = self.spreading_factor == SpreadingFactor::Sf6;
        let off: usize = if sf6 {
            2
        } else {
            0
        };
        let ghost old_emitted = self.emitted@;
        let ghost old_reads = self.reads@;
        proof {
            if k > 0 {
                assert(old_emitted.last() == spec_spreading_factor_access(
                    self.spreading_factor,
                    old_reads,
                    k - 1,
                ));
            }
        }
        if k == 1 || k == 3 || (sf6 && k == 4) {
            proof {
                self.reads = Ghost(old_reads.push(input));
            }
        }
        if k == 3 {
            self.detect_optimize = input;
        }
        if k == 5 + off {
            self.finished = true;
            proof {
                assert(self.emitted@ =~= spec_spreading_factor_accesses(
                    self.spreading_factor,
                    self.reads@,
                ));
            }
            return Step::Done(Ok(()));
        }
        let a = if k == 0 {
            Access::Read(MODEM_CONFIG_2)
        } else if k == 1 {
            Access::Write(MODEM_CONFIG_2, with_spreading_factor(input, self.spreading_factor))
        } else if k == 2 {
            Access::Read(DETECT_OPTIMIZE)
        } else if sf6 && k == 3 {
            Access::Read(MODEM_CONFIG_1)
        } else if sf6 && k == 4 {
            Access::Write(MODEM_CONFIG_1, with_header_mode(input, HeaderMode::Implicit))
        } else if k == 3 + off {
            Access::Write(DETECTION_THRESHOLD, detection_for(self.detect_optimize, self.spreading_factor).1)
        } else {
            Access::Write(DETECT_OPTIMIZE, detection_for(self.detect_optimize, self.spreading_factor).0)
        };
        self.next = k + 1;
        proof {
            self.emitted = Ghost(old_emitted.push(a));
            assert forall|i: int| 0 <= i < self.next implies #[trigger] self.emitted@[i]
                == spec_spreading_factor_access(self.spreading_factor, self.reads@, i) by {
                if i < k {
                    assert(self.emitted@[i] == old_emitted[i]);
                }
            }
        }
        Step::Access(a)
    }
}

} // verus!
