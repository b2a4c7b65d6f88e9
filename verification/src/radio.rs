//! The chip driver: the command/response transport with ready-signal flow
//! control, the length-prefixed configuration-blob loader, the
//! interrupt-status decoder with its recovery policy, and the
//! transmit/listen/bring-up state machine.

use vstd::prelude::*;

use crate::bus::{
    lemma_grew_push, lemma_grew_trans, lemma_prefix_extend, lemma_skip_push, lemma_writes_step,
    lemma_written_push_other, lemma_written_push_write, log_ext, log_grew, writes_ext,
    writes_grew, written, BusEvent, RadioBus,
};
use crate::config::{
    acts_of, action_writes, check_ez_reply, chip_error_pending, config_well_formed,
    failed_load_attempts, flawed_at_start, lemma_attempts_snoc, lemma_full_load_is_prefix,
    lemma_loader_prefix, lemma_push_concat, load_writes, load_writes_prefix, parse_config,
    ConfigAction, ConfigParse, FIFO_DEPTH, MAX_COMMAND_RECORD,
};
use crate::defs::{
    decode_device_state, decode_func_info, decode_int_status, decode_part_info, fifo_reset_bytes,
    get_int_status_bytes, spec_device_state, spec_func_info, spec_int_status, spec_part_info,
    start_rx_bytes, start_tx_bytes, DeviceState, FuncInfo, IntStatus, PartInfo, CMD_FRR_A_READ,
    CMD_FUNC_INFO, CMD_GET_INT_STATUS, CMD_PART_INFO, CMD_READ_CMD_BUFF,
    CMD_REQUEST_DEVICE_STATE, CMD_WRITE_TX_FIFO, INT_CHIP_CMD_ERROR,
    INT_CHIP_FIFO_UNDERFLOW_OVERFLOW, INT_MODEM_INVALID_PREAMBLE, INT_MODEM_INVALID_SYNC,
    INT_PH_CRC_ERROR, INT_PH_PACKET_RX, INT_PH_PACKET_SENT, INT_PH_RX_FIFO_ALMOST_FULL,
    INT_PH_TX_FIFO_ALMOST_EMPTY, READY_BYTE, START_TX_RETURN_TO_RX, STATE_RX, STATE_TX,
    STATE_TX_TUNE,
};

verus! {

/// Ready-signal polling is bounded at this many bus transactions; exceeding
/// it yields [`Error::ReadTimeout`] rather than looping indefinitely.
pub const READY_POLL_LIMIT: usize = 1000;

/// Device-state polling before a transmit is bounded at this many
/// transactions; exceeding it yields [`Error::Busy`] without transmitting.
pub const TX_STATE_POLL_LIMIT: usize = 0xF000;

/// Bring-up retries the whole configuration load at most this many times.
pub const LOAD_ATTEMPT_LIMIT: usize = 10;

/// What can go wrong while driving the chip.
#[derive(Debug, Clone, Copy, PartialEq, Eq, Structural)]
pub enum Error {
    /// A configuration record is malformed or oversized; fatal, the load
    /// aborts before any byte of the offending record is transmitted.
    ConfigFormatError,
    /// An EZCONFIG_CHECK record was answered with this non-zero byte: the
    /// blob does not match the chip. Fatal, the load halts.
    EzConfigCheckFailed(u8),
    /// The chip reported a command error through the interrupt chip-pending
    /// bit while the configuration loaded. Fatal during load.
    ChipCommandError,
    /// The chip did not leave its transmit states within the documented
    /// bound; recoverable, the caller may retry.
    Busy,
    /// The ready signal was never observed within the documented bound: the
    /// transport is wedged and `system_error` is latched.
    ReadTimeout,
}

/// The mutable state of the driver, as spoken of by every contract: the
/// one-shot ready flag, the latched system error, the sticky flags set by the
/// interrupt decoder, and the `(channel, packet_length)` pair used to re-arm
/// listening after recovery.
pub struct DriverState {
    /// Channel configured by the last bring-up or listen.
    pub channel: u8,
    /// Packet length configured by the last bring-up or listen.
    pub packet_length: u16,
    /// One-shot: the ready signal has been observed and no command has
    /// consumed it yet.
    pub cts_ready: bool,
    /// Latched when ready polling was exhausted.
    pub system_error: bool,
    /// Sticky: the chip reported a command error (consumed by recovery).
    pub command_error: bool,
    /// Sticky: a CRC error was decoded (consumed by recovery).
    pub crc_error: bool,
    /// Sticky: a packet was sent (left for the caller to acknowledge).
    pub data_transmitted: bool,
    /// Sticky: a packet was received (left for the caller to drain).
    pub data_available: bool,
    /// Sticky: the transmit FIFO is almost empty.
    pub tx_fifo_almost_empty: bool,
    /// Sticky: the receive FIFO is almost full.
    pub rx_fifo_almost_full: bool,
}

/// `e` drives `out` onto the bus in a full-duplex exchange.
pub open spec fn is_xfer_out(e: BusEvent, out: u8) -> bool {
    match e {
        BusEvent::Xfer { out: o, inp: _ } => o == out,
        _ => false,
    }
}

/// The byte captured from the bus by an exchange event.
pub open spec fn xfer_inp(e: BusEvent) -> u8 {
    match e {
        BusEvent::Xfer { out: _, inp } => inp,
        _ => 0,
    }
}

/// One unsuccessful ready poll: a whole transaction that writes the poll
/// opcode, reads a status byte other than the ready sentinel, and deselects.
pub open spec fn failed_poll_round(ev: Seq<BusEvent>) -> bool {
    &&& ev.len() == 4
    &&& poll_header(ev.take(3))
    &&& xfer_inp(ev[2]) != READY_BYTE
    &&& ev[3] is Deselect
}

/// Exactly `k` unsuccessful ready polls, one transaction each.
pub open spec fn failed_polls(ev: Seq<BusEvent>, k: int) -> bool
    decreases k,
{
    if k <= 0 {
        k == 0 && ev.len() == 0
    } else {
        &&& ev.len() == 4 * k
        &&& failed_polls(ev.take(4 * (k - 1)), k - 1)
        &&& failed_poll_round(ev.skip(4 * (k - 1)))
    }
}

/// A run of exchanges that reads `data` out of the chip, driving the ready
/// sentinel as the outgoing byte of each.
pub open spec fn payload_reads(ev: Seq<BusEvent>, data: Seq<u8>) -> bool {
    &&& ev.len() == data.len()
    &&& forall|j: int|
        0 <= j < ev.len() ==> is_xfer_out(#[trigger] ev[j], READY_BYTE) && xfer_inp(ev[j])
            == data[j]
}

/// The three events opening a poll transaction: select, write the poll
/// opcode, read the status byte.
pub open spec fn poll_header(ev: Seq<BusEvent>) -> bool {
    &&& ev.len() == 3
    &&& ev[0] is Select
    &&& is_xfer_out(ev[1], CMD_READ_CMD_BUFF)
    &&& is_xfer_out(ev[2], READY_BYTE)
}

/// The still-open transaction in which the ready sentinel was observed and
/// the `data` bytes were then read out.
pub open spec fn read_body(ev: Seq<BusEvent>, data: Seq<u8>) -> bool {
    &&& ev.len() == 3 + data.len()
    &&& poll_header(ev.take(3))
    &&& xfer_inp(ev[2]) == READY_BYTE
    &&& payload_reads(ev.skip(3), data)
}

/// One successful poll transaction: the ready sentinel was observed, `data`
/// was read, and the transaction was closed.
pub open spec fn read_success(ev: Seq<BusEvent>, data: Seq<u8>) -> bool {
    &&& ev.len() == 4 + data.len()
    &&& read_body(ev.drop_last(), data)
    &&& ev.last() is Deselect
}

/// One whole transaction that writes `opcode` and reads `data` out behind
/// it, with no ready handshake.
pub open spec fn read_frame(ev: Seq<BusEvent>, opcode: u8, data: Seq<u8>) -> bool {
    &&& ev.len() == 3 + data.len()
    &&& ev[0] is Select
    &&& is_xfer_out(ev[1], opcode)
    &&& payload_reads(ev.subrange(2, ev.len() - 1), data)
    &&& ev.last() is Deselect
}

/// The log closes on a whole exhausted poll sequence: its last
/// `4 * READY_POLL_LIMIT` events are exactly [`READY_POLL_LIMIT`]
/// unsuccessful ready polls. Every timeout the driver reports, at whatever
/// layer, really is this on the wire.
pub open spec fn ends_with_exhausted_polls(log: Seq<BusEvent>) -> bool {
    &&& log.len() >= 4 * READY_POLL_LIMIT as int
    &&& failed_polls(
        log.skip(log.len() - 4 * READY_POLL_LIMIT as int),
        READY_POLL_LIMIT as int,
    )
}

/// `k` unsuccessful polls followed by one successful poll reading `data`.
pub open spec fn polls_then_read(ev: Seq<BusEvent>, k: int, data: Seq<u8>) -> bool {
    &&& 0 <= k
    &&& failed_polls(ev.take(4 * k), k)
    &&& read_success(ev.skip(4 * k), data)
}

/// The events of one bounded ready-poll read that observed the sentinel
/// before the bound and read `data`: some number of unsuccessful polls, each
/// a whole transaction, then the successful one.
pub open spec fn ready_read(ev: Seq<BusEvent>, data: Seq<u8>) -> bool {
    exists|k: int| (k < READY_POLL_LIMIT as int) && #[trigger] polls_then_read(ev, k, data)
}

/// One command write: a whole transaction carrying exactly `data`.
pub open spec fn cmd_write(ev: Seq<BusEvent>, data: Seq<u8>) -> bool {
    ev == seq![BusEvent::Select, BusEvent::Write { data }, BusEvent::Deselect]
}

/// The events of one command send: the write transaction alone when the
/// ready signal had already been observed, else a successful ready poll
/// first.
pub open spec fn sends_command(ready: bool, ev: Seq<BusEvent>, data: Seq<u8>) -> bool {
    if ready {
        cmd_write(ev, data)
    } else {
        exists|j: int|
            0 <= j <= ev.len() && #[trigger] ready_read(ev.take(j), Seq::empty()) && cmd_write(
                ev.skip(j),
                data,
            )
    }
}

/// The events of one command/response exchange: a command send followed by a
/// bounded ready-poll read of the reply.
pub open spec fn exchanges_command(
    ready: bool,
    ev: Seq<BusEvent>,
    cmd: Seq<u8>,
    reply: Seq<u8>,
) -> bool {
    exists|j: int|
        0 <= j <= ev.len() && #[trigger] sends_command(ready, ev.take(j), cmd) && ready_read(
            ev.skip(j),
            reply,
        )
}

/// Some suffix of the log is one command/response exchange of `cmd`
/// answered by `reply`: wire evidence that the chip was asked `cmd` and
/// answered `reply`, with nothing after it.
#[verifier::opaque]
pub open spec fn closes_with_exchange(log: Seq<BusEvent>, cmd: Seq<u8>, reply: Seq<u8>) -> bool {
    exists|j: int, ready: bool|
        0 <= j <= log.len() && #[trigger] exchanges_command(ready, log.skip(j), cmd, reply)
}

/// `st` with the bring-up pair `(channel, packet_length)` installed.
pub open spec fn configured(st: DriverState, channel: u8, packet_length: u16) -> DriverState {
    DriverState { channel, packet_length, ..st }
}

/// Some prefix of the events is one command/response exchange of `cmd`
/// answered by `reply`: wire evidence of where a reply came from when more
/// traffic follows the exchange.
#[verifier::opaque]
pub open spec fn opens_with_exchange(
    ev: Seq<BusEvent>,
    ready: bool,
    cmd: Seq<u8>,
    reply: Seq<u8>,
) -> bool {
    exists|j: int| 0 <= j <= ev.len() && #[trigger] exchanges_command(ready, ev.take(j), cmd, reply)
}

/// The one-shot ready flag and the latched system error never hold
/// together: observing the ready signal clears the latch, and latching it
/// forgets the ready signal. Every driver operation preserves this.
pub open spec fn flags_consistent(st: DriverState) -> bool {
    !(st.cts_ready && st.system_error)
}

/// The sticky flags of `st` after the decoder has mapped the packet-handler
/// pending byte `ph` onto them. Matched bits set flags; nothing clears one.
pub open spec fn ph_flags(st: DriverState, ph: u8) -> DriverState {
    DriverState {
        data_transmitted: st.data_transmitted || (ph & INT_PH_PACKET_SENT) != 0,
        data_available: st.data_available || (ph & INT_PH_PACKET_RX) != 0,
        crc_error: st.crc_error || (ph & INT_PH_CRC_ERROR) != 0,
        tx_fifo_almost_empty: st.tx_fifo_almost_empty || (ph & INT_PH_TX_FIFO_ALMOST_EMPTY) != 0,
        rx_fifo_almost_full: st.rx_fifo_almost_full || (ph & INT_PH_RX_FIFO_ALMOST_FULL) != 0,
        ..st
    }
}

/// The sticky flags of `st` after the decoder has mapped the chip pending
/// byte `chip` onto them.
pub open spec fn chip_flags(st: DriverState, chip: u8) -> DriverState {
    DriverState { command_error: st.command_error || (chip & INT_CHIP_CMD_ERROR) != 0, ..st }
}

/// The sticky flags of `st` after one whole interrupt decode.
pub open spec fn decoded_flags(st: DriverState, ph: u8, chip: u8) -> DriverState {
    chip_flags(ph_flags(st, ph), chip)
}

/// The commands recovery issues for decoded state `st`: a FIFO reset
/// discarding any partial frame when a CRC error or a FIFO fault was seen,
/// and a listen restart (an interrupt clear followed by START_RX at the last
/// configured channel and packet length) when a CRC error or a command error
/// is to be consumed.
pub open spec fn recovery_writes(st: DriverState, fifo_error: bool) -> Seq<Seq<u8>> {
    let reset = st.crc_error || fifo_error;
    let restart = st.crc_error || st.command_error;
    (if reset {
        seq![fifo_reset_bytes()]
    } else {
        Seq::<Seq<u8>>::empty()
    }) + (if restart {
        seq![
            get_int_status_bytes(0, 0, 0),
            start_rx_bytes(st.channel, 0, st.packet_length, STATE_RX, STATE_RX, STATE_RX),
        ]
    } else {
        Seq::<Seq<u8>>::empty()
    })
}

/// `a` is `b` with at most the ready flag and the latched system error
/// changed.
pub open spec fn same_but_ready(a: DriverState, b: DriverState) -> bool {
    a == (DriverState { cts_ready: a.cts_ready, system_error: a.system_error, ..b })
}

/// The commands a listen issues, given the interrupt reply `(ph, chip)` that
/// the preceding clear happened to report: the interrupt clear, whatever
/// recovery it triggers, then START_RX with the "remain in receive"
/// next-state vector.
pub open spec fn listen_writes(
    st: DriverState,
    ph: u8,
    chip: u8,
    channel: u8,
    length: u16,
) -> Seq<Seq<u8>> {
    let dec = decoded_flags(st, ph, chip);
    let fifo_error = (chip & INT_CHIP_FIFO_UNDERFLOW_OVERFLOW) != 0;
    seq![get_int_status_bytes(0, 0, 0)] + recovery_writes(dec, fifo_error) + seq![
        start_rx_bytes(channel, 0, length, STATE_RX, STATE_RX, STATE_RX),
    ]
}

/// The commands a transmit issues before it starts polling the device
/// state: the interrupt clear and whatever recovery it triggers.
pub open spec fn transmit_poll_prefix(st: DriverState, ph: u8, chip: u8) -> Seq<Seq<u8>> {
    let dec = decoded_flags(st, ph, chip);
    let fifo_error = (chip & INT_CHIP_FIFO_UNDERFLOW_OVERFLOW) != 0;
    seq![get_int_status_bytes(0, 0, 0)] + recovery_writes(dec, fifo_error)
}

/// Wire evidence that the chip reported having left the transmit states:
/// some prefix of the events closes on a device-state exchange whose reply
/// carries a state other than Tx and TxTune.
pub open spec fn saw_chip_leave_tx(ev: Seq<BusEvent>) -> bool {
    exists|j: int, rep: Seq<u8>|
        #![trigger closes_with_exchange(ev.take(j), seq![CMD_REQUEST_DEVICE_STATE], rep)]
        {
            &&& 0 <= j <= ev.len()
            &&& rep.len() == 2
            &&& spec_device_state(rep).state != STATE_TX
            &&& spec_device_state(rep).state != STATE_TX_TUNE
            &&& closes_with_exchange(ev.take(j), seq![CMD_REQUEST_DEVICE_STATE], rep)
        }
}

/// `k` REQUEST_DEVICE_STATE commands, one per bounded-wait iteration.
pub open spec fn state_poll_writes(k: int) -> Seq<Seq<u8>> {
    Seq::new(k as nat, |i: int| seq![CMD_REQUEST_DEVICE_STATE])
}

/// The driver. It owns its hardware collaborators and all of its own mutable
/// state; every operation runs to completion or to a bounded, explicit
/// failure.
pub struct Si4455<H: RadioBus> {
    bus: H,
    channel_number: u8,
    packet_length: u16,
    cts_ready: bool,
    system_error: bool,
    command_error: bool,
    crc_error: bool,
    data_transmitted: bool,
    data_available: bool,
    tx_fifo_almost_empty: bool,
    rx_fifo_almost_full: bool,
}

impl<H: RadioBus> View for Si4455<H> {
    type V = DriverState;

    closed spec fn view(&self) -> DriverState {
        DriverState {
            channel: self.channel_number,
            packet_length: self.packet_length,
            cts_ready: self.cts_ready,
            system_error: self.system_error,
            command_error: self.command_error,
            crc_error: self.crc_error,
            data_transmitted: self.data_transmitted,
            data_available: self.data_available,
            tx_fifo_almost_empty: self.tx_fifo_almost_empty,
            rx_fifo_almost_full: self.rx_fifo_almost_full,
        }
    }
}

impl<H: RadioBus> Si4455<H> {
    /// The history of hardware interactions performed so far.
    pub closed spec fn bus_log(&self) -> Seq<BusEvent> {
        self.bus.log()
    }

    /// Creates a new instance of the radio driver, owning its bus.
    pub fn new(bus: H) -> (r: Si4455<H>)
        ensures
            r@ == (DriverState {
                channel: 0,
                packet_length: 17,
                cts_ready: false,
                system_error: false,
                command_error: false,
                crc_error: false,
                data_transmitted: false,
                data_available: false,
                tx_fifo_almost_empty: false,
                rx_fifo_almost_full: false,
            }),
            r.bus_log() == bus.log(),
    {
        Si4455 {
            bus,
            channel_number: 0,
            packet_length: 17,
            cts_ready: false,
            system_error: false,
            command_error: false,
            crc_error: false,
            data_transmitted: false,
            data_available: false,
            tx_fifo_almost_empty: false,
            rx_fifo_almost_full: false,
        }
    }

    /// Borrow the hardware collaborators, e.g. to inspect a simulated bus.
    pub fn bus(&self) -> (r: &H)
        ensures
            r.log() == self.bus_log(),
    {
        &self.bus
    }

    /// Open a transaction, write the poll opcode and read the status byte,
    /// leaving the transaction open.
    fn poll_once(&mut self) -> (cts: u8)
        ensures
            final(self)@ == old(self)@,
            log_grew(final(self).bus_log(), old(self).bus_log()),
            written(final(self).bus_log()) == written(old(self).bus_log()),
            poll_header(log_ext(final(self).bus_log(), old(self).bus_log())),
            xfer_inp(log_ext(final(self).bus_log(), old(self).bus_log())[2]) == cts,
    {
        let ghost log0 = self.bus.log();
        self.bus.select();
        let ghost l1 = self.bus.log();
        let _echo = self.bus.transfer_byte(CMD_READ_CMD_BUFF);
        let ghost l2 = self.bus.log();
        let cts = self.bus.transfer_byte(READY_BYTE);
        proof {
            lemma_written_push_other(log0, BusEvent::Select);
            lemma_written_push_other(l1, BusEvent::Xfer { out: CMD_READ_CMD_BUFF, inp: _echo });
            lemma_written_push_other(l2, BusEvent::Xfer { out: READY_BYTE, inp: cts });
            assert(log0.subrange(0, log0.len() as int) =~= log0);
            assert(log_ext(self.bus.log(), log0) =~= seq![
                BusEvent::Select,
                BusEvent::Xfer { out: CMD_READ_CMD_BUFF, inp: _echo },
                BusEvent::Xfer { out: READY_BYTE, inp: cts },
            ]);
        }
        cts
    }

    /// Read `n` payload bytes out of the open transaction.
    fn read_payload(&mut self, n: usize) -> (data: Vec<u8>)
        ensures
            final(self)@ == old(self)@,
            log_grew(final(self).bus_log(), old(self).bus_log()),
            written(final(self).bus_log()) == written(old(self).bus_log()),
            data@.len() == n,
            payload_reads(log_ext(final(self).bus_log(), old(self).bus_log()), data@),
    {
        let ghost log0 = self.bus.log();
        let mut data: Vec<u8> = Vec::new();
        let mut i: usize = 0;
        proof {
            assert(log_ext(self.bus.log(), log0) =~= Seq::<BusEvent>::empty());
        }
        while i < n
            invariant
                i <= n,
                data@.len() == i,
                self@ == old(self)@,
                log_grew(self.bus.log(), log0),
                written(self.bus.log()) == written(log0),
                payload_reads(log_ext(self.bus.log(), log0), data@),
            decreases n - i,
        {
            let ghost lr = self.bus.log();
            let b = self.bus.transfer_byte(READY_BYTE);
            proof {
                lemma_written_push_other(lr, BusEvent::Xfer { out: READY_BYTE, inp: b });
                lemma_skip_push(lr, BusEvent::Xfer { out: READY_BYTE, inp: b }, log0.len() as int);
                lemma_grew_push(lr, BusEvent::Xfer { out: READY_BYTE, inp: b });
                lemma_grew_trans(self.bus.log(), lr, log0);
            }
            data.push(b);
            i = i + 1;
        }
        data
    }

    /// Poll the ready signal until the chip answers the ready sentinel, then
    /// read an `n`-byte reply within the same transaction; bounded at
    /// [`READY_POLL_LIMIT`] transactions with a fixed backoff delay between
    /// iterations. Exhausting the bound latches `system_error` and clears the
    /// one-shot ready flag, so that a stale ready cannot misframe the next
    /// write; success marks the ready signal observed.
    #[verifier::rlimit(100)]
    #[verifier::spinoff_prover]
    #[verifier::loop_isolation(false)]
    fn get_response(&mut self, n: usize) -> (r: Result<Vec<u8>, Error>)
        ensures
            log_grew(final(self).bus_log(), old(self).bus_log()),
            written(final(self).bus_log()) == written(old(self).bus_log()),
            match r {
                Ok(data) => {
                    &&& data@.len() == n
                    &&& final(self)@ == (DriverState {
                        cts_ready: true,
                        system_error: false,
                        ..old(self)@
                    })
                    &&& ready_read(log_ext(final(self).bus_log(), old(self).bus_log()), data@)
                },
                Err(e) => {
                    &&& e == Error::ReadTimeout
                    &&& ends_with_exhausted_polls(final(self).bus_log())
                    &&& final(self)@ == (DriverState {
                        cts_ready: false,
                        system_error: true,
                        ..old(self)@
                    })
                    &&& failed_polls(
                        log_ext(final(self).bus_log(), old(self).bus_log()),
                        READY_POLL_LIMIT as int,
                    )
                },
            },
    {
        let ghost log0 = self.bus.log();
        let mut tries: usize = 0;
        while tries < READY_POLL_LIMIT
            invariant
                tries <= READY_POLL_LIMIT,
                self@ == old(self)@,
                log_grew(self.bus.log(), log0),
                failed_polls(log_ext(self.bus.log(), log0), tries as int),
                written(self.bus.log()) == written(log0),
            decreases READY_POLL_LIMIT - tries,
        {
            let ghost round0 = self.bus.log();
            let cts = self.poll_once();
            if cts == READY_BYTE {
                let ghost hdr = log_ext(self.bus.log(), round0);
                let ghost read0 = self.bus.log();
                let data = self.read_payload(n);
                let ghost pay = log_ext(self.bus.log(), read0);
                let ghost lr = self.bus.log();
                self.bus.deselect();
                self.cts_ready = true;
                self.system_error = false;
                proof {
                    lemma_written_push_other(lr, BusEvent::Deselect);
                    lemma_grew_push(lr, BusEvent::Deselect);
                    lemma_grew_trans(self.bus.log(), lr, read0);
                    lemma_grew_trans(self.bus.log(), read0, round0);
                    lemma_grew_trans(self.bus.log(), round0, log0);
                    let rnd = log_ext(self.bus.log(), round0);
                    assert(rnd =~= hdr + pay + seq![BusEvent::Deselect]);
                    assert(rnd.drop_last() =~= hdr + pay);
                    assert((hdr + pay).take(3) =~= hdr);
                    assert((hdr + pay).skip(3) =~= pay);
                    assert(read_body(rnd.drop_last(), data@));
                    assert(read_success(rnd, data@));
                    let ge = log_ext(self.bus.log(), log0);
                    assert(ge.take(4 * tries as int) =~= log_ext(round0, log0));
                    assert(ge.skip(4 * tries as int) =~= rnd);
                    assert(polls_then_read(ge, tries as int, data@));
                    assert((tries as int) < READY_POLL_LIMIT as int);
                    assert(ready_read(ge, data@));
                }
                return Ok(data);
            }
            let ghost l3 = self.bus.log();
            self.bus.deselect();
            self.bus.delay_short();
            tries = tries + 1;
            proof {
                lemma_written_push_other(l3, BusEvent::Deselect);
                lemma_grew_push(l3, BusEvent::Deselect);
                lemma_grew_trans(self.bus.log(), l3, round0);
                lemma_grew_trans(self.bus.log(), round0, log0);
                let rnd = log_ext(self.bus.log(), round0);
                assert(rnd =~= log_ext(l3, round0) + seq![BusEvent::Deselect]);
                assert(rnd.take(3) =~= log_ext(l3, round0));
                assert(failed_poll_round(rnd));
                let ext = log_ext(self.bus.log(), log0);
                assert(ext.take(4 * (tries as int - 1)) =~= log_ext(round0, log0));
                assert(ext.skip(4 * (tries as int - 1)) =~= rnd);
                assert(failed_polls(ext, tries as int));
            }
        }
        self.cts_ready = false;
        self.system_error = true;
        proof {
            let log = self.bus.log();
            assert(log.skip(log.len() - 4 * READY_POLL_LIMIT as int) =~= log_ext(log, log0));
        }
        Err(Error::ReadTimeout)
    }

    /// Poll the ready signal once through the bounded read, with no payload.
    fn poll_cts(&mut self) -> (r: Result<(), Error>)
        ensures
            log_grew(final(self).bus_log(), old(self).bus_log()),
            written(final(self).bus_log()) == written(old(self).bus_log()),
            match r {
                Ok(()) => {
                    &&& final(self)@ == (DriverState {
                        cts_ready: true,
                        system_error: false,
                        ..old(self)@
                    })
                    &&& ready_read(
                        log_ext(final(self).bus_log(), old(self).bus_log()),
                        Seq::<u8>::empty(),
                    )
                },
                Err(e) => {
                    &&& e == Error::ReadTimeout
                    &&& ends_with_exhausted_polls(final(self).bus_log())
                    &&& final(self)@ == (DriverState {
                        cts_ready: false,
                        system_error: true,
                        ..old(self)@
                    })
                    &&& failed_polls(
                        log_ext(final(self).bus_log(), old(self).bus_log()),
                        READY_POLL_LIMIT as int,
                    )
                },
            },
    {
        match self.get_response(0) {
            Ok(v) => {
                proof {
                    assert(v@ =~= Seq::<u8>::empty());
                }
                Ok(())
            },
            Err(e) => Err(e),
        }
    }

    /// Mark the one-shot ready flag consumed.
    fn clear_cts(&mut self)
        ensures
            final(self)@ == (DriverState { cts_ready: false, ..old(self)@ }),
            final(self).bus_log() == old(self).bus_log(),
    {
        self.cts_ready = false;
    }

    /// Block until the ready signal has been observed (unless it already
    /// was), then write `data` as one select-bracketed transaction and mark
    /// the ready flag consumed.
    fn send_command(&mut self, data: &[u8]) -> (r: Result<(), Error>)
        ensures
            log_grew(final(self).bus_log(), old(self).bus_log()),
            match r {
                Ok(()) => {
                    &&& final(self)@ == (DriverState {
                        cts_ready: false,
                        system_error: old(self)@.cts_ready && old(self)@.system_error,
                        ..old(self)@
                    })
                    &&& sends_command(
                        old(self)@.cts_ready,
                        log_ext(final(self).bus_log(), old(self).bus_log()),
                        data@,
                    )
                    &&& written(final(self).bus_log()) == written(old(self).bus_log()).push(data@)
                },
                Err(e) => {
                    &&& e == Error::ReadTimeout
                    &&& ends_with_exhausted_polls(final(self).bus_log())
                    &&& !old(self)@.cts_ready
                    &&& final(self)@ == (DriverState {
                        cts_ready: false,
                        system_error: true,
                        ..old(self)@
                    })
                    &&& failed_polls(
                        log_ext(final(self).bus_log(), old(self).bus_log()),
                        READY_POLL_LIMIT as int,
                    )
                    &&& written(final(self).bus_log()) == written(old(self).bus_log())
                },
            },
    {
        let ghost log0 = self.bus.log();
        let ghost ready0 = self@.cts_ready;
        if !self.cts_ready {
            match self.poll_cts() {
                Ok(()) => (),
                Err(e) => {
                    return Err(e);
                },
            }
        }
        let ghost w0 = self.bus.log();
        self.bus.select();
        let ghost l1 = self.bus.log();
        self.bus.write_bytes(data);
        let ghost l2 = self.bus.log();
        self.bus.deselect();
        self.cts_ready = false;
        proof {
            lemma_written_push_other(w0, BusEvent::Select);
            lemma_written_push_write(l1, data@);
            lemma_written_push_other(l2, BusEvent::Deselect);
            lemma_grew_push(l2, BusEvent::Deselect);
            lemma_grew_trans(self.bus.log(), l2, w0);
            lemma_grew_trans(self.bus.log(), w0, log0);
            let wext = log_ext(self.bus.log(), w0);
            assert(wext =~= seq![
                BusEvent::Select,
                BusEvent::Write { data: data@ },
                BusEvent::Deselect,
            ]);
            let ext = log_ext(self.bus.log(), log0);
            if ready0 {
                assert(ext == wext);
            } else {
                let j = w0.len() - log0.len();
                assert(ext.take(j as int) =~= log_ext(w0, log0));
                assert(ext.skip(j as int) =~= wext);
                assert(ready_read(ext.take(j as int), Seq::<u8>::empty()));
                assert(cmd_write(ext.skip(j as int), data@));
                assert(sends_command(ready0, ext, data@));
            }
        }
        Ok(())
    }

    /// Send a command, then poll for and read its `n`-byte reply.
    fn send_command_and_get_response(&mut self, data: &[u8], n: usize) -> (r: Result<
        Vec<u8>,
        Error,
    >)
        ensures
            log_grew(final(self).bus_log(), old(self).bus_log()),
            match r {
                Ok(reply) => {
                    &&& reply@.len() == n
                    &&& final(self)@ == (DriverState {
                        cts_ready: true,
                        system_error: false,
                        ..old(self)@
                    })
                    &&& exchanges_command(
                        old(self)@.cts_ready,
                        log_ext(final(self).bus_log(), old(self).bus_log()),
                        data@,
                        reply@,
                    )
                    &&& written(final(self).bus_log()) == written(old(self).bus_log()).push(data@)
                },
                Err(e) => {
                    &&& e == Error::ReadTimeout
                    &&& ends_with_exhausted_polls(final(self).bus_log())
                    &&& final(self)@ == (DriverState {
                        cts_ready: false,
                        system_error: true,
                        ..old(self)@
                    })
                    &&& (written(final(self).bus_log()) == written(old(self).bus_log()) || written(
                        final(self).bus_log(),
                    ) == written(old(self).bus_log()).push(data@))
                },
            },
    {
        let ghost log0 = self.bus.log();
        let ghost ready0 = self@.cts_ready;
        match self.send_command(data) {
            Ok(()) => (),
            Err(e) => {
                return Err(e);
            },
        }
        let ghost s0 = self.bus.log();
        match self.get_response(n) {
            Ok(reply) => {
                proof {
                    lemma_grew_trans(self.bus.log(), s0, log0);
                    let ext = log_ext(self.bus.log(), log0);
                    let j = s0.len() - log0.len();
                    assert(ext.take(j as int) =~= log_ext(s0, log0));
                    assert(ext.skip(j as int) =~= log_ext(self.bus.log(), s0));
                    assert(exchanges_command(ready0, ext, data@, reply@));
                }
                Ok(reply)
            },
            Err(e) => Err(e),
        }
    }

    /// Write `opcode` followed by `data` as one transaction, first blocking
    /// on the ready signal if `poll` asks for it, and mark the ready flag
    /// consumed. This is the fire-and-forget payload path of FIFO writes.
    fn write_data(&mut self, opcode: u8, data: &[u8], poll: bool) -> (r: Result<(), Error>)
        ensures
            log_grew(final(self).bus_log(), old(self).bus_log()),
            match r {
                Ok(()) => {
                    &&& final(self)@ == (DriverState {
                        cts_ready: false,
                        system_error: (!poll || old(self)@.cts_ready) && old(self)@.system_error,
                        ..old(self)@
                    })
                    &&& written(final(self).bus_log()) == written(old(self).bus_log()).push(
                        seq![opcode] + data@,
                    )
                    &&& sends_command(
                        !poll || old(self)@.cts_ready,
                        log_ext(final(self).bus_log(), old(self).bus_log()),
                        seq![opcode] + data@,
                    )
                },
                Err(e) => {
                    &&& e == Error::ReadTimeout
                    &&& ends_with_exhausted_polls(final(self).bus_log())
                    &&& poll && !old(self)@.cts_ready
                    &&& final(self)@ == (DriverState {
                        cts_ready: false,
                        system_error: true,
                        ..old(self)@
                    })
                    &&& written(final(self).bus_log()) == written(old(self).bus_log())
                    &&& failed_polls(
                        log_ext(final(self).bus_log(), old(self).bus_log()),
                        READY_POLL_LIMIT as int,
                    )
                },
            },
    {
        let ghost log0 = self.bus.log();
        let ghost skipped = !poll || self@.cts_ready;
        if poll && !self.cts_ready {
            match self.poll_cts() {
                Ok(()) => (),
                Err(e) => {
                    return Err(e);
                },
            }
        }
        let mut framed: Vec<u8> = Vec::new();
        framed.push(opcode);
        let mut i: usize = 0;
        while i < data.len()
            invariant
                i <= data@.len(),
                framed@ == seq![opcode] + data@.take(i as int),
            decreases data@.len() - i,
        {
            let b = *vstd::slice::slice_index_get(data, i);
            framed.push(b);
            i = i + 1;
            proof {
                assert(framed@ =~= seq![opcode] + data@.take(i as int));
            }
        }
        proof {
            assert(data@.take(data@.len() as int) =~= data@);
        }
        let ghost w0 = self.bus.log();
        self.bus.select();
        let ghost l1 = self.bus.log();
        self.bus.write_bytes(framed.as_slice());
        let ghost l2 = self.bus.log();
        self.bus.deselect();
        self.cts_ready = false;
        proof {
            lemma_written_push_other(w0, BusEvent::Select);
            lemma_written_push_write(l1, framed@);
            lemma_written_push_other(l2, BusEvent::Deselect);
            lemma_grew_push(l2, BusEvent::Deselect);
            lemma_grew_trans(self.bus.log(), l2, w0);
            lemma_grew_trans(self.bus.log(), w0, log0);
            let wext = log_ext(self.bus.log(), w0);
            assert(wext =~= seq![
                BusEvent::Select,
                BusEvent::Write { data: framed@ },
                BusEvent::Deselect,
            ]);
            let ext = log_ext(self.bus.log(), log0);
            if skipped {
                assert(ext == wext);
                assert(sends_command(true, ext, seq![opcode] + data@));
            } else {
                let j = w0.len() - log0.len();
                assert(ext.take(j as int) =~= log_ext(w0, log0));
                assert(ext.skip(j as int) =~= wext);
                assert(ready_read(ext.take(j as int), Seq::<u8>::empty()));
                assert(cmd_write(ext.skip(j as int), seq![opcode] + data@));
                assert(sends_command(false, ext, seq![opcode] + data@));
            }
        }
        Ok(())
    }

    /// Read `n` bytes behind `opcode` in one transaction, with no ready
    /// handshake, and mark the ready flag consumed.
    fn read_data(&mut self, opcode: u8, n: usize) -> (data: Vec<u8>)
        ensures
            log_grew(final(self).bus_log(), old(self).bus_log()),
            written(final(self).bus_log()) == written(old(self).bus_log()),
            final(self)@ == (DriverState { cts_ready: false, ..old(self)@ }),
            data@.len() == n,
            read_frame(
                log_ext(final(self).bus_log(), old(self).bus_log()),
                opcode,
                data@,
            ),
    {
        let ghost log0 = self.bus.log();
        self.bus.select();
        let ghost l1 = self.bus.log();
        let _echo = self.bus.transfer_byte(opcode);
        let ghost r0 = self.bus.log();
        let data = self.read_payload(n);
        let ghost l2 = self.bus.log();
        self.bus.deselect();
        self.cts_ready = false;
        proof {
            lemma_written_push_other(log0, BusEvent::Select);
            lemma_written_push_other(l1, BusEvent::Xfer { out: opcode, inp: _echo });
            lemma_written_push_other(l2, BusEvent::Deselect);
            lemma_grew_push(l2, BusEvent::Deselect);
            lemma_grew_trans(self.bus.log(), l2, r0);
            lemma_grew_trans(self.bus.log(), r0, log0);
            let ext = log_ext(self.bus.log(), log0);
            assert(ext =~= seq![
                BusEvent::Select,
                BusEvent::Xfer { out: opcode, inp: _echo },
            ] + log_ext(l2, r0) + seq![BusEvent::Deselect]);
            assert(ext.subrange(2, ext.len() - 1) =~= log_ext(l2, r0));
        }
        data
    }

    /// Drive the shutdown line high.
    fn assert_shutdown(&mut self)
        ensures
            final(self)@ == old(self)@,
            log_grew(final(self).bus_log(), old(self).bus_log()),
            written(final(self).bus_log()) == written(old(self).bus_log()),
            log_ext(final(self).bus_log(), old(self).bus_log()) == seq![
                BusEvent::Shutdown { on: true },
            ],
    {
        let ghost log0 = self.bus.log();
        self.bus.set_shutdown(true);
        proof {
            lemma_written_push_other(log0, BusEvent::Shutdown { on: true });
            lemma_grew_push(log0, BusEvent::Shutdown { on: true });
        }
    }

    /// Drive the shutdown line low.
    fn deassert_shutdown(&mut self)
        ensures
            final(self)@ == old(self)@,
            log_grew(final(self).bus_log(), old(self).bus_log()),
            written(final(self).bus_log()) == written(old(self).bus_log()),
            log_ext(final(self).bus_log(), old(self).bus_log()) == seq![
                BusEvent::Shutdown { on: false },
            ],
    {
        let ghost log0 = self.bus.log();
        self.bus.set_shutdown(false);
        proof {
            lemma_written_push_other(log0, BusEvent::Shutdown { on: false });
            lemma_grew_push(log0, BusEvent::Shutdown { on: false });
        }
    }

    /// Sample the interrupt line as a level.
    fn irq_asserted(&mut self) -> (r: bool)
        ensures
            final(self)@ == old(self)@,
            final(self).bus_log() == old(self).bus_log(),
    {
        self.bus.irq_is_asserted()
    }

    /// Power-up reset: assert then deassert shutdown with settle delays, and
    /// forget any previously observed ready signal.
    fn reset(&mut self)
        ensures
            final(self)@ == (DriverState { cts_ready: false, ..old(self)@ }),
            log_grew(final(self).bus_log(), old(self).bus_log()),
            written(final(self).bus_log()) == written(old(self).bus_log()),
            log_ext(final(self).bus_log(), old(self).bus_log()) == seq![
                BusEvent::Shutdown { on: true },
                BusEvent::Shutdown { on: false },
            ],
    {
        let ghost log0 = self.bus.log();
        self.assert_shutdown();
        self.bus.delay_ms(10);
        let ghost l1 = self.bus.log();
        self.deassert_shutdown();
        self.bus.delay_ms(10);
        self.clear_cts();
        proof {
            lemma_grew_trans(self.bus.log(), l1, log0);
            assert(log_ext(self.bus.log(), log0) =~= seq![
                BusEvent::Shutdown { on: true },
                BusEvent::Shutdown { on: false },
            ]);
        }
    }

    /// Reset the chip and wait out the post-reset settle time.
    fn power_up(&mut self)
        ensures
            final(self)@ == (DriverState { cts_ready: false, ..old(self)@ }),
            log_grew(final(self).bus_log(), old(self).bus_log()),
            written(final(self).bus_log()) == written(old(self).bus_log()),
            log_ext(final(self).bus_log(), old(self).bus_log()) == seq![
                BusEvent::Shutdown { on: true },
                BusEvent::Shutdown { on: false },
            ],
    {
        self.reset();
        self.bus.delay_ms(10);
    }

    /// Map the packet-handler pending bits onto the sticky flags; the result
    /// says whether any recognized bit fired.
    pub fn process_ph_interrupt_pending(&mut self, ph_pend: u8) -> (clear: bool)
        ensures
            final(self).bus_log() == old(self).bus_log(),
            final(self)@ == ph_flags(old(self)@, ph_pend),
            clear == ((ph_pend & INT_PH_PACKET_SENT) != 0 || (ph_pend & INT_PH_PACKET_RX) != 0
                || (ph_pend & INT_PH_CRC_ERROR) != 0 || (ph_pend & INT_PH_TX_FIFO_ALMOST_EMPTY)
                != 0 || (ph_pend & INT_PH_RX_FIFO_ALMOST_FULL) != 0),
    {
        let mut clear = false;
        if (ph_pend & INT_PH_PACKET_SENT) != 0 {
            self.data_transmitted = true;
            clear = true;
        }
        if (ph_pend & INT_PH_PACKET_RX) != 0 {
            self.data_available = true;
            clear = true;
        }
        if (ph_pend & INT_PH_CRC_ERROR) != 0 {
            self.crc_error = true;
            clear = true;
        }
        if (ph_pend & INT_PH_TX_FIFO_ALMOST_EMPTY) != 0 {
            self.tx_fifo_almost_empty = true;
            clear = true;
        }
        if (ph_pend & INT_PH_RX_FIFO_ALMOST_FULL) != 0 {
            self.rx_fifo_almost_full = true;
            clear = true;
        }
        clear
    }

    /// Recognize the informational modem pending bits; they mutate no flag
    /// and only signal that a clear is warranted.
    pub fn process_modem_interrupt_pending(&mut self, modem_pend: u8) -> (clear: bool)
        ensures
            final(self).bus_log() == old(self).bus_log(),
            final(self)@ == old(self)@,
            clear == ((modem_pend & INT_MODEM_INVALID_SYNC) != 0 || (modem_pend
                & INT_MODEM_INVALID_PREAMBLE) != 0),
    {
        let mut clear = false;
        if (modem_pend & INT_MODEM_INVALID_SYNC) != 0 {
            clear = true;
        }
        if (modem_pend & INT_MODEM_INVALID_PREAMBLE) != 0 {
            clear = true;
        }
        clear
    }

    /// Map the chip pending bits onto the sticky flags; the result says
    /// whether any recognized bit fired.
    pub fn process_chip_interrupt_pending(&mut self, chip_pend: u8) -> (clear: bool)
        ensures
            final(self).bus_log() == old(self).bus_log(),
            final(self)@ == chip_flags(old(self)@, chip_pend),
            clear == ((chip_pend & INT_CHIP_FIFO_UNDERFLOW_OVERFLOW) != 0 || (chip_pend
                & INT_CHIP_CMD_ERROR) != 0),
    {
        let mut clear = false;
        if (chip_pend & INT_CHIP_FIFO_UNDERFLOW_OVERFLOW) != 0 {
            clear = true;
        }
        if (chip_pend & INT_CHIP_CMD_ERROR) != 0 {
            self.command_error = true;
            clear = true;
        }
        clear
    }

    /// Issue FIFO_INFO with both reset bits set, discarding any partial
    /// frame in either FIFO.
    pub fn reset_fifo(&mut self) -> (r: Result<(), Error>)
        ensures
            log_grew(final(self).bus_log(), old(self).bus_log()),
            match r {
                Ok(()) => {
                    &&& final(self)@ == (DriverState {
                        cts_ready: false,
                        system_error: old(self)@.cts_ready && old(self)@.system_error,
                        ..old(self)@
                    })
                    &&& written(final(self).bus_log()) == written(old(self).bus_log()).push(
                        fifo_reset_bytes(),
                    )
                    &&& sends_command(
                        old(self)@.cts_ready,
                        log_ext(final(self).bus_log(), old(self).bus_log()),
                        fifo_reset_bytes(),
                    )
                },
                Err(e) => {
                    &&& e == Error::ReadTimeout
                    &&& ends_with_exhausted_polls(final(self).bus_log())
                    &&& !old(self)@.cts_ready
                    &&& final(self)@ == (DriverState {
                        cts_ready: false,
                        system_error: true,
                        ..old(self)@
                    })
                    &&& written(final(self).bus_log()) == written(old(self).bus_log())
                    &&& failed_polls(
                        log_ext(final(self).bus_log(), old(self).bus_log()),
                        READY_POLL_LIMIT as int,
                    )
                },
            },
    {
        let mut buf: Vec<u8> = Vec::new();
        buf.push(crate::defs::CMD_FIFO_INFO);
        buf.push(crate::defs::FIFO_RESET_BOTH);
        proof {
            assert(buf@ =~= fifo_reset_bytes());
        }
        self.send_command(buf.as_slice())
    }

    /// Issue START_RX for `channel` with the given condition, packet length
    /// (big-endian on the wire) and next-state vector.
    fn start_rx(
        &mut self,
        channel: u8,
        condition: u8,
        length: u16,
        next1: u8,
        next2: u8,
        next3: u8,
    ) -> (r: Result<(), Error>)
        ensures
            log_grew(final(self).bus_log(), old(self).bus_log()),
            match r {
                Ok(()) => {
                    &&& final(self)@ == (DriverState {
                        cts_ready: false,
                        system_error: old(self)@.cts_ready && old(self)@.system_error,
                        ..old(self)@
                    })
                    &&& written(final(self).bus_log()) == written(old(self).bus_log()).push(
                        start_rx_bytes(channel, condition, length, next1, next2, next3),
                    )
                    &&& sends_command(
                        old(self)@.cts_ready,
                        log_ext(final(self).bus_log(), old(self).bus_log()),
                        start_rx_bytes(channel, condition, length, next1, next2, next3),
                    )
                },
                Err(e) => {
                    &&& e == Error::ReadTimeout
                    &&& ends_with_exhausted_polls(final(self).bus_log())
                    &&& !old(self)@.cts_ready
                    &&& final(self)@ == (DriverState {
                        cts_ready: false,
                        system_error: true,
                        ..old(self)@
                    })
                    &&& written(final(self).bus_log()) == written(old(self).bus_log())
                    &&& failed_polls(
                        log_ext(final(self).bus_log(), old(self).bus_log()),
                        READY_POLL_LIMIT as int,
                    )
                },
            },
    {
        let mut buf: Vec<u8> = Vec::new();
        buf.push(crate::defs::CMD_START_RX);
        buf.push(channel);
        buf.push(condition);
        buf.push((length / 256) as u8);
        buf.push((length % 256) as u8);
        buf.push(next1);
        buf.push(next2);
        buf.push(next3);
        proof {
            assert(buf@ =~= start_rx_bytes(channel, condition, length, next1, next2, next3));
        }
        self.send_command(buf.as_slice())
    }

    /// Issue START_TX for `channel` with the given condition byte and the
    /// packet length as two big-endian bytes.
    pub fn start_tx(&mut self, channel: u8, condition: u8, length: u16) -> (r: Result<(), Error>)
        ensures
            log_grew(final(self).bus_log(), old(self).bus_log()),
            match r {
                Ok(()) => {
                    &&& final(self)@ == (DriverState {
                        cts_ready: false,
                        system_error: old(self)@.cts_ready && old(self)@.system_error,
                        ..old(self)@
                    })
                    &&& written(final(self).bus_log()) == written(old(self).bus_log()).push(
                        start_tx_bytes(channel, condition, length),
                    )
                    &&& sends_command(
                        old(self)@.cts_ready,
                        log_ext(final(self).bus_log(), old(self).bus_log()),
                        start_tx_bytes(channel, condition, length),
                    )
                },
                Err(e) => {
                    &&& e == Error::ReadTimeout
                    &&& ends_with_exhausted_polls(final(self).bus_log())
                    &&& !old(self)@.cts_ready
                    &&& final(self)@ == (DriverState {
                        cts_ready: false,
                        system_error: true,
                        ..old(self)@
                    })
                    &&& written(final(self).bus_log()) == written(old(self).bus_log())
                    &&& failed_polls(
                        log_ext(final(self).bus_log(), old(self).bus_log()),
                        READY_POLL_LIMIT as int,
                    )
                },
            },
    {
        let mut buf: Vec<u8> = Vec::new();
        buf.push(crate::defs::CMD_START_TX);
        buf.push(channel);
        buf.push(condition);
        buf.push((length / 256) as u8);
        buf.push((length % 256) as u8);
        buf.push(0);
        proof {
            assert(buf@ =~= start_tx_bytes(channel, condition, length));
        }
        self.send_command(buf.as_slice())
    }

    /// Write `data` into the transmit FIFO, fire-and-forget: one transaction
    /// carrying the FIFO-write opcode and the payload, with no ready
    /// handshake and no reply.
    pub fn write_tx_fifo(&mut self, data: &[u8]) -> (r: Result<(), Error>)
        ensures
            log_grew(final(self).bus_log(), old(self).bus_log()),
            r is Ok,
            final(self)@ == (DriverState { cts_ready: false, ..old(self)@ }),
            written(final(self).bus_log()) == written(old(self).bus_log()).push(
                seq![CMD_WRITE_TX_FIFO] + data@,
            ),
            cmd_write(
                log_ext(final(self).bus_log(), old(self).bus_log()),
                seq![CMD_WRITE_TX_FIFO] + data@,
            ),
    {
        self.write_data(CMD_WRITE_TX_FIFO, data, false)
    }

    /// Write one oversized configuration record's payload through the
    /// FIFO-write opcode, waiting for the ready signal first.
    fn write_ez_config_array(&mut self, data: &[u8]) -> (r: Result<(), Error>)
        ensures
            log_grew(final(self).bus_log(), old(self).bus_log()),
            match r {
                Ok(()) => {
                    &&& final(self)@ == (DriverState {
                        cts_ready: false,
                        system_error: old(self)@.cts_ready && old(self)@.system_error,
                        ..old(self)@
                    })
                    &&& written(final(self).bus_log()) == written(old(self).bus_log()).push(
                        seq![CMD_WRITE_TX_FIFO] + data@,
                    )
                    &&& sends_command(
                        old(self)@.cts_ready,
                        log_ext(final(self).bus_log(), old(self).bus_log()),
                        seq![CMD_WRITE_TX_FIFO] + data@,
                    )
                },
                Err(e) => {
                    &&& e == Error::ReadTimeout
                    &&& ends_with_exhausted_polls(final(self).bus_log())
                    &&& !old(self)@.cts_ready
                    &&& final(self)@ == (DriverState {
                        cts_ready: false,
                        system_error: true,
                        ..old(self)@
                    })
                    &&& written(final(self).bus_log()) == written(old(self).bus_log())
                    &&& failed_polls(
                        log_ext(final(self).bus_log(), old(self).bus_log()),
                        READY_POLL_LIMIT as int,
                    )
                },
            },
    {
        self.write_data(CMD_WRITE_TX_FIFO, data, true)
    }

    /// Query the chip's reported state and current channel.
    pub fn request_device_state(&mut self) -> (r: Result<DeviceState, Error>)
        ensures
            log_grew(final(self).bus_log(), old(self).bus_log()),
            match r {
                Ok(ds) => {
                    &&& final(self)@ == (DriverState {
                        cts_ready: true,
                        system_error: false,
                        ..old(self)@
                    })
                    &&& written(final(self).bus_log()) == written(old(self).bus_log()).push(
                        seq![CMD_REQUEST_DEVICE_STATE],
                    )
                    &&& exists|rep: Seq<u8>|
                        rep.len() == 2 && #[trigger] exchanges_command(
                            old(self)@.cts_ready,
                            log_ext(final(self).bus_log(), old(self).bus_log()),
                            seq![CMD_REQUEST_DEVICE_STATE],
                            rep,
                        ) && ds == spec_device_state(rep)
                },
                Err(e) => {
                    &&& e == Error::ReadTimeout
                    &&& ends_with_exhausted_polls(final(self).bus_log())
                    &&& final(self)@ == (DriverState {
                        cts_ready: false,
                        system_error: true,
                        ..old(self)@
                    })
                    &&& (written(final(self).bus_log()) == written(old(self).bus_log()) || written(
                        final(self).bus_log(),
                    ) == written(old(self).bus_log()).push(seq![CMD_REQUEST_DEVICE_STATE]))
                },
            },
    {
        let mut buf: Vec<u8> = Vec::new();
        buf.push(CMD_REQUEST_DEVICE_STATE);
        proof {
            assert(buf@ =~= seq![CMD_REQUEST_DEVICE_STATE]);
        }
        match self.send_command_and_get_response(buf.as_slice(), 2) {
            Ok(reply) => {
                let ds = decode_device_state(&reply);
                Ok(ds)
            },
            Err(e) => Err(e),
        }
    }

    /// Read and decode the chip's basic part information.
    pub fn read_part_info(&mut self) -> (r: Result<PartInfo, Error>)
        ensures
            log_grew(final(self).bus_log(), old(self).bus_log()),
            match r {
                Ok(p) => {
                    &&& final(self)@ == (DriverState {
                        cts_ready: true,
                        system_error: false,
                        ..old(self)@
                    })
                    &&& written(final(self).bus_log()) == written(old(self).bus_log()).push(
                        seq![CMD_PART_INFO],
                    )
                    &&& exists|rep: Seq<u8>|
                        rep.len() == 9 && #[trigger] exchanges_command(
                            old(self)@.cts_ready,
                            log_ext(final(self).bus_log(), old(self).bus_log()),
                            seq![CMD_PART_INFO],
                            rep,
                        ) && p == spec_part_info(rep)
                },
                Err(e) => {
                    &&& e == Error::ReadTimeout
                    &&& ends_with_exhausted_polls(final(self).bus_log())
                    &&& final(self)@ == (DriverState {
                        cts_ready: false,
                        system_error: true,
                        ..old(self)@
                    })
                    &&& (written(final(self).bus_log()) == written(old(self).bus_log()) || written(
                        final(self).bus_log(),
                    ) == written(old(self).bus_log()).push(seq![CMD_PART_INFO]))
                },
            },
    {
        let mut buf: Vec<u8> = Vec::new();
        buf.push(CMD_PART_INFO);
        proof {
            assert(buf@ =~= seq![CMD_PART_INFO]);
        }
        match self.send_command_and_get_response(buf.as_slice(), 9) {
            Ok(reply) => {
                let p = decode_part_info(&reply);
                Ok(p)
            },
            Err(e) => Err(e),
        }
    }

    /// Read and decode the chip's function revision information.
    pub fn read_func_info(&mut self) -> (r: Result<FuncInfo, Error>)
        ensures
            log_grew(final(self).bus_log(), old(self).bus_log()),
            match r {
                Ok(f) => {
                    &&& final(self)@ == (DriverState {
                        cts_ready: true,
                        system_error: false,
                        ..old(self)@
                    })
                    &&& written(final(self).bus_log()) == written(old(self).bus_log()).push(
                        seq![CMD_FUNC_INFO],
                    )
                    &&& exists|rep: Seq<u8>|
                        rep.len() == 11 && #[trigger] exchanges_command(
                            old(self)@.cts_ready,
                            log_ext(final(self).bus_log(), old(self).bus_log()),
                            seq![CMD_FUNC_INFO],
                            rep,
                        ) && f == spec_func_info(rep)
                },
                Err(e) => {
                    &&& e == Error::ReadTimeout
                    &&& ends_with_exhausted_polls(final(self).bus_log())
                    &&& final(self)@ == (DriverState {
                        cts_ready: false,
                        system_error: true,
                        ..old(self)@
                    })
                    &&& (written(final(self).bus_log()) == written(old(self).bus_log()) || written(
                        final(self).bus_log(),
                    ) == written(old(self).bus_log()).push(seq![CMD_FUNC_INFO]))
                },
            },
    {
        let mut buf: Vec<u8> = Vec::new();
        buf.push(CMD_FUNC_INFO);
        proof {
            assert(buf@ =~= seq![CMD_FUNC_INFO]);
        }
        match self.send_command_and_get_response(buf.as_slice(), 11) {
            Ok(reply) => {
                let f = decode_func_info(&reply);
                Ok(f)
            },
            Err(e) => Err(e),
        }
    }

    /// Read the first fast-response register, with no ready handshake.
    pub fn read_frr_a(&mut self) -> (r: u8)
        ensures
            log_grew(final(self).bus_log(), old(self).bus_log()),
            written(final(self).bus_log()) == written(old(self).bus_log()),
            final(self)@ == (DriverState { cts_ready: false, ..old(self)@ }),
            read_frame(
                log_ext(final(self).bus_log(), old(self).bus_log()),
                CMD_FRR_A_READ,
                seq![r],
            ),
    {
        let data = self.read_data(CMD_FRR_A_READ, 1);
        let r = data[0];
        proof {
            assert(data@ =~= seq![r]);
        }
        r
    }

    /// Fetch and clear the whole interrupt status in one exchange, without
    /// decoding it into the sticky flags: the raw read used where only the
    /// clearing side effect or the raw bytes are wanted.
    fn clear_interrupts(&mut self) -> (r: Result<IntStatus, Error>)
        ensures
            log_grew(final(self).bus_log(), old(self).bus_log()),
            match r {
                Ok(st) => {
                    &&& final(self)@ == (DriverState {
                        cts_ready: true,
                        system_error: false,
                        ..old(self)@
                    })
                    &&& written(final(self).bus_log()) == written(old(self).bus_log()).push(
                        get_int_status_bytes(0, 0, 0),
                    )
                    &&& exists|rep: Seq<u8>|
                        rep.len() == 8 && #[trigger] exchanges_command(
                            old(self)@.cts_ready,
                            log_ext(final(self).bus_log(), old(self).bus_log()),
                            get_int_status_bytes(0, 0, 0),
                            rep,
                        ) && st == spec_int_status(rep)
                },
                Err(e) => {
                    &&& e == Error::ReadTimeout
                    &&& ends_with_exhausted_polls(final(self).bus_log())
                    &&& final(self)@ == (DriverState {
                        cts_ready: false,
                        system_error: true,
                        ..old(self)@
                    })
                    &&& (written(final(self).bus_log()) == written(old(self).bus_log()) || written(
                        final(self).bus_log(),
                    ) == written(old(self).bus_log()).push(get_int_status_bytes(0, 0, 0)))
                },
            },
    {
        let mut buf: Vec<u8> = Vec::new();
        buf.push(CMD_GET_INT_STATUS);
        buf.push(0);
        buf.push(0);
        buf.push(0);
        proof {
            assert(buf@ =~= get_int_status_bytes(0, 0, 0));
        }
        match self.send_command_and_get_response(buf.as_slice(), 8) {
            Ok(reply) => {
                let st = decode_int_status(&reply);
                Ok(st)
            },
            Err(e) => Err(e),
        }
    }

    /// The recovery policy, run right after every decode: a FIFO reset when
    /// a CRC error or FIFO fault was seen, then a listen restart at the last
    /// configured channel and packet length when a CRC error or command
    /// error is to be consumed; both sticky error flags are consumed exactly
    /// once. The data flags are left for the caller to drain.
    fn recover(&mut self, fifo_error: bool) -> (r: Result<(), Error>)
        requires
            old(self)@.cts_ready,
            !old(self)@.system_error,
        ensures
            log_grew(final(self).bus_log(), old(self).bus_log()),
            match r {
                Ok(()) => {
                    let reset = old(self)@.crc_error || fifo_error;
                    let restart = old(self)@.crc_error || old(self)@.command_error;
                    &&& written(final(self).bus_log()) == written(old(self).bus_log())
                        + recovery_writes(old(self)@, fifo_error)
                    &&& final(self)@ == (DriverState {
                        cts_ready: !(reset || restart),
                        system_error: false,
                        command_error: false,
                        crc_error: false,
                        ..old(self)@
                    })
                },
                Err(e) => {
                    &&& e == Error::ReadTimeout
                    &&& ends_with_exhausted_polls(final(self).bus_log())
                    &&& final(self)@.system_error
                    &&& !final(self)@.cts_ready
                    &&& final(self)@.channel == old(self)@.channel
                    &&& final(self)@.packet_length == old(self)@.packet_length
                    &&& final(self)@.data_transmitted == old(self)@.data_transmitted
                    &&& final(self)@.data_available == old(self)@.data_available
                    &&& final(self)@.tx_fifo_almost_empty == old(self)@.tx_fifo_almost_empty
                    &&& final(self)@.rx_fifo_almost_full == old(self)@.rx_fifo_almost_full
                    &&& writes_grew(written(final(self).bus_log()), written(old(self).bus_log()))
                    &&& writes_ext(
                        written(final(self).bus_log()),
                        written(old(self).bus_log()),
                    ).is_prefix_of(recovery_writes(old(self)@, fifo_error))
                },
            },
    {
        let ghost st0 = self@;
        let ghost log0 = self.bus.log();
        let reset = self.crc_error || fifo_error;
        let restart = self.crc_error || self.command_error;
        if reset {
            match self.reset_fifo() {
                Ok(()) => (),
                Err(e) => {
                    return Err(e);
                },
            }
        }
        if restart {
            self.crc_error = false;
            self.command_error = false;
            let ch = self.channel_number;
            let plen = self.packet_length;
            match self.clear_interrupts() {
                Ok(_) => (),
                Err(e) => {
                    proof {
                        assert(written(log0) =~= written(self.bus.log()).subrange(
                            0,
                            written(log0).len() as int,
                        ));
                        let ws = writes_ext(written(self.bus.log()), written(log0));
                        assert(ws =~= recovery_writes(st0, fifo_error).subrange(
                            0,
                            ws.len() as int,
                        ));
                    }
                    return Err(e);
                },
            }
            match self.start_rx(ch, 0, plen, STATE_RX, STATE_RX, STATE_RX) {
                Ok(()) => (),
                Err(e) => {
                    proof {
                        assert(written(log0) =~= written(self.bus.log()).subrange(
                            0,
                            written(log0).len() as int,
                        ));
                        let ws = writes_ext(written(self.bus.log()), written(log0));
                        assert(ws =~= recovery_writes(st0, fifo_error).subrange(
                            0,
                            ws.len() as int,
                        ));
                    }
                    return Err(e);
                },
            }
        }
        proof {
            if reset {
                if restart {
                    assert(written(self.bus.log()) =~= written(log0) + recovery_writes(
                        st0,
                        fifo_error,
                    ));
                } else {
                    assert(written(self.bus.log()) =~= written(log0) + recovery_writes(
                        st0,
                        fifo_error,
                    ));
                }
            } else {
                assert(written(self.bus.log()) =~= written(log0) + recovery_writes(
                    st0,
                    fifo_error,
                ));
            }
        }
        Ok(())
    }

    /// Issue GET_INT_STATUS with the three clear masks (all-zero clears
    /// everything in that phase), decode the pending bits into the sticky
    /// flags, and run the recovery policy. Reading clears what it reports:
    /// a flag must not be assumed to persist across an unrelated read.
    pub fn read_interrupt_status(&mut self, clear_ph: u8, clear_modem: u8, clear_chip: u8) -> (r:
        Result<IntStatus, Error>)
        ensures
            log_grew(final(self).bus_log(), old(self).bus_log()),
            match r {
                Ok(st) => {
                    let dec = decoded_flags(old(self)@, st.ph_pending, st.chip_pending);
                    let fifo_error = (st.chip_pending & INT_CHIP_FIFO_UNDERFLOW_OVERFLOW) != 0;
                    let reset = dec.crc_error || fifo_error;
                    let restart = dec.crc_error || dec.command_error;
                    &&& written(final(self).bus_log()) == written(old(self).bus_log()).push(
                        get_int_status_bytes(clear_ph, clear_modem, clear_chip),
                    ) + recovery_writes(dec, fifo_error)
                    &&& final(self)@ == (DriverState {
                        cts_ready: !(reset || restart),
                        system_error: false,
                        command_error: false,
                        crc_error: false,
                        ..dec
                    })
                    &&& exists|rep: Seq<u8>|
                        rep.len() == 8 && st == spec_int_status(rep)
                            && #[trigger] opens_with_exchange(
                            log_ext(final(self).bus_log(), old(self).bus_log()),
                            old(self)@.cts_ready,
                            get_int_status_bytes(clear_ph, clear_modem, clear_chip),
                            rep,
                        )
                },
                Err(e) => {
                    &&& e == Error::ReadTimeout
                    &&& ends_with_exhausted_polls(final(self).bus_log())
                    &&& final(self)@.system_error
                    &&& !final(self)@.cts_ready
                    &&& final(self)@.channel == old(self)@.channel
                    &&& final(self)@.packet_length == old(self)@.packet_length
                    &&& (old(self)@.data_transmitted ==> final(self)@.data_transmitted)
                    &&& (old(self)@.data_available ==> final(self)@.data_available)
                    &&& (old(self)@.tx_fifo_almost_empty ==> final(self)@.tx_fifo_almost_empty)
                    &&& (old(self)@.rx_fifo_almost_full ==> final(self)@.rx_fifo_almost_full)
                    &&& exists|ph: u8, chip: u8|
                        {
                            let dec = #[trigger] decoded_flags(old(self)@, ph, chip);
                            writes_ext(
                                written(final(self).bus_log()),
                                written(old(self).bus_log()),
                            ).is_prefix_of(
                                seq![get_int_status_bytes(clear_ph, clear_modem, clear_chip)]
                                    + recovery_writes(
                                    dec,
                                    (chip & INT_CHIP_FIFO_UNDERFLOW_OVERFLOW) != 0,
                                ),
                            )
                        }
                },
            },
    {
        let ghost log0 = self.bus.log();
        let ghost rdy0 = self@.cts_ready;
        let mut buf: Vec<u8> = Vec::new();
        buf.push(CMD_GET_INT_STATUS);
        buf.push(clear_ph);
        buf.push(clear_modem);
        buf.push(clear_chip);
        proof {
            assert(buf@ =~= get_int_status_bytes(clear_ph, clear_modem, clear_chip));
        }
        let reply = match self.send_command_and_get_response(buf.as_slice(), 8) {
            Ok(reply) => reply,
            Err(e) => {
                proof {
                    let ws = writes_ext(written(self.bus.log()), written(log0));
                    let full = seq![get_int_status_bytes(clear_ph, clear_modem, clear_chip)]
                        + recovery_writes(decoded_flags(old(self)@, 0, 0), false);
                    assert(ws =~= full.subrange(0, ws.len() as int));
                    assert(ws.is_prefix_of(full));
                }
                return Err(e);
            },
        };
        let ghost lfetch = self.bus.log();
        let st = decode_int_status(&reply);
        self.process_ph_interrupt_pending(st.ph_pending);
        self.process_modem_interrupt_pending(st.modem_pending);
        self.process_chip_interrupt_pending(st.chip_pending);
        let fifo_error = (st.chip_pending & INT_CHIP_FIFO_UNDERFLOW_OVERFLOW) != 0;
        match self.recover(fifo_error) {
            Ok(()) => (),
            Err(e) => {
                proof {
                    let ws = writes_ext(written(self.bus.log()), written(log0));
                    let git = seq![get_int_status_bytes(clear_ph, clear_modem, clear_chip)];
                    let rw = recovery_writes(
                        decoded_flags(old(self)@, st.ph_pending, st.chip_pending),
                        fifo_error,
                    );
                    let tail = writes_ext(written(self.bus.log()), written(lfetch));
                    lemma_prefix_extend(tail, rw, git);
                    assert(written(lfetch) == written(log0).push(
                        get_int_status_bytes(clear_ph, clear_modem, clear_chip),
                    ));
                    assert(written(lfetch) =~= written(self.bus.log()).subrange(
                        0,
                        written(lfetch).len() as int,
                    ));
                    assert(written(self.bus.log())[written(log0).len() as int]
                        == get_int_status_bytes(clear_ph, clear_modem, clear_chip)) by {
                        assert(written(lfetch) == written(self.bus.log()).subrange(
                            0,
                            written(lfetch).len() as int,
                        ));
                        assert(written(self.bus.log()).subrange(
                            0,
                            written(lfetch).len() as int,
                        )[written(log0).len() as int] == written(self.bus.log())[written(
                            log0,
                        ).len() as int]);
                    }
                    assert(ws =~= git + tail);
                    assert(ws.is_prefix_of(git + rw));
                }
                return Err(e);
            },
        }
        proof {
            assert(written(self.bus.log()) =~= written(old(self).bus_log()).push(
                get_int_status_bytes(clear_ph, clear_modem, clear_chip),
            ) + recovery_writes(
                decoded_flags(old(self)@, st.ph_pending, st.chip_pending),
                fifo_error,
            ));
            reveal(opens_with_exchange);
            let ext = log_ext(self.bus.log(), log0);
            let j = lfetch.len() - log0.len();
            let rep = choose|rep: Seq<u8>|
                rep.len() == 8 && #[trigger] exchanges_command(
                    rdy0,
                    log_ext(lfetch, log0),
                    get_int_status_bytes(clear_ph, clear_modem, clear_chip),
                    rep,
                ) && reply@ == rep;
            assert(ext.take(j as int) =~= log_ext(lfetch, log0));
            assert(exchanges_command(
                rdy0,
                ext.take(j as int),
                get_int_status_bytes(clear_ph, clear_modem, clear_chip),
                rep,
            ));
            assert(opens_with_exchange(
                ext,
                rdy0,
                get_int_status_bytes(clear_ph, clear_modem, clear_chip),
                rep,
            ));
            assert(st == spec_int_status(rep));
        }
        Ok(st)
    }
    /// Dispatch one complete command record of the configuration blob:
    /// send it, read its one-byte reply, and judge an EZCONFIG_CHECK
    /// record's reply.
    fn dispatch_command_record(&mut self, cmd: &[u8]) -> (r: Result<(), Error>)
        requires
            cmd@.len() > 0,
        ensures
            log_grew(final(self).bus_log(), old(self).bus_log()),
            match r {
                Ok(()) => {
                    &&& final(self)@ == (DriverState {
                        cts_ready: true,
                        system_error: false,
                        ..old(self)@
                    })
                    &&& written(final(self).bus_log()) == written(old(self).bus_log()).push(cmd@)
                },
                Err(e) => {
                    &&& (e matches Error::EzConfigCheckFailed(b) ==> {
                        &&& b != 0
                        &&& cmd@[0] == crate::defs::CMD_EZCONFIG_CHECK
                        &&& closes_with_exchange(final(self).bus_log(), cmd@, seq![b])
                        &&& final(self)@ == (DriverState {
                            cts_ready: true,
                            system_error: false,
                            ..old(self)@
                        })
                        &&& written(final(self).bus_log()) == written(old(self).bus_log()).push(
                            cmd@,
                        )
                    })
                    &&& (e == Error::ReadTimeout ==> {
                        &&& ends_with_exhausted_polls(final(self).bus_log())
                        &&& final(self)@ == (DriverState {
                            cts_ready: false,
                            system_error: true,
                            ..old(self)@
                        })
                        &&& (written(final(self).bus_log()) == written(old(self).bus_log())
                            || written(final(self).bus_log()) == written(
                            old(self).bus_log(),
                        ).push(cmd@))
                    })
                    &&& (e is EzConfigCheckFailed || e == Error::ReadTimeout)
                },
            },
    {
        let ghost lprev = self.bus.log();
        let ghost rdy = self@.cts_ready;
        let reply = match self.send_command_and_get_response(cmd, 1) {
            Ok(reply) => reply,
            Err(e) => {
                return Err(e);
            },
        };
        let opcode = *vstd::slice::slice_index_get(cmd, 0);
        match check_ez_reply(opcode, reply[0]) {
            Ok(()) => Ok(()),
            Err(e) => {
                proof {
                    reveal(closes_with_exchange);
                    assert(reply@ =~= seq![reply@[0]]);
                    assert(exchanges_command(
                        rdy,
                        self.bus.log().skip(lprev.len() as int),
                        cmd@,
                        reply@,
                    ));
                    assert(closes_with_exchange(self.bus.log(), cmd@, seq![reply@[0]]));
                }
                Err(e)
            },
        }
    }

    /// Sample the interrupt line after a record's dispatch; if it is
    /// asserted, read and clear the interrupt status and fail on the
    /// chip-command-error pending bit.
    fn check_interrupt_line(&mut self) -> (r: Result<(), Error>)
        ensures
            log_grew(final(self).bus_log(), old(self).bus_log()),
            match r {
                Ok(()) => (final(self)@ == old(self)@ && final(self).bus_log() == old(
                    self,
                ).bus_log()) || (final(self)@ == (DriverState {
                    cts_ready: true,
                    system_error: false,
                    ..old(self)@
                }) && written(final(self).bus_log()) == written(old(self).bus_log()).push(
                    get_int_status_bytes(0, 0, 0),
                )),
                Err(e) => {
                    &&& (e == Error::ChipCommandError ==> {
                        &&& (exists|rep: Seq<u8>|
                            rep.len() == 8 && (rep[6] & INT_CHIP_CMD_ERROR) != 0
                                && #[trigger] closes_with_exchange(
                                final(self).bus_log(),
                                get_int_status_bytes(0, 0, 0),
                                rep,
                            ))
                        &&& final(self)@ == (DriverState {
                            cts_ready: true,
                            system_error: false,
                            ..old(self)@
                        })
                        &&& written(final(self).bus_log()) == written(old(self).bus_log()).push(
                            get_int_status_bytes(0, 0, 0),
                        )
                    })
                    &&& (e == Error::ReadTimeout ==> {
                        &&& ends_with_exhausted_polls(final(self).bus_log())
                        &&& final(self)@ == (DriverState {
                            cts_ready: false,
                            system_error: true,
                            ..old(self)@
                        })
                        &&& (written(final(self).bus_log()) == written(old(self).bus_log())
                            || written(final(self).bus_log()) == written(
                            old(self).bus_log(),
                        ).push(get_int_status_bytes(0, 0, 0)))
                    })
                    &&& (e == Error::ChipCommandError || e == Error::ReadTimeout)
                },
            },
    {
        if !self.irq_asserted() {
            return Ok(());
        }
        let ghost lmid = self.bus.log();
        let ghost rdy = self@.cts_ready;
        let st = match self.clear_interrupts() {
            Ok(st) => st,
            Err(e) => {
                return Err(e);
            },
        };
        if chip_error_pending(st.chip_pending) {
            proof {
                reveal(closes_with_exchange);
                let rep = choose|rep: Seq<u8>|
                    rep.len() == 8 && #[trigger] exchanges_command(
                        rdy,
                        log_ext(self.bus.log(), lmid),
                        get_int_status_bytes(0, 0, 0),
                        rep,
                    ) && st == spec_int_status(rep);
                assert(exchanges_command(
                    rdy,
                    self.bus.log().skip(lmid.len() as int),
                    get_int_status_bytes(0, 0, 0),
                    rep,
                ));
                assert(closes_with_exchange(
                    self.bus.log(),
                    get_int_status_bytes(0, 0, 0),
                    rep,
                ));
                assert((rep[6] & INT_CHIP_CMD_ERROR) != 0);
            }
            return Err(Error::ChipCommandError);
        }
        Ok(())
    }

    /// Walk `config` as a stream of length-prefixed records and dispatch
    /// each strictly in order: a record of up to
    /// [`MAX_COMMAND_RECORD`] bytes as a complete command with a one-byte
    /// reply, an oversized record as a fire-and-forget FIFO load. A zero
    /// length byte ends the load successfully; a malformed record —
    /// truncated, oversized without the FIFO-write opcode, or implying a
    /// FIFO write beyond [`FIFO_DEPTH`] bytes — is fatal before any byte of
    /// that record is transmitted. After each record's dispatch a non-zero
    /// EZCONFIG_CHECK reply is fatal, and if the interrupt line is asserted
    /// the interrupt status is read, cleared, and checked for the
    /// chip-command-error bit, which is fatal too. The loader itself never
    /// retries; any failure aborts the whole load.
    #[verifier::rlimit(100)]
    #[verifier::spinoff_prover]
    #[verifier::loop_isolation(false)]
    fn load_records(&mut self, config: &[u8]) -> (r: Result<(), Error>)
        ensures
            log_grew(final(self).bus_log(), old(self).bus_log()),
            same_but_ready(final(self)@, old(self)@),
            writes_grew(written(final(self).bus_log()), written(old(self).bus_log())),
            match r {
                Ok(()) => {
                    &&& parse_config(config@, 0) is Done
                    &&& load_writes(
                        writes_ext(written(final(self).bus_log()), written(old(self).bus_log())),
                        acts_of(parse_config(config@, 0)),
                    )
                },
                Err(e) => {
                    &&& e != Error::Busy
                    &&& e == Error::ConfigFormatError ==> (parse_config(config@, 0) is Flawed
                        && load_writes(
                        writes_ext(written(final(self).bus_log()), written(old(self).bus_log())),
                        acts_of(parse_config(config@, 0)),
                    ))
                    &&& e != Error::ConfigFormatError ==> load_writes_prefix(
                        writes_ext(written(final(self).bus_log()), written(old(self).bus_log())),
                        acts_of(parse_config(config@, 0)),
                    )
                    &&& (e matches Error::EzConfigCheckFailed(b) ==> (b != 0 && exists|
                        cmd: Seq<u8>,
                    |
                        cmd.len() > 0 && cmd[0] == crate::defs::CMD_EZCONFIG_CHECK
                            && #[trigger] closes_with_exchange(final(self).bus_log(), cmd, seq![b])))
                    &&& e == Error::ChipCommandError ==> exists|rep: Seq<u8>|
                        rep.len() == 8 && (rep[6] & INT_CHIP_CMD_ERROR) != 0
                            && #[trigger] closes_with_exchange(
                            final(self).bus_log(),
                            get_int_status_bytes(0, 0, 0),
                            rep,
                        )
                    &&& e == Error::ReadTimeout ==> (final(self)@.system_error
                        && ends_with_exhausted_polls(final(self).bus_log()))
                },
            },
    {
        let ghost blob = config@;
        let ghost log0 = self.bus.log();
        let ghost w0 = written(log0);
        let ghost mut acts_done: Seq<ConfigAction> = Seq::empty();
        let mut idx: usize = 0;
        proof {
            assert(writes_ext(written(self.bus.log()), w0) =~= Seq::<Seq<u8>>::empty());
            assert(load_writes(writes_ext(written(self.bus.log()), w0), acts_done));
        }
        loop
            invariant
                idx <= config@.len(),
                log_grew(self.bus.log(), log0),
                same_but_ready(self@, old(self)@),
                writes_grew(written(self.bus.log()), w0),
                load_writes(writes_ext(written(self.bus.log()), w0), acts_done),
                (match parse_config(blob, idx as int) {
                    ConfigParse::Done { acts } => parse_config(blob, 0) == (ConfigParse::Done {
                        acts: acts_done + acts,
                    }),
                    ConfigParse::Flawed { acts } => parse_config(blob, 0) == (ConfigParse::Flawed {
                        acts: acts_done + acts,
                    }),
                }),
            decreases config@.len() - idx,
        {
            if idx >= config.len() {
                proof {
                    assert(acts_done + Seq::<ConfigAction>::empty() =~= acts_done);
                }
                return Err(Error::ConfigFormatError);
            }
            let l = *vstd::slice::slice_index_get(config, idx);
            if l == 0 {
                proof {
                    assert(acts_done + Seq::<ConfigAction>::empty() =~= acts_done);
                }
                return Ok(());
            }
            let lu = l as usize;
            let rem = config.len() - idx - 1;
            if lu > rem {
                proof {
                    assert(acts_done + Seq::<ConfigAction>::empty() =~= acts_done);
                }
                return Err(Error::ConfigFormatError);
            }
            let ghost idx2 = idx + 1 + lu;
            if lu > MAX_COMMAND_RECORD {
                let opcode = *vstd::slice::slice_index_get(config, idx + 1);
                if opcode != CMD_WRITE_TX_FIFO || lu > FIFO_DEPTH {
                    proof {
                        assert(acts_done + Seq::<ConfigAction>::empty() =~= acts_done);
                    }
                    return Err(Error::ConfigFormatError);
                }
                let ghost a = ConfigAction::FifoLoad {
                    data: blob.subrange(idx as int + 2, idx as int + 1 + lu as int),
                };
                proof {
                    match parse_config(blob, idx2 as int) {
                        ConfigParse::Done { acts } => {
                            lemma_push_concat(acts_done, a, acts);
                        },
                        ConfigParse::Flawed { acts } => {
                            lemma_push_concat(acts_done, a, acts);
                        },
                    }
                }
                let payload = vstd::slice::slice_subrange(config, idx + 2, idx + 1 + lu);
                let ghost wprev = written(self.bus.log());
                let ghost ext_prev = writes_ext(wprev, w0);
                match self.write_ez_config_array(payload) {
                    Ok(()) => (),
                    Err(e) => {
                        proof {
                            lemma_loader_prefix(
                                ext_prev,
                                acts_done,
                                acts_of(parse_config(blob, idx as int)),
                            );
                        }
                        return Err(e);
                    },
                }
                proof {
                    lemma_writes_step(wprev, w0, seq![CMD_WRITE_TX_FIFO] + payload@);
                    let ext = writes_ext(written(self.bus.log()), w0);
                    assert(seq![CMD_WRITE_TX_FIFO] + payload@ == action_writes(a));
                    assert(ext.drop_last() =~= ext_prev);
                    assert((acts_done.push(a)).drop_last() =~= acts_done);
                    assert(load_writes(ext, acts_done.push(a)));
                    acts_done = acts_done.push(a);
                }
            } else {
                let ghost a = ConfigAction::Cmd {
                    bytes: blob.subrange(idx as int + 1, idx as int + 1 + lu as int),
                };
                proof {
                    match parse_config(blob, idx2 as int) {
                        ConfigParse::Done { acts } => {
                            lemma_push_concat(acts_done, a, acts);
                        },
                        ConfigParse::Flawed { acts } => {
                            lemma_push_concat(acts_done, a, acts);
                        },
                    }
                }
                let cmd = vstd::slice::slice_subrange(config, idx + 1, idx + 1 + lu);
                let ghost wprev = written(self.bus.log());
                let ghost ext_prev = writes_ext(wprev, w0);
                match self.dispatch_command_record(cmd) {
                    Ok(()) => (),
                    Err(e) => {
                        proof {
                            match e {
                                Error::EzConfigCheckFailed(b) => {
                                    assert(exists|c: Seq<u8>|
                                        c.len() > 0 && c[0] == crate::defs::CMD_EZCONFIG_CHECK
                                            && #[trigger] closes_with_exchange(
                                            self.bus.log(),
                                            c,
                                            seq![b],
                                        ));
                                },
                                _ => {},
                            }
                            if written(self.bus.log()) == wprev {
                                lemma_loader_prefix(
                                    ext_prev,
                                    acts_done,
                                    acts_of(parse_config(blob, idx as int)),
                                );
                            } else {
                                lemma_writes_step(wprev, w0, cmd@);
                                let ext = writes_ext(written(self.bus.log()), w0);
                                assert(ext.drop_last() =~= ext_prev);
                                assert((acts_done.push(a)).drop_last() =~= acts_done);
                                assert(load_writes(ext, acts_done.push(a)));
                                lemma_loader_prefix(
                                    ext,
                                    acts_done.push(a),
                                    acts_of(parse_config(blob, idx2 as int)),
                                );
                            }
                        }
                        return Err(e);
                    },
                }
                proof {
                    lemma_writes_step(wprev, w0, cmd@);
                    let ext = writes_ext(written(self.bus.log()), w0);
                    assert(ext.drop_last() =~= ext_prev);
                    assert((acts_done.push(a)).drop_last() =~= acts_done);
                    assert(load_writes(ext, acts_done.push(a)));
                    acts_done = acts_done.push(a);
                }
            }
            let ghost wmid = written(self.bus.log());
            let ghost ext_mid = writes_ext(wmid, w0);
            match self.check_interrupt_line() {
                Ok(()) => {
                    proof {
                        if written(self.bus.log()) != wmid {
                            lemma_writes_step(wmid, w0, get_int_status_bytes(0, 0, 0));
                            let ext = writes_ext(written(self.bus.log()), w0);
                            assert(ext.take(ext.len() - 2) =~= ext_mid.drop_last());
                            assert(load_writes(ext, acts_done));
                        }
                    }
                },
                Err(e) => {
                    proof {
                        if written(self.bus.log()) == wmid {
                            lemma_loader_prefix(
                                ext_mid,
                                acts_done,
                                acts_of(parse_config(blob, idx2 as int)),
                            );
                        } else {
                            lemma_writes_step(wmid, w0, get_int_status_bytes(0, 0, 0));
                            let ext = writes_ext(written(self.bus.log()), w0);
                            assert(ext.take(ext.len() - 2) =~= ext_mid.drop_last());
                            assert(load_writes(ext, acts_done));
                            lemma_loader_prefix(
                                ext,
                                acts_done,
                                acts_of(parse_config(blob, idx2 as int)),
                            );
                        }
                    }
                    return Err(e);
                },
            }
            idx = idx + 1 + lu;
        }
    }

    /// Walk `config` as a stream of length-prefixed records and dispatch
    /// each strictly in order. A blob whose very first record is already
    /// malformed — truncated, oversized without the FIFO-write opcode, or
    /// implying a FIFO write beyond [`FIFO_DEPTH`] bytes — is rejected here,
    /// before anything at all reaches the bus, and a blob opening on the
    /// zero terminator succeeds at once; everything else is walked record
    /// by record.
    pub fn initialize(&mut self, config: &[u8]) -> (r: Result<(), Error>)
        ensures
            log_grew(final(self).bus_log(), old(self).bus_log()),
            same_but_ready(final(self)@, old(self)@),
            writes_grew(written(final(self).bus_log()), written(old(self).bus_log())),
            match r {
                Ok(()) => {
                    &&& parse_config(config@, 0) is Done
                    &&& load_writes(
                        writes_ext(written(final(self).bus_log()), written(old(self).bus_log())),
                        acts_of(parse_config(config@, 0)),
                    )
                },
                Err(e) => {
                    &&& e != Error::Busy
                    &&& e == Error::ConfigFormatError ==> (parse_config(config@, 0) is Flawed
                        && load_writes(
                        writes_ext(written(final(self).bus_log()), written(old(self).bus_log())),
                        acts_of(parse_config(config@, 0)),
                    ))
                    &&& e != Error::ConfigFormatError ==> load_writes_prefix(
                        writes_ext(written(final(self).bus_log()), written(old(self).bus_log())),
                        acts_of(parse_config(config@, 0)),
                    )
                    &&& (e matches Error::EzConfigCheckFailed(b) ==> (b != 0 && exists|
                        cmd: Seq<u8>,
                    |
                        cmd.len() > 0 && cmd[0] == crate::defs::CMD_EZCONFIG_CHECK
                            && #[trigger] closes_with_exchange(final(self).bus_log(), cmd, seq![b])))
                    &&& e == Error::ChipCommandError ==> exists|rep: Seq<u8>|
                        rep.len() == 8 && (rep[6] & INT_CHIP_CMD_ERROR) != 0
                            && #[trigger] closes_with_exchange(
                            final(self).bus_log(),
                            get_int_status_bytes(0, 0, 0),
                            rep,
                        )
                    &&& e == Error::ReadTimeout ==> (final(self)@.system_error
                        && ends_with_exhausted_polls(final(self).bus_log()))
                },
            },
            config@.len() > 0 && config@[0] == 0 ==> r == Ok::<(), Error>(()),
            flawed_at_start(config@) ==> (r == Err::<(), Error>(Error::ConfigFormatError)
                && final(self)@ == old(self)@ && final(self).bus_log() == old(self).bus_log()),
    {
        proof {
            assert(log_grew(self.bus.log(), self.bus.log())) by {
                assert(self.bus.log().subrange(0, self.bus.log().len() as int) =~= self.bus.log());
            }
            assert(writes_grew(written(self.bus.log()), written(self.bus.log()))) by {
                assert(written(self.bus.log()).subrange(
                    0,
                    written(self.bus.log()).len() as int,
                ) =~= written(self.bus.log()));
            }
            assert(writes_ext(written(self.bus.log()), written(self.bus.log()))
                =~= Seq::<Seq<u8>>::empty());
        }
        if config.len() == 0 {
            return Err(Error::ConfigFormatError);
        }
        let l0 = *vstd::slice::slice_index_get(config, 0);
        if l0 == 0 {
            return Ok(());
        }
        let lu0 = l0 as usize;
        if lu0 > config.len() - 1 {
            return Err(Error::ConfigFormatError);
        }
        if lu0 > MAX_COMMAND_RECORD {
            let op0 = *vstd::slice::slice_index_get(config, 1);
            if op0 != CMD_WRITE_TX_FIFO || lu0 > FIFO_DEPTH {
                return Err(Error::ConfigFormatError);
            }
        }
        proof {
            assert(!flawed_at_start(config@));
        }
        self.load_records(config)
    }

    /// Bring the radio up: remember `(channel, packet_length)` — a zero
    /// length keeps the previous one — then repeatedly power-up reset the
    /// chip and run the whole configuration load, bounded at
    /// [`LOAD_ATTEMPT_LIMIT`] attempts, each preceded by a fresh reset.
    /// After a successful load, read and clear all pending interrupts once.
    /// Exhausting the attempts is terminal: the device is left
    /// uninitialized, the last load error is returned, and the driver must
    /// not be used until a fresh bring-up succeeds.
    #[verifier::rlimit(100)]
    #[verifier::spinoff_prover]
    #[verifier::loop_isolation(false)]
    pub fn begin(&mut self, channel: u8, packet_length: u16, config: &[u8]) -> (r: Result<
        (),
        Error,
    >)
        ensures
            log_grew(final(self).bus_log(), old(self).bus_log()),
            final(self)@.channel == channel,
            packet_length > 0 ==> final(self)@.packet_length == packet_length,
            packet_length == 0 ==> final(self)@.packet_length == old(self)@.packet_length,
            r is Ok ==> (config_well_formed(config@) && !final(self)@.system_error),
            !config_well_formed(config@) ==> r is Err,
            r != Err::<(), Error>(Error::Busy),
            r == Err::<(), Error>(Error::ReadTimeout) ==> ends_with_exhausted_polls(
                final(self).bus_log(),
            ),
            r is Ok ==> exists|k: int, j: int, m: int, ph: u8, chip: u8|
                #![trigger failed_load_attempts(
                    writes_ext(written(final(self).bus_log()), written(old(self).bus_log())).take(
                        j,
                    ),
                    acts_of(parse_config(config@, 0)),
                    k,
                ), writes_ext(written(final(self).bus_log()), written(old(self).bus_log()))
                    .subrange(j, m), decoded_flags(
                    configured(old(self)@, channel, final(self)@.packet_length),
                    ph,
                    chip,
                )]
                {
                    let ws = writes_ext(
                        written(final(self).bus_log()),
                        written(old(self).bus_log()),
                    );
                    let acts = acts_of(parse_config(config@, 0));
                    let dec = decoded_flags(
                        configured(old(self)@, channel, final(self)@.packet_length),
                        ph,
                        chip,
                    );
                    &&& 0 <= k && k < LOAD_ATTEMPT_LIMIT as int
                    &&& 0 <= j && j <= m && m <= ws.len()
                    &&& failed_load_attempts(ws.take(j), acts, k)
                    &&& load_writes(ws.subrange(j, m), acts)
                    &&& ws.skip(m) == seq![get_int_status_bytes(0, 0, 0)] + recovery_writes(
                        dec,
                        (chip & INT_CHIP_FIFO_UNDERFLOW_OVERFLOW) != 0,
                    )
                },
    {
        self.channel_number = channel;
        self.system_error = false;
        if packet_length > 0 {
            self.packet_length = packet_length;
        }
        let ghost stb = self@;
        let ghost logb = self.bus.log();
        let ghost wsb = written(logb);
        let ghost acts = acts_of(parse_config(config@, 0));
        let mut attempt: usize = 0;
        proof {
            assert(writes_ext(written(self.bus.log()), wsb) =~= Seq::<Seq<u8>>::empty());
            assert(written(self.bus.log()).subrange(0, wsb.len() as int) =~= wsb);
        }
        loop
            invariant
                attempt < LOAD_ATTEMPT_LIMIT,
                self@.channel == channel,
                self@.packet_length == stb.packet_length,
                self@.crc_error == stb.crc_error,
                self@.command_error == stb.command_error,
                log_grew(self.bus.log(), logb),
                writes_grew(written(self.bus.log()), wsb),
                failed_load_attempts(writes_ext(written(self.bus.log()), wsb), acts, attempt as int),
            decreases LOAD_ATTEMPT_LIMIT - attempt,
        {
            self.power_up();
            let ghost wprev = written(self.bus.log());
            match self.initialize(config) {
                Ok(()) => {
                    let ghost jw = writes_ext(wprev, wsb).len();
                    let ghost wload = written(self.bus.log());
                    let ist = match self.read_interrupt_status(0, 0, 0) {
                        Ok(ist) => ist,
                        Err(e) => {
                            return Err(e);
                        },
                    };
                    proof {
                        let ws = writes_ext(written(self.bus.log()), wsb);
                        let mw = writes_ext(wload, wsb).len();
                        assert(ws.take(jw as int) =~= writes_ext(wprev, wsb));
                        assert(ws.subrange(jw as int, mw as int) =~= writes_ext(wload, wprev));
                        assert(ws.skip(mw as int) =~= writes_ext(written(self.bus.log()), wload));
                        assert(ws.skip(mw as int) =~= seq![get_int_status_bytes(0, 0, 0)]
                            + recovery_writes(
                            decoded_flags(
                                configured(old(self)@, channel, self@.packet_length),
                                ist.ph_pending,
                                ist.chip_pending,
                            ),
                            (ist.chip_pending & INT_CHIP_FIFO_UNDERFLOW_OVERFLOW) != 0,
                        ));
                        assert(failed_load_attempts(ws.take(jw as int), acts, attempt as int));
                        assert(load_writes(ws.subrange(jw as int, mw as int), acts));
                        assert(ws == writes_ext(
                            written(self.bus.log()),
                            written(old(self).bus_log()),
                        ));
                        assert(failed_load_attempts(
                            writes_ext(
                                written(self.bus.log()),
                                written(old(self).bus_log()),
                            ).take(jw as int),
                            acts_of(parse_config(config@, 0)),
                            attempt as int,
                        ));
                        assert(load_writes(
                            writes_ext(
                                written(self.bus.log()),
                                written(old(self).bus_log()),
                            ).subrange(jw as int, mw as int),
                            acts_of(parse_config(config@, 0)),
                        ));
                        let dtrig = decoded_flags(
                            configured(old(self)@, channel, self@.packet_length),
                            ist.ph_pending,
                            ist.chip_pending,
                        );
                        assert(ws.skip(mw as int) == seq![get_int_status_bytes(0, 0, 0)]
                            + recovery_writes(
                            dtrig,
                            (ist.chip_pending & INT_CHIP_FIFO_UNDERFLOW_OVERFLOW) != 0,
                        ));
                    }
                    return Ok(());
                },
                Err(e) => {
                    proof {
                        let prev = writes_ext(wprev, wsb);
                        let ext_i = writes_ext(written(self.bus.log()), wprev);
                        let ws = writes_ext(written(self.bus.log()), wsb);
                        if e == Error::ConfigFormatError {
                            assert(load_writes(ext_i, acts));
                            lemma_full_load_is_prefix(ext_i, acts);
                        }
                        assert(load_writes_prefix(ext_i, acts));
                        assert(written(self.bus.log()).subrange(0, wsb.len() as int) =~= wsb);
                        lemma_attempts_snoc(prev, ext_i, acts, attempt as int);
                        assert(ws =~= prev + ext_i);
                        assert(failed_load_attempts(ws, acts, attempt as int + 1));
                    }
                    if attempt + 1 >= LOAD_ATTEMPT_LIMIT {
                        return Err(e);
                    }
                    attempt = attempt + 1;
                },
            }
        }
    }

    /// Whether a packet has been sent since the flag was last acknowledged.
    pub fn data_transmitted_flag(&self) -> (r: bool)
        ensures
            r == self@.data_transmitted,
    {
        self.data_transmitted
    }

    /// Acknowledge the packet-sent flag.
    pub fn clear_data_transmitted(&mut self)
        ensures
            final(self)@ == (DriverState { data_transmitted: false, ..old(self)@ }),
            final(self).bus_log() == old(self).bus_log(),
    {
        self.data_transmitted = false;
    }

    /// Whether a packet has been received and not yet drained.
    pub fn data_available_flag(&self) -> (r: bool)
        ensures
            r == self@.data_available,
    {
        self.data_available
    }

    /// Acknowledge the packet-received flag after draining.
    pub fn clear_data_available(&mut self)
        ensures
            final(self)@ == (DriverState { data_available: false, ..old(self)@ }),
            final(self).bus_log() == old(self).bus_log(),
    {
        self.data_available = false;
    }

    /// Whether the transmit FIFO was reported almost empty.
    pub fn tx_fifo_almost_empty_flag(&self) -> (r: bool)
        ensures
            r == self@.tx_fifo_almost_empty,
    {
        self.tx_fifo_almost_empty
    }

    /// Whether the receive FIFO was reported almost full.
    pub fn rx_fifo_almost_full_flag(&self) -> (r: bool)
        ensures
            r == self@.rx_fifo_almost_full,
    {
        self.rx_fifo_almost_full
    }

    /// Whether a CRC error is pending consumption by recovery.
    pub fn crc_error_flag(&self) -> (r: bool)
        ensures
            r == self@.crc_error,
    {
        self.crc_error
    }

    /// Whether a chip command error is pending consumption by recovery.
    pub fn command_error_flag(&self) -> (r: bool)
        ensures
            r == self@.command_error,
    {
        self.command_error
    }

    /// Whether ready polling has been exhausted and the transport is
    /// considered wedged; a full reset is called for.
    pub fn system_error_flag(&self) -> (r: bool)
        ensures
            r == self@.system_error,
    {
        self.system_error
    }

    /// The channel configured by the last bring-up, used to re-arm
    /// listening after recovery.
    pub fn configured_channel(&self) -> (r: u8)
        ensures
            r == self@.channel,
    {
        self.channel_number
    }

    /// The packet length configured by the last bring-up, used to re-arm
    /// listening after recovery.
    pub fn configured_packet_length(&self) -> (r: u16)
        ensures
            r == self@.packet_length,
    {
        self.packet_length
    }

    /// Start receiving on `channel` for packets of `length` bytes: clear
    /// pending interrupts, then issue START_RX with the next-state vector
    /// all set to "remain in receive", so that the chip continuously
    /// re-arms for reception.
    pub fn start_listening(&mut self, channel: u8, length: u16) -> (r: Result<(), Error>)
        ensures
            log_grew(final(self).bus_log(), old(self).bus_log()),
            match r {
                Ok(()) => exists|ph: u8, chip: u8|
                    {
                        &&& written(final(self).bus_log()) == written(old(self).bus_log())
                            + #[trigger] listen_writes(old(self)@, ph, chip, channel, length)
                        &&& final(self)@ == (DriverState {
                            cts_ready: false,
                            system_error: false,
                            command_error: false,
                            crc_error: false,
                            ..decoded_flags(old(self)@, ph, chip)
                        })
                    },
                Err(e) => {
                    &&& e == Error::ReadTimeout
                    &&& ends_with_exhausted_polls(final(self).bus_log())
                    &&& final(self)@.system_error
                    &&& !final(self)@.cts_ready
                },
            },
    {
        let ghost log0 = self.bus.log();
        let ist = match self.read_interrupt_status(0, 0, 0) {
            Ok(ist) => ist,
            Err(e) => {
                return Err(e);
            },
        };
        match self.start_rx(channel, 0, length, STATE_RX, STATE_RX, STATE_RX) {
            Ok(()) => (),
            Err(e) => {
                return Err(e);
            },
        }
        proof {
            assert(written(self.bus.log()) =~= written(log0) + listen_writes(
                old(self)@,
                ist.ph_pending,
                ist.chip_pending,
                channel,
                length,
            ));
        }
        Ok(())
    }

    /// Transmit `packet` on `channel`: a no-op on an empty packet; else
    /// clear pending interrupts, wait (bounded at [`TX_STATE_POLL_LIMIT`]
    /// device-state polls) for the chip to leave the transmit states, write
    /// the packet to the FIFO and issue START_TX asking for a return to
    /// receive. Exhausting the bound yields [`Error::Busy`] with no FIFO
    /// write attempted.
    #[verifier::rlimit(50)]
    #[verifier::loop_isolation(false)]
    pub fn transmit(&mut self, channel: u8, packet: &[u8]) -> (r: Result<(), Error>)
        requires
            packet@.len() <= 0xFFFF,
        ensures
            log_grew(final(self).bus_log(), old(self).bus_log()),
            packet@.len() == 0 ==> r is Ok && final(self)@ == old(self)@ && final(self).bus_log()
                == old(self).bus_log(),
            (r is Ok && packet@.len() > 0) ==> saw_chip_leave_tx(
                log_ext(final(self).bus_log(), old(self).bus_log()),
            ),
            match r {
                Ok(()) => packet@.len() == 0 || exists|ph: u8, chip: u8, j: int|
                    {
                        &&& 1 <= j <= TX_STATE_POLL_LIMIT as int
                        &&& written(final(self).bus_log()) == written(old(self).bus_log())
                            + #[trigger] transmit_poll_prefix(old(self)@, ph, chip)
                            + #[trigger] state_poll_writes(j) + seq![
                            seq![CMD_WRITE_TX_FIFO] + packet@,
                            start_tx_bytes(
                                channel,
                                START_TX_RETURN_TO_RX,
                                packet@.len() as u16,
                            ),
                        ]
                        &&& final(self)@ == (DriverState {
                            cts_ready: false,
                            system_error: false,
                            command_error: false,
                            crc_error: false,
                            ..decoded_flags(old(self)@, ph, chip)
                        })
                    },
                Err(e) => {
                    &&& (e == Error::Busy || e == Error::ReadTimeout)
                    &&& e == Error::Busy ==> (packet@.len() > 0 && exists|ph: u8, chip: u8|
                        {
                            &&& written(final(self).bus_log()) == written(old(self).bus_log())
                                + #[trigger] transmit_poll_prefix(old(self)@, ph, chip)
                                + state_poll_writes(TX_STATE_POLL_LIMIT as int)
                            &&& final(self)@ == (DriverState {
                                cts_ready: true,
                                system_error: false,
                                command_error: false,
                                crc_error: false,
                                ..decoded_flags(old(self)@, ph, chip)
                            })
                        })
                    &&& e == Error::ReadTimeout ==> (final(self)@.system_error
                        && !final(self)@.cts_ready && ends_with_exhausted_polls(
                        final(self).bus_log(),
                    ))
                },
            },
    {
        if packet.len() == 0 {
            return Ok(());
        }
        let ghost log0 = self.bus.log();
        let ist = match self.read_interrupt_status(0, 0, 0) {
            Ok(ist) => ist,
            Err(e) => {
                return Err(e);
            },
        };
        let ghost st1 = self@;
        let ghost w1 = written(self.bus.log());
        proof {
            assert(w1 =~= written(log0) + transmit_poll_prefix(
                old(self)@,
                ist.ph_pending,
                ist.chip_pending,
            ));
        }
        let mut k: usize = 0;
        let mut left = false;
        while k < TX_STATE_POLL_LIMIT && !left
            invariant
                k <= TX_STATE_POLL_LIMIT,
                same_but_ready(self@, st1),
                !self@.system_error,
                left ==> self@.cts_ready,
                left ==> k < TX_STATE_POLL_LIMIT,
                left ==> saw_chip_leave_tx(log_ext(self.bus.log(), log0)),
                k > 0 ==> self@.cts_ready,
                log_grew(self.bus.log(), log0),
                written(self.bus.log()) == w1 + state_poll_writes(
                    k as int + (if left {
                        1int
                    } else {
                        0
                    }),
                ),
            decreases TX_STATE_POLL_LIMIT - k, (if left {
                0int
            } else {
                1
            }),
        {
            let ghost wk = written(self.bus.log());
            let ghost lds0 = self.bus.log();
            let ghost rdyk = self@.cts_ready;
            let ds = match self.request_device_state() {
                Ok(ds) => ds,
                Err(e) => {
                    return Err(e);
                },
            };
            proof {
                assert(wk.push(seq![CMD_REQUEST_DEVICE_STATE]) =~= w1 + state_poll_writes(
                    k as int + 1,
                ));
            }
            if ds.state != STATE_TX && ds.state != STATE_TX_TUNE {
                left = true;
                proof {
                    reveal(closes_with_exchange);
                    let rep = choose|rep: Seq<u8>|
                        rep.len() == 2 && #[trigger] exchanges_command(
                            rdyk,
                            log_ext(self.bus.log(), lds0),
                            seq![CMD_REQUEST_DEVICE_STATE],
                            rep,
                        ) && ds == spec_device_state(rep);
                    let ev = log_ext(self.bus.log(), log0);
                    let j = self.bus.log().len() - log0.len();
                    assert(ev.take(j as int) =~= ev);
                    assert(ev.take(j as int).skip(lds0.len() - log0.len()) =~= log_ext(
                        self.bus.log(),
                        lds0,
                    ));
                    assert(exchanges_command(
                        rdyk,
                        ev.take(j as int).skip(lds0.len() - log0.len()),
                        seq![CMD_REQUEST_DEVICE_STATE],
                        rep,
                    ));
                    assert(closes_with_exchange(
                        ev.take(j as int),
                        seq![CMD_REQUEST_DEVICE_STATE],
                        rep,
                    ));
                    assert(saw_chip_leave_tx(ev));
                }
            } else {
                k = k + 1;
            }
        }
        if !left {
            proof {
                assert(written(self.bus.log()) =~= written(old(self).bus_log())
                    + transmit_poll_prefix(old(self)@, ist.ph_pending, ist.chip_pending)
                    + state_poll_writes(TX_STATE_POLL_LIMIT as int));
                assert(self@ == (DriverState {
                    cts_ready: true,
                    system_error: false,
                    command_error: false,
                    crc_error: false,
                    ..decoded_flags(old(self)@, ist.ph_pending, ist.chip_pending)
                }));
            }
            return Err(Error::Busy);
        }
        let ghost lloop = self.bus.log();
        match self.write_tx_fifo(packet) {
            Ok(()) => (),
            Err(e) => {
                return Err(e);
            },
        }
        match self.start_tx(channel, START_TX_RETURN_TO_RX, packet.len() as u16) {
            Ok(()) => (),
            Err(e) => {
                return Err(e);
            },
        }
        proof {
            lemma_grew_trans(self.bus.log(), lloop, log0);
            let ev1 = log_ext(lloop, log0);
            let ev2 = log_ext(self.bus.log(), log0);
            let (j, rep) = choose|j: int, rep: Seq<u8>|
                {
                    &&& 0 <= j <= ev1.len()
                    &&& rep.len() == 2
                    &&& spec_device_state(rep).state != STATE_TX
                    &&& spec_device_state(rep).state != STATE_TX_TUNE
                    &&& #[trigger] closes_with_exchange(
                        ev1.take(j),
                        seq![CMD_REQUEST_DEVICE_STATE],
                        rep,
                    )
                };
            assert(ev2.take(j) =~= ev1.take(j));
            assert(closes_with_exchange(ev2.take(j), seq![CMD_REQUEST_DEVICE_STATE], rep));
            assert(saw_chip_leave_tx(ev2));
        }
        proof {
            assert(written(self.bus.log()) =~= written(old(self).bus_log())
                + transmit_poll_prefix(old(self)@, ist.ph_pending, ist.chip_pending)
                + state_poll_writes(k as int + 1) + seq![
                seq![CMD_WRITE_TX_FIFO] + packet@,
                start_tx_bytes(channel, START_TX_RETURN_TO_RX, packet@.len() as u16),
            ]);
            assert(1 <= (k as int + 1) <= TX_STATE_POLL_LIMIT as int);
            assert(self@ == (DriverState {
                cts_ready: false,
                system_error: false,
                command_error: false,
                crc_error: false,
                ..decoded_flags(old(self)@, ist.ph_pending, ist.chip_pending)
            }));
        }
        Ok(())
    }
}

} // verus!
