//! A scripted, in-memory implementation of [`RadioBus`]: a small model of the
//! chip on the far end of the bus, used to exercise the driver without
//! hardware.
//!
//! The model answers the second byte of every transaction (the ready-poll
//! position) from a script of ready bytes, and every later byte (the reply
//! positions) from a script of reply bytes; an exhausted script falls back to
//! a default byte. Alongside the ghost log it keeps executable recordings
//! (write payloads, poll and select counts) that a harness can inspect.

use vstd::prelude::*;

use crate::bus::{BusEvent, RadioBus};

verus! {

/// A scripted bus whose far end behaves like a chip with programmable
/// ready-signal and reply behaviour.
pub struct SimBus {
    /// Scripted answers to the ready polls, consumed in order.
    pub cts_script: Vec<u8>,
    /// How many scripted ready bytes were consumed.
    pub cts_pos: usize,
    /// The ready byte answered once the script is exhausted.
    pub cts_default: u8,
    /// Scripted reply bytes, consumed in order.
    pub reply_script: Vec<u8>,
    /// How many scripted reply bytes were consumed.
    pub reply_pos: usize,
    /// The reply byte answered once the script is exhausted.
    pub reply_default: u8,
    /// The level of the interrupt line.
    pub irq: bool,
    /// How many bytes were exchanged in the open transaction.
    pub txn_pos: usize,
    /// The payload of every write-only send, in order.
    pub writes: Vec<Vec<u8>>,
    /// How many ready-poll bytes the driver has read.
    pub polls: u64,
    /// How many times the select line was asserted.
    pub selects: u64,
    /// How many times the shutdown line changed level.
    pub shutdown_edges: u64,
    /// The ghost history backing [`RadioBus::log`].
    pub history: Ghost<Seq<BusEvent>>,
}

impl SimBus {
    /// A fresh bus: every ready poll answers `cts_default`, every reply byte
    /// is `reply_default`, until scripts are pushed.
    pub fn new(cts_default: u8, reply_default: u8) -> (r: SimBus)
        ensures
            r.log() == Seq::<BusEvent>::empty(),
            r.writes@.len() == 0,
            r.polls == 0,
            r.selects == 0,
            r.shutdown_edges == 0,
    {
        SimBus {
            cts_script: Vec::new(),
            cts_pos: 0,
            cts_default,
            reply_script: Vec::new(),
            reply_pos: 0,
            reply_default,
            irq: false,
            txn_pos: 0,
            writes: Vec::new(),
            polls: 0,
            selects: 0,
            shutdown_edges: 0,
            history: Ghost(Seq::empty()),
        }
    }

    /// Queue the answer to the next unanswered ready poll.
    pub fn push_cts(&mut self, b: u8)
        ensures
            final(self).cts_script@ == old(self).cts_script@.push(b),
            final(self).reply_script@ == old(self).reply_script@,
            final(self).writes@ == old(self).writes@,
            final(self).log() == old(self).log(),
    {
        self.cts_script.push(b);
    }

    /// Queue the next unread reply byte.
    pub fn push_reply(&mut self, b: u8)
        ensures
            final(self).reply_script@ == old(self).reply_script@.push(b),
            final(self).cts_script@ == old(self).cts_script@,
            final(self).writes@ == old(self).writes@,
            final(self).log() == old(self).log(),
    {
        self.reply_script.push(b);
    }

    /// Set the level of the interrupt line.
    pub fn set_irq(&mut self, on: bool)
        ensures
            final(self).irq == on,
            final(self).log() == old(self).log(),
            final(self).writes@ == old(self).writes@,
    {
        self.irq = on;
    }

    fn next_cts(&mut self) -> (r: u8)
        ensures
            final(self).log() == old(self).log(),
            final(self).writes == old(self).writes,
    {
        if self.cts_pos < self.cts_script.len() {
            let b = self.cts_script[self.cts_pos];
            self.cts_pos = self.cts_pos + 1;
            b
        } else {
            self.cts_default
        }
    }

    fn next_reply(&mut self) -> (r: u8)
        ensures
            final(self).log() == old(self).log(),
            final(self).writes == old(self).writes,
    {
        if self.reply_pos < self.reply_script.len() {
            let b = self.reply_script[self.reply_pos];
            self.reply_pos = self.reply_pos + 1;
            b
        } else {
            self.reply_default
        }
    }
}

impl RadioBus for SimBus {
    open spec fn log(&self) -> Seq<BusEvent> {
        self.history@
    }

    fn select(&mut self) {
        self.txn_pos = 0;
        if self.selects != u64::MAX {
            self.selects = self.selects + 1;
        }
        self.history = Ghost(self.history@.push(BusEvent::Select));
    }

    fn deselect(&mut self) {
        self.txn_pos = 0;
        self.history = Ghost(self.history@.push(BusEvent::Deselect));
    }

    fn transfer_byte(&mut self, out: u8) -> (inp: u8) {
        let inp: u8 = if self.txn_pos == 1 {
            if self.polls != u64::MAX {
                self.polls = self.polls + 1;
            }
            self.next_cts()
        } else if self.txn_pos >= 2 {
            self.next_reply()
        } else {
            0x00
        };
        if self.txn_pos != usize::MAX {
            self.txn_pos = self.txn_pos + 1;
        }
        self.history = Ghost(self.history@.push(BusEvent::Xfer { out, inp }));
        inp
    }

    fn write_bytes(&mut self, data: &[u8]) {
        let copy = vstd::slice::slice_to_vec(data);
        self.writes.push(copy);
        self.history = Ghost(self.history@.push(BusEvent::Write { data: data@ }));
    }

    fn set_shutdown(&mut self, on: bool) {
        if self.shutdown_edges != u64::MAX {
            self.shutdown_edges = self.shutdown_edges + 1;
        }
        self.history = Ghost(self.history@.push(BusEvent::Shutdown { on }));
    }

    fn irq_is_asserted(&mut self) -> (r: bool) {
        self.irq
    }

    fn delay_ms(&mut self, _ms: u32) {
    }

    fn delay_short(&mut self) {
    }
}

} // verus!
