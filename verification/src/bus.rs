//! The collaborator interface of the driver: a synchronous serial bus master
//! with a select line, a shutdown line, an interrupt line and a delay source.
//!
//! Every interaction with the hardware is recorded in a ghost log of
//! [`BusEvent`]s, so that the driver's contracts can pin down exactly which
//! bytes leave the driver, framed by which select/deselect brackets.

use vstd::prelude::*;

verus! {

/// One observable interaction with the hardware.
///
/// `Xfer` is a full-duplex byte exchange: `out` is driven onto the bus while
/// `inp` is captured from it. `Write` is the write-only variant used for
/// command and payload sends, whose incoming bytes are discarded.
pub enum BusEvent {
    /// The select line was asserted, opening a transaction.
    Select,
    /// The select line was released, closing a transaction
    /// (followed by the mandatory settle delay).
    Deselect,
    /// One full-duplex byte exchange.
    Xfer { out: u8, inp: u8 },
    /// A write-only send of a byte string.
    Write { data: Seq<u8> },
    /// The shutdown line was driven high (`on == true`) or low.
    Shutdown { on: bool },
}

/// The hardware collaborators, as one trait: byte exchange and write-only
/// send on the serial bus, the select and shutdown output pins, a level read
/// of the interrupt line, and millisecond / short-settle delays. The bus
/// runs 8-bit transfers in the mode the chip expects — clock idle low, data
/// captured on the first clock transition — framed by the select line held
/// low for the transaction.
///
/// Implementations append to the ghost `log` exactly the event describing
/// each call; the driver's contracts are stated over that log.
pub trait RadioBus: Sized {
    /// The history of hardware interactions so far.
    spec fn log(&self) -> Seq<BusEvent>;

    /// Assert the select line, opening a bus transaction.
    fn select(&mut self)
        ensures
            final(self).log() == old(self).log().push(BusEvent::Select),
    ;

    /// Release the select line, closing the transaction, and let the
    /// mandatory settle delay pass.
    fn deselect(&mut self)
        ensures
            final(self).log() == old(self).log().push(BusEvent::Deselect),
    ;

    /// Exchange one byte: drive `out` onto the bus, return the byte read back.
    fn transfer_byte(&mut self, out: u8) -> (inp: u8)
        ensures
            final(self).log() == old(self).log().push(BusEvent::Xfer { out, inp }),
    ;

    /// Write `data` onto the bus, discarding whatever comes back.
    fn write_bytes(&mut self, data: &[u8])
        ensures
            final(self).log() == old(self).log().push(BusEvent::Write { data: data@ }),
    ;

    /// Drive the shutdown line high (`on == true`) or low.
    fn set_shutdown(&mut self, on: bool)
        ensures
            final(self).log() == old(self).log().push(BusEvent::Shutdown { on }),
    ;

    /// Sample the interrupt line as a level: `true` when asserted.
    fn irq_is_asserted(&mut self) -> (r: bool)
        ensures
            final(self).log() == old(self).log(),
    ;

    /// Wait for about `ms` milliseconds.
    fn delay_ms(&mut self, ms: u32)
        ensures
            final(self).log() == old(self).log(),
    ;

    /// Wait for the short fixed-cycle settle time used as poll backoff.
    fn delay_short(&mut self)
        ensures
            final(self).log() == old(self).log(),
    ;
}

/// The byte strings sent by write-only transfers, in order: the projection of
/// the log that the command-level contracts are stated over.
pub open spec fn written(log: Seq<BusEvent>) -> Seq<Seq<u8>>
    decreases log.len(),
{
    if log.len() == 0 {
        Seq::empty()
    } else {
        written(log.drop_last()) + (match log.last() {
            BusEvent::Write { data } => seq![data],
            _ => Seq::<Seq<u8>>::empty(),
        })
    }
}

/// `old_` is what the log was; `new` is what it has become. The events the
/// call appended are `new.skip(old_.len())`.
pub open spec fn log_grew(new: Seq<BusEvent>, old_: Seq<BusEvent>) -> bool {
    old_.is_prefix_of(new)
}

/// The events appended since the log was `old_`.
pub open spec fn log_ext(new: Seq<BusEvent>, old_: Seq<BusEvent>) -> Seq<BusEvent> {
    new.skip(old_.len() as int)
}

/// `old_` is what the write stream was; `new` is what it has become.
pub open spec fn writes_grew(new: Seq<Seq<u8>>, old_: Seq<Seq<u8>>) -> bool {
    old_.is_prefix_of(new)
}

/// The writes appended since the write stream was `old_`.
pub open spec fn writes_ext(new: Seq<Seq<u8>>, old_: Seq<Seq<u8>>) -> Seq<Seq<u8>> {
    new.skip(old_.len() as int)
}

/// Prepending the same writes to a prefix keeps it a prefix.
pub proof fn lemma_prefix_extend(a: Seq<Seq<u8>>, b: Seq<Seq<u8>>, c: Seq<Seq<u8>>)
    requires
        a.is_prefix_of(b),
    ensures
        (c + a).is_prefix_of(c + b),
{
    assert(c + a =~= (c + b).subrange(0, (c + a).len() as int));
}

/// Appending one write to a stream that extends `w0` keeps it an extension
/// and appends the write to the extension.
pub proof fn lemma_writes_step(prev: Seq<Seq<u8>>, w0: Seq<Seq<u8>>, x: Seq<u8>)
    requires
        writes_grew(prev, w0),
    ensures
        writes_grew(prev.push(x), w0),
        writes_ext(prev.push(x), w0) == writes_ext(prev, w0).push(x),
{
    assert(prev.push(x).subrange(0, w0.len() as int) =~= w0);
    assert(writes_ext(prev.push(x), w0) =~= writes_ext(prev, w0).push(x));
}

/// Growth of the log is transitive, and the appended events compose.
pub proof fn lemma_grew_trans(c: Seq<BusEvent>, b: Seq<BusEvent>, a: Seq<BusEvent>)
    requires
        log_grew(c, b),
        log_grew(b, a),
    ensures
        log_grew(c, a),
        log_ext(c, a) == log_ext(b, a) + log_ext(c, b),
{
    assert(c.subrange(0, a.len() as int) =~= a);
    assert(log_ext(c, a) =~= log_ext(b, a) + log_ext(c, b));
}

/// Appending one event grows the log by exactly that event.
pub proof fn lemma_grew_push(log: Seq<BusEvent>, e: BusEvent)
    ensures
        log_grew(log.push(e), log),
        log_ext(log.push(e), log) == seq![e],
{
    assert(log.push(e).subrange(0, log.len() as int) =~= log);
    assert(log_ext(log.push(e), log) =~= seq![e]);
}

/// Skipping a prefix commutes with appending one event.
pub proof fn lemma_skip_push(log: Seq<BusEvent>, e: BusEvent, n: int)
    requires
        0 <= n <= log.len(),
    ensures
        log.push(e).skip(n) == log.skip(n).push(e),
{
    assert(log.push(e).skip(n) =~= log.skip(n).push(e));
}

/// Appending one event appends that event's writes (if any) to `written`.
pub proof fn lemma_written_push(log: Seq<BusEvent>, e: BusEvent)
    ensures
        written(log.push(e)) == written(log) + (match e {
            BusEvent::Write { data } => seq![data],
            _ => Seq::<Seq<u8>>::empty(),
        }),
{
    assert(log.push(e).drop_last() =~= log);
}

/// Appending a non-write event leaves `written` unchanged.
pub proof fn lemma_written_push_other(log: Seq<BusEvent>, e: BusEvent)
    requires
        !(e is Write),
    ensures
        written(log.push(e)) == written(log),
{
    lemma_written_push(log, e);
    assert(written(log) + Seq::<Seq<u8>>::empty() =~= written(log));
}

/// Appending a write event pushes its payload onto `written`.
pub proof fn lemma_written_push_write(log: Seq<BusEvent>, data: Seq<u8>)
    ensures
        written(log.push(BusEvent::Write { data })) == written(log).push(data),
{
    lemma_written_push(log, BusEvent::Write { data });
    assert(written(log) + seq![data] =~= written(log).push(data));
}

} // verus!
