//! The shape of a configuration blob: a stream of length-prefixed command
//! records, terminated by a zero length byte. A record longer than
//! [`MAX_COMMAND_RECORD`] bytes is permitted only as a FIFO load — its first
//! byte must be the FIFO-write opcode and its length may not exceed the
//! chip's FIFO depth — and is dispatched fire-and-forget; anything else
//! oversized, and any truncated record, is malformed.

use vstd::prelude::*;

use crate::defs::{CMD_EZCONFIG_CHECK, CMD_WRITE_TX_FIFO, INT_CHIP_CMD_ERROR};
use crate::radio::Error;

verus! {

/// The longest record dispatched as a complete command; longer records are
/// FIFO loads.
pub const MAX_COMMAND_RECORD: usize = 16;

/// Depth of the chip's FIFO: no record may imply a longer FIFO write.
pub const FIFO_DEPTH: usize = 128;

/// One dispatchable record of a configuration blob.
pub enum ConfigAction {
    /// A complete command, opcode and arguments, dispatched with a one-byte
    /// reply.
    Cmd { bytes: Seq<u8> },
    /// The payload of an oversized FIFO-load record, written behind the
    /// FIFO-write opcode with no reply expected.
    FifoLoad { data: Seq<u8> },
}

/// The outcome of framing a blob from some offset: either every record
/// chains to a zero terminator, or a malformed record is hit; `acts` are the
/// well-formed records seen up to the terminator or the flaw.
pub enum ConfigParse {
    /// The stream reaches a zero length byte; `acts` are all its records.
    Done { acts: Seq<ConfigAction> },
    /// A malformed record follows the records in `acts`: one truncated, or
    /// oversized without the FIFO-write opcode, or longer than the FIFO
    /// depth — or the blob ran out without a terminator.
    Flawed { acts: Seq<ConfigAction> },
}

/// The records of `p`, up to the terminator or the flaw.
pub open spec fn acts_of(p: ConfigParse) -> Seq<ConfigAction> {
    match p {
        ConfigParse::Done { acts } => acts,
        ConfigParse::Flawed { acts } => acts,
    }
}

/// Frame `blob` from offset `i`. Each record consumes its length byte `l`
/// and then exactly `l` more bytes; a zero length byte terminates the
/// stream. The framing neither skips nor re-reads a byte: the next record
/// starts exactly where the previous one ended.
pub open spec fn parse_config(blob: Seq<u8>, i: int) -> ConfigParse
    decreases blob.len() - i,
{
    if i < 0 || i >= blob.len() {
        ConfigParse::Flawed { acts: Seq::empty() }
    } else if blob[i] == 0 {
        ConfigParse::Done { acts: Seq::empty() }
    } else {
        let l = blob[i] as int;
        if i + 1 + l > blob.len() {
            ConfigParse::Flawed { acts: Seq::empty() }
        } else if l > MAX_COMMAND_RECORD as int && (blob[i + 1] != CMD_WRITE_TX_FIFO || l
            > FIFO_DEPTH as int) {
            ConfigParse::Flawed { acts: Seq::empty() }
        } else {
            let a = if l <= MAX_COMMAND_RECORD as int {
                ConfigAction::Cmd { bytes: blob.subrange(i + 1, i + 1 + l) }
            } else {
                ConfigAction::FifoLoad { data: blob.subrange(i + 2, i + 1 + l) }
            };
            match parse_config(blob, i + 1 + l) {
                ConfigParse::Done { acts } => ConfigParse::Done { acts: seq![a] + acts },
                ConfigParse::Flawed { acts } => ConfigParse::Flawed { acts: seq![a] + acts },
            }
        }
    }
}

/// Whether the whole blob frames cleanly to a terminator.
pub open spec fn config_well_formed(blob: Seq<u8>) -> bool {
    parse_config(blob, 0) is Done
}

/// Whether the very first record of the blob is already malformed (or the
/// blob is empty): the loader then owes [`Error::ConfigFormatError`] before
/// anything at all reaches the bus.
pub open spec fn flawed_at_start(blob: Seq<u8>) -> bool {
    match parse_config(blob, 0) {
        ConfigParse::Done { acts } => false,
        ConfigParse::Flawed { acts } => acts.len() == 0,
    }
}

/// The command bytes that dispatching one record puts on the bus.
pub open spec fn action_writes(a: ConfigAction) -> Seq<u8> {
    match a {
        ConfigAction::Cmd { bytes } => bytes,
        ConfigAction::FifoLoad { data } => seq![CMD_WRITE_TX_FIFO] + data,
    }
}

/// `ws` is exactly the command stream of dispatching `acts` in order: one
/// write per record, possibly followed by one interrupt clear where the
/// interrupt line was sampled asserted after that record.
pub open spec fn load_writes(ws: Seq<Seq<u8>>, acts: Seq<ConfigAction>) -> bool
    decreases acts.len(),
{
    if acts.len() == 0 {
        ws.len() == 0
    } else {
        ||| (ws.len() >= 1 && ws.last() == action_writes(acts.last()) && load_writes(
            ws.drop_last(),
            acts.drop_last(),
        ))
        ||| (ws.len() >= 2 && ws.last() == crate::defs::get_int_status_bytes(0, 0, 0) && ws[ws.len()
            - 2] == action_writes(acts.last()) && load_writes(
            ws.take(ws.len() - 2),
            acts.drop_last(),
        ))
    }
}

/// `ws` is the command stream of dispatching, in order, some leading records
/// of `acts` — possibly none, possibly all — and nothing else: what a load
/// that stopped early has put on the bus.
pub open spec fn load_writes_prefix(ws: Seq<Seq<u8>>, acts: Seq<ConfigAction>) -> bool {
    exists|j: int| 0 <= j <= acts.len() && #[trigger] load_writes(ws, acts.take(j))
}

/// How many blob bytes one record occupies: its length byte and its body
/// (for a FIFO load, the FIFO-write opcode and the payload).
pub open spec fn record_size(a: ConfigAction) -> int {
    match a {
        ConfigAction::Cmd { bytes } => 1 + bytes.len() as int,
        ConfigAction::FifoLoad { data } => 2 + data.len() as int,
    }
}

/// How many blob bytes a run of records occupies back to back.
pub open spec fn records_size(acts: Seq<ConfigAction>) -> int
    decreases acts.len(),
{
    if acts.len() == 0 {
        0
    } else {
        record_size(acts[0]) + records_size(acts.skip(1))
    }
}

/// Law: the loader neither over- nor under-consumes. A blob that frames
/// cleanly from offset `i` is tiled exactly by its records — they occupy
/// [`records_size`] bytes back to back starting at `i` — and the one byte
/// after them, the byte the load terminates on, is the zero length byte.
pub proof fn lemma_load_consumes_exactly(blob: Seq<u8>, i: int)
    requires
        0 <= i,
        parse_config(blob, i) is Done,
    ensures
        i + records_size(acts_of(parse_config(blob, i))) < blob.len(),
        blob[i + records_size(acts_of(parse_config(blob, i)))] == 0,
    decreases blob.len() - i,
{
    if i >= blob.len() {
        // parse_config is Flawed here; nothing to show.
    } else if blob[i] == 0 {
        assert(acts_of(parse_config(blob, i)) =~= Seq::<ConfigAction>::empty());
    } else {
        let l = blob[i] as int;
        let i2 = i + 1 + l;
        lemma_load_consumes_exactly(blob, i2);
        let a = if l <= MAX_COMMAND_RECORD as int {
            ConfigAction::Cmd { bytes: blob.subrange(i + 1, i + 1 + l) }
        } else {
            ConfigAction::FifoLoad { data: blob.subrange(i + 2, i + 1 + l) }
        };
        let rest = acts_of(parse_config(blob, i2));
        let acts = acts_of(parse_config(blob, i));
        assert(acts == seq![a] + rest);
        assert(acts[0] == a);
        assert(acts.skip(1) =~= rest);
        assert(record_size(a) == 1 + l);
        assert(records_size(acts) == 1 + l + records_size(rest));
    }
}

/// `ws` is the command stream of `k` abandoned configuration-load attempts
/// in a row: each dispatched, in order, some leading records of the stream
/// and stopped.
pub open spec fn failed_load_attempts(ws: Seq<Seq<u8>>, acts: Seq<ConfigAction>, k: int) -> bool
    decreases k,
{
    if k <= 0 {
        k == 0 && ws.len() == 0
    } else {
        exists|j: int|
            #![trigger ws.take(j), ws.skip(j)]
            {
                &&& 0 <= j <= ws.len()
                &&& failed_load_attempts(ws.take(j), acts, k - 1)
                &&& load_writes_prefix(ws.skip(j), acts)
            }
    }
}

/// One more abandoned attempt extends a run of abandoned attempts.
pub proof fn lemma_attempts_snoc(ws: Seq<Seq<u8>>, ext: Seq<Seq<u8>>, acts: Seq<ConfigAction>, k: int)
    requires
        k >= 0,
        failed_load_attempts(ws, acts, k),
        load_writes_prefix(ext, acts),
    ensures
        failed_load_attempts(ws + ext, acts, k + 1),
{
    let j = ws.len() as int;
    assert((ws + ext).take(j) =~= ws);
    assert((ws + ext).skip(j) =~= ext);
    assert(failed_load_attempts((ws + ext).take(j), acts, k));
    assert(load_writes_prefix((ws + ext).skip(j), acts));
}

/// A full dispatch of the records is in particular an early stop.
pub proof fn lemma_full_load_is_prefix(ws: Seq<Seq<u8>>, acts: Seq<ConfigAction>)
    requires
        load_writes(ws, acts),
    ensures
        load_writes_prefix(ws, acts),
{
    assert(acts.take(acts.len() as int) =~= acts);
    assert(load_writes(ws, acts.take(acts.len() as int)));
}

/// Consing a record in front of a tail is appending it to what came before.
pub proof fn lemma_push_concat<A>(d: Seq<A>, a: A, x: Seq<A>)
    ensures
        d + (seq![a] + x) == d.push(a) + x,
{
    assert(d + (seq![a] + x) =~= d.push(a) + x);
}

/// What a load that has dispatched `done` and stopped has put on the bus is
/// a valid early stop for any completion of the record stream.
pub proof fn lemma_loader_prefix(ws: Seq<Seq<u8>>, done: Seq<ConfigAction>, rest: Seq<ConfigAction>)
    requires
        load_writes(ws, done),
    ensures
        load_writes_prefix(ws, done + rest),
{
    let all = done + rest;
    let j = done.len() as int;
    assert(all.take(j) =~= done);
    assert(load_writes(ws, all.take(j)));
}

/// Judge one record's reply: a record opening with the EZCONFIG_CHECK
/// opcode must be answered zero — a non-zero answer means the blob does not
/// match the chip and fails the load; any other record's reply byte carries
/// no verdict.
pub fn check_ez_reply(opcode: u8, reply: u8) -> (r: Result<(), Error>)
    ensures
        r is Ok <==> (opcode != CMD_EZCONFIG_CHECK || reply == 0),
        r is Err ==> r == Err::<(), Error>(Error::EzConfigCheckFailed(reply)),
{
    if opcode == CMD_EZCONFIG_CHECK && reply != 0 {
        Err(Error::EzConfigCheckFailed(reply))
    } else {
        Ok(())
    }
}

/// Whether an interrupt status read during the load reports the
/// chip-command-error pending bit: fatal for the load.
pub fn chip_error_pending(chip_pend: u8) -> (r: bool)
    ensures
        r == ((chip_pend & INT_CHIP_CMD_ERROR) != 0),
{
    (chip_pend & INT_CHIP_CMD_ERROR) != 0
}

} // verus!
