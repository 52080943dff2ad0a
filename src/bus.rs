//! The transport: an SPI-like byte channel with data/command, reset and
//! chip-select lines.
//!
//! A [`Transport`] does not touch hardware itself. Every operation appends
//! the bus actions it stands for to a log, which the caller drains with
//! [`Transport::take_ops`] and performs in order on the real pins and bus,
//! stopping at the first failure.
use vstd::prelude::*;
use vstd::slice::{slice_subrange, slice_to_vec};

verus! {

/// Default largest number of bytes that one bus write may carry.
pub const DEFAULT_BUF_LIMIT: usize = 4096;

/// The three digital control lines next to the byte channel.
#[derive(Clone, Copy, Debug, PartialEq, Eq, Structural)]
pub enum Line {
    /// Low while a command byte is sent, high while data bytes are sent.
    DataCommand,
    /// Hardware reset, active low.
    Reset,
    /// Chip select, active low.
    ChipSelect,
}

/// One step that the caller performs on the hardware.
#[derive(Debug, PartialEq, Eq)]
pub enum BusOp {
    /// Drive a line high (`true`) or low (`false`).
    Drive(Line, bool),
    /// Write the bytes on the channel in one burst.
    Write(Vec<u8>),
    /// Hand this many milliseconds to the caller's timer.
    Wait(u64),
}

/// The mathematical value of a [`BusOp`].
pub enum BusAction {
    Drive(Line, bool),
    Write(Seq<u8>),
    Wait(u64),
}

impl View for BusOp {
    type V = BusAction;

    open spec fn view(&self) -> BusAction {
        match self {
            BusOp::Drive(l, v) => BusAction::Drive(*l, *v),
            BusOp::Write(bytes) => BusAction::Write(bytes@),
            BusOp::Wait(ms) => BusAction::Wait(*ms),
        }
    }
}

/// The values of a list of operations.
pub open spec fn actions_of(ops: Seq<BusOp>) -> Seq<BusAction> {
    ops.map_values(|op: BusOp| op@)
}

/// A single command byte: data/command line low, then the byte.
pub open spec fn command_actions(c: u8) -> Seq<BusAction> {
    seq![BusAction::Drive(Line::DataCommand, false), BusAction::Write(seq![c])]
}

/// A run of command bytes, each framed on its own.
pub open spec fn commands(cs: Seq<u8>) -> Seq<BusAction>
    decreases cs.len(),
{
    if cs.len() == 0 {
        Seq::empty()
    } else {
        commands(cs.drop_last()) + command_actions(cs.last())
    }
}

/// `data` cut into consecutive pieces of `limit` bytes, the last one possibly
/// shorter.
pub open spec fn chunks(data: Seq<u8>, limit: nat) -> Seq<Seq<u8>>
    decreases data.len(),
{
    if data.len() == 0 || limit == 0 {
        Seq::empty()
    } else if data.len() <= limit {
        seq![data]
    } else {
        seq![data.take(limit as int)] + chunks(data.skip(limit as int), limit)
    }
}

/// A data payload: nothing at all when it is empty, else the data/command
/// line driven high once, then one write per chunk.
pub open spec fn data_actions(data: Seq<u8>, limit: nat) -> Seq<BusAction> {
    if data.len() == 0 {
        Seq::empty()
    } else {
        seq![BusAction::Drive(Line::DataCommand, true)] + chunks(data, limit).map_values(
            |c: Seq<u8>| BusAction::Write(c),
        )
    }
}

/// Number of chunks of at most `limit` bytes that `n` bytes need.
pub open spec fn chunk_count(n: nat, limit: nat) -> nat
    recommends
        limit > 0,
{
    ((n + limit - 1) / limit as int) as nat
}

/// Framing two runs of commands one after the other frames their
/// concatenation.
pub proof fn lemma_commands_concat(a: Seq<u8>, b: Seq<u8>)
    ensures
        commands(a + b) == commands(a) + commands(b),
    decreases b.len(),
{
    if b.len() == 0 {
        assert(a + b =~= a);
        assert(commands(a) + commands(b) =~= commands(a));
    } else {
        lemma_commands_concat(a, b.drop_last());
        assert((a + b).drop_last() =~= a + b.drop_last());
        assert(commands(a) + commands(b) =~= commands(a) + commands(b.drop_last())
            + command_actions(b.last()));
    }
}

/// Chunking splits a payload into `chunk_count` non-empty pieces of at most
/// `limit` bytes whose concatenation, in order, is the payload.
pub proof fn lemma_chunks(data: Seq<u8>, limit: nat)
    requires
        limit > 0,
    ensures
        chunks(data, limit).len() == chunk_count(data.len(), limit),
        chunks(data, limit).flatten() == data,
        forall|i: int|
            0 <= i < chunks(data, limit).len() ==> 0 < #[trigger] chunks(data, limit)[i].len()
                <= limit,
    decreases data.len(),
{
    let n = data.len();
    if n == 0 {
        assert((limit - 1) / (limit as int) == 0) by (nonlinear_arith)
            requires
                limit > 0,
        ;
    } else if n <= limit {
        assert((n + limit - 1) / (limit as int) == 1) by (nonlinear_arith)
            requires
                limit > 0,
                0 < n <= limit,
        ;
        seq![data].lemma_flatten_one_element();
    } else {
        let rest = data.skip(limit as int);
        lemma_chunks(rest, limit);
        let m = rest.len() + limit - 1;
        assert(1 + m / (limit as int) == (limit + m) / (limit as int)) by {
            vstd::arithmetic::div_mod::lemma_div_plus_one(m, limit as int);
        }
        let cs = chunks(data, limit);
        assert(cs.drop_first() =~= chunks(rest, limit));
        assert(data.take(limit as int) + rest =~= data);
    }
}

/// Structure of a data payload: an empty payload does nothing; otherwise the
/// data/command line goes high exactly once, first, and every other action is
/// a write, of `chunk_count` chunks that reassemble the payload.
pub proof fn lemma_data_actions(data: Seq<u8>, limit: nat)
    requires
        limit > 0,
    ensures
        data.len() == 0 ==> data_actions(data, limit).len() == 0,
        data.len() > 0 ==> {
            let acts = data_actions(data, limit);
            &&& acts.len() == 1 + chunk_count(data.len(), limit)
            &&& acts[0] == BusAction::Drive(Line::DataCommand, true)
            &&& forall|i: int|
                1 <= i < acts.len() ==> #[trigger] acts[i] == BusAction::Write(
                    chunks(data, limit)[i - 1],
                )
        },
        chunks(data, limit).flatten() == data,
{
    lemma_chunks(data, limit);
}

/// Chunking what is left of a payload at a chunk boundary peels off one chunk.
proof fn lemma_chunks_step(data: Seq<u8>, start: int, end: int, limit: nat)
    requires
        limit > 0,
        0 <= start < end <= data.len(),
        end == start + limit || (end == data.len() && data.len() - start <= limit),
    ensures
        chunks(data.subrange(start, data.len() as int), limit) == seq![
            data.subrange(start, end),
        ] + chunks(data.subrange(end, data.len() as int), limit),
{
    let n = data.len() as int;
    let rest = data.subrange(start, n);
    if rest.len() <= limit {
        assert(end == n);
        assert(data.subrange(end, n) =~= Seq::<u8>::empty());
        assert(rest =~= data.subrange(start, end));
        assert(seq![data.subrange(start, end)] + Seq::<Seq<u8>>::empty() =~= seq![rest]);
    } else {
        assert(rest.take(limit as int) =~= data.subrange(start, end));
        assert(rest.skip(limit as int) =~= data.subrange(end, n));
    }
}

/// A byte channel with its control lines, recording the actions it is asked
/// to perform.
pub struct Transport {
    buf_limit: usize,
    ops: Vec<BusOp>,
}

impl View for Transport {
    type V = Seq<BusAction>;

    /// The actions recorded and not yet taken.
    closed spec fn view(&self) -> Seq<BusAction> {
        actions_of(self.ops@)
    }
}

impl Transport {
    /// The largest number of bytes in one bus write.
    pub closed spec fn spec_buf_limit(&self) -> nat {
        self.buf_limit as nat
    }

    pub closed spec fn wf(&self) -> bool {
        self.buf_limit > 0
    }

    /// A transport with the default burst limit and nothing recorded.
    pub fn new() -> (r: Self)
        ensures
            r.wf(),
            r@ == Seq::<BusAction>::empty(),
            r.spec_buf_limit() == DEFAULT_BUF_LIMIT,
    {
        Transport::with_buf_limit(DEFAULT_BUF_LIMIT)
    }

    /// A transport whose bus writes carry at most `buf_limit` bytes.
    pub fn with_buf_limit(buf_limit: usize) -> (r: Self)
        requires
            buf_limit > 0,
        ensures
            r.wf(),
            r@ == Seq::<BusAction>::empty(),
            r.spec_buf_limit() == buf_limit,
    {
        let r = Transport { buf_limit, ops: Vec::new() };
        assert(r@ =~= Seq::<BusAction>::empty());
        r
    }

    /// The largest number of bytes in one bus write.
    pub fn buf_limit(&self) -> (r: usize)
        ensures
            r == self.spec_buf_limit(),
    {
        self.buf_limit
    }

    fn record(&mut self, op: BusOp)
        ensures
            final(self)@ == old(self)@.push(op@),
            final(self).buf_limit == old(self).buf_limit,
    {
        self.ops.push(op);
        assert(self@ =~= old(self)@.push(op@));
    }

    /// Hands over the recorded actions, oldest first, and forgets them.
    pub fn take_ops(&mut self) -> (r: Vec<BusOp>)
        ensures
            actions_of(r@) == old(self)@,
            final(self)@ == Seq::<BusAction>::empty(),
            final(self).spec_buf_limit() == old(self).spec_buf_limit(),
            final(self).wf() == old(self).wf(),
    {
        let mut r: Vec<BusOp> = Vec::new();
        std::mem::swap(&mut self.ops, &mut r);
        assert(self@ =~= Seq::<BusAction>::empty());
        r
    }

    /// Drives a control line high or low.
    pub fn drive(&mut self, line: Line, high: bool)
        ensures
            final(self)@ == old(self)@.push(BusAction::Drive(line, high)),
            final(self).spec_buf_limit() == old(self).spec_buf_limit(),
            final(self).wf() == old(self).wf(),
    {
        self.record(BusOp::Drive(line, high));
    }

    /// Asks the caller's timer to wait `ms` milliseconds.
    pub fn wait(&mut self, ms: u64)
        ensures
            final(self)@ == old(self)@.push(BusAction::Wait(ms)),
            final(self).spec_buf_limit() == old(self).spec_buf_limit(),
            final(self).wf() == old(self).wf(),
    {
        self.record(BusOp::Wait(ms));
    }

    /// Selects the device: chip select low.
    pub fn use_device(&mut self)
        ensures
            final(self)@ == old(self)@.push(BusAction::Drive(Line::ChipSelect, false)),
            final(self).spec_buf_limit() == old(self).spec_buf_limit(),
            final(self).wf() == old(self).wf(),
    {
        self.drive(Line::ChipSelect, false);
    }

    /// Deselects the device: chip select high.
    pub fn release_device(&mut self)
        ensures
            final(self)@ == old(self)@.push(BusAction::Drive(Line::ChipSelect, true)),
            final(self).spec_buf_limit() == old(self).spec_buf_limit(),
            final(self).wf() == old(self).wf(),
    {
        self.drive(Line::ChipSelect, true);
    }

    /// Writes `data` on the channel in one burst, as it is.
    pub fn send(&mut self, data: &[u8])
        ensures
            final(self)@ == old(self)@.push(BusAction::Write(data@)),
            final(self).spec_buf_limit() == old(self).spec_buf_limit(),
            final(self).wf() == old(self).wf(),
    {
        self.record(BusOp::Write(slice_to_vec(data)));
    }

    /// Sends one command byte: data/command line low, then the byte.
    pub fn send_command(&mut self, command: u8)
        ensures
            final(self)@ == old(self)@ + command_actions(command),
            final(self).spec_buf_limit() == old(self).spec_buf_limit(),
            final(self).wf() == old(self).wf(),
    {
        self.drive(Line::DataCommand, false);
        let bytes: [u8; 1] = [command];
        self.send(&bytes);
        assert(bytes@ =~= seq![command]);
        assert(self@ =~= old(self)@ + command_actions(command));
    }

    /// Sends a data payload: nothing when it is empty; otherwise the
    /// data/command line high once, then the bytes in order, in bursts of at
    /// most the burst limit.
    pub fn send_data(&mut self, data: &[u8])
        requires
            old(self).wf(),
        ensures
            final(self)@ == old(self)@ + data_actions(data@, old(self).spec_buf_limit()),
            final(self).spec_buf_limit() == old(self).spec_buf_limit(),
            final(self).wf(),
    {
        let n = data.len();
        if n == 0 {
            assert(self@ =~= old(self)@ + data_actions(data@, old(self).spec_buf_limit()));
            return;
        }
        self.drive(Line::DataCommand, true);
        let limit = self.buf_limit;
        let ghost base = self@;
        let ghost done: Seq<Seq<u8>> = Seq::empty();
        let mut start: usize = 0;
        assert(data@.subrange(0, n as int) =~= data@);
        while start < n
            invariant
                self.wf(),
                self.buf_limit == limit,
                limit == old(self).buf_limit,
                n == data@.len(),
                start <= n,
                done + chunks(data@.subrange(start as int, n as int), limit as nat) == chunks(
                    data@,
                    limit as nat,
                ),
                self@ == base + done.map_values(|c: Seq<u8>| BusAction::Write(c)),
            decreases n - start,
        {
            let end = if n - start > limit {
                start + limit
            } else {
                n
            };
            proof {
                lemma_chunks_step(data@, start as int, end as int, limit as nat);
            }
            let piece = slice_subrange(data, start, end);
            self.send(piece);
            proof {
                let c = data@.subrange(start as int, end as int);
                assert(done.push(c) + chunks(data@.subrange(end as int, n as int), limit as nat)
                    =~= done + chunks(data@.subrange(start as int, n as int), limit as nat));
                assert(done.push(c).map_values(|c: Seq<u8>| BusAction::Write(c)) =~= done.map_values(
                    |c: Seq<u8>| BusAction::Write(c),
                ).push(BusAction::Write(c)));
                done = done.push(c);
            }
            start = end;
        }
        proof {
            assert(data@.subrange(n as int, n as int) =~= Seq::<u8>::empty());
            assert(done + Seq::<Seq<u8>>::empty() =~= done);
            assert(self@ =~= old(self)@ + data_actions(data@, limit as nat));
        }
    }
}

} // verus!
