//! The relay engine: a readiness-driven multiplexer that pumps bytes between
//! two stream endpoints until one side signals end-of-stream or a hard
//! transport error.
//!
//! The engine is verified against `ScriptedStream`, an in-memory model of a
//! transport endpoint: its reads follow a script of events, and its write side
//! can be configured to accept only a few bytes per call, to report
//! would-block a number of times, or to fail outright. Real sockets and
//! channels map onto the same events, so the decision logic proved here is the
//! one a live relay runs.

use vstd::prelude::*;

use crate::error::SSHError;

verus! {

/// The numeric code the secure-shell library reports for a non-blocking
/// operation that must be retried (its EAGAIN).
pub const WOULD_BLOCK_CODE: i32 = -37;

/// The outcome of one read call on an endpoint: a batch of bytes (an empty
/// batch means the peer closed its write side), an explicit end-of-stream,
/// a transient would-block condition, or a hard transport error.
#[derive(Debug)]
pub enum ReadEvent {
    Data(Vec<u8>),
    Eof,
    WouldBlock,
    Failed,
}

/// The outcome of one write call on an endpoint: some bytes accepted, a
/// transient would-block condition, or a hard transport error.
#[derive(Debug, PartialEq, Eq, Structural)]
pub enum WriteEvent {
    Accepted(usize),
    WouldBlock,
    Failed,
}

/// Whether two read events carry the same signal and, for a data batch, the
/// same bytes.
pub open spec fn read_event_matches(a: ReadEvent, b: ReadEvent) -> bool {
    match (a, b) {
        (ReadEvent::Data(x), ReadEvent::Data(y)) => x@ == y@,
        (ReadEvent::Eof, ReadEvent::Eof) => true,
        (ReadEvent::WouldBlock, ReadEvent::WouldBlock) => true,
        (ReadEvent::Failed, ReadEvent::Failed) => true,
        _ => false,
    }
}

/// Whether a read event signals end-of-stream: either the explicit signal or
/// a zero-byte batch, which is how a closed write side reads.
pub open spec fn is_eof_event(ev: ReadEvent) -> bool {
    match ev {
        ReadEvent::Eof => true,
        ReadEvent::Data(d) => d@.len() == 0,
        _ => false,
    }
}

/// The bytes carried by the script entries `reads[from..to]`, in order:
/// the concatenation of every `Data` payload among them.
pub open spec fn script_data(reads: Seq<ReadEvent>, from: int, to: int) -> Seq<u8>
    decreases to - from,
{
    if from >= to {
        Seq::empty()
    } else {
        script_data(reads, from, to - 1) + (match reads[to - 1] {
            ReadEvent::Data(d) => d@,
            _ => Seq::<u8>::empty(),
        })
    }
}

/// An in-memory transport endpoint. Reads consume `reads` front to back;
/// bytes written into the endpoint accumulate in `accepted`. The write side
/// accepts at most `write_cap` bytes per call, reports would-block for the
/// next `write_blocks` calls, and fails every call while `write_fail` holds.
pub struct ScriptedStream {
    pub reads: Vec<ReadEvent>,
    pub next_read: usize,
    pub accepted: Vec<u8>,
    pub write_cap: usize,
    pub write_blocks: usize,
    pub write_fail: bool,
}

impl ScriptedStream {
    /// The endpoint is well formed: the read cursor is inside the script and
    /// a successful write accepts at least one byte.
    pub open spec fn wf(&self) -> bool {
        &&& self.next_read <= self.reads@.len()
        &&& self.write_cap >= 1
    }

    /// A fresh endpoint: empty script, nothing accepted, unbounded writes.
    pub fn new() -> (r: ScriptedStream)
        ensures
            r.wf(),
            r.reads@.len() == 0,
            r.next_read == 0,
            r.accepted@.len() == 0,
            r.write_cap == usize::MAX,
            r.write_blocks == 0,
            !r.write_fail,
    {
        ScriptedStream {
            reads: Vec::new(),
            next_read: 0,
            accepted: Vec::new(),
            write_cap: usize::MAX,
            write_blocks: 0,
            write_fail: false,
        }
    }

    /// Whether a readiness wait would report this endpoint readable: some
    /// scripted event is still pending.
    pub fn readable(&self) -> (r: bool)
        ensures
            r == (self.next_read < self.reads@.len()),
    {
        self.next_read < self.reads.len()
    }

    /// Consume and return the next scripted read event; an exhausted script
    /// reads as would-block (nothing available this iteration).
    pub fn read_step(&mut self) -> (r: ReadEvent)
        requires
            old(self).wf(),
        ensures
            final(self).wf(),
            final(self).reads@ == old(self).reads@,
            final(self).accepted@ == old(self).accepted@,
            final(self).write_cap == old(self).write_cap,
            final(self).write_blocks == old(self).write_blocks,
            final(self).write_fail == old(self).write_fail,
            old(self).next_read < old(self).reads@.len() ==> {
                &&& final(self).next_read == old(self).next_read + 1
                &&& read_event_matches(r, old(self).reads@[old(self).next_read as int])
            },
            old(self).next_read >= old(self).reads@.len() ==> {
                &&& final(self).next_read == old(self).next_read
                &&& r is WouldBlock
            },
    {
        if self.next_read < self.reads.len() {
            let idx: usize = self.next_read;
            self.next_read = idx + 1;
            match &self.reads[idx] {
                ReadEvent::Data(d) => ReadEvent::Data(clone_bytes(d)),
                ReadEvent::Eof => ReadEvent::Eof,
                ReadEvent::WouldBlock => ReadEvent::WouldBlock,
                ReadEvent::Failed => ReadEvent::Failed,
            }
        } else {
            ReadEvent::WouldBlock
        }
    }

    /// One write call offering `data[from..]`: fails while `write_fail`
    /// holds, would-blocks while `write_blocks` attempts remain, and
    /// otherwise accepts up to `write_cap` of the offered bytes.
    pub fn write_step(&mut self, data: &Vec<u8>, from: usize) -> (r: WriteEvent)
        requires
            old(self).wf(),
            from < data@.len(),
        ensures
            final(self).wf(),
            final(self).reads@ == old(self).reads@,
            final(self).next_read == old(self).next_read,
            final(self).write_cap == old(self).write_cap,
            final(self).write_fail == old(self).write_fail,
            final(self).write_blocks <= old(self).write_blocks,
            old(self).write_fail ==> {
                &&& r is Failed
                &&& final(self).accepted@ == old(self).accepted@
                &&& final(self).write_blocks == old(self).write_blocks
            },
            !old(self).write_fail && old(self).write_blocks > 0 ==> {
                &&& r is WouldBlock
                &&& final(self).accepted@ == old(self).accepted@
                &&& final(self).write_blocks == old(self).write_blocks - 1
            },
            !old(self).write_fail && old(self).write_blocks == 0 ==> {
                let n = if old(self).write_cap < data@.len() - from {
                    old(self).write_cap as int
                } else {
                    data@.len() - from
                };
                &&& r == WriteEvent::Accepted(n as usize)
                &&& 1 <= n <= data@.len() - from
                &&& final(self).accepted@ == old(self).accepted@
                    + data@.subrange(from as int, from + n)
                &&& final(self).write_blocks == 0
            },
    {
        if self.write_fail {
            WriteEvent::Failed
        } else if self.write_blocks > 0 {
            self.write_blocks = self.write_blocks - 1;
            WriteEvent::WouldBlock
        } else {
            let remaining: usize = data.len() - from;
            let n: usize = if self.write_cap < remaining {
                self.write_cap
            } else {
                remaining
            };
            let mut i: usize = 0;
            while i < n
                invariant
                    from + n <= data@.len(),
                    data@.len() <= usize::MAX,
                    i <= n,
                    self.accepted@ == old(self).accepted@
                        + data@.subrange(from as int, from + i),
                    self.reads@ == old(self).reads@,
                    self.next_read == old(self).next_read,
                    self.write_cap == old(self).write_cap,
                    self.write_blocks == old(self).write_blocks,
                    self.write_fail == old(self).write_fail,
                    self.wf(),
                decreases n - i,
            {
                self.accepted.push(data[from + i]);
                proof {
                    assert(data@.subrange(from as int, from + i + 1)
                        =~= data@.subrange(from as int, from + i) + seq![data@[from + i]]);
                }
                i = i + 1;
            }
            WriteEvent::Accepted(n)
        }
    }
}

/// The relay's decision for one read outcome: deliver the batch, finish
/// cleanly, retry later, or abort.
#[derive(Debug, PartialEq, Eq, Structural)]
pub enum ReadDirective {
    Deliver,
    Finish,
    Retry,
    Abort,
}

/// Decide what one read outcome means for the relay: a non-empty batch is
/// delivered whole; end-of-stream — explicit, or a zero-byte batch — finishes
/// the relay cleanly; would-block means retry on a later iteration, never an
/// error; a hard read error aborts. A live loop feeds its real read outcomes
/// through this same classifier.
pub fn classify_read(ev: &ReadEvent) -> (r: ReadDirective)
    ensures
        r == ReadDirective::Deliver <==> (ev matches ReadEvent::Data(d) && d@.len() > 0),
        r == ReadDirective::Finish <==> is_eof_event(*ev),
        r == ReadDirective::Retry <==> ev is WouldBlock,
        r == ReadDirective::Abort <==> ev is Failed,
{
    match ev {
        ReadEvent::Data(d) => {
            if d.len() == 0 {
                ReadDirective::Finish
            } else {
                ReadDirective::Deliver
            }
        },
        ReadEvent::Eof => ReadDirective::Finish,
        ReadEvent::WouldBlock => ReadDirective::Retry,
        ReadEvent::Failed => ReadDirective::Abort,
    }
}

/// What the write loop does next after one write outcome: the batch is fully
/// delivered, another write is needed, or the transport failed.
#[derive(Debug, PartialEq, Eq, Structural)]
pub enum BatchStep {
    Done,
    Again,
    Abort,
}

/// The write-until-complete discipline as a state machine: one batch and how
/// much of it the transport has accepted so far. Feed each write outcome into
/// [`WriteBatch::apply`] and keep writing the remainder until it answers
/// `Done` or `Abort`. Both the verified write loop and a live one drive it.
pub struct WriteBatch {
    pub data: Vec<u8>,
    pub written: usize,
}

impl WriteBatch {
    /// The accepted count never passes the batch's end.
    pub open spec fn wf(&self) -> bool {
        self.written <= self.data@.len()
    }

    /// A batch with nothing accepted yet.
    pub fn new(data: Vec<u8>) -> (r: WriteBatch)
        ensures
            r.data@ == data@,
            r.written == 0,
            r.wf(),
    {
        WriteBatch { data, written: 0 }
    }

    /// Whether the whole batch has been accepted.
    pub fn is_done(&self) -> (r: bool)
        ensures
            r == (self.written == self.data@.len()),
    {
        self.written == self.data.len()
    }

    /// How many bytes are already accepted: the next write offers
    /// `data[offset..]`.
    pub fn offset(&self) -> (r: usize)
        ensures
            r == self.written,
    {
        self.written
    }

    /// Record one write outcome: accepted bytes advance the batch, and the
    /// step is `Done` exactly when they complete it; would-block makes no
    /// progress but is retried, never an error; a hard write error aborts.
    pub fn apply(&mut self, ev: &WriteEvent) -> (r: BatchStep)
        requires
            old(self).wf(),
            (ev matches WriteEvent::Accepted(n) ==> old(self).written + *n
                <= old(self).data@.len()),
        ensures
            final(self).wf(),
            final(self).data@ == old(self).data@,
            (match ev {
                WriteEvent::Accepted(n) => {
                    &&& final(self).written == old(self).written + *n
                    &&& (r == BatchStep::Done <==> final(self).written == final(self).data@.len())
                    &&& (r == BatchStep::Again <==> final(self).written < final(self).data@.len())
                },
                WriteEvent::WouldBlock => final(self).written == old(self).written && r
                    == BatchStep::Again,
                WriteEvent::Failed => final(self).written == old(self).written && r
                    == BatchStep::Abort,
            }),
    {
        let len: usize = self.data.len();
        match ev {
            WriteEvent::Accepted(n) => {
                self.written = self.written + *n;
                if self.written == len {
                    BatchStep::Done
                } else {
                    BatchStep::Again
                }
            },
            WriteEvent::WouldBlock => BatchStep::Again,
            WriteEvent::Failed => BatchStep::Abort,
        }
    }
}

/// The result of pumping one ready direction: a whole batch delivered, the
/// source's end-of-stream seen, nothing available this iteration, or a hard
/// transport error on either the read or the write side.
#[derive(Debug, PartialEq, Eq, Structural)]
pub enum PumpOutcome {
    Delivered(usize),
    EofSeen,
    Idle,
    Failed,
}

/// Write one whole batch into `target`, retrying on would-block and on
/// partial acceptance until every byte of `data` has been accepted or the
/// transport fails. On success the target holds exactly the old bytes
/// followed by the batch; on failure nothing was accepted.
pub fn write_until_complete(target: &mut ScriptedStream, data: &Vec<u8>) -> (r: Result<
    usize,
    SSHError,
>)
    requires
        old(target).wf(),
    ensures
        final(target).wf(),
        final(target).reads@ == old(target).reads@,
        final(target).next_read == old(target).next_read,
        final(target).write_cap == old(target).write_cap,
        final(target).write_fail == old(target).write_fail,
        !old(target).write_fail ==> {
            &&& r matches Ok(n) && n == data@.len()
            &&& final(target).accepted@ == old(target).accepted@ + data@
        },
        old(target).write_fail ==> final(target).accepted@ == old(target).accepted@,
        old(target).write_fail && data@.len() > 0 ==> r is Err,
        old(target).write_fail && data@.len() == 0 ==> (r matches Ok(n) && n == 0),
{
    let total: usize = data.len();
    let mut batch = WriteBatch::new(clone_bytes(data));
    while !batch.is_done()
        invariant
            batch.wf(),
            batch.data@ == data@,
            target.wf(),
            target.reads@ == old(target).reads@,
            target.next_read == old(target).next_read,
            target.write_cap == old(target).write_cap,
            target.write_fail == old(target).write_fail,
            total == data@.len(),
            target.accepted@ == old(target).accepted@ + data@.subrange(0, batch.written as int),
            target.write_fail ==> batch.written == 0,
        decreases data@.len() - batch.written, target.write_blocks,
    {
        let ghost w0 = batch.written as int;
        let ev = target.write_step(data, batch.offset());
        match batch.apply(&ev) {
            BatchStep::Abort => {
                proof {
                    assert(data@.subrange(0, 0) =~= Seq::<u8>::empty());
                    assert(old(target).accepted@ + Seq::<u8>::empty() =~= old(target).accepted@);
                }
                return Err(SSHError::Whatever);
            },
            _ => {
                proof {
                    assert(data@.subrange(0, batch.written as int)
                        =~= data@.subrange(0, w0) + data@.subrange(w0, batch.written as int));
                }
            },
        }
    }
    proof {
        assert(data@.subrange(0, data@.len() as int) =~= data@);
    }
    Ok(total)
}

/// Service one readable direction, as one iteration of the relay does: take
/// one read from `source` and, if it carried bytes, deliver the whole batch
/// into `target`. A zero-byte batch or an explicit end-of-stream reports
/// `EofSeen`; would-block (and an exhausted script) reports `Idle`; a read
/// failure or a write failure reports `Failed` with nothing delivered.
pub fn handle_read_ready(source: &mut ScriptedStream, target: &mut ScriptedStream) -> (r:
    PumpOutcome)
    requires
        old(source).wf(),
        old(target).wf(),
    ensures
        final(source).wf(),
        final(target).wf(),
        final(source).reads@ == old(source).reads@,
        final(source).accepted@ == old(source).accepted@,
        final(source).write_cap == old(source).write_cap,
        final(source).write_blocks == old(source).write_blocks,
        final(source).write_fail == old(source).write_fail,
        final(target).reads@ == old(target).reads@,
        final(target).next_read == old(target).next_read,
        final(target).write_cap == old(target).write_cap,
        final(target).write_fail == old(target).write_fail,
        old(source).next_read >= old(source).reads@.len() ==> {
            &&& r is Idle
            &&& final(source).next_read == old(source).next_read
            &&& final(target).accepted@ == old(target).accepted@
        },
        old(source).next_read < old(source).reads@.len() ==> {
            let ev = old(source).reads@[old(source).next_read as int];
            &&& final(source).next_read == old(source).next_read + 1
            &&& (match ev {
                ReadEvent::WouldBlock => r is Idle && final(target).accepted@ == old(
                    target,
                ).accepted@,
                ReadEvent::Eof => r is EofSeen && final(target).accepted@ == old(
                    target,
                ).accepted@,
                ReadEvent::Failed => r is Failed && final(target).accepted@ == old(
                    target,
                ).accepted@,
                ReadEvent::Data(d) => {
                    if d@.len() == 0 {
                        r is EofSeen && final(target).accepted@ == old(target).accepted@
                    } else if old(target).write_fail {
                        r is Failed && final(target).accepted@ == old(target).accepted@
                    } else {
                        r == PumpOutcome::Delivered(d@.len() as usize) && final(target).accepted@
                            == old(target).accepted@ + d@
                    }
                },
            })
        },
{
    let ev = source.read_step();
    match classify_read(&ev) {
        ReadDirective::Finish => PumpOutcome::EofSeen,
        ReadDirective::Retry => PumpOutcome::Idle,
        ReadDirective::Abort => PumpOutcome::Failed,
        ReadDirective::Deliver => match ev {
            ReadEvent::Data(batch) => match write_until_complete(target, &batch) {
                Ok(n) => PumpOutcome::Delivered(n),
                Err(_) => PumpOutcome::Failed,
            },
            _ => {
                proof {
                    assert(false);
                }
                PumpOutcome::Failed
            },
        },
    }
}

/// How a bounded run of the relay ended: one side closed cleanly, a hard
/// transport error stopped it, or the iteration budget ran out with the
/// relay still active (a timeout is not an error).
#[derive(Debug, PartialEq, Eq, Structural)]
pub enum RelayOutcome {
    CleanEof,
    TransportFailed,
    StillActive,
}

/// No entry of `reads[from..to]` is a terminal event: none is a hard failure
/// and none signals end-of-stream.
pub open spec fn no_terminal_consumed(reads: Seq<ReadEvent>, from: int, to: int) -> bool {
    forall|k: int|
        from <= k < to ==> !(#[trigger] reads[k] is Failed) && !is_eof_event(reads[k])
}

/// The range `reads[from..to]` is non-empty and its last entry signals
/// end-of-stream.
pub open spec fn ends_with_eof(reads: Seq<ReadEvent>, from: int, to: int) -> bool {
    from < to && is_eof_event(reads[to - 1])
}

/// The range `reads[from..to]` is non-empty and its last entry raised a hard
/// error: either the read itself failed, or it carried bytes whose delivery
/// failed on the peer's write side.
pub open spec fn ends_with_failure(
    reads: Seq<ReadEvent>,
    from: int,
    to: int,
    peer_write_fail: bool,
) -> bool {
    from < to && (reads[to - 1] is Failed || (peer_write_fail && reads[to - 1] is Data
        && reads[to - 1]->Data_0@.len() > 0))
}

/// The smaller of two mathematical integers.
pub open spec fn min_int(x: int, y: int) -> int {
    if x <= y {
        x
    } else {
        y
    }
}

/// When the relay stops during `a`'s turn of iteration `i` (zero-based), `a`
/// has consumed `i + 1` events and `b` — served after `a` — has consumed only
/// the `i` events of the completed iterations, capped by what its script
/// offered. Once the terminal event is seen, no further read is issued on
/// either side.
pub open spec fn peer_stopped_with_a(
    a0: ScriptedStream,
    b0: ScriptedStream,
    a1: ScriptedStream,
    b1: ScriptedStream,
) -> bool {
    b1.next_read as int == min_int(
        b0.next_read + (a1.next_read - a0.next_read) - 1,
        b1.reads@.len() as int,
    )
}

/// When the relay stops during `b`'s turn of iteration `i` (zero-based), `b`
/// has consumed `i + 1` events and `a` — served before `b` — has consumed the
/// events of all `i + 1` iterations, capped by what its script offered. Once
/// the terminal event is seen, no further read is issued on either side.
pub open spec fn peer_stopped_with_b(
    a0: ScriptedStream,
    b0: ScriptedStream,
    a1: ScriptedStream,
    b1: ScriptedStream,
) -> bool {
    a1.next_read as int == min_int(
        a0.next_read + (b1.next_read - b0.next_read),
        a1.reads@.len() as int,
    )
}

/// Law: consuming one more script entry appends exactly that entry's payload
/// to the bytes the range carries.
pub proof fn lemma_script_data_step(reads: Seq<ReadEvent>, from: int, k: int)
    requires
        from <= k,
    ensures
        script_data(reads, from, k + 1) == script_data(reads, from, k) + (match reads[k] {
            ReadEvent::Data(d) => d@,
            _ => Seq::<u8>::empty(),
        }),
{
}

proof fn lemma_seq_empty_right(s: Seq<u8>)
    ensures
        s + Seq::<u8>::empty() == s,
{
    assert(s + Seq::<u8>::empty() =~= s);
}

/// Run the relay between endpoints `a` and `b` for at most `max_iters`
/// readiness intervals. Each iteration services `a` before `b`; the loop ends
/// at the first end-of-stream (cleanly) or the first hard error, and a
/// would-block event never ends it. Whatever ends it, every byte read from
/// one side, and nothing else, was delivered to the other, in order.
pub fn run_relay(a: &mut ScriptedStream, b: &mut ScriptedStream, max_iters: usize) -> (r:
    RelayOutcome)
    requires
        old(a).wf(),
        old(b).wf(),
    ensures
        final(a).wf(),
        final(b).wf(),
        final(a).reads@ == old(a).reads@,
        final(b).reads@ == old(b).reads@,
        final(a).write_cap == old(a).write_cap,
        final(b).write_cap == old(b).write_cap,
        final(a).write_fail == old(a).write_fail,
        final(b).write_fail == old(b).write_fail,
        old(a).next_read <= final(a).next_read <= final(a).reads@.len(),
        old(b).next_read <= final(b).next_read <= final(b).reads@.len(),
        !old(b).write_fail ==> final(b).accepted@ == old(b).accepted@ + script_data(
            old(a).reads@,
            old(a).next_read as int,
            final(a).next_read as int,
        ),
        !old(a).write_fail ==> final(a).accepted@ == old(a).accepted@ + script_data(
            old(b).reads@,
            old(b).next_read as int,
            final(b).next_read as int,
        ),
        old(b).write_fail ==> final(b).accepted@ == old(b).accepted@,
        old(a).write_fail ==> final(a).accepted@ == old(a).accepted@,
        no_terminal_consumed(
            old(a).reads@,
            old(a).next_read as int,
            final(a).next_read as int - 1,
        ),
        no_terminal_consumed(
            old(b).reads@,
            old(b).next_read as int,
            final(b).next_read as int - 1,
        ),
        final(a).next_read <= old(a).next_read + max_iters,
        final(b).next_read <= old(b).next_read + max_iters,
        r is StillActive ==> {
            &&& no_terminal_consumed(
                old(a).reads@,
                old(a).next_read as int,
                final(a).next_read as int,
            )
            &&& no_terminal_consumed(
                old(b).reads@,
                old(b).next_read as int,
                final(b).next_read as int,
            )
            &&& final(a).next_read as int == min_int(
                old(a).next_read + max_iters,
                final(a).reads@.len() as int,
            )
            &&& final(b).next_read as int == min_int(
                old(b).next_read + max_iters,
                final(b).reads@.len() as int,
            )
        },
        r is CleanEof ==> (ends_with_eof(
            old(a).reads@,
            old(a).next_read as int,
            final(a).next_read as int,
        ) && no_terminal_consumed(
            old(b).reads@,
            old(b).next_read as int,
            final(b).next_read as int,
        ) && peer_stopped_with_a(*old(a), *old(b), *final(a), *final(b))) || (ends_with_eof(
            old(b).reads@,
            old(b).next_read as int,
            final(b).next_read as int,
        ) && no_terminal_consumed(
            old(a).reads@,
            old(a).next_read as int,
            final(a).next_read as int,
        ) && peer_stopped_with_b(*old(a), *old(b), *final(a), *final(b))),
        r is TransportFailed ==> (ends_with_failure(
            old(a).reads@,
            old(a).next_read as int,
            final(a).next_read as int,
            old(b).write_fail,
        ) && no_terminal_consumed(
            old(b).reads@,
            old(b).next_read as int,
            final(b).next_read as int,
        ) && peer_stopped_with_a(*old(a), *old(b), *final(a), *final(b))) || (ends_with_failure(
            old(b).reads@,
            old(b).next_read as int,
            final(b).next_read as int,
            old(a).write_fail,
        ) && no_terminal_consumed(
            old(a).reads@,
            old(a).next_read as int,
            final(a).next_read as int,
        ) && peer_stopped_with_b(*old(a), *old(b), *final(a), *final(b))),
{
    let mut i: usize = 0;
    while i < max_iters
        invariant
            a.wf(),
            b.wf(),
            a.reads@ == old(a).reads@,
            b.reads@ == old(b).reads@,
            a.write_cap == old(a).write_cap,
            b.write_cap == old(b).write_cap,
            a.write_fail == old(a).write_fail,
            b.write_fail == old(b).write_fail,
            old(a).next_read <= a.next_read <= a.reads@.len(),
            old(b).next_read <= b.next_read <= b.reads@.len(),
            !old(b).write_fail ==> b.accepted@ == old(b).accepted@ + script_data(
                old(a).reads@,
                old(a).next_read as int,
                a.next_read as int,
            ),
            !old(a).write_fail ==> a.accepted@ == old(a).accepted@ + script_data(
                old(b).reads@,
                old(b).next_read as int,
                b.next_read as int,
            ),
            old(b).write_fail ==> b.accepted@ == old(b).accepted@,
            old(a).write_fail ==> a.accepted@ == old(a).accepted@,
            no_terminal_consumed(old(a).reads@, old(a).next_read as int, a.next_read as int),
            no_terminal_consumed(old(b).reads@, old(b).next_read as int, b.next_read as int),
            i <= max_iters,
            a.next_read as int == min_int(old(a).next_read + i, a.reads@.len() as int),
            b.next_read as int == min_int(old(b).next_read + i, b.reads@.len() as int),
        decreases max_iters - i,
    {
        if a.readable() {
            let ghost k: int = a.next_read as int;
            let out = handle_read_ready(a, b);
            proof {
                lemma_script_data_step(old(a).reads@, old(a).next_read as int, k);
                lemma_seq_empty_right(script_data(old(a).reads@, old(a).next_read as int, k));
            }
            match out {
                PumpOutcome::EofSeen => {
                    return RelayOutcome::CleanEof;
                },
                PumpOutcome::Failed => {
                    return RelayOutcome::TransportFailed;
                },
                _ => {},
            }
        }
        if b.readable() {
            let ghost k: int = b.next_read as int;
            let out = handle_read_ready(b, a);
            proof {
                lemma_script_data_step(old(b).reads@, old(b).next_read as int, k);
                lemma_seq_empty_right(script_data(old(b).reads@, old(b).next_read as int, k));
            }
            match out {
                PumpOutcome::EofSeen => {
                    return RelayOutcome::CleanEof;
                },
                PumpOutcome::Failed => {
                    return RelayOutcome::TransportFailed;
                },
                _ => {},
            }
        }
        i = i + 1;
    }
    RelayOutcome::StillActive
}

/// Copy a byte vector element by element.
fn clone_bytes(v: &Vec<u8>) -> (r: Vec<u8>)
    ensures
        r@ == v@,
{
    let mut r: Vec<u8> = Vec::new();
    let mut i: usize = 0;
    while i < v.len()
        invariant
            i <= v@.len(),
            r@ == v@.subrange(0, i as int),
        decreases v@.len() - i,
    {
        r.push(v[i]);
        proof {
            assert(v@.subrange(0, i + 1) =~= v@.subrange(0, i as int) + seq![v@[i as int]]);
        }
        i = i + 1;
    }
    proof {
        assert(v@.subrange(0, v@.len() as int) =~= v@);
    }
    r
}

} // verus!
