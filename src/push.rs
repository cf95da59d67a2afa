//! The push-side adapter: collects engine output in a bounded buffer and
//! delivers it to a downstream sink.
//!
//! Each `write`, `flush` or `finish` of the caller is one operation: `start`
//! it, then follow `next()` until it says `Complete` or `FlushSink`, calling
//! `drained` after each successful delivery of `pending_bytes()` and
//! `after_step` after each engine step, and end it with `complete`.

use vstd::prelude::*;
use crate::engine::{CodecState, Direction, Flush, StepReport, StepStatus, StreamError};

verus! {

/// An operation of the caller.
#[derive(Clone, Copy, Debug, PartialEq, Eq, Structural)]
pub enum PushOp {
    Write,
    Flush,
    Finish,
}

impl PushOp {
    pub open spec fn spec_flush(self) -> Flush {
        match self {
            PushOp::Write => Flush::NoFlush,
            PushOp::Flush => Flush::Sync,
            PushOp::Finish => Flush::Finish,
        }
    }

    /// The flush mode of this operation's engine steps.
    pub fn flush(&self) -> (f: Flush)
        ensures
            f == self.spec_flush(),
    {
        match self {
            PushOp::Write => Flush::NoFlush,
            PushOp::Flush => Flush::Sync,
            PushOp::Finish => Flush::Finish,
        }
    }
}

/// What the driver does next in the current operation.
#[derive(Clone, Copy, Debug, PartialEq, Eq, Structural)]
pub enum PushAction {
    /// Write all of `pending_bytes()` to the sink, then call `drained`.
    Drain,
    /// Run one engine step; its input is the caller's bytes when
    /// `with_input` holds, else empty.
    Step { flush: Flush, with_input: bool },
    /// Flush the sink itself; the operation is then over.
    FlushSink,
    /// The operation is over; a write reports this many bytes consumed.
    Complete(usize),
}

pub struct PushAdapter {
    codec: CodecState,
    buf: Vec<u8>,
    capacity: usize,
    finished: bool,
    op: PushOp,
    stepped: bool,
    more: bool,
    ended: bool,
    consumed: usize,
    produced: Ghost<Seq<u8>>,
    sent: Ghost<Seq<u8>>,
}

impl PushAdapter {
    /// The output buffer stays within its capacity, and everything the
    /// engine produced has been delivered once or is still pending, in order.
    pub closed spec fn wf(self) -> bool {
        &&& self.buf@.len() <= self.capacity
        &&& self.produced@ == self.sent@ + self.buf@
        &&& (self.stepped && self.op == PushOp::Finish && !self.more ==> self.ended)
        &&& (self.stepped && self.op == PushOp::Write ==> !self.more)
    }

    pub closed spec fn codec(self) -> CodecState {
        self.codec
    }

    pub closed spec fn spec_capacity(self) -> nat {
        self.capacity as nat
    }

    /// Engine output not yet delivered to the sink.
    pub closed spec fn pending(self) -> Seq<u8> {
        self.buf@
    }

    /// Every byte queued for the sink: what the buffer held at the start,
    /// then everything the engine produced through this adapter.
    pub closed spec fn produced(self) -> Seq<u8> {
        self.produced@
    }

    /// Every byte delivered to the sink.
    pub closed spec fn sent(self) -> Seq<u8> {
        self.sent@
    }

    /// `finish` ran to its end.
    pub closed spec fn is_finished(self) -> bool {
        self.finished
    }

    pub closed spec fn spec_op(self) -> PushOp {
        self.op
    }

    /// An engine step has run in the current operation.
    pub closed spec fn has_stepped(self) -> bool {
        self.stepped
    }

    /// The last step asked for another step in the same operation (see
    /// `steps_again`).
    pub closed spec fn wants_more(self) -> bool {
        self.more
    }

    /// The last engine step reported the end of the stream.
    pub closed spec fn last_step_ended(self) -> bool {
        self.ended
    }

    /// What the last engine step consumed.
    pub closed spec fn last_consumed(self) -> usize {
        self.consumed
    }

    /// The next action of the current operation.
    pub open spec fn spec_next(self) -> PushAction {
        let step = PushAction::Step {
            flush: self.spec_op().spec_flush(),
            with_input: self.spec_op() == PushOp::Write,
        };
        if !self.has_stepped() || self.wants_more() {
            if self.pending().len() > 0 {
                PushAction::Drain
            } else {
                step
            }
        } else if self.spec_op() == PushOp::Write {
            PushAction::Complete(self.last_consumed())
        } else if self.pending().len() > 0 {
            PushAction::Drain
        } else if self.spec_op() == PushOp::Flush {
            PushAction::FlushSink
        } else {
            PushAction::Complete(0)
        }
    }

    /// Whether operation `op` of an adapter in direction `d` steps again after
    /// a step that reported `rep` and was given `space` bytes of output room.
    ///
    /// A write makes exactly one step. A compressor's flush steps again
    /// while a step fills all its room; a decompressor's flush while a step
    /// produces output, since it may hand out held-back output a little at a
    /// time. A finish steps again until the stream ends.
    pub open spec fn steps_again(op: PushOp, d: Direction, rep: StepReport, space: int) -> bool {
        rep.status == StepStatus::Progress && match op {
            PushOp::Write => false,
            PushOp::Flush => rep.produced > 0 && (d == Direction::Decompress || rep.produced == space),
            PushOp::Finish => rep.produced > 0 || space == 0,
        }
    }

    /// A finish step that had room, produced nothing and did not end the
    /// stream fails: for a decompressor the input ended before the stream
    /// did.
    pub open spec fn finish_stall(d: Direction) -> StreamError {
        match d {
            Direction::Decompress => StreamError::Corrupt,
            Direction::Compress => StreamError::Stalled,
        }
    }

    /// Everything but the engine record and the progress of the current
    /// operation is the same in both adapters.
    pub open spec fn same_contents(self, other: Self) -> bool {
        &&& self.wf() == other.wf()
        &&& self.pending() == other.pending()
        &&& self.produced() == other.produced()
        &&& self.sent() == other.sent()
        &&& self.spec_capacity() == other.spec_capacity()
    }

    /// Both adapters are at the same point of the same operation.
    pub open spec fn same_progress(self, other: Self) -> bool {
        &&& self.spec_op() == other.spec_op()
        &&& self.has_stepped() == other.has_stepped()
        &&& self.wants_more() == other.wants_more()
        &&& self.last_step_ended() == other.last_step_ended()
        &&& self.last_consumed() == other.last_consumed()
        &&& self.is_finished() == other.is_finished()
    }

    /// An adapter around `codec` whose output buffer is `buf` and holds up to
    /// `capacity` bytes. Bytes already in `buf` are pending: they reach the
    /// sink before any engine output. The buffer must leave the engine room.
    pub fn new(codec: CodecState, buf: Vec<u8>, capacity: usize) -> (a: Self)
        requires
            buf@.len() <= capacity,
            capacity > 0,
        ensures
            a.wf(),
            a.codec() == codec,
            a.spec_capacity() == capacity,
            a.pending() == buf@,
            a.produced() == buf@,
            a.sent() == Seq::<u8>::empty(),
            !a.is_finished(),
            !a.has_stepped(),
    {
        let ghost initial = buf@;
        let a = PushAdapter {
            codec,
            buf,
            capacity,
            finished: false,
            op: PushOp::Write,
            stepped: false,
            more: false,
            ended: false,
            consumed: 0,
            produced: Ghost(initial),
            sent: Ghost(Seq::empty()),
        };
        assert(a.sent@ + a.buf@ =~= initial);
        a
    }

    pub fn codec_state(&self) -> (c: &CodecState)
        ensures
            *c == self.codec(),
    {
        &self.codec
    }

    /// Hands the engine record over for teardown.
    pub fn codec_state_mut(&mut self) -> (c: &mut CodecState)
        ensures
            *c == old(self).codec(),
            final(self).codec() == *final(c),
            final(self).same_contents(*old(self)),
            final(self).same_progress(*old(self)),
    {
        &mut self.codec
    }

    pub fn capacity(&self) -> (n: usize)
        ensures
            n == self.spec_capacity(),
    {
        self.capacity
    }

    /// Output space left for the next engine step.
    pub fn space(&self) -> (n: usize)
        requires
            self.wf(),
        ensures
            n == self.spec_capacity() - self.pending().len(),
    {
        self.capacity - self.buf.len()
    }

    pub fn finished(&self) -> (b: bool)
        ensures
            b == self.is_finished(),
    {
        self.finished
    }

    /// Whether teardown must first finish the stream: only when `finish`
    /// never ran to its end.
    pub fn needs_finish(&self) -> (b: bool)
        ensures
            b == !self.is_finished(),
    {
        !self.finished
    }

    /// Starts an operation; nothing may be written once finished.
    pub fn start(&mut self, op: PushOp)
        requires
            old(self).wf(),
            op == PushOp::Write ==> !old(self).is_finished(),
        ensures
            final(self).wf(),
            final(self).spec_op() == op,
            !final(self).has_stepped(),
            !final(self).wants_more(),
            final(self).last_consumed() == 0,
            final(self).is_finished() == old(self).is_finished(),
            final(self).codec() == old(self).codec(),
            final(self).same_contents(*old(self)),
    {
        self.op = op;
        self.stepped = false;
        self.more = false;
        self.consumed = 0;
    }

    /// What the driver does next.
    ///
    /// Pending output is always delivered before an engine step, and a step
    /// follows as long as `steps_again` says so. A write makes one step and
    /// then reports what it consumed; a flush or a finish first delivers what its steps
    /// produced. A finish completes only once the engine ended the stream.
    pub fn next(&self) -> (r: PushAction)
        requires
            self.wf(),
        ensures
            r == self.spec_next(),
            r == PushAction::FlushSink ==> self.pending().len() == 0,
            self.has_stepped() && self.spec_op() == PushOp::Write ==> r == PushAction::Complete(
                self.last_consumed(),
            ),
            r == PushAction::Complete(0) && self.spec_op() == PushOp::Finish ==> self.pending().len()
                == 0 && self.last_step_ended(),
    {
        let step = PushAction::Step { flush: self.op.flush(), with_input: self.op == PushOp::Write };
        if !self.stepped || self.more {
            if self.buf.len() > 0 {
                PushAction::Drain
            } else {
                step
            }
        } else {
            match self.op {
                PushOp::Write => PushAction::Complete(self.consumed),
                PushOp::Flush | PushOp::Finish => {
                    if self.buf.len() > 0 {
                        PushAction::Drain
                    } else if self.op == PushOp::Flush {
                        PushAction::FlushSink
                    } else {
                        PushAction::Complete(0)
                    }
                },
            }
        }
    }

    /// The bytes to deliver to the sink.
    pub fn pending_bytes(&self) -> (s: &[u8])
        ensures
            s@ == self.pending(),
    {
        self.buf.as_slice()
    }

    /// Records that the sink accepted all pending bytes: the buffer is
    /// emptied, and those bytes count as delivered.
    pub fn drained(&mut self)
        requires
            old(self).wf(),
        ensures
            final(self).wf(),
            final(self).pending() == Seq::<u8>::empty(),
            final(self).sent() == old(self).sent() + old(self).pending(),
            final(self).produced() == old(self).produced(),
            final(self).codec() == old(self).codec(),
            final(self).spec_capacity() == old(self).spec_capacity(),
            final(self).is_finished() == old(self).is_finished(),
            final(self).spec_op() == old(self).spec_op(),
            final(self).same_progress(*old(self)),
    {
        self.sent = Ghost(self.sent@ + self.buf@);
        self.buf.truncate(0);
        assert(self.produced@ =~= self.sent@ + self.buf@);
    }

    /// Checks an engine step that was offered `input_len` bytes of input and
    /// `space()` bytes of output, and wrote `output`.
    ///
    /// On success the output joins the pending bytes, the bytes consumed are
    /// kept for a write to report, and another step is asked for when the
    /// step filled all of its space before the stream ended.
    pub fn after_step(
        &mut self,
        input_len: usize,
        output: &[u8],
        new_total_in: u64,
        new_total_out: u64,
        code: i32,
    ) -> (r: Result<(), StreamError>)
        requires
            old(self).wf(),
        ensures
            final(self).wf(),
            final(self).sent() == old(self).sent(),
            final(self).spec_capacity() == old(self).spec_capacity(),
            final(self).is_finished() == old(self).is_finished(),
            final(self).spec_op() == old(self).spec_op(),
            final(self).codec().spec_direction() == old(self).codec().spec_direction(),
            final(self).codec().is_live() == old(self).codec().is_live(),
            if old(self).codec().spec_fits(input_len, (old(self).spec_capacity() - old(self).pending().len()) as usize, new_total_in, new_total_out) {
                &&& final(self).codec().spec_total_in() == new_total_in
                &&& final(self).codec().spec_total_out() == new_total_out
            } else {
                final(self).codec() == old(self).codec()
            },
            match old(self).codec().spec_settle(
                input_len,
                (old(self).spec_capacity() - old(self).pending().len()) as usize,
                new_total_in,
                new_total_out,
                code,
            ) {
                Err(e) => {
                    &&& r == Err::<(), StreamError>(e)
                    &&& final(self).pending() == old(self).pending()
                    &&& final(self).produced() == old(self).produced()
                },
                Ok(rep) => if rep.produced != output@.len() {
                    &&& r == Err::<(), StreamError>(StreamError::BadCounts)
                    &&& final(self).pending() == old(self).pending()
                    &&& final(self).produced() == old(self).produced()
                } else if old(self).spec_op() == PushOp::Finish && rep.status
                    == StepStatus::Progress && rep.produced == 0 && old(self).spec_capacity()
                    > old(self).pending().len() {
                    &&& r == Err::<(), StreamError>(
                        Self::finish_stall(old(self).codec().spec_direction()),
                    )
                    &&& final(self).pending() == old(self).pending()
                    &&& final(self).produced() == old(self).produced()
                } else {
                    let space = old(self).spec_capacity() - old(self).pending().len();
                    &&& r == Ok::<(), StreamError>(())
                    &&& final(self).pending() == old(self).pending() + output@
                    &&& final(self).produced() == old(self).produced() + output@
                    &&& final(self).has_stepped()
                    &&& final(self).last_consumed() == rep.consumed
                    &&& final(self).last_step_ended() == (rep.status == StepStatus::StreamEnd)
                    &&& final(self).wants_more() == Self::steps_again(
                        old(self).spec_op(),
                        old(self).codec().spec_direction(),
                        rep,
                        space,
                    )
                },
            },
    {
        let space = self.capacity - self.buf.len();
        let rep = match self.codec.settle(input_len, space, new_total_in, new_total_out, code) {
            Err(e) => {
                return Err(e);
            },
            Ok(rep) => rep,
        };
        if rep.produced != output.len() {
            return Err(StreamError::BadCounts);
        }
        let direction = self.codec.direction();
        if self.op == PushOp::Finish && rep.status == StepStatus::Progress && rep.produced == 0
            && space > 0 {
            return Err(
                match direction {
                    Direction::Decompress => StreamError::Corrupt,
                    Direction::Compress => StreamError::Stalled,
                },
            );
        }
        let ghost before = self.buf@;
        let ghost mid_codec = self.codec;
        let n = output.len();
        let mut i: usize = 0;
        while i < n
            invariant
                0 <= i <= n,
                n == output@.len(),
                before.len() + n <= self.capacity,
                self.buf@ == before + output@.take(i as int),
                self.capacity == old(self).capacity,
                self.sent@ == old(self).sent@,
                self.produced@ == old(self).produced@,
                self.finished == old(self).finished,
                self.op == old(self).op,
                self.codec == mid_codec,
            decreases n - i,
        {
            self.buf.push(output[i]);
            i = i + 1;
            assert(self.buf@ =~= before + output@.take(i as int));
        }
        assert(output@.take(n as int) =~= output@);
        self.produced = Ghost(self.produced@ + output@);
        assert(self.produced@ =~= self.sent@ + self.buf@);
        self.stepped = true;
        self.ended = rep.status == StepStatus::StreamEnd;
        self.consumed = rep.consumed;
        self.more = match rep.status {
            StepStatus::StreamEnd => false,
            StepStatus::Progress => match self.op {
                PushOp::Write => false,
                PushOp::Flush => rep.produced > 0 && (direction == Direction::Decompress
                    || rep.produced == space),
                PushOp::Finish => rep.produced > 0 || space == 0,
            },
        };
        Ok(())
    }

    /// Ends the current operation; a finish that got here marks the adapter
    /// finished.
    pub fn complete(&mut self)
        requires
            old(self).wf(),
        ensures
            final(self).wf(),
            final(self).is_finished() == (old(self).is_finished() || old(self).spec_op()
                == PushOp::Finish),
            !final(self).has_stepped(),
            final(self).spec_op() == old(self).spec_op(),
            final(self).codec() == old(self).codec(),
            final(self).same_contents(*old(self)),
    {
        if self.op == PushOp::Finish {
            self.finished = true;
        }
        self.stepped = false;
    }
}

/// Flushing twice in a row sends nothing twice: once a flush has reached the
/// sink's own flush, everything queued for the sink has been delivered, and a
/// second flush starts with a fresh engine step instead of a delivery, so the
/// sink then receives only what that step produces.
pub proof fn lemma_flush_twice(a: PushAdapter)
    requires
        a.wf(),
        a.spec_op() == PushOp::Flush,
        a.spec_next() == PushAction::FlushSink,
    ensures
        a.pending().len() == 0,
        a.sent() == a.produced(),
        forall|b: PushAdapter|
            b.same_contents(a) && b.spec_op() == PushOp::Flush && !b.has_stepped()
                ==> b.spec_next() == (PushAction::Step { flush: Flush::Sync, with_input: false }),
{
    assert(a.sent@ + a.buf@ =~= a.sent@);
}

/// Once a finish has run to its end, the engine has ended the stream and the
/// sink has received exactly what was queued for it: the buffer's initial
/// bytes, then the engine's whole output in the order it was produced, each
/// byte once. However the input was split into writes, the sink saw the
/// concatenation of the engine's outputs.
pub proof fn lemma_finish_delivers_all(a: PushAdapter)
    requires
        a.wf(),
        a.spec_op() == PushOp::Finish,
        a.spec_next() == PushAction::Complete(0),
    ensures
        a.last_step_ended(),
        a.pending().len() == 0,
        a.sent() == a.produced(),
{
    assert(a.sent@ + a.buf@ =~= a.sent@);
}

} // verus!
