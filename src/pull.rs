//! The pull-side adapter: reads from an upstream source through a fixed-size
//! staging buffer and lets the engine write straight into the caller's buffer.
//!
//! One `read` of the caller is driven as follows: `begin`, then, as it asks,
//! `refill` with what the source gave, one engine step over `input()` with
//! `flush_mode()`, and `after_step`; on `Again` the round starts over.

use vstd::prelude::*;
use vstd::slice::slice_subrange;
use crate::engine::{CodecState, Direction, Flush, StepStatus, StreamError};

verus! {

/// What the driver does first in a round of `read`.
#[derive(Clone, Copy, Debug, PartialEq, Eq, Structural)]
pub enum PullAction {
    /// The read is over without an engine step: it returns this many bytes.
    Return(usize),
    /// Read up to this many bytes from the source and hand them to `refill`.
    Refill(usize),
    /// Run one engine step now.
    Step,
}

/// What the driver does after an engine step.
#[derive(Clone, Copy, Debug, PartialEq, Eq, Structural)]
pub enum PullNext {
    /// Nothing was produced yet and more input may come: start a new round.
    Again,
    /// The read returns this many bytes.
    Return(usize),
    /// The read fails.
    Fail(StreamError),
}

pub struct PullAdapter {
    codec: CodecState,
    buf: Vec<u8>,
    pos: usize,
    cap: usize,
    eof: bool,
    ended: bool,
    pulled: Ghost<Seq<u8>>,
    taken: Ghost<Seq<u8>>,
}

impl PullAdapter {
    /// Staging buffer positions are in order and every byte read from the
    /// source has either gone to the engine or is still pending, in order.
    pub closed spec fn wf(self) -> bool {
        &&& self.pos <= self.cap <= self.buf@.len()
        &&& self.pulled@ == self.taken@ + self.buf@.subrange(self.pos as int, self.cap as int)
    }

    pub closed spec fn codec(self) -> CodecState {
        self.codec
    }

    /// The size of the staging buffer.
    pub closed spec fn spec_capacity(self) -> nat {
        self.buf@.len()
    }

    pub closed spec fn spec_position(self) -> nat {
        self.pos as nat
    }

    pub closed spec fn spec_filled(self) -> nat {
        self.cap as nat
    }

    /// The whole staging buffer.
    pub closed spec fn spec_staging(self) -> Seq<u8> {
        self.buf@
    }

    /// Bytes read from the source and not yet given to the engine.
    pub closed spec fn pending(self) -> Seq<u8> {
        self.buf@.subrange(self.pos as int, self.cap as int)
    }

    /// Every byte read from the source so far.
    pub closed spec fn pulled(self) -> Seq<u8> {
        self.pulled@
    }

    /// Every byte given to the engine so far.
    pub closed spec fn taken(self) -> Seq<u8> {
        self.taken@
    }

    /// The last refill in this round found the source exhausted.
    pub closed spec fn at_eof(self) -> bool {
        self.eof
    }

    /// The engine reported the end of the logical stream.
    pub closed spec fn has_ended(self) -> bool {
        self.ended
    }

    /// An adapter around `codec` whose staging buffer is `buf`.
    pub fn new(codec: CodecState, buf: Vec<u8>) -> (a: Self)
        ensures
            a.wf(),
            a.codec() == codec,
            a.spec_capacity() == buf@.len(),
            a.spec_staging() == buf@,
            a.spec_position() == 0,
            a.spec_filled() == 0,
            a.pending() == Seq::<u8>::empty(),
            a.pulled() == Seq::<u8>::empty(),
            a.taken() == Seq::<u8>::empty(),
            !a.at_eof(),
            !a.has_ended(),
    {
        let a = PullAdapter {
            codec,
            buf,
            pos: 0,
            cap: 0,
            eof: false,
            ended: false,
            pulled: Ghost(Seq::empty()),
            taken: Ghost(Seq::empty()),
        };
        assert(a.buf@.subrange(0, 0) =~= Seq::<u8>::empty());
        a
    }

    pub fn codec_state(&self) -> (c: &CodecState)
        ensures
            *c == self.codec(),
    {
        &self.codec
    }

    /// Hands the engine record over for teardown.
    pub fn codec_state_mut(&mut self) -> (c: &mut CodecState)
        ensures
            *c == old(self).codec(),
            final(self).codec() == *final(c),
            final(self).pending() == old(self).pending(),
            final(self).pulled() == old(self).pulled(),
            final(self).taken() == old(self).taken(),
            final(self).spec_capacity() == old(self).spec_capacity(),
            final(self).at_eof() == old(self).at_eof(),
            final(self).has_ended() == old(self).has_ended(),
            final(self).wf() == old(self).wf(),
    {
        &mut self.codec
    }

    /// Where the pending input starts in the staging buffer.
    pub fn position(&self) -> (n: usize)
        requires
            self.wf(),
        ensures
            n == self.spec_position(),
            n <= self.spec_filled(),
    {
        self.pos
    }

    /// Where the pending input ends in the staging buffer.
    pub fn filled(&self) -> (n: usize)
        requires
            self.wf(),
        ensures
            n == self.spec_filled(),
            n <= self.spec_capacity(),
    {
        self.cap
    }

    /// The whole staging buffer; the pending input is the part from
    /// `position()` to `filled()`.
    pub fn staging(&self) -> (s: &[u8])
        requires
            self.wf(),
        ensures
            s@.len() == self.spec_capacity(),
            s@.subrange(self.spec_position() as int, self.spec_filled() as int) == self.pending(),
    {
        self.buf.as_slice()
    }

    pub fn capacity(&self) -> (n: usize)
        ensures
            n == self.spec_capacity(),
    {
        self.buf.len()
    }

    /// Starts a round of a read into a caller's buffer of `out_len` bytes.
    ///
    /// An empty caller buffer, or a stream that has ended, reads nothing.
    /// Otherwise the source is read first when nothing is pending.
    pub fn begin(&mut self, out_len: usize) -> (r: PullAction)
        requires
            old(self).wf(),
        ensures
            final(self).wf(),
            r == (if out_len == 0 || old(self).has_ended() {
                PullAction::Return(0)
            } else if old(self).pending().len() == 0 {
                PullAction::Refill(old(self).spec_capacity() as usize)
            } else {
                PullAction::Step
            }),
            !final(self).at_eof(),
            final(self).codec() == old(self).codec(),
            final(self).pending() == old(self).pending(),
            final(self).pulled() == old(self).pulled(),
            final(self).taken() == old(self).taken(),
            final(self).spec_capacity() == old(self).spec_capacity(),
            final(self).has_ended() == old(self).has_ended(),
            final(self).spec_position() == old(self).spec_position(),
            final(self).spec_filled() == old(self).spec_filled(),
            final(self).spec_staging() == old(self).spec_staging(),
    {
        self.eof = false;
        if out_len == 0 || self.ended {
            PullAction::Return(0)
        } else if self.pos == self.cap {
            PullAction::Refill(self.buf.len())
        } else {
            PullAction::Step
        }
    }

    /// Takes in what the source gave: `data` becomes the pending input, and
    /// an empty `data` marks the source as exhausted for this round.
    pub fn refill(&mut self, data: &[u8])
        requires
            old(self).wf(),
            old(self).pending().len() == 0,
            data@.len() <= old(self).spec_capacity(),
        ensures
            final(self).wf(),
            final(self).pending() == data@,
            final(self).pulled() == old(self).pulled() + data@,
            final(self).taken() == old(self).taken(),
            final(self).at_eof() == (data@.len() == 0),
            final(self).codec() == old(self).codec(),
            final(self).spec_capacity() == old(self).spec_capacity(),
            final(self).has_ended() == old(self).has_ended(),
            final(self).spec_position() == 0,
            final(self).spec_filled() == data@.len(),
            final(self).spec_staging().len() == old(self).spec_staging().len(),
    {
        let ghost before = self.pulled@;
        proof {
            assert(self.buf@.subrange(self.pos as int, self.cap as int) =~= Seq::<u8>::empty());
            assert(before =~= self.taken@);
        }
        let n = data.len();
        let mut i: usize = 0;
        while i < n
            invariant
                0 <= i <= n,
                n == data@.len(),
                n <= self.buf@.len(),
                self.buf@.len() == old(self).buf@.len(),
                forall|k: int| 0 <= k < i ==> self.buf@[k] == data@[k],
                self.taken@ == old(self).taken@,
                self.codec == old(self).codec,
                self.ended == old(self).ended,
            decreases n - i,
        {
            self.buf.set(i, data[i]);
            i = i + 1;
        }
        self.pos = 0;
        self.cap = n;
        self.eof = n == 0;
        self.pulled = Ghost(before + data@);
        proof {
            assert(self.buf@.subrange(0, n as int) =~= data@);
        }
    }

    /// The pending input for the next engine step.
    pub fn input(&self) -> (s: &[u8])
        requires
            self.wf(),
        ensures
            s@ == self.pending(),
    {
        slice_subrange(self.buf.as_slice(), self.pos, self.cap)
    }

    /// The flush mode of the next engine step: the stream is finished once
    /// the source is exhausted.
    pub fn flush_mode(&self) -> (f: Flush)
        ensures
            f == (if self.at_eof() { Flush::Finish } else { Flush::NoFlush }),
    {
        if self.eof {
            Flush::Finish
        } else {
            Flush::NoFlush
        }
    }

    /// Checks an engine step that was offered `input()` and a caller's buffer
    /// of `out_len` bytes, and decides how the read goes on.
    ///
    /// The consumed bytes leave the pending input. When nothing was produced,
    /// the stream has not ended and the source was not exhausted, another
    /// round is needed: a read returns zero bytes only at the end of the
    /// stream or of the source. A decompressor whose source ran dry before
    /// the end of the stream reports a corrupt stream.
    pub fn after_step(
        &mut self,
        out_len: usize,
        new_total_in: u64,
        new_total_out: u64,
        code: i32,
    ) -> (r: PullNext)
        requires
            old(self).wf(),
        ensures
            final(self).spec_filled() == old(self).spec_filled(),
            final(self).spec_staging() == old(self).spec_staging(),
            final(self).wf(),
            final(self).spec_capacity() == old(self).spec_capacity(),
            final(self).at_eof() == old(self).at_eof(),
            final(self).pulled() == old(self).pulled(),
            final(self).codec().spec_direction() == old(self).codec().spec_direction(),
            final(self).codec().is_live() == old(self).codec().is_live(),
            if old(self).codec().spec_fits(old(self).pending().len() as usize, out_len, new_total_in, new_total_out) {
                &&& final(self).codec().spec_total_in() == new_total_in
                &&& final(self).codec().spec_total_out() == new_total_out
            } else {
                final(self).codec() == old(self).codec()
            },
            match old(self).codec().spec_settle(
                old(self).pending().len() as usize,
                out_len,
                new_total_in,
                new_total_out,
                code,
            ) {
                Err(e) => {
                    &&& r == PullNext::Fail(e)
                    &&& final(self).spec_position() == old(self).spec_position()
                    &&& final(self).pending() == old(self).pending()
                    &&& final(self).taken() == old(self).taken()
                    &&& final(self).has_ended() == old(self).has_ended()
                },
                Ok(rep) => {
                    &&& final(self).spec_position() == old(self).spec_position() + rep.consumed
                    &&& final(self).pending() == old(self).pending().skip(rep.consumed as int)
                    &&& final(self).taken() == old(self).taken() + old(self).pending().take(
                        rep.consumed as int,
                    )
                    &&& final(self).has_ended() == (old(self).has_ended() || rep.status
                        == StepStatus::StreamEnd)
                    &&& r == (if rep.status == StepStatus::StreamEnd || rep.produced > 0 {
                        PullNext::Return(rep.produced)
                    } else if !old(self).at_eof() {
                        PullNext::Again
                    } else if old(self).codec().spec_direction() == Direction::Decompress {
                        PullNext::Fail(StreamError::Corrupt)
                    } else {
                        PullNext::Return(0)
                    })
                },
            },
            r == PullNext::Return(0) ==> old(self).at_eof() || final(self).has_ended(),
    {
        let avail_in = self.cap - self.pos;
        match self.codec.settle(avail_in, out_len, new_total_in, new_total_out, code) {
            Err(e) => PullNext::Fail(e),
            Ok(rep) => {
                let ghost old_pending = self.buf@.subrange(self.pos as int, self.cap as int);
                let ghost moved = old_pending.take(rep.consumed as int);
                self.pos = self.pos + rep.consumed;
                self.taken = Ghost(self.taken@ + moved);
                proof {
                    assert(self.buf@.subrange(self.pos as int, self.cap as int) =~= old_pending.skip(
                        rep.consumed as int,
                    ));
                    assert(old_pending =~= moved + old_pending.skip(rep.consumed as int));
                    assert(self.pulled@ =~= self.taken@ + self.buf@.subrange(
                        self.pos as int,
                        self.cap as int,
                    ));
                }
                match rep.status {
                    StepStatus::StreamEnd => {
                        self.ended = true;
                        PullNext::Return(rep.produced)
                    },
                    StepStatus::Progress => {
                        if rep.produced > 0 {
                            PullNext::Return(rep.produced)
                        } else if !self.eof {
                            PullNext::Again
                        } else {
                            match self.codec.direction() {
                                Direction::Decompress => PullNext::Fail(StreamError::Corrupt),
                                Direction::Compress => PullNext::Return(0),
                            }
                        }
                    },
                }
            },
        }
    }
}

/// Every byte read from the source reaches the engine exactly once and in
/// order: what the engine has taken followed by what is pending is what the
/// source gave, so once nothing is pending the engine has taken it all.
pub proof fn lemma_source_fed_in_order(a: PullAdapter)
    requires
        a.wf(),
    ensures
        a.taken() + a.pending() == a.pulled(),
        a.pending().len() == 0 ==> a.taken() == a.pulled(),
{
    assert(a.pending().len() == 0 ==> a.taken() + a.pending() =~= a.taken());
}

} // verus!
