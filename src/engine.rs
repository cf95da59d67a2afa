//! Engine parameters, flush modes and the normalisation of engine status codes.

use vstd::prelude::*;

verus! {

/// Flush code: normal operation, the engine may keep output buffered.
pub const MZ_NO_FLUSH: i32 = 0;
/// Flush code: force all pending output out, the stream stays usable.
pub const MZ_SYNC_FLUSH: i32 = 2;
/// Flush code: no more input will come, the engine completes the stream.
pub const MZ_FINISH: i32 = 4;

/// Status code: progress was made.
pub const MZ_OK: i32 = 0;
/// Status code: the logical stream is complete.
pub const MZ_STREAM_END: i32 = 1;
/// Status code: the compressed input is malformed.
pub const MZ_DATA_ERROR: i32 = -3;
/// Status code: no progress was possible for lack of input or output space.
pub const MZ_BUF_ERROR: i32 = -5;

/// Compression method code for DEFLATE.
pub const MZ_DEFLATED: i32 = 8;
/// Window size exponent; negated to ask for a raw stream.
pub const MZ_DEFAULT_WINDOW_BITS: i32 = 15;
/// Default matching strategy.
pub const MZ_DEFAULT_STRATEGY: i32 = 0;
/// Memory level handed to the compressor.
pub const MEM_LEVEL: i32 = 9;

/// The direction an engine works in.
#[derive(Clone, Copy, Debug, PartialEq, Eq, Structural)]
pub enum Direction {
    Compress,
    Decompress,
}

/// How hard the compressor tries.
#[derive(Clone, Copy, Debug, PartialEq, Eq, Structural)]
pub enum Compression {
    Store,
    Fast,
    Default,
    Best,
}

impl Compression {
    pub open spec fn spec_level(self) -> i32 {
        match self {
            Compression::Store => 0,
            Compression::Fast => 1,
            Compression::Default => 6,
            Compression::Best => 9,
        }
    }

    /// The numeric level handed to the engine.
    pub fn level(&self) -> (r: i32)
        ensures
            r == self.spec_level(),
    {
        match self {
            Compression::Store => 0,
            Compression::Fast => 1,
            Compression::Default => 6,
            Compression::Best => 9,
        }
    }
}

/// What the engine is asked to do with pending output.
#[derive(Clone, Copy, Debug, PartialEq, Eq, Structural)]
pub enum Flush {
    NoFlush,
    Sync,
    Finish,
}

impl Flush {
    pub open spec fn spec_code(self) -> i32 {
        match self {
            Flush::NoFlush => MZ_NO_FLUSH,
            Flush::Sync => MZ_SYNC_FLUSH,
            Flush::Finish => MZ_FINISH,
        }
    }

    /// The flush code handed to the engine's step.
    pub fn code(&self) -> (r: i32)
        ensures
            r == self.spec_code(),
    {
        match self {
            Flush::NoFlush => MZ_NO_FLUSH,
            Flush::Sync => MZ_SYNC_FLUSH,
            Flush::Finish => MZ_FINISH,
        }
    }
}

/// The arguments of the engine's initialisation.
#[derive(Clone, Copy, Debug, PartialEq, Eq, Structural)]
pub struct InitParams {
    pub direction: Direction,
    pub level: i32,
    pub method: i32,
    pub window_bits: i32,
    pub mem_level: i32,
    pub strategy: i32,
}

pub open spec fn spec_window_bits(raw: bool) -> i32 {
    if raw {
        -15i32
    } else {
        15i32
    }
}

/// Parameters for a new engine: raw mode drops the header and trailer by
/// negating the window exponent; the level matters only when compressing.
pub fn init_params(direction: Direction, raw: bool, level: Compression) -> (p: InitParams)
    ensures
        p.direction == direction,
        p.window_bits == spec_window_bits(raw),
        p.level == (if direction == Direction::Compress { level.spec_level() } else { 0i32 }),
        p.method == MZ_DEFLATED,
        p.mem_level == MEM_LEVEL,
        p.strategy == MZ_DEFAULT_STRATEGY,
{
    let window_bits: i32 = if raw {
        -MZ_DEFAULT_WINDOW_BITS
    } else {
        MZ_DEFAULT_WINDOW_BITS
    };
    let lv: i32 = match direction {
        Direction::Compress => level.level(),
        Direction::Decompress => 0,
    };
    InitParams {
        direction,
        level: lv,
        method: MZ_DEFLATED,
        window_bits,
        mem_level: MEM_LEVEL,
        strategy: MZ_DEFAULT_STRATEGY,
    }
}

/// An error that ends the current read or write call.
#[derive(Clone, Copy, Debug, PartialEq, Eq, Structural)]
pub enum StreamError {
    /// The compressed input is malformed or truncated.
    Corrupt,
    /// The engine returned a status outside the expected set: a usage bug.
    Unexpected(i32),
    /// The engine's running totals moved backwards or beyond the buffers.
    BadCounts,
    /// A compressor asked to finish made no progress and did not end the
    /// stream.
    Stalled,
}

/// A status that lets the adapter go on.
#[derive(Clone, Copy, Debug, PartialEq, Eq, Structural)]
pub enum StepStatus {
    /// Progress, or no progress for want of input or output space.
    Progress,
    /// The logical stream is complete.
    StreamEnd,
}

/// How a status code of a step in direction `d` is understood.
pub open spec fn spec_classify(d: Direction, code: i32) -> Result<StepStatus, StreamError> {
    if code == MZ_OK || code == MZ_BUF_ERROR {
        Ok(StepStatus::Progress)
    } else if code == MZ_STREAM_END {
        Ok(StepStatus::StreamEnd)
    } else if code == MZ_DATA_ERROR {
        Err(StreamError::Corrupt)
    } else {
        Err(StreamError::Unexpected(code))
    }
}

/// Normalises a status code of one engine step.
pub fn classify(d: Direction, code: i32) -> (r: Result<StepStatus, StreamError>)
    ensures
        r == spec_classify(d, code),
{
    if code == MZ_OK || code == MZ_BUF_ERROR {
        Ok(StepStatus::Progress)
    } else if code == MZ_STREAM_END {
        Ok(StepStatus::StreamEnd)
    } else if code == MZ_DATA_ERROR {
        Err(StreamError::Corrupt)
    } else {
        Err(StreamError::Unexpected(code))
    }
}

/// What one engine step did, once its report was checked.
#[derive(Clone, Copy, Debug, PartialEq, Eq, Structural)]
pub struct StepReport {
    pub consumed: usize,
    pub produced: usize,
    pub status: StepStatus,
}

/// The adapter's record of one engine: its direction, the running totals it
/// reported last, and whether its native state is live.
pub struct CodecState {
    direction: Direction,
    total_in: u64,
    total_out: u64,
    live: bool,
}

impl CodecState {
    pub closed spec fn spec_direction(self) -> Direction {
        self.direction
    }

    pub closed spec fn spec_total_in(self) -> u64 {
        self.total_in
    }

    pub closed spec fn spec_total_out(self) -> u64 {
        self.total_out
    }

    /// The native engine state is initialised and not yet torn down.
    pub closed spec fn is_live(self) -> bool {
        self.live
    }

    /// The record once the native state was torn down.
    pub closed spec fn spec_released(self) -> Self {
        CodecState { live: false, ..self }
    }

    /// The record of an engine that was just initialised with the status
    /// `code`; it is live exactly when initialisation succeeded.
    pub fn new(direction: Direction, code: i32) -> (s: Self)
        ensures
            s.spec_direction() == direction,
            s.spec_total_in() == 0,
            s.spec_total_out() == 0,
            s.is_live() == (code == MZ_OK),
    {
        CodecState { direction, total_in: 0, total_out: 0, live: code == MZ_OK }
    }

    pub fn direction(&self) -> (d: Direction)
        ensures
            d == self.spec_direction(),
    {
        self.direction
    }

    pub fn is_initialized(&self) -> (b: bool)
        ensures
            b == self.is_live(),
    {
        self.live
    }

    /// Marks the engine as torn down. Returns whether the native teardown
    /// must run now: true only for a live engine, so a second call never
    /// tears down again.
    pub fn release(&mut self) -> (teardown: bool)
        ensures
            teardown == old(self).is_live(),
            *final(self) == old(self).spec_released(),
    {
        let t = self.live;
        self.live = false;
        t
    }

    /// The running totals `new_total_in` and `new_total_out` moved forward
    /// from the recorded ones by no more than the space that was offered.
    pub open spec fn spec_fits(
        self,
        avail_in: usize,
        avail_out: usize,
        new_total_in: u64,
        new_total_out: u64,
    ) -> bool {
        &&& self.spec_total_in() <= new_total_in
        &&& self.spec_total_out() <= new_total_out
        &&& new_total_in - self.spec_total_in() <= avail_in
        &&& new_total_out - self.spec_total_out() <= avail_out
    }

    /// The outcome of a step whose report is `code` and the new totals.
    pub open spec fn spec_settle(
        self,
        avail_in: usize,
        avail_out: usize,
        new_total_in: u64,
        new_total_out: u64,
        code: i32,
    ) -> Result<StepReport, StreamError> {
        if !self.spec_fits(avail_in, avail_out, new_total_in, new_total_out) {
            Err(StreamError::BadCounts)
        } else {
            match spec_classify(self.spec_direction(), code) {
                Ok(status) => Ok(
                    StepReport {
                        consumed: (new_total_in - self.spec_total_in()) as usize,
                        produced: (new_total_out - self.spec_total_out()) as usize,
                        status,
                    },
                ),
                Err(e) => Err(e),
            }
        }
    }

    /// Checks the report of one step, given the input and output space it
    /// was offered and the running totals the engine now shows.
    ///
    /// The totals are taken over when they moved forward within those
    /// bounds; the step then succeeds exactly when its status lets the
    /// adapter go on, and the bytes consumed and produced are the growth of
    /// the totals.
    pub fn settle(
        &mut self,
        avail_in: usize,
        avail_out: usize,
        new_total_in: u64,
        new_total_out: u64,
        code: i32,
    ) -> (r: Result<StepReport, StreamError>)
        ensures
            r == old(self).spec_settle(avail_in, avail_out, new_total_in, new_total_out, code),
            final(self).spec_direction() == old(self).spec_direction(),
            final(self).is_live() == old(self).is_live(),
            if old(self).spec_fits(avail_in, avail_out, new_total_in, new_total_out) {
                &&& final(self).spec_total_in() == new_total_in
                &&& final(self).spec_total_out() == new_total_out
            } else {
                *final(self) == *old(self)
            },
    {
        if new_total_in < self.total_in || new_total_out < self.total_out {
            return Err(StreamError::BadCounts);
        }
        let din: u64 = new_total_in - self.total_in;
        let dout: u64 = new_total_out - self.total_out;
        if din > avail_in as u64 || dout > avail_out as u64 {
            return Err(StreamError::BadCounts);
        }
        self.total_in = new_total_in;
        self.total_out = new_total_out;
        match classify(self.direction, code) {
            Ok(status) => Ok(StepReport { consumed: din as usize, produced: dout as usize, status }),
            Err(e) => Err(e),
        }
    }
}

/// The native engine state is torn down at most once: after a release,
/// however many further releases follow, none asks for another teardown.
pub proof fn lemma_release_once(c: CodecState)
    ensures
        !c.spec_released().is_live(),
        c.spec_released().spec_released() == c.spec_released(),
        c.spec_released().spec_direction() == c.spec_direction(),
{
}

/// A malformed-data status always becomes a corrupt-stream error, in either
/// direction.
pub proof fn lemma_data_error_is_corrupt(
    c: CodecState,
    avail_in: usize,
    avail_out: usize,
    new_total_in: u64,
    new_total_out: u64,
)
    requires
        c.spec_fits(avail_in, avail_out, new_total_in, new_total_out),
    ensures
        c.spec_settle(avail_in, avail_out, new_total_in, new_total_out, MZ_DATA_ERROR) == Err::<
            StepReport,
            StreamError,
        >(StreamError::Corrupt),
{
}

} // verus!
