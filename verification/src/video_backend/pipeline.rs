//! The batching pipeline: block queue, producer-facing controller, worker
//! state machine and an in-memory encoder sink.
//!
//! Frames flow producer-side into a [`VideoBackendController`], which batches
//! them into blocks; full blocks are pushed into a [`BlockQueue`]; a worker
//! drains the queue and writes each contained frame, in order, into a sink.
//! Block boundaries are a batching detail: the delivered byte stream is
//! exactly the submitted frames concatenated in submission order.

use std::collections::VecDeque;
use vstd::prelude::*;

verus! {

/// An error of the running pipeline.
#[derive(Debug, Clone, Copy, PartialEq, Eq, Structural)]
pub enum PipelineError {
    /// A submitted buffer's length differs from the configured frame length.
    WrongFrameLength,
    /// A frame write into the encoder sink failed.
    SinkWrite,
    /// Closing the sink failed: a flush failure or a non-zero encoder exit.
    SinkClose,
}

/// A signal from the producer to the worker: a new block is available, or
/// the stream is over and the worker should drain what is queued and exit.
#[derive(Debug, Clone, Copy, PartialEq, Eq, Structural)]
pub enum FrameMessage {
    Frame,
    End,
}

/// The outcome of writing one frame to the sink, as the worker's driver
/// reports it back to the worker state machine.
#[derive(Debug, Clone, Copy, PartialEq, Eq, Structural)]
pub enum FrameDoneMessage {
    Written,
    Failed,
}

/// Whether the worker is actively draining the queue or blocked waiting for
/// a wake signal.
#[derive(Debug, Clone, Copy, PartialEq, Eq, Structural)]
pub enum VideoBackendState {
    Running,
    Sleeping,
}

/// The views of the frames of one block.
pub open spec fn frames_of(b: Seq<Vec<u8>>) -> Seq<Seq<u8>> {
    b.map_values(|f: Vec<u8>| f@)
}

/// Every frame held by a sequence of queued blocks, front block first, in
/// frame order inside each block.
pub open spec fn queued_frames(blocks: Seq<Vec<Vec<u8>>>) -> Seq<Seq<u8>>
    decreases blocks.len(),
{
    if blocks.len() == 0 {
        Seq::empty()
    } else {
        frames_of(blocks[0]@) + queued_frames(blocks.drop_first())
    }
}

/// The byte stream obtained by writing the given frames in order.
pub open spec fn concat_bytes(frames: Seq<Seq<u8>>) -> Seq<u8>
    decreases frames.len(),
{
    if frames.len() == 0 {
        Seq::empty()
    } else {
        frames[0] + concat_bytes(frames.drop_first())
    }
}

pub proof fn lemma_frames_of_push(b: Seq<Vec<u8>>, f: Vec<u8>)
    ensures
        frames_of(b.push(f)) == frames_of(b).push(f@),
{
    assert(frames_of(b.push(f)) =~= frames_of(b).push(f@));
}

pub proof fn lemma_queued_frames_push(blocks: Seq<Vec<Vec<u8>>>, b: Vec<Vec<u8>>)
    ensures
        queued_frames(blocks.push(b)) == queued_frames(blocks) + frames_of(b@),
    decreases blocks.len(),
{
    if blocks.len() == 0 {
        assert(blocks.push(b).drop_first() =~= blocks);
        assert(queued_frames(blocks.push(b)) =~= queued_frames(blocks) + frames_of(b@));
    } else {
        assert(blocks.push(b).drop_first() =~= blocks.drop_first().push(b));
        lemma_queued_frames_push(blocks.drop_first(), b);
        assert(queued_frames(blocks.push(b)) =~= queued_frames(blocks) + frames_of(b@));
    }
}

pub proof fn lemma_concat_bytes_push(frames: Seq<Seq<u8>>, f: Seq<u8>)
    ensures
        concat_bytes(frames.push(f)) == concat_bytes(frames) + f,
    decreases frames.len(),
{
    if frames.len() == 0 {
        assert(frames.push(f).drop_first() =~= frames);
        assert(concat_bytes(frames.push(f)) =~= concat_bytes(frames) + f);
    } else {
        assert(frames.push(f).drop_first() =~= frames.drop_first().push(f));
        lemma_concat_bytes_push(frames.drop_first(), f);
        assert(concat_bytes(frames.push(f)) =~= concat_bytes(frames) + f);
    }
}

pub proof fn lemma_concat_bytes_append(a: Seq<Seq<u8>>, b: Seq<Seq<u8>>)
    ensures
        concat_bytes(a + b) == concat_bytes(a) + concat_bytes(b),
    decreases a.len(),
{
    if a.len() == 0 {
        assert(a + b =~= b);
        assert(concat_bytes(a) =~= Seq::empty());
        assert(concat_bytes(a + b) =~= concat_bytes(a) + concat_bytes(b));
    } else {
        assert((a + b).drop_first() =~= a.drop_first() + b);
        lemma_concat_bytes_append(a.drop_first(), b);
        assert(concat_bytes(a + b) =~= concat_bytes(a) + concat_bytes(b));
    }
}

/// Thread-safe FIFO of frame blocks, the single shared resource between the
/// producer and the worker; callers hold it behind one mutual-exclusion
/// boundary and move whole blocks through it. Pop attempts are counted so a
/// test can observe that a sleeping worker never polls the queue.
pub struct BlockQueue {
    blocks: VecDeque<Vec<Vec<u8>>>,
    pop_attempts: u64,
}

impl BlockQueue {
    /// The queued blocks, front first.
    pub closed spec fn contents(self) -> Seq<Vec<Vec<u8>>> {
        self.blocks@
    }

    /// Every queued frame, in delivery order.
    pub open spec fn spec_frames(self) -> Seq<Seq<u8>> {
        queued_frames(self.contents())
    }

    /// How many pop attempts were made against this queue.
    pub closed spec fn spec_pop_attempts(self) -> u64 {
        self.pop_attempts
    }

    /// A fresh, empty queue.
    pub fn new() -> (q: Self)
        ensures
            q.contents() == Seq::<Vec<Vec<u8>>>::empty(),
            q.spec_pop_attempts() == 0,
    {
        BlockQueue { blocks: VecDeque::new(), pop_attempts: 0 }
    }

    /// How many blocks are queued.
    pub fn len(&self) -> (n: usize)
        ensures
            n == self.contents().len(),
    {
        self.blocks.len()
    }

    /// Appends one complete block at the back.
    pub fn push_block(&mut self, block: Vec<Vec<u8>>)
        ensures
            final(self).contents() == old(self).contents().push(block),
            final(self).spec_pop_attempts() == old(self).spec_pop_attempts(),
            final(self).spec_frames() == old(self).spec_frames() + frames_of(block@),
    {
        proof {
            lemma_queued_frames_push(self.blocks@, block);
        }
        self.blocks.push_back(block);
    }

    /// Takes the front block, if any; every call is counted as one pop
    /// attempt.
    pub fn pop_block(&mut self) -> (r: Option<Vec<Vec<u8>>>)
        ensures
            old(self).spec_pop_attempts() < u64::MAX ==> final(self).spec_pop_attempts()
                == old(self).spec_pop_attempts() + 1,
            final(self).spec_pop_attempts() <= old(self).spec_pop_attempts() + 1,
            old(self).contents().len() == 0 ==> r is None && final(self).contents()
                == old(self).contents(),
            old(self).contents().len() > 0 ==> r == Some(old(self).contents()[0])
                && final(self).contents() == old(self).contents().drop_first(),
    {
        if self.pop_attempts < u64::MAX {
            self.pop_attempts = self.pop_attempts + 1;
        }
        let r = self.blocks.pop_front();
        proof {
            if old(self).contents().len() > 0 {
                let pre = old(self).contents();
                assert(pre.subrange(1, pre.len() as int) =~= pre.drop_first());
            }
        }
        r
    }

    /// The number of pop attempts made so far.
    pub fn pop_attempts(&self) -> (n: u64)
        ensures
            n == self.spec_pop_attempts(),
    {
        self.pop_attempts
    }
}

/// An in-memory encoder sink: the byte-oriented destination the worker
/// writes into when no external process or file is wanted, and the fake sink
/// the pipeline's behaviour is observed through. It can be configured to
/// accept only a bounded number of frames and then fail every further write,
/// like an encoder whose pipe broke mid-stream.
pub struct MemorySink {
    received: Vec<u8>,
    frames: Ghost<Seq<Seq<u8>>>,
    frames_accepted: usize,
    writes_attempted: u64,
    fail_after: Option<usize>,
}

impl MemorySink {
    /// The frames this sink has accepted, in order.
    pub closed spec fn spec_frames(self) -> Seq<Seq<u8>> {
        self.frames@
    }

    /// Every byte this sink has accepted, in order.
    pub closed spec fn spec_bytes(self) -> Seq<u8> {
        self.received@
    }

    /// How many frames the sink accepts before failing, if bounded.
    pub closed spec fn spec_fail_after(self) -> Option<usize> {
        self.fail_after
    }

    /// How many frame writes were attempted against this sink.
    pub closed spec fn spec_writes_attempted(self) -> u64 {
        self.writes_attempted
    }

    /// The executable mirror of the accepted-frame count.
    pub closed spec fn spec_frames_accepted(self) -> usize {
        self.frames_accepted
    }

    /// The sink's accounting is consistent: its byte stream is exactly its
    /// accepted frames concatenated, and a bounded sink never accepted more
    /// than its bound.
    pub open spec fn wf(self) -> bool {
        &&& self.spec_bytes() == concat_bytes(self.spec_frames())
        &&& self.spec_frames_accepted() == self.spec_frames().len()
        &&& (self.spec_fail_after() matches Some(k) ==> self.spec_frames().len() <= k)
    }

    /// How many more frames the sink will accept; `None` for unbounded.
    pub open spec fn spec_capacity_left(self) -> Option<int> {
        match self.spec_fail_after() {
            None => None,
            Some(k) => Some(k - self.spec_frames().len()),
        }
    }

    /// Whether the next write will be accepted.
    pub open spec fn spec_can_accept(self) -> bool {
        match self.spec_fail_after() {
            None => true,
            Some(k) => self.spec_frames().len() < k,
        }
    }

    /// A sink that accepts every write.
    pub fn new() -> (s: Self)
        ensures
            s.wf(),
            s.spec_frames() == Seq::<Seq<u8>>::empty(),
            s.spec_fail_after() is None,
            s.spec_writes_attempted() == 0,
    {
        MemorySink {
            received: Vec::new(),
            frames: Ghost(Seq::empty()),
            frames_accepted: 0,
            writes_attempted: 0,
            fail_after: None,
        }
    }

    /// A sink that accepts exactly `k` frames and then fails every write.
    pub fn failing_after(k: usize) -> (s: Self)
        ensures
            s.wf(),
            s.spec_frames() == Seq::<Seq<u8>>::empty(),
            s.spec_fail_after() == Some(k),
            s.spec_writes_attempted() == 0,
    {
        MemorySink {
            received: Vec::new(),
            frames: Ghost(Seq::empty()),
            frames_accepted: 0,
            writes_attempted: 0,
            fail_after: Some(k),
        }
    }

    /// Writes one frame's bytes verbatim at the end of the stream, or fails
    /// without touching the stream once the configured bound is reached.
    pub fn write_frame(&mut self, data: &Vec<u8>) -> (r: Result<(), PipelineError>)
        requires
            old(self).wf(),
            old(self).spec_bytes().len() + data@.len() <= usize::MAX,
            old(self).spec_frames().len() < usize::MAX,
        ensures
            final(self).wf(),
            final(self).spec_fail_after() == old(self).spec_fail_after(),
            old(self).spec_writes_attempted() < u64::MAX ==> final(self).spec_writes_attempted()
                == old(self).spec_writes_attempted() + 1,
            final(self).spec_writes_attempted() <= old(self).spec_writes_attempted() + 1,
            old(self).spec_can_accept() ==> r is Ok
                && final(self).spec_frames() == old(self).spec_frames().push(data@)
                && final(self).spec_bytes() == old(self).spec_bytes() + data@,
            !old(self).spec_can_accept() ==> r == Result::<(), PipelineError>::Err(
                PipelineError::SinkWrite,
            ) && final(self).spec_frames() == old(self).spec_frames() && final(self).spec_bytes()
                == old(self).spec_bytes(),
    {
        if self.writes_attempted < u64::MAX {
            self.writes_attempted = self.writes_attempted + 1;
        }
        let accept: bool = match self.fail_after {
            None => true,
            Some(k) => self.frames_accepted < k,
        };
        if !accept {
            return Err(PipelineError::SinkWrite);
        }
        let ghost wa = self.writes_attempted;
        let mut j: usize = 0;
        while j < data.len()
            invariant
                j <= data@.len(),
                self.received@ == old(self).spec_bytes() + data@.take(j as int),
                old(self).spec_bytes().len() + data@.len() <= usize::MAX,
                self.frames == old(self).frames,
                self.frames_accepted == old(self).frames_accepted,
                self.fail_after == old(self).fail_after,
                self.writes_attempted == wa,
            decreases data@.len() - j,
        {
            self.received.push(data[j]);
            j = j + 1;
            proof {
                let pre = old(self).spec_bytes();
                assert(pre + data@.take(j - 1) + seq![data@[j - 1]] =~= pre + data@.take(j as int));
            }
        }
        proof {
            assert(data@.take(data@.len() as int) =~= data@);
        }
        self.frames = Ghost(self.frames@.push(data@));
        self.frames_accepted = self.frames_accepted + 1;
        proof {
            lemma_concat_bytes_push(old(self).spec_frames(), data@);
        }
        Ok(())
    }

    /// The accepted byte stream.
    pub fn bytes(&self) -> (r: &Vec<u8>)
        ensures
            r@ == self.spec_bytes(),
    {
        &self.received
    }

    /// How many frames were accepted.
    pub fn frames_accepted(&self) -> (n: usize)
        ensures
            n == self.spec_frames_accepted(),
    {
        self.frames_accepted
    }

    /// How many frame writes were attempted, accepted or not.
    pub fn writes_attempted(&self) -> (n: u64)
        ensures
            n == self.spec_writes_attempted(),
    {
        self.writes_attempted
    }
}

/// Whether a sink with the given capacity left accepts `n` more frames.
pub open spec fn sink_fits(capacity_left: Option<int>, n: int) -> bool {
    match capacity_left {
        None => true,
        Some(c) => n <= c,
    }
}

proof fn lemma_prefix_extend_partial(s: Seq<Seq<u8>>, p: int, x: Seq<Seq<u8>>, rest: Seq<Seq<u8>>, m: int)
    requires
        0 <= p <= s.len(),
        s.skip(p) == x + rest,
        0 <= m <= x.len(),
    ensures
        p + x.len() <= s.len(),
        s.take(p + m) == s.take(p) + x.take(m),
{
    assert(s.skip(p).len() == s.len() - p);
    assert forall|j: int| 0 <= j < p + m implies s.take(p + m)[j] == (s.take(p) + x.take(m))[j] by {
        if j >= p {
            assert(s.skip(p)[j - p] == s[j]);
            assert((x + rest)[j - p] == x[j - p]);
        }
    }
    assert(s.take(p + m) =~= s.take(p) + x.take(m));
}

proof fn lemma_prefix_extend(s: Seq<Seq<u8>>, p: int, x: Seq<Seq<u8>>, rest: Seq<Seq<u8>>)
    requires
        0 <= p <= s.len(),
        s.skip(p) == x + rest,
    ensures
        p + x.len() <= s.len(),
        s.take(p + x.len()) == s.take(p) + x,
        s.skip(p + x.len()) == rest,
{
    lemma_prefix_extend_partial(s, p, x, rest, x.len() as int);
    assert(x.take(x.len() as int) =~= x);
    assert(s.skip(p).len() == s.len() - p);
    assert((x + rest).len() == x.len() + rest.len());
    assert forall|j: int| 0 <= j < rest.len() implies s.skip(p + x.len())[j] == rest[j] by {
        assert(0 <= x.len() + j < s.len() - p);
        assert(s.skip(p)[x.len() + j] == s[p + x.len() + j]);
        assert((x + rest)[x.len() + j] == rest[j]);
        assert(s.skip(p + x.len())[j] == s[p + x.len() + j]);
    }
    assert(s.skip(p + x.len()) =~= rest);
}

/// Byte accounting: frames of one uniform byte length concatenate to
/// exactly their count times that length.
pub proof fn lemma_concat_bytes_len_uniform(frames: Seq<Seq<u8>>, len: int)
    requires
        forall|i: int| 0 <= i < frames.len() ==> #[trigger] frames[i].len() == len,
    ensures
        concat_bytes(frames).len() == frames.len() * len,
    decreases frames.len(),
{
    if frames.len() == 0 {
    } else {
        assert(frames[0].len() == len);
        lemma_concat_bytes_len_uniform(frames.drop_first(), len);
        assert(concat_bytes(frames).len() == len + (frames.len() - 1) * len);
        assert(len + (frames.len() - 1) * len == frames.len() * len) by (nonlinear_arith);
    }
}

/// What the worker does next.
#[derive(Debug, Clone, Copy, PartialEq, Eq, Structural)]
pub enum WorkerAction {
    /// Take the front block from the queue, under its lock.
    PopBlock,
    /// Block on the signal channel until the producer sends a message.
    AwaitSignal,
    /// The worker's loop is over; its thread returns.
    Exit,
}

/// The background consumer's state machine. The worker owns the sink side of
/// the pipeline: it decides when to pop, when to sleep and when to exit, it
/// records the first sink error, and it delivers popped blocks to the sink.
/// A driver loop performs each decided action and reports the outcome back.
pub struct Worker {
    state: VideoBackendState,
    draining: bool,
    done: bool,
    error: Option<PipelineError>,
    blocks_delivered: u64,
}

impl Worker {
    /// Whether the worker is actively draining or blocked waiting.
    pub closed spec fn spec_state(self) -> VideoBackendState {
        self.state
    }

    /// Whether an end-of-stream was observed, so the current drain pass is
    /// the last one.
    pub closed spec fn spec_draining(self) -> bool {
        self.draining
    }

    /// Whether the worker's loop is over.
    pub closed spec fn spec_done(self) -> bool {
        self.done
    }

    /// The first error the worker observed, if any.
    pub closed spec fn spec_error(self) -> Option<PipelineError> {
        self.error
    }

    /// How many blocks were delivered whole to the sink.
    pub closed spec fn spec_blocks_delivered(self) -> u64 {
        self.blocks_delivered
    }

    /// The next action of the worker loop: exit when done, await a signal
    /// while sleeping, otherwise pop.
    pub open spec fn spec_next_action(self) -> WorkerAction {
        if self.spec_done() {
            WorkerAction::Exit
        } else if self.spec_state() is Sleeping {
            WorkerAction::AwaitSignal
        } else {
            WorkerAction::PopBlock
        }
    }

    /// A fresh worker: running, no end-of-stream seen, no error.
    pub fn new() -> (w: Self)
        ensures
            w.spec_state() is Running,
            !w.spec_draining(),
            !w.spec_done(),
            w.spec_error() is None,
            w.spec_blocks_delivered() == 0,
    {
        Worker {
            state: VideoBackendState::Running,
            draining: false,
            done: false,
            error: None,
            blocks_delivered: 0,
        }
    }

    /// Decides the worker's next step. A sleeping worker never polls the
    /// queue: until a signal arrives its only action is to await one.
    pub fn next_action(&self) -> (a: WorkerAction)
        ensures
            a == self.spec_next_action(),
            self.spec_state() is Sleeping && !self.spec_done() ==> a is AwaitSignal,
    {
        if self.done {
            WorkerAction::Exit
        } else if matches!(self.state, VideoBackendState::Sleeping) {
            WorkerAction::AwaitSignal
        } else {
            WorkerAction::PopBlock
        }
    }

    /// Notes the outcome of one pop attempt: an empty queue puts the worker
    /// to sleep, or ends it when the end-of-stream drain pass found nothing
    /// more to do.
    pub fn on_pop(&mut self, got_block: bool)
        requires
            !old(self).spec_done(),
            old(self).spec_state() is Running,
        ensures
            final(self).spec_error() == old(self).spec_error(),
            final(self).spec_blocks_delivered() == old(self).spec_blocks_delivered(),
            final(self).spec_draining() == old(self).spec_draining(),
            got_block ==> *final(self) == *old(self),
            !got_block && old(self).spec_draining() ==> final(self).spec_done(),
            !got_block && !old(self).spec_draining() ==> !final(self).spec_done()
                && final(self).spec_state() is Sleeping,
    {
        if !got_block {
            if self.draining {
                self.done = true;
            } else {
                self.state = VideoBackendState::Sleeping;
            }
        }
    }

    /// Wakes the sleeping worker: a new block resumes draining; an
    /// end-of-stream starts the final drain pass.
    pub fn on_signal(&mut self, msg: FrameMessage)
        requires
            old(self).spec_state() is Sleeping,
            !old(self).spec_done(),
        ensures
            final(self).spec_error() == old(self).spec_error(),
            final(self).spec_blocks_delivered() == old(self).spec_blocks_delivered(),
            !final(self).spec_done(),
            final(self).spec_state() is Running,
            msg is Frame ==> final(self).spec_draining() == old(self).spec_draining(),
            msg is End ==> final(self).spec_draining(),
    {
        self.state = VideoBackendState::Running;
        if matches!(msg, FrameMessage::End) {
            self.draining = true;
        }
    }

    /// The producer is gone without an explicit end-of-stream: drain what is
    /// queued once more, then exit.
    pub fn on_channel_closed(&mut self)
        requires
            old(self).spec_state() is Sleeping,
            !old(self).spec_done(),
        ensures
            final(self).spec_error() == old(self).spec_error(),
            final(self).spec_blocks_delivered() == old(self).spec_blocks_delivered(),
            !final(self).spec_done(),
            final(self).spec_state() is Running,
            final(self).spec_draining(),
    {
        self.state = VideoBackendState::Running;
        self.draining = true;
    }

    /// Notes the outcome of one frame write made by the worker's driver: the
    /// first failure is recorded and ends the worker, so no later frame is
    /// ever attempted against the sink.
    pub fn on_write_result(&mut self, result: FrameDoneMessage)
        requires
            !old(self).spec_done(),
            old(self).spec_error() is None,
        ensures
            result is Written ==> *final(self) == *old(self),
            result is Failed ==> final(self).spec_done() && final(self).spec_error() == Some(
                PipelineError::SinkWrite,
            ) && final(self).spec_blocks_delivered() == old(self).spec_blocks_delivered(),
    {
        if matches!(result, FrameDoneMessage::Failed) {
            self.error = Some(PipelineError::SinkWrite);
            self.done = true;
        }
    }

    /// Counts one block delivered whole to the sink.
    pub fn on_block_delivered(&mut self)
        requires
            !old(self).spec_done(),
        ensures
            final(self).spec_error() == old(self).spec_error(),
            final(self).spec_done() == old(self).spec_done(),
            final(self).spec_state() == old(self).spec_state(),
            final(self).spec_draining() == old(self).spec_draining(),
            old(self).spec_blocks_delivered() < u64::MAX ==> final(self).spec_blocks_delivered()
                == old(self).spec_blocks_delivered() + 1,
            final(self).spec_blocks_delivered() <= old(self).spec_blocks_delivered() + 1,
    {
        if self.blocks_delivered < u64::MAX {
            self.blocks_delivered = self.blocks_delivered + 1;
        }
    }

    /// The first error observed, if any.
    pub fn error(&self) -> (e: Option<PipelineError>)
        ensures
            e == self.spec_error(),
    {
        self.error
    }

    /// How many blocks were delivered whole to the sink.
    pub fn blocks_delivered(&self) -> (n: u64)
        ensures
            n == self.spec_blocks_delivered(),
    {
        self.blocks_delivered
    }

    /// Writes each frame of `block` into `sink`, in order, stopping at the
    /// first failure; a failure is recorded as the pipeline's first error,
    /// ends the worker, and the rest of the block is discarded unwritten.
    pub fn deliver_block(&mut self, block: &Vec<Vec<u8>>, sink: &mut MemorySink)
        requires
            !old(self).spec_done(),
            old(self).spec_error() is None,
            old(sink).wf(),
            old(sink).spec_bytes().len() + concat_bytes(frames_of(block@)).len() <= usize::MAX,
            old(sink).spec_frames().len() + block@.len() <= usize::MAX,
        ensures
            final(self).spec_state() == old(self).spec_state(),
            final(self).spec_draining() == old(self).spec_draining(),
            final(sink).wf(),
            final(sink).spec_fail_after() == old(sink).spec_fail_after(),
            sink_fits(old(sink).spec_capacity_left(), block@.len() as int) ==> {
                &&& final(sink).spec_frames() == old(sink).spec_frames() + frames_of(block@)
                &&& final(self).spec_error() is None
                &&& !final(self).spec_done()
                &&& final(sink).spec_writes_attempted() <= old(sink).spec_writes_attempted()
                    + block@.len()
                &&& (old(sink).spec_writes_attempted() + block@.len() <= u64::MAX
                    ==> final(sink).spec_writes_attempted() == old(sink).spec_writes_attempted()
                    + block@.len())
                &&& final(self).spec_blocks_delivered() <= old(self).spec_blocks_delivered() + 1
                &&& (old(self).spec_blocks_delivered() < u64::MAX
                    ==> final(self).spec_blocks_delivered() == old(self).spec_blocks_delivered()
                    + 1)
            },
            !sink_fits(old(sink).spec_capacity_left(), block@.len() as int) ==> {
                &&& old(sink).spec_capacity_left() matches Some(c)
                    && final(sink).spec_frames() == old(sink).spec_frames() + frames_of(
                    block@,
                ).take(c)
                    && final(sink).spec_writes_attempted() <= old(sink).spec_writes_attempted() + c
                    + 1
                    && (old(sink).spec_writes_attempted() + c + 1 <= u64::MAX
                    ==> final(sink).spec_writes_attempted() == old(sink).spec_writes_attempted() + c
                    + 1)
                &&& final(self).spec_error() == Some(PipelineError::SinkWrite)
                &&& final(self).spec_done()
                &&& final(self).spec_blocks_delivered() == old(self).spec_blocks_delivered()
            },
    {
        let ghost fs = frames_of(block@);
        let ghost s0 = old(sink).spec_frames();
        let ghost b0 = old(sink).spec_bytes();
        let ghost a0 = old(sink).spec_writes_attempted();
        let mut i: usize = 0;
        let mut failed: bool = false;
        while i < block.len() && !failed
            invariant
                fs == frames_of(block@),
                i <= block@.len(),
                *self == *old(self),
                old(sink).wf(),
                sink.wf(),
                sink.spec_fail_after() == old(sink).spec_fail_after(),
                b0.len() + concat_bytes(fs).len() <= usize::MAX,
                s0.len() + block@.len() <= usize::MAX,
                s0 == old(sink).spec_frames(),
                b0 == old(sink).spec_bytes(),
                a0 == old(sink).spec_writes_attempted(),
                !failed ==> sink.spec_frames() == s0 + fs.take(i as int),
                !failed ==> sink_fits(old(sink).spec_capacity_left(), i as int),
                failed ==> (old(sink).spec_capacity_left() matches Some(c) && c == i - 1
                    && sink.spec_frames() == s0 + fs.take(c)),
                sink.spec_writes_attempted() <= a0 + i,
                a0 + i <= u64::MAX ==> sink.spec_writes_attempted() == a0 + i,
            decreases block@.len() - i,
        {
            proof {
                assert(fs[i as int] == block@[i as int]@);
                assert(fs.take(i + 1) =~= fs.take(i as int).push(fs[i as int]));
                lemma_concat_bytes_push(fs.take(i as int), fs[i as int]);
                // the bytes written so far plus this frame stay inside the
                // total byte budget of the block
                lemma_concat_bytes_append(fs.take(i + 1), fs.skip(i + 1));
                assert(fs.take(i + 1) + fs.skip(i + 1) =~= fs);
                assert(concat_bytes(fs.take(i + 1)).len() <= concat_bytes(fs).len());
                lemma_concat_bytes_append(s0, fs.take(i as int));
                assert(sink.spec_bytes() == concat_bytes(s0) + concat_bytes(fs.take(i as int)));
                assert(b0 == concat_bytes(s0));
                assert(sink.spec_bytes().len() + fs[i as int].len() <= b0.len() + concat_bytes(
                    fs,
                ).len());
                lemma_concat_bytes_push(s0 + fs.take(i as int), fs[i as int]);
                assert((s0 + fs.take(i as int)).push(fs[i as int]) =~= s0 + fs.take(i + 1));
            }
            let r = sink.write_frame(&block[i]);
            match r {
                Ok(_) => {
                    i = i + 1;
                },
                Err(_) => {
                    failed = true;
                    i = i + 1;
                },
            }
        }
        if failed {
            self.error = Some(PipelineError::SinkWrite);
            self.done = true;
        } else {
            proof {
                assert(fs.take(block@.len() as int) =~= fs);
            }
            if self.blocks_delivered < u64::MAX {
                self.blocks_delivered = self.blocks_delivered + 1;
            }
        }
    }

    /// The end-of-stream pass: pops every queued block and writes each
    /// contained frame to the sink, in order; after the first write failure
    /// the remaining frames are discarded unwritten, and no write is ever
    /// attempted against the sink again. The worker is done afterwards, and
    /// the sink holds the longest prefix of the queued frames it accepted.
    pub fn drain(&mut self, queue: &mut BlockQueue, sink: &mut MemorySink)
        requires
            !old(self).spec_done(),
            old(self).spec_error() is None,
            old(self).spec_state() is Running,
            old(sink).wf(),
            old(sink).spec_bytes().len() + concat_bytes(old(queue).spec_frames()).len()
                <= usize::MAX,
            old(sink).spec_frames().len() + old(queue).spec_frames().len() <= usize::MAX,
        ensures
            final(self).spec_done(),
            final(self).spec_draining(),
            final(queue).contents().len() == 0,
            final(sink).wf(),
            final(sink).spec_fail_after() == old(sink).spec_fail_after(),
            sink_fits(old(sink).spec_capacity_left(), old(queue).spec_frames().len() as int) ==> {
                &&& final(sink).spec_frames() == old(sink).spec_frames() + old(queue).spec_frames()
                &&& final(self).spec_error() is None
                &&& (old(self).spec_blocks_delivered() + old(queue).contents().len() <= u64::MAX
                    ==> final(self).spec_blocks_delivered() == old(self).spec_blocks_delivered()
                    + old(queue).contents().len())
            },
            !sink_fits(old(sink).spec_capacity_left(), old(queue).spec_frames().len() as int) ==> {
                &&& old(sink).spec_capacity_left() matches Some(c)
                    && final(sink).spec_frames() == old(sink).spec_frames() + old(
                    queue,
                ).spec_frames().take(c)
                    && final(sink).spec_writes_attempted() <= old(sink).spec_writes_attempted() + c
                    + 1
                    && (old(sink).spec_writes_attempted() + c + 1 <= u64::MAX
                    ==> final(sink).spec_writes_attempted() == old(sink).spec_writes_attempted() + c
                    + 1)
                &&& final(self).spec_error() == Some(PipelineError::SinkWrite)
            },
    {
        self.draining = true;
        let ghost q0 = old(queue).contents();
        let ghost f0 = queued_frames(q0);
        let ghost s0 = old(sink).spec_frames();
        let ghost b0 = old(sink).spec_bytes();
        let ghost a0 = old(sink).spec_writes_attempted();
        let ghost bd0 = old(self).spec_blocks_delivered();
        let ghost cap0 = old(sink).spec_capacity_left();
        let ghost mut p: int = 0;
        let ghost mut nb: int = 0;
        loop
            invariant_except_break
                old(sink).wf(),
                sink.wf(),
                sink.spec_fail_after() == old(sink).spec_fail_after(),
                q0 == old(queue).contents(),
                f0 == queued_frames(q0),
                s0 == old(sink).spec_frames(),
                b0 == old(sink).spec_bytes(),
                a0 == old(sink).spec_writes_attempted(),
                bd0 == old(self).spec_blocks_delivered(),
                cap0 == old(sink).spec_capacity_left(),
                b0.len() + concat_bytes(f0).len() <= usize::MAX,
                s0.len() + f0.len() <= usize::MAX,
                0 <= p <= f0.len(),
                0 <= nb <= q0.len(),
                queue.contents().len() == q0.len() - nb,
                queue.spec_frames() == f0.skip(p),
                self.spec_state() is Running,
                self.spec_draining(),
                self.spec_error() matches Some(e) ==> ({
                    &&& e == PipelineError::SinkWrite
                    &&& self.spec_done()
                    &&& cap0 matches Some(c) && c < p && sink.spec_frames() == s0 + f0.take(c)
                        && sink.spec_writes_attempted() <= a0 + c + 1
                        && (a0 + c + 1 <= u64::MAX ==> sink.spec_writes_attempted() == a0 + c + 1)
                }),
                self.spec_error() is None ==> {
                    &&& !self.spec_done()
                    &&& sink.spec_frames() == s0 + f0.take(p)
                    &&& sink_fits(cap0, p)
                    &&& self.spec_blocks_delivered() <= bd0 + nb
                    &&& (bd0 + nb <= u64::MAX ==> self.spec_blocks_delivered() == bd0 + nb)
                    &&& sink.spec_writes_attempted() <= a0 + p
                    &&& (a0 + p <= u64::MAX ==> sink.spec_writes_attempted() == a0 + p)
                },
            ensures
                queue.contents().len() == 0,
                sink.wf(),
                sink.spec_fail_after() == old(sink).spec_fail_after(),
                self.spec_done(),
                self.spec_draining(),
                self.spec_state() is Running,
                self.spec_error() is None ==> {
                    &&& sink.spec_frames() == s0 + f0
                    &&& sink_fits(cap0, f0.len() as int)
                    &&& (bd0 + q0.len() <= u64::MAX ==> self.spec_blocks_delivered() == bd0
                        + q0.len())
                },
                self.spec_error() matches Some(e) ==> ({
                    &&& e == PipelineError::SinkWrite
                    &&& cap0 matches Some(c) && c < f0.len() && sink.spec_frames() == s0 + f0.take(
                        c,
                    ) && sink.spec_writes_attempted() <= a0 + c + 1 && (a0 + c + 1 <= u64::MAX
                        ==> sink.spec_writes_attempted() == a0 + c + 1)
                }),
            decreases queue.contents().len(),
        {
            let b = queue.pop_block();
            match b {
                None => {
                    proof {
                        assert(queued_frames(queue.contents()) =~= Seq::<Seq<u8>>::empty());
                        assert(f0.skip(p).len() == 0);
                        assert(p == f0.len());
                        assert(f0.take(p) =~= f0);
                        assert(nb == q0.len());
                    }
                    self.done = true;
                    break ;
                },
                Some(block) => {
                    proof {
                        nb = nb + 1;
                    }
                    let ghost bf = frames_of(block@);
                    let ghost rest = queued_frames(queue.contents());
                    proof {
                        // the popped block's frames stand first in the
                        // remaining stream
                        assert(f0.skip(p) == bf + rest);
                        lemma_prefix_extend(f0, p, bf, rest);
                    }
                    let delivering = self.error.is_none();
                    if delivering {
                        let ghost sink_pre = *sink;
                        proof {
                            // byte and frame budgets for this block
                            lemma_concat_bytes_append(f0.take(p), f0.skip(p));
                            assert(f0.take(p) + f0.skip(p) =~= f0);
                            lemma_concat_bytes_append(bf, rest);
                            lemma_concat_bytes_append(s0, f0.take(p));
                            assert(b0 == concat_bytes(s0));
                            assert(sink.spec_bytes() == concat_bytes(s0) + concat_bytes(
                                f0.take(p),
                            ));
                        }
                        self.deliver_block(&block, sink);
                        proof {
                            if sink_fits(sink_pre.spec_capacity_left(), bf.len() as int) {
                                assert(s0 + f0.take(p) + bf =~= s0 + (f0.take(p) + bf));
                                assert(sink.spec_frames() == s0 + f0.take(p + bf.len()));
                            } else {
                                // the failure fell inside this block: the
                                // sink accepted exactly its remaining
                                // capacity
                                let ghost c: int = match cap0 {
                                    Some(c0) => c0,
                                    None => 0,
                                };
                                assert(sink_pre.spec_capacity_left() == Some(c - p));
                                lemma_prefix_extend_partial(f0, p, bf, rest, c - p);
                                assert(s0 + f0.take(p) + bf.take(c - p) =~= s0 + (f0.take(p)
                                    + bf.take(c - p)));
                                assert(sink.spec_frames() == s0 + f0.take(c));
                            }
                            p = p + bf.len();
                        }
                    } else {
                        proof {
                            p = p + bf.len();
                        }
                    }
                },
            }
        }
    }
}

/// A sleeping worker issues no pop attempt against the queue: until a
/// signal wakes it, its only next action is to await one.
pub proof fn lemma_sleeping_worker_never_pops(w: Worker)
    requires
        w.spec_state() is Sleeping,
        !w.spec_done(),
    ensures
        w.spec_next_action() is AwaitSignal,
{
}

/// The producer-facing entry point of the pipeline. It owns the in-progress
/// block: submitted frames are appended to it, and each time the block
/// reaches the configured size it is moved whole into the block queue and a
/// wake signal is handed back for the worker. Frames are never dropped and
/// never reordered: everything submitted is either already in the queue or
/// still pending in the current block.
pub struct VideoBackendController {
    block: Vec<Vec<u8>>,
    block_size: usize,
    frame_len: usize,
    submitted: Ghost<Seq<Seq<u8>>>,
    flushed: Ghost<Seq<Seq<u8>>>,
}

impl VideoBackendController {
    /// Every frame accepted so far, in submission order.
    pub closed spec fn spec_submitted(self) -> Seq<Seq<u8>> {
        self.submitted@
    }

    /// Every frame already handed to the queue, in order.
    pub closed spec fn spec_flushed(self) -> Seq<Seq<u8>> {
        self.flushed@
    }

    /// The frames of the in-progress block, in order.
    pub closed spec fn spec_pending(self) -> Seq<Seq<u8>> {
        frames_of(self.block@)
    }

    /// The configured block size.
    pub closed spec fn spec_block_size(self) -> usize {
        self.block_size
    }

    /// The byte length every submitted frame must have.
    pub closed spec fn spec_frame_len(self) -> usize {
        self.frame_len
    }

    /// The controller's bookkeeping is consistent: the in-progress block is
    /// strictly smaller than a full block, what was submitted is exactly what
    /// was flushed followed by what is pending, and every accepted frame has
    /// the configured length.
    pub open spec fn wf(self) -> bool {
        &&& self.spec_block_size() >= 1
        &&& self.spec_pending().len() < self.spec_block_size()
        &&& self.spec_submitted() == self.spec_flushed() + self.spec_pending()
        &&& forall|i: int|
            0 <= i < self.spec_submitted().len() ==> #[trigger] self.spec_submitted()[i].len()
                == self.spec_frame_len()
    }

    /// A fresh controller with an empty in-progress block.
    pub fn new(block_size: usize, frame_len: usize) -> (c: Self)
        requires
            block_size >= 1,
        ensures
            c.wf(),
            c.spec_submitted() == Seq::<Seq<u8>>::empty(),
            c.spec_flushed() == Seq::<Seq<u8>>::empty(),
            c.spec_pending() == Seq::<Seq<u8>>::empty(),
            c.spec_block_size() == block_size,
            c.spec_frame_len() == frame_len,
    {
        let c = VideoBackendController {
            block: Vec::new(),
            block_size,
            frame_len,
            submitted: Ghost(Seq::empty()),
            flushed: Ghost(Seq::empty()),
        };
        proof {
            assert(c.spec_pending() =~= Seq::<Seq<u8>>::empty());
            assert(c.spec_flushed() + c.spec_pending() =~= Seq::<Seq<u8>>::empty());
        }
        c
    }

    /// Accepts one frame: a buffer of any other length than the configured
    /// frame length is rejected as a caller error and nothing changes.
    /// Otherwise the frame is appended to the in-progress block; when that
    /// block reaches the configured size it is moved whole to the back of the
    /// queue and a wake signal is returned for the producer to send.
    pub fn write_frame(&mut self, frame: Vec<u8>, queue: &mut BlockQueue) -> (r: Result<
        Option<FrameMessage>,
        PipelineError,
    >)
        requires
            old(self).wf(),
        ensures
            final(self).wf(),
            final(self).spec_block_size() == old(self).spec_block_size(),
            final(self).spec_frame_len() == old(self).spec_frame_len(),
            final(queue).spec_pop_attempts() == old(queue).spec_pop_attempts(),
            frame@.len() != old(self).spec_frame_len() ==> r == Result::<
                Option<FrameMessage>,
                PipelineError,
            >::Err(PipelineError::WrongFrameLength) && *final(self) == *old(self) && *final(queue)
                == *old(queue),
            frame@.len() == old(self).spec_frame_len() ==> {
                &&& r is Ok
                &&& final(self).spec_submitted() == old(self).spec_submitted().push(frame@)
                &&& (old(self).spec_pending().len() + 1 == old(self).spec_block_size() ==> {
                    &&& final(queue).contents().len() == old(queue).contents().len() + 1
                    &&& final(queue).spec_frames() == old(queue).spec_frames() + old(
                        self,
                    ).spec_pending().push(frame@)
                    &&& final(self).spec_pending() == Seq::<Seq<u8>>::empty()
                    &&& final(self).spec_flushed() == old(self).spec_flushed() + old(
                        self,
                    ).spec_pending().push(frame@)
                    &&& r == Result::<Option<FrameMessage>, PipelineError>::Ok(
                        Some(FrameMessage::Frame),
                    )
                })
                &&& (old(self).spec_pending().len() + 1 < old(self).spec_block_size() ==> {
                    &&& *final(queue) == *old(queue)
                    &&& final(self).spec_pending() == old(self).spec_pending().push(frame@)
                    &&& final(self).spec_flushed() == old(self).spec_flushed()
                    &&& r == Result::<Option<FrameMessage>, PipelineError>::Ok(None)
                })
            },
    {
        if frame.len() != self.frame_len {
            return Err(PipelineError::WrongFrameLength);
        }
        let ghost fv = frame@;
        proof {
            lemma_frames_of_push(self.block@, frame);
        }
        self.block.push(frame);
        proof {
            self.submitted@ = self.submitted@.push(fv);
        }
        if self.block.len() == self.block_size {
            let mut full: Vec<Vec<u8>> = Vec::new();
            core::mem::swap(&mut full, &mut self.block);
            proof {
                self.flushed@ = self.flushed@ + frames_of(full@);
            }
            queue.push_block(full);
            proof {
                assert(frames_of(self.block@) =~= Seq::<Seq<u8>>::empty());
            }
            Ok(Some(FrameMessage::Frame))
        } else {
            Ok(None)
        }
    }

    /// Hands the in-progress partial block, if non-empty, to the queue, so
    /// that its frames are still delivered although the block never filled;
    /// returns the wake signal to send if a block was pushed. This is the
    /// producer's last act before signalling the end of the stream.
    pub fn flush(self, queue: &mut BlockQueue) -> (r: Option<FrameMessage>)
        requires
            self.wf(),
        ensures
            final(queue).spec_frames() == old(queue).spec_frames() + self.spec_pending(),
            final(queue).spec_pop_attempts() == old(queue).spec_pop_attempts(),
            self.spec_pending().len() > 0 ==> r == Some(FrameMessage::Frame)
                && final(queue).contents().len() == old(queue).contents().len() + 1,
            self.spec_pending().len() == 0 ==> r is None && *final(queue) == *old(queue),
    {
        if self.block.len() > 0 {
            queue.push_block(self.block);
            Some(FrameMessage::Frame)
        } else {
            proof {
                assert(self.spec_pending() =~= Seq::<Seq<u8>>::empty());
                assert(queue.spec_frames() + self.spec_pending() =~= queue.spec_frames());
            }
            None
        }
    }

    /// Ends the stream: the in-progress partial block, if non-empty, is
    /// flushed to the queue so that it is still delivered, the end-of-stream
    /// is signalled, and the worker drains everything into the sink. Returns
    /// success once every queued and pending frame reached the sink, or the
    /// first error the worker recorded.
    pub fn end(self, queue: &mut BlockQueue, worker: &mut Worker, sink: &mut MemorySink) -> (r:
        Result<(), PipelineError>)
        requires
            self.wf(),
            !old(worker).spec_done(),
            old(worker).spec_error() is None,
            old(worker).spec_state() is Running,
            old(sink).wf(),
            old(sink).spec_bytes().len() + concat_bytes(
                old(queue).spec_frames() + self.spec_pending(),
            ).len() <= usize::MAX,
            old(sink).spec_frames().len() + old(queue).spec_frames().len()
                + self.spec_pending().len() <= usize::MAX,
        ensures
            final(worker).spec_done(),
            final(queue).contents().len() == 0,
            final(sink).wf(),
            final(sink).spec_fail_after() == old(sink).spec_fail_after(),
            sink_fits(
                old(sink).spec_capacity_left(),
                old(queue).spec_frames().len() + self.spec_pending().len() as int,
            ) ==> {
                &&& r is Ok
                &&& final(sink).spec_frames() == old(sink).spec_frames() + old(queue).spec_frames()
                    + self.spec_pending()
            },
            !sink_fits(
                old(sink).spec_capacity_left(),
                old(queue).spec_frames().len() + self.spec_pending().len() as int,
            ) ==> {
                &&& r == Result::<(), PipelineError>::Err(PipelineError::SinkWrite)
                &&& old(sink).spec_capacity_left() matches Some(c)
                    && final(sink).spec_frames() == old(sink).spec_frames() + (old(
                    queue,
                ).spec_frames() + self.spec_pending()).take(c)
                    && final(sink).spec_writes_attempted() <= old(sink).spec_writes_attempted() + c
                    + 1
                    && (old(sink).spec_writes_attempted() + c + 1 <= u64::MAX
                    ==> final(sink).spec_writes_attempted() == old(sink).spec_writes_attempted() + c
                    + 1)
            },
    {
        let ghost total = old(queue).spec_frames() + self.spec_pending();
        let _ = self.flush(queue);
        proof {
            assert(queue.spec_frames() =~= total);
        }
        worker.drain(queue, sink);
        match worker.error() {
            None => Ok(()),
            Some(e) => Err(e),
        }
    }
}

/// Runs one whole pipeline session sequentially against an in-memory sink:
/// every frame of `frames` is submitted in order, then the stream is ended
/// and the worker drains everything.
///
/// Order preservation and no frame loss: on success the sink holds exactly
/// the submitted frames, concatenated in submission order, whatever block
/// size was chosen — block boundaries are invisible in the delivered byte
/// stream. A sink bounded to `k` frames makes the run fail with a write
/// error after delivering exactly the first `k` frames, and at most one
/// write is attempted beyond them.
pub fn run_pipeline(
    frames: Vec<Vec<u8>>,
    block_size: usize,
    frame_len: usize,
    fail_after: Option<usize>,
) -> (r: (MemorySink, BlockQueue, Worker, Result<(), PipelineError>))
    requires
        block_size >= 1,
        forall|i: int| 0 <= i < frames@.len() ==> #[trigger] frames@[i]@.len() == frame_len,
        frames@.len() <= usize::MAX,
        frames@.len() * frame_len <= usize::MAX,
    ensures
        r.0.wf(),
        ({
            let all = frames_of(frames@);
            match fail_after {
                None => r.3 is Ok && r.0.spec_frames() == all && r.0.spec_bytes() == concat_bytes(
                    all,
                ),
                Some(k) => if all.len() <= k {
                    r.3 is Ok && r.0.spec_frames() == all && r.0.spec_bytes() == concat_bytes(all)
                } else {
                    &&& r.3 == Result::<(), PipelineError>::Err(PipelineError::SinkWrite)
                    &&& r.0.spec_frames() == all.take(k as int)
                    &&& r.0.spec_bytes() == concat_bytes(all.take(k as int))
                    &&& r.0.spec_writes_attempted() <= k + 1
                    &&& (k + 1 <= u64::MAX ==> r.0.spec_writes_attempted() == k + 1)
                },
            }
        }),
{
    let ghost origv = frames@;
    let ghost all = frames_of(frames@);
    let mut controller = VideoBackendController::new(block_size, frame_len);
    let mut queue = BlockQueue::new();
    let mut worker = Worker::new();
    let mut sink = match fail_after {
        None => MemorySink::new(),
        Some(k) => MemorySink::failing_after(k),
    };
    let mut rest = frames;
    let ghost mut i: int = 0;
    while rest.len() > 0
        invariant
            0 <= i <= origv.len(),
            all == frames_of(origv),
            all.len() == origv.len(),
            forall|j: int| 0 <= j < origv.len() ==> #[trigger] origv[j]@.len() == frame_len,
            rest@ == origv.skip(i),
            controller.wf(),
            controller.spec_block_size() == block_size,
            controller.spec_frame_len() == frame_len,
            controller.spec_submitted() == all.take(i),
            controller.spec_flushed() == queue.spec_frames(),
            !worker.spec_done(),
            worker.spec_error() is None,
            worker.spec_state() is Running,
            sink.wf(),
            sink.spec_frames() == Seq::<Seq<u8>>::empty(),
            sink.spec_bytes() == Seq::<u8>::empty(),
            sink.spec_writes_attempted() == 0,
            sink.spec_fail_after() == fail_after,
        decreases rest@.len(),
    {
        proof {
            assert(origv.skip(i)[0] == origv[i]);
            assert(all[i] == origv[i]@);
        }
        let f = rest.remove(0);
        proof {
            assert(origv.skip(i).remove(0) =~= origv.skip(i + 1));
        }
        let r = controller.write_frame(f, &mut queue);
        proof {
            assert(all.take(i).push(all[i]) =~= all.take(i + 1));
            i = i + 1;
        }
        match r {
            Ok(_) => (),
            Err(_) => {
                proof {
                    assert(false);
                }
            },
        }
    }
    proof {
        assert(origv.skip(i).len() == 0);
        assert(i == origv.len());
        assert(all.take(i) =~= all);
        assert(queue.spec_frames() + controller.spec_pending() == controller.spec_submitted());
        lemma_concat_bytes_len_uniform(all, frame_len as int);
        assert(concat_bytes(queue.spec_frames() + controller.spec_pending()).len() == all.len()
            * frame_len);
        assert((queue.spec_frames() + controller.spec_pending()).len() == queue.spec_frames().len()
            + controller.spec_pending().len());
        assert(queue.spec_frames().len() + controller.spec_pending().len() == all.len());
    }
    let result = controller.end(&mut queue, &mut worker, &mut sink);
    proof {
        if sink_fits(
            match fail_after {
                None => None,
                Some(k) => Some(k as int),
            },
            all.len() as int,
        ) {
            assert(sink.spec_frames() =~= all);
        }
    }
    (sink, queue, worker, result)
}

} // verus!

