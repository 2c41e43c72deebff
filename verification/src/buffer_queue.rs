//! Pairing of decoder input buffers with NAL units.
//!
//! The decoder hands out input buffers one by one, and the stream hands out
//! units one by one. Both wait in queues, and are paired strictly in the
//! order of their arrival: the first buffer takes the first unit. The queue
//! of units is bounded; a unit that finds it full is dropped, so that the
//! stream never waits for the decoder.
//!
//! Buffers are opaque to the queue: `B` is whatever the embedding code uses
//! to name one.

use vstd::prelude::*;
use std::collections::VecDeque;
use crate::latency_controller::{decoder_input, ActTime, LatencyState, LatencyTracker};
use crate::nal::{nal_views, Nal, NalType, NalView};

verus! {

/// Units that can wait for a buffer.
pub const QUEUE_LIMIT: usize = 128;

/// What is to be done with a buffer and the unit paired with it.
pub enum DecoderAction<B> {
    /// Parameter sets: fill the buffer and queue it as configuration.
    QueueConfig { buffer: B, nal: Nal },
    /// A slice: fill the buffer and queue it under the unit's frame index.
    Queue { buffer: B, nal: Nal },
}

/// A `DecoderAction` as plain values.
pub enum DecoderActionView<B> {
    QueueConfig { buffer: B, nal: NalView },
    Queue { buffer: B, nal: NalView },
}

impl<B> View for DecoderAction<B> {
    type V = DecoderActionView<B>;

    open spec fn view(&self) -> DecoderActionView<B> {
        match *self {
            DecoderAction::QueueConfig { buffer, nal } => DecoderActionView::QueueConfig {
                buffer,
                nal: nal@,
            },
            DecoderAction::Queue { buffer, nal } => DecoderActionView::Queue { buffer, nal: nal@ },
        }
    }
}

/// The state of the queues.
pub struct BufferQueueState<B> {
    /// Whether the pairing loop is live.
    pub running: bool,
    /// Buffers that wait for a unit, oldest first.
    pub buffers: Seq<B>,
    /// Units that wait for a buffer, oldest first.
    pub nals: Seq<NalView>,
    /// Buffers that came while the loop was not live, oldest first.
    pub waiting: Seq<B>,
    /// Whether an IDR frame has gone to the decoder.
    pub idr_parsed: bool,
}

/// One turn of the pairing loop: the state after it, and what is to be
/// done.
pub struct Turn<B> {
    pub queue: BufferQueueState<B>,
    pub latency: LatencyState,
    pub action: Option<DecoderActionView<B>>,
}

impl<B> BufferQueueState<B> {
    /// The state before the loop has ever run.
    pub open spec fn initial() -> BufferQueueState<B> {
        BufferQueueState {
            running: false,
            buffers: Seq::empty(),
            nals: Seq::empty(),
            waiting: Seq::empty(),
            idr_parsed: false,
        }
    }

    /// The state after a buffer came: it joins the queue of the live loop,
    /// or waits for the loop to start.
    pub open spec fn with_input_buffer(self, buffer: B) -> BufferQueueState<B> {
        if self.running {
            BufferQueueState { buffers: self.buffers.push(buffer), ..self }
        } else {
            BufferQueueState { waiting: self.waiting.push(buffer), ..self }
        }
    }

    /// Whether a unit that comes now is taken: the loop is live and the
    /// queue of units is not full.
    pub open spec fn takes_nal(self) -> bool {
        self.running && self.nals.len() < QUEUE_LIMIT
    }

    /// The state after a unit came: it joins the queue if it is taken, and
    /// is dropped if not.
    pub open spec fn with_nal(self, nal: NalView) -> BufferQueueState<B> {
        if self.takes_nal() {
            BufferQueueState { nals: self.nals.push(nal), ..self }
        } else {
            self
        }
    }

    /// The state after the loop started: the buffers that waited are
    /// queued in their order, and no unit waits.
    pub open spec fn started(self) -> BufferQueueState<B> {
        BufferQueueState {
            running: true,
            buffers: self.waiting,
            nals: Seq::empty(),
            waiting: Seq::empty(),
            ..self
        }
    }

    /// The state after the loop ended: nothing waits, and no IDR frame
    /// counts as seen.
    pub open spec fn terminated(self) -> BufferQueueState<B> {
        Self::initial()
    }

    /// Whether a turn of the loop has a pair to work on.
    pub open spec fn has_pair(self) -> bool {
        self.running && self.buffers.len() > 0 && self.nals.len() > 0
    }

    /// One turn of the loop at `now`. Without a pair nothing happens. Else
    /// the oldest buffer takes the oldest unit: parameter sets are queued as
    /// configuration; a slice is queued as a frame, its way into the
    /// decoder is recorded, and an IDR slice is noted as seen.
    pub open spec fn turn(self, latency: LatencyState, now: u64) -> Turn<B> {
        if !self.has_pair() {
            Turn { queue: self, latency, action: None }
        } else {
            let buffer = self.buffers[0];
            let nal = self.nals[0];
            let rest = BufferQueueState {
                buffers: self.buffers.subrange(1, self.buffers.len() as int),
                nals: self.nals.subrange(1, self.nals.len() as int),
                ..self
            };
            if nal.nal_type == NalType::Sps {
                Turn {
                    queue: rest,
                    latency,
                    action: Some(DecoderActionView::QueueConfig { buffer, nal }),
                }
            } else {
                Turn {
                    queue: BufferQueueState {
                        idr_parsed: rest.idr_parsed || nal.nal_type == NalType::Idr,
                        ..rest
                    },
                    latency: latency.queued(nal.frame_index, ActTime::DecoderInput(now)),
                    action: Some(DecoderActionView::Queue { buffer, nal }),
                }
            }
        }
    }
}

/// The queues of buffers and units, and the IDR flag.
pub struct BufferQueue<B> {
    running: bool,
    input_buffers: VecDeque<B>,
    nals: VecDeque<Nal>,
    waiting_input_buffer: VecDeque<B>,
    idr_parsed: bool,
}

impl<B> View for BufferQueue<B> {
    type V = BufferQueueState<B>;

    closed spec fn view(&self) -> BufferQueueState<B> {
        BufferQueueState {
            running: self.running,
            buffers: self.input_buffers@,
            nals: nal_views(self.nals@),
            waiting: self.waiting_input_buffer@,
            idr_parsed: self.idr_parsed,
        }
    }
}

impl<B> BufferQueue<B> {
    /// The invariant of the queues: no more than `QUEUE_LIMIT` units wait,
    /// and nothing is queued while the loop is not live.
    pub closed spec fn wf(&self) -> bool {
        &&& self.nals@.len() <= QUEUE_LIMIT
        &&& !self.running ==> self.nals@.len() == 0 && self.input_buffers@.len() == 0
        &&& self.running ==> self.waiting_input_buffer@.len() == 0
    }

    /// What holds of every queue.
    pub proof fn lemma_wf_bounds(&self)
        requires
            self.wf(),
        ensures
            self@.nals.len() <= QUEUE_LIMIT,
            !self@.running ==> self@.nals.len() == 0 && self@.buffers.len() == 0,
            self@.running ==> self@.waiting.len() == 0,
    {
    }

    /// Queues before the loop has ever run.
    pub fn new() -> (queue: BufferQueue<B>)
        ensures
            queue.wf(),
            queue@ == BufferQueueState::<B>::initial(),
    {
        let queue = BufferQueue {
            running: false,
            input_buffers: VecDeque::new(),
            nals: VecDeque::new(),
            waiting_input_buffer: VecDeque::new(),
            idr_parsed: false,
        };
        assert(queue@.nals =~= Seq::<NalView>::empty());
        queue
    }

    /// The number of units that wait.
    pub fn pending_nals(&self) -> (n: usize)
        ensures
            n == self@.nals.len(),
    {
        self.nals.len()
    }

    /// The number of buffers that wait for a unit.
    pub fn pending_buffers(&self) -> (n: usize)
        ensures
            n == self@.buffers.len(),
    {
        self.input_buffers.len()
    }

    /// Whether the pairing loop is live.
    pub fn is_running(&self) -> (running: bool)
        ensures
            running == self@.running,
    {
        self.running
    }
}

/// Whether an IDR frame has gone to the decoder.
pub fn is_idr_parsed<B>(queue: &BufferQueue<B>) -> (parsed: bool)
    ensures
        parsed == queue@.idr_parsed,
{
    queue.idr_parsed
}

/// Makes the decoder wait for a new IDR frame.
pub fn reset_idr_parsed<B>(queue: &mut BufferQueue<B>)
    requires
        old(queue).wf(),
    ensures
        final(queue).wf(),
        final(queue)@ == (BufferQueueState { idr_parsed: false, ..old(queue)@ }),
{
    queue.idr_parsed = false;
}

/// Takes in a buffer from the decoder; see
/// `BufferQueueState::with_input_buffer`.
pub fn push_input_buffer<B>(queue: &mut BufferQueue<B>, buffer: B)
    requires
        old(queue).wf(),
    ensures
        final(queue).wf(),
        final(queue)@ == old(queue)@.with_input_buffer(buffer),
{
    if queue.running {
        queue.input_buffers.push_back(buffer);
    } else {
        queue.waiting_input_buffer.push_back(buffer);
    }
}

/// Takes in a unit from the stream. The result tells whether the unit was
/// taken; a unit that finds the queue full, or the loop not live, is
/// dropped and changes nothing.
pub fn push_nal<B>(queue: &mut BufferQueue<B>, nal: Nal) -> (taken: bool)
    requires
        old(queue).wf(),
    ensures
        final(queue).wf(),
        taken == old(queue)@.takes_nal(),
        final(queue)@ == old(queue)@.with_nal(nal@),
{
    if queue.running && queue.nals.len() < QUEUE_LIMIT {
        queue.nals.push_back(nal);
        assert(queue@.nals =~= old(queue)@.nals.push(nal@));
        true
    } else {
        false
    }
}

/// Starts the pairing loop; see `BufferQueueState::started`.
pub fn start_loop<B>(queue: &mut BufferQueue<B>)
    requires
        old(queue).wf(),
    ensures
        final(queue).wf(),
        final(queue)@ == old(queue)@.started(),
{
    queue.running = true;
    queue.nals.clear();
    queue.input_buffers.clear();
    queue.input_buffers.append(&mut queue.waiting_input_buffer);
    assert(queue@.nals =~= Seq::<NalView>::empty());
    assert(queue@.buffers =~= old(queue)@.waiting);
    assert(queue@.waiting =~= Seq::<B>::empty());
}

/// One turn of the pairing loop at time `now`; see
/// `BufferQueueState::turn`.
pub fn buffer_coordination_loop<B>(
    queue: &mut BufferQueue<B>,
    tracker: &mut LatencyTracker,
    now: u64,
) -> (action: Option<DecoderAction<B>>)
    requires
        old(queue).wf(),
        old(tracker).wf(),
    ensures
        final(queue).wf(),
        final(tracker).wf(),
        final(queue)@ == old(queue)@.turn(old(tracker)@, now).queue,
        final(tracker)@ == old(queue)@.turn(old(tracker)@, now).latency,
        action.is_some() == old(queue)@.has_pair(),
        action matches Some(a) ==> old(queue)@.turn(old(tracker)@, now).action == Some(a@),
{
    if !queue.running || queue.input_buffers.len() == 0 || queue.nals.len() == 0 {
        return None;
    }
    let ghost before = queue@;
    let buffer: B = match queue.input_buffers.pop_front() {
        Some(buffer) => buffer,
        None => {
            return None;
        },
    };
    let nal: Nal = match queue.nals.pop_front() {
        Some(nal) => nal,
        None => {
            return None;
        },
    };
    assert(queue@.nals =~= before.nals.subrange(1, before.nals.len() as int));
    assert(nal@ == before.nals[0]);
    if nal.nal_type == NalType::Sps {
        Some(DecoderAction::QueueConfig { buffer, nal })
    } else {
        if nal.nal_type == NalType::Idr {
            queue.idr_parsed = true;
        }
        decoder_input(tracker, nal.frame_index, now);
        Some(DecoderAction::Queue { buffer, nal })
    }
}

/// Ends the pairing loop; see `BufferQueueState::terminated`.
pub fn terminate_loop<B>(queue: &mut BufferQueue<B>)
    ensures
        final(queue).wf(),
        final(queue)@ == BufferQueueState::<B>::initial(),
{
    queue.running = false;
    queue.input_buffers.clear();
    queue.nals.clear();
    queue.waiting_input_buffer.clear();
    queue.idr_parsed = false;
    assert(queue@.nals =~= Seq::<NalView>::empty());
}

/// Backpressure: a unit that finds the queue full is dropped and changes
/// nothing; with a buffer waiting, the next turn of the loop takes a unit
/// out, and the unit after that is taken again.
pub proof fn lemma_backpressure<B>(
    queue: BufferQueueState<B>,
    latency: LatencyState,
    first: NalView,
    second: NalView,
    now: u64,
)
    requires
        queue.running,
        queue.nals.len() == QUEUE_LIMIT,
        queue.buffers.len() > 0,
    ensures
        !queue.takes_nal(),
        queue.with_nal(first) == queue,
        queue.turn(latency, now).action.is_some(),
        queue.turn(latency, now).queue.nals.len() == QUEUE_LIMIT - 1,
        queue.turn(latency, now).queue.takes_nal(),
        queue.turn(latency, now).queue.with_nal(second).nals.last() == second,
{
}

/// Pairing is first in, first out: of the buffers and units that wait, a
/// turn pairs the oldest buffer with the oldest unit and keeps the order
/// of the others.
pub proof fn lemma_pairs_in_order<B>(
    queue: BufferQueueState<B>,
    latency: LatencyState,
    now: u64,
)
    requires
        queue.has_pair(),
    ensures
        ({
            let t = queue.turn(latency, now);
            &&& t.action matches Some(a) && match a {
                DecoderActionView::QueueConfig { buffer, nal } => buffer == queue.buffers[0] && nal
                    == queue.nals[0] && nal.nal_type == NalType::Sps,
                DecoderActionView::Queue { buffer, nal } => buffer == queue.buffers[0] && nal
                    == queue.nals[0] && nal.nal_type != NalType::Sps,
            }
            &&& t.queue.buffers == queue.buffers.drop_first()
            &&& t.queue.nals == queue.nals.drop_first()
        }),
{
}

} // verus!
