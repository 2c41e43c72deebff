//! The latency ledger of the stream.
//!
//! Every stage that a frame passes leaves a timestamp: tracking sent, video
//! received, decoded, rendered, submitted. The records wait in a bounded
//! queue and reach the ledger when a frame is submitted; the latencies of
//! that frame are then computed and reported to the server with the next
//! time synchronisation packet.
//!
//! Nothing here reads a clock: every entry point takes the current time in
//! microseconds.

use vstd::prelude::*;
use crate::legacy_packets::TimeSync;
use crate::util::{second_index, second_of};

verus! {

/// Slots of the ledger; frame `f` lives in slot `f % MAX_FRAMES`.
pub const MAX_FRAMES: usize = 1024;

/// Records that can wait for the next submit.
pub const MAX_ACTIONS: usize = 64;

/// A timestamp and the stage that it was taken at.
#[derive(Debug, Clone, Copy, PartialEq, Eq, Structural)]
pub enum ActTime {
    /// Tracking was sent at the given time.
    Tracking(u64),
    /// The server received the tracking at the first time, as told at the
    /// second.
    Received(u64, u64),
    /// The server sent the frame at about the first time, as told at the
    /// second.
    EstimatedSent(u64, u64),
    ReceivedFirst(u64),
    ReceivedLast(u64),
    DecoderInput(u64),
    DecoderOutput(u64),
    Rendered(u64),
}

/// A record that waits for the ledger.
#[derive(Debug, Clone, Copy, PartialEq, Eq, Structural)]
pub struct Action {
    pub frame_index: u64,
    pub time: ActTime,
}

/// The timestamps of one frame, in microseconds; 0 where none was taken.
#[derive(Debug, Clone, Copy, PartialEq, Eq, Structural)]
pub struct FrameTimestamp {
    pub frame_index: u64,
    pub tracking: u64,
    pub estimated_sent: u64,
    pub received: u64,
    pub received_first: u64,
    pub received_last: u64,
    pub decoder_input: u64,
    pub decoder_output: u64,
    pub rendered1: u64,
    pub rendered2: u64,
    pub submit: u64,
}

impl FrameTimestamp {
    /// The slot of frame `frame_index` before any timestamp was taken.
    pub open spec fn fresh(frame_index: u64) -> FrameTimestamp {
        FrameTimestamp {
            frame_index,
            tracking: 0,
            estimated_sent: 0,
            received: 0,
            received_first: 0,
            received_last: 0,
            decoder_input: 0,
            decoder_output: 0,
            rendered1: 0,
            rendered2: 0,
            submit: 0,
        }
    }

    /// The slot after the record `time` was entered.
    ///
    /// The server's receive time counts only if it lies between the
    /// tracking time and the time at which it was told. The estimated send
    /// time is capped by the time at which it was told. Of several records
    /// of the last video packet, and of the decoder input, the first stays.
    pub open spec fn apply(self, time: ActTime) -> FrameTimestamp {
        match time {
            ActTime::Tracking(t) => FrameTimestamp { tracking: t, ..self },
            ActTime::Received(sent, told) => if self.tracking < sent && sent < told {
                FrameTimestamp { received: sent, ..self }
            } else {
                self
            },
            ActTime::EstimatedSent(sent, told) => FrameTimestamp {
                estimated_sent: if sent < told {
                    sent
                } else {
                    told
                },
                ..self
            },
            ActTime::ReceivedFirst(t) => FrameTimestamp { received_first: t, ..self },
            ActTime::ReceivedLast(t) => if self.received_last == 0 {
                FrameTimestamp { received_last: t, ..self }
            } else {
                self
            },
            ActTime::DecoderInput(t) => if self.decoder_input == 0 {
                FrameTimestamp { decoder_input: t, ..self }
            } else {
                self
            },
            ActTime::DecoderOutput(t) => FrameTimestamp { decoder_output: t, ..self },
            ActTime::Rendered(t) => FrameTimestamp { rendered1: t, rendered2: t, ..self },
        }
    }

    /// The slot of frame `frame_index` before any timestamp was taken.
    pub fn new(frame_index: u64) -> (slot: FrameTimestamp)
        ensures
            slot == FrameTimestamp::fresh(frame_index),
    {
        FrameTimestamp {
            frame_index,
            tracking: 0,
            estimated_sent: 0,
            received: 0,
            received_first: 0,
            received_last: 0,
            decoder_input: 0,
            decoder_output: 0,
            rendered1: 0,
            rendered2: 0,
            submit: 0,
        }
    }

    /// Enters the record `time`.
    pub fn record(&mut self, time: ActTime)
        ensures
            *final(self) == old(self).apply(time),
    {
        match time {
            ActTime::Tracking(t) => {
                self.tracking = t;
            },
            ActTime::Received(sent, told) => {
                if self.tracking < sent && sent < told {
                    self.received = sent;
                }
            },
            ActTime::EstimatedSent(sent, told) => {
                self.estimated_sent = if sent < told {
                    sent
                } else {
                    told
                };
            },
            ActTime::ReceivedFirst(t) => {
                self.received_first = t;
            },
            ActTime::ReceivedLast(t) => {
                if self.received_last == 0 {
                    self.received_last = t;
                }
            },
            ActTime::DecoderInput(t) => {
                if self.decoder_input == 0 {
                    self.decoder_input = t;
                }
            },
            ActTime::DecoderOutput(t) => {
                self.decoder_output = t;
            },
            ActTime::Rendered(t) => {
                self.rendered1 = t;
                self.rendered2 = t;
            },
        }
    }
}

impl Default for FrameTimestamp {
    fn default() -> (slot: FrameTimestamp)
        ensures
            slot == FrameTimestamp::fresh(0),
    {
        FrameTimestamp::new(0)
    }
}

/// The slot that frame `f` lives in.
pub open spec fn slot_index(f: u64) -> int {
    f as int % MAX_FRAMES as int
}

/// The timestamps of frame `f`: those of its slot, unless the slot holds
/// another frame, whose timestamps are not those of `f`.
pub open spec fn current(frames: Seq<FrameTimestamp>, f: u64) -> FrameTimestamp {
    if frames[slot_index(f)].frame_index == f {
        frames[slot_index(f)]
    } else {
        FrameTimestamp::fresh(f)
    }
}

/// The ledger after frame `f` took its slot.
pub open spec fn claim(frames: Seq<FrameTimestamp>, f: u64) -> Seq<FrameTimestamp> {
    frames.update(slot_index(f), current(frames, f))
}

/// The ledger after `time` was entered for frame `f`.
pub open spec fn record(frames: Seq<FrameTimestamp>, f: u64, time: ActTime) -> Seq<
    FrameTimestamp,
> {
    frames.update(slot_index(f), current(frames, f).apply(time))
}

/// The ledger after frame `f` was stamped as submitted at `now`.
pub open spec fn stamp_submit(frames: Seq<FrameTimestamp>, f: u64, now: u64) -> Seq<
    FrameTimestamp,
> {
    frames.update(slot_index(f), FrameTimestamp { submit: now, ..current(frames, f) })
}

/// The ledger after the waiting records were entered in order, but for
/// those of frames before `f`, which are stale.
pub open spec fn replay(frames: Seq<FrameTimestamp>, actions: Seq<Action>, f: u64) -> Seq<
    FrameTimestamp,
>
    decreases actions.len(),
{
    if actions.len() == 0 {
        frames
    } else {
        let before = replay(frames, actions.drop_last(), f);
        let a = actions.last();
        if a.frame_index < f {
            before
        } else {
            record(before, a.frame_index, a.time)
        }
    }
}

/// The ledger after frame `f` was submitted at `now` with `actions`
/// waiting.
pub open spec fn submitted(
    frames: Seq<FrameTimestamp>,
    actions: Seq<Action>,
    f: u64,
    now: u64,
) -> Seq<FrameTimestamp> {
    claim(replay(stamp_submit(frames, f, now), actions, f), f)
}

/// The ledger: one slot of timestamps for each of the last frames.
pub struct FrameTimestampStore {
    frames: Vec<FrameTimestamp>,
}

impl View for FrameTimestampStore {
    type V = Seq<FrameTimestamp>;

    closed spec fn view(&self) -> Seq<FrameTimestamp> {
        self.frames@
    }
}

impl FrameTimestampStore {
    /// The invariant of the ledger: it has `MAX_FRAMES` slots.
    pub closed spec fn wf(&self) -> bool {
        self.frames@.len() == MAX_FRAMES
    }

    /// What holds of every ledger: it has `MAX_FRAMES` slots.
    pub proof fn lemma_wf_len(&self)
        requires
            self.wf(),
        ensures
            self@.len() == MAX_FRAMES,
    {
    }

    /// A ledger without a timestamp.
    pub fn new() -> (store: FrameTimestampStore)
        ensures
            store.wf(),
            store@ == Seq::new(MAX_FRAMES as nat, |i: int| FrameTimestamp::fresh(0)),
    {
        let frames: Vec<FrameTimestamp> = vec![FrameTimestamp::new(0); MAX_FRAMES];
        let store = FrameTimestampStore { frames };
        assert(store@ =~= Seq::new(MAX_FRAMES as nat, |i: int| FrameTimestamp::fresh(0)));
        store
    }

    /// Forgets every timestamp.
    pub fn reset(&mut self)
        ensures
            final(self).wf(),
            final(self)@ == Seq::new(MAX_FRAMES as nat, |i: int| FrameTimestamp::fresh(0)),
    {
        let fresh = FrameTimestampStore::new();
        self.frames = fresh.frames;
    }

    /// The timestamps of frame `frame_index`. The frame takes its slot: the
    /// timestamps of another frame that lived there are gone.
    pub fn get_frame(&mut self, frame_index: u64) -> (slot: FrameTimestamp)
        requires
            old(self).wf(),
        ensures
            final(self).wf(),
            final(self)@ == claim(old(self)@, frame_index),
            slot == current(old(self)@, frame_index),
    {
        let i: usize = (frame_index % 1024) as usize;
        let mut slot: FrameTimestamp = self.frames[i];
        if slot.frame_index != frame_index {
            slot = FrameTimestamp::new(frame_index);
        }
        self.frames[i] = slot;
        slot
    }

    /// Enters the record `time` for frame `frame_index`.
    pub fn record(&mut self, frame_index: u64, time: ActTime)
        requires
            old(self).wf(),
        ensures
            final(self).wf(),
            final(self)@ == record(old(self)@, frame_index, time),
    {
        let i: usize = (frame_index % 1024) as usize;
        let mut slot: FrameTimestamp = self.frames[i];
        if slot.frame_index != frame_index {
            slot = FrameTimestamp::new(frame_index);
        }
        slot.record(time);
        self.frames[i] = slot;
    }

    /// Submits frame `frame_index` at `now`: stamps it, enters the waiting
    /// records that are not stale, in order, and returns the timestamps of
    /// the frame.
    pub fn submit(&mut self, frame_index: u64, now: u64, actions: &Vec<Action>) -> (slot:
        FrameTimestamp)
        requires
            old(self).wf(),
        ensures
            final(self).wf(),
            final(self)@ == submitted(old(self)@, actions@, frame_index, now),
            slot == final(self)@[slot_index(frame_index)],
            slot.frame_index == frame_index,
    {
        let mut stamped: FrameTimestamp = self.get_frame(frame_index);
        stamped.submit = now;
        self.frames[(frame_index % 1024) as usize] = stamped;
        assert(self@ =~= stamp_submit(old(self)@, frame_index, now));
        let ghost start = self@;
        let mut i: usize = 0;
        while i < actions.len()
            invariant
                i <= actions@.len(),
                self.wf(),
                self@ == replay(start, actions@.subrange(0, i as int), frame_index),
            decreases actions@.len() - i,
        {
            let action: Action = actions[i];
            proof {
                let upto = actions@.subrange(0, i + 1);
                assert(upto.drop_last() =~= actions@.subrange(0, i as int));
                assert(upto.last() == action);
            }
            if action.frame_index >= frame_index {
                self.record(action.frame_index, action.time);
            }
            i += 1;
        }
        assert(actions@.subrange(0, actions@.len() as int) =~= actions@);
        self.get_frame(frame_index)
    }
}

/// The statistics kept across frames.
#[derive(Debug, Clone, Copy, PartialEq, Eq, Structural)]
pub struct LatencyController {
    /// The one-second window that the per-second counters belong to.
    pub statistics_time: u64,
    pub packets_lost_total: u64,
    pub packets_lost_in_second: u64,
    pub packets_lost_previous: u64,
    pub fec_failure_total: u64,
    pub fec_failure_in_second: u64,
    pub fec_failure_previous: u64,
    pub server_total_latency: u32,
    /// Submit minus tracking of the last valid frame.
    pub total_latency: u32,
    /// Last video packet minus estimated send time.
    pub transport_latency: u32,
    /// Decoder output minus decoder input.
    pub decode_latency: u32,
    /// Server receive time minus tracking, or the transport latency where
    /// the server's receive time is not known.
    pub send_latency: u32,
    pub last_submit: u64,
    /// Time between the last two valid submits; 0 before the first.
    pub frame_interval: u64,
    /// Frames per second, as the bit pattern of a single-precision value.
    pub frames_in_second: u32,
    pub time_sync_sequence: u64,
    pub fec_failure_state: bool,
}

/// The low 32 bits of the difference `later - earlier`.
pub open spec fn span(later: u64, earlier: u64) -> u32 {
    ((later - earlier) % 0x1_0000_0000) as u32
}

/// Latencies above this are not taken into the server's total latency.
pub const TOTAL_LATENCY_LIMIT: u32 = 200000;

impl LatencyController {
    /// The statistics at time `now`, before any frame.
    pub open spec fn fresh(now: u64) -> LatencyController {
        LatencyController {
            statistics_time: second_of(now),
            packets_lost_total: 0,
            packets_lost_in_second: 0,
            packets_lost_previous: 0,
            fec_failure_total: 0,
            fec_failure_in_second: 0,
            fec_failure_previous: 0,
            server_total_latency: 0,
            total_latency: 0,
            transport_latency: 0,
            decode_latency: 0,
            send_latency: 0,
            last_submit: 0,
            frame_interval: 0,
            frames_in_second: 0,
            time_sync_sequence: 0,
            fec_failure_state: false,
        }
    }

    /// Whether the timestamps `ts` are in an order that latencies can be
    /// computed from, and the submit is later than the last one.
    pub open spec fn valid_submit(self, ts: FrameTimestamp) -> bool {
        &&& ts.estimated_sent <= ts.received_last
        &&& ts.decoder_input <= ts.decoder_output
        &&& ts.received == 0 || ts.tracking <= ts.received
        &&& self.last_submit < ts.submit
        &&& ts.tracking <= ts.submit
    }

    /// The statistics with the per-second counters moved on.
    pub open spec fn with_second_reset(self) -> LatencyController {
        LatencyController {
            packets_lost_previous: self.packets_lost_in_second,
            packets_lost_in_second: 0,
            fec_failure_previous: self.fec_failure_in_second,
            fec_failure_in_second: 0,
            ..self
        }
    }

    /// The statistics at `now`: the per-second counters start again when
    /// `now` lies in another second than the one they belong to.
    pub open spec fn at(self, now: u64) -> LatencyController {
        if self.statistics_time != second_of(now) {
            LatencyController { statistics_time: second_of(now), ..self }.with_second_reset()
        } else {
            self
        }
    }

    /// The statistics after the valid timestamps `ts` were submitted at
    /// `now`.
    pub open spec fn after_submit(self, ts: FrameTimestamp, now: u64) -> LatencyController {
        let transport = span(ts.received_last, ts.estimated_sent);
        LatencyController {
            total_latency: span(ts.submit, ts.tracking),
            transport_latency: transport,
            decode_latency: span(ts.decoder_output, ts.decoder_input),
            send_latency: if ts.received != 0 {
                span(ts.received, ts.tracking)
            } else {
                transport
            },
            frame_interval: (ts.submit - self.last_submit) as u64,
            last_submit: ts.submit,
            ..self.at(now)
        }
    }

    /// The statistics after `lost` packets were found missing at `now`.
    pub open spec fn after_packet_loss(self, lost: u32, now: u64) -> LatencyController {
        let s = self.at(now);
        LatencyController {
            packets_lost_total: ((s.packets_lost_total + lost) % 0x1_0000_0000_0000_0000) as u64,
            packets_lost_in_second: ((s.packets_lost_in_second + lost)
                % 0x1_0000_0000_0000_0000) as u64,
            ..s
        }
    }

    /// The statistics after a frame was found lost at `now`.
    pub open spec fn after_fec_failure(self, now: u64) -> LatencyController {
        let s = self.at(now);
        LatencyController {
            fec_failure_total: ((s.fec_failure_total + 1) % 0x1_0000_0000_0000_0000) as u64,
            fec_failure_in_second: ((s.fec_failure_in_second + 1) % 0x1_0000_0000_0000_0000) as u64,
            ..s
        }
    }

    /// The sequence number after `n`; it starts again at 0 after the
    /// largest.
    pub open spec fn next_sequence(n: u64) -> u64 {
        if n == u64::MAX {
            0
        } else {
            (n + 1) as u64
        }
    }

    /// The report that `new_time_sync` makes at `now`.
    pub open spec fn report(self, now: u64) -> TimeSync {
        TimeSync {
            packet_type: 7,
            mode: 0,
            sequence: self.time_sync_sequence,
            server_time: 0,
            client_time: now,
            packets_lost_total: self.packets_lost_total,
            packets_lost_in_second: self.packets_lost_in_second,
            average_total_latency: self.total_latency,
            average_send_latency: self.send_latency,
            average_transport_latency: self.transport_latency,
            average_decode_latency: self.decode_latency as u64,
            idle_time: 0,
            fec_failure: if self.fec_failure_state {
                1
            } else {
                0
            },
            fec_failure_in_second: self.fec_failure_in_second,
            fec_failure_total: self.fec_failure_total,
            fps: self.frames_in_second,
            server_total_latency: 0,
            tracking_recv_frame_index: 0,
        }
    }

    /// The statistics at time `now`, before any frame.
    pub fn new(now: u64) -> (controller: LatencyController)
        ensures
            controller == LatencyController::fresh(now),
    {
        LatencyController {
            statistics_time: second_index(now),
            packets_lost_total: 0,
            packets_lost_in_second: 0,
            packets_lost_previous: 0,
            fec_failure_total: 0,
            fec_failure_in_second: 0,
            fec_failure_previous: 0,
            server_total_latency: 0,
            total_latency: 0,
            transport_latency: 0,
            decode_latency: 0,
            send_latency: 0,
            last_submit: 0,
            frame_interval: 0,
            frames_in_second: 0,
            time_sync_sequence: 0,
            fec_failure_state: false,
        }
    }

    /// Starts the statistics again at time `now`.
    pub fn reset(&mut self, now: u64)
        ensures
            *final(self) == LatencyController::fresh(now),
    {
        *self = LatencyController::new(now);
    }

    /// Moves the per-second counters on.
    pub fn reset_second(&mut self)
        ensures
            *final(self) == old(self).with_second_reset(),
    {
        self.packets_lost_previous = self.packets_lost_in_second;
        self.packets_lost_in_second = 0;
        self.fec_failure_previous = self.fec_failure_in_second;
        self.fec_failure_in_second = 0;
    }

    /// Starts the per-second counters again if `now` lies in a new second.
    pub fn check_and_reset_second(&mut self, now: u64)
        ensures
            *final(self) == old(self).at(now),
    {
        let current: u64 = second_index(now);
        if self.statistics_time != current {
            self.statistics_time = current;
            self.reset_second();
        }
    }

    /// Takes in the timestamps of a submitted frame. Timestamps that are
    /// not valid change nothing and give `false`; valid ones set the four
    /// latencies, the frame interval and the last submit time, and give
    /// `true`.
    pub fn submit(&mut self, timestamp: FrameTimestamp, now: u64) -> (accepted: bool)
        ensures
            accepted == old(self).valid_submit(timestamp),
            accepted ==> *final(self) == old(self).after_submit(timestamp, now),
            !accepted ==> *final(self) == *old(self),
    {
        let mut invalid_timestamp: bool = false;
        if timestamp.estimated_sent > timestamp.received_last {
            invalid_timestamp = true;
        }
        if timestamp.decoder_input > timestamp.decoder_output {
            invalid_timestamp = true;
        }
        if timestamp.received != 0 && timestamp.tracking > timestamp.received {
            invalid_timestamp = true;
        }
        if self.last_submit >= timestamp.submit {
            invalid_timestamp = true;
        }
        if timestamp.tracking > timestamp.submit {
            invalid_timestamp = true;
        }
        if invalid_timestamp {
            return false;
        }
        self.total_latency = ((timestamp.submit - timestamp.tracking) % 0x1_0000_0000) as u32;
        self.transport_latency = ((timestamp.received_last - timestamp.estimated_sent)
            % 0x1_0000_0000) as u32;
        self.decode_latency = ((timestamp.decoder_output - timestamp.decoder_input)
            % 0x1_0000_0000) as u32;
        if timestamp.received != 0 {
            self.send_latency = ((timestamp.received - timestamp.tracking) % 0x1_0000_0000) as u32;
        } else {
            self.send_latency = self.transport_latency;
        }
        self.check_and_reset_second(now);
        self.frame_interval = timestamp.submit - self.last_submit;
        self.last_submit = timestamp.submit;
        true
    }

    /// Counts `lost` missing packets at time `now`.
    pub fn packet_loss(&mut self, lost: u32, now: u64)
        ensures
            *final(self) == old(self).after_packet_loss(lost, now),
    {
        self.check_and_reset_second(now);
        self.packets_lost_total = self.packets_lost_total.wrapping_add(lost as u64);
        self.packets_lost_in_second = self.packets_lost_in_second.wrapping_add(lost as u64);
    }

    /// Counts one lost frame at time `now`.
    pub fn fec_failure(&mut self, now: u64)
        ensures
            *final(self) == old(self).after_fec_failure(now),
    {
        self.check_and_reset_second(now);
        self.fec_failure_total = self.fec_failure_total.wrapping_add(1);
        self.fec_failure_in_second = self.fec_failure_in_second.wrapping_add(1);
    }

    /// Takes in the total latency that the server measured. A measurement
    /// below `TOTAL_LATENCY_LIMIT` replaces the kept value by `smoothed`,
    /// the mean that the caller has weighted; a larger one is ignored.
    pub fn set_total_latency(&mut self, latency: u32, smoothed: u32)
        ensures
            *final(self) == (LatencyController {
                server_total_latency: if latency < TOTAL_LATENCY_LIMIT {
                    smoothed
                } else {
                    old(self).server_total_latency
                },
                ..*old(self)
            }),
    {
        if latency < TOTAL_LATENCY_LIMIT {
            self.server_total_latency = smoothed;
        }
    }

    /// Sets the frame rate that the next report carries.
    pub fn set_frames_in_second(&mut self, fps: u32)
        ensures
            *final(self) == (LatencyController { frames_in_second: fps, ..*old(self) }),
    {
        self.frames_in_second = fps;
    }

    /// Whether a frame loss is being reported.
    pub fn get_fec_failure_state(&self) -> (state: bool)
        ensures
            state == self.fec_failure_state,
    {
        self.fec_failure_state
    }

    /// Sets whether a frame loss is being reported.
    pub fn set_fec_failure_state(&mut self, fec_failure: bool)
        ensures
            *final(self) == (LatencyController { fec_failure_state: fec_failure, ..*old(self) }),
    {
        self.fec_failure_state = fec_failure;
    }

    /// Hands out the current sequence number and moves on to the next.
    pub fn increment_time_sync_sequence(&mut self) -> (sequence: u64)
        ensures
            sequence == old(self).time_sync_sequence,
            *final(self) == (LatencyController {
                time_sync_sequence: LatencyController::next_sequence(old(self).time_sync_sequence),
                ..*old(self)
            }),
    {
        let sequence: u64 = self.time_sync_sequence;
        self.time_sync_sequence = if sequence == u64::MAX {
            0
        } else {
            sequence + 1
        };
        sequence
    }

    /// Makes the report that opens a time synchronisation at `now`.
    pub fn new_time_sync(&mut self, now: u64) -> (time_sync: TimeSync)
        ensures
            time_sync == old(self).report(now),
            *final(self) == (LatencyController {
                time_sync_sequence: LatencyController::next_sequence(old(self).time_sync_sequence),
                ..*old(self)
            }),
    {
        let sequence: u64 = self.increment_time_sync_sequence();
        TimeSync {
            packet_type: 7,
            mode: 0,
            sequence,
            server_time: 0,
            client_time: now,
            packets_lost_total: self.packets_lost_total,
            packets_lost_in_second: self.packets_lost_in_second,
            average_total_latency: self.total_latency,
            average_send_latency: self.send_latency,
            average_transport_latency: self.transport_latency,
            average_decode_latency: self.decode_latency as u64,
            idle_time: 0,
            fec_failure: if self.fec_failure_state {
                1
            } else {
                0
            },
            fec_failure_in_second: self.fec_failure_in_second,
            fec_failure_total: self.fec_failure_total,
            fps: self.frames_in_second,
            server_total_latency: 0,
            tracking_recv_frame_index: 0,
        }
    }
}

/// Ring slot replacement: a frame that takes the slot of another frame
/// starts from nothing. After tracking was recorded for `f1`, recording
/// tracking for `f2`, which shares the slot, leaves none of the timestamps
/// of `f1`.
pub proof fn lemma_ring_slot_replacement(
    frames: Seq<FrameTimestamp>,
    f1: u64,
    f2: u64,
    t1: u64,
    t2: u64,
)
    requires
        frames.len() == MAX_FRAMES,
        f1 != f2,
        f1 % 1024 == f2 % 1024,
    ensures
        record(record(frames, f1, ActTime::Tracking(t1)), f2, ActTime::Tracking(t2))[slot_index(
            f2,
        )] == (FrameTimestamp { tracking: t2, ..FrameTimestamp::fresh(f2) }),
        current(record(record(frames, f1, ActTime::Tracking(t1)), f2, ActTime::Tracking(t2)), f1)
            == FrameTimestamp::fresh(f1),
{
}

/// A record for one frame leaves the slots of all other frames alone.
pub proof fn lemma_record_keeps_other_slots(
    frames: Seq<FrameTimestamp>,
    f: u64,
    time: ActTime,
    i: int,
)
    requires
        frames.len() == MAX_FRAMES,
        0 <= i < MAX_FRAMES,
        i != slot_index(f),
    ensures
        record(frames, f, time).len() == MAX_FRAMES,
        record(frames, f, time)[i] == frames[i],
{
}

/// The queue of waiting records after `a` joined it: when it is full, the
/// oldest record makes room.
pub open spec fn enqueue(actions: Seq<Action>, a: Action) -> Seq<Action> {
    if actions.len() >= MAX_ACTIONS {
        actions.drop_first().push(a)
    } else {
        actions.push(a)
    }
}

/// The state of a latency tracker.
pub struct LatencyState {
    /// Records that wait for the next submit, oldest first.
    pub actions: Seq<Action>,
    /// The ledger.
    pub frames: Seq<FrameTimestamp>,
    /// The statistics.
    pub controller: LatencyController,
}

impl LatencyState {
    /// The state at time `now`, before any record.
    pub open spec fn fresh(now: u64) -> LatencyState {
        LatencyState {
            actions: Seq::empty(),
            frames: Seq::new(MAX_FRAMES as nat, |i: int| FrameTimestamp::fresh(0)),
            controller: LatencyController::fresh(now),
        }
    }

    /// The state after a record joined the queue.
    pub open spec fn queued(self, frame_index: u64, time: ActTime) -> LatencyState {
        LatencyState { actions: enqueue(self.actions, Action { frame_index, time }), ..self }
    }

    /// The timestamps that a submit of frame `f` at `now` finds.
    pub open spec fn submitted_slot(self, f: u64, now: u64) -> FrameTimestamp {
        submitted(self.frames, self.actions, f, now)[slot_index(f)]
    }

    /// Whether a submit of frame `f` at `now` is accepted.
    pub open spec fn submit_accepted(self, f: u64, now: u64) -> bool {
        self.controller.valid_submit(self.submitted_slot(f, now))
    }

    /// The state after frame `f` was submitted at `now`: the queue is
    /// drained into the ledger, and the statistics take in the timestamps
    /// of the frame if they are valid.
    pub open spec fn after_submit(self, f: u64, now: u64) -> LatencyState {
        LatencyState {
            actions: Seq::empty(),
            frames: submitted(self.frames, self.actions, f, now),
            controller: if self.submit_accepted(f, now) {
                self.controller.after_submit(self.submitted_slot(f, now), now)
            } else {
                self.controller
            },
        }
    }
}

/// The latency ledger with its queue of waiting records and its
/// statistics.
pub struct LatencyTracker {
    actions: Vec<Action>,
    store: FrameTimestampStore,
    controller: LatencyController,
}

impl View for LatencyTracker {
    type V = LatencyState;

    closed spec fn view(&self) -> LatencyState {
        LatencyState {
            actions: self.actions@,
            frames: self.store@,
            controller: self.controller,
        }
    }
}

impl LatencyTracker {
    /// The invariant of the tracker: at most `MAX_ACTIONS` records wait,
    /// and the ledger has `MAX_FRAMES` slots.
    pub closed spec fn wf(&self) -> bool {
        self.actions@.len() <= MAX_ACTIONS && self.store.wf()
    }

    /// What holds of every tracker.
    pub proof fn lemma_wf_bounds(&self)
        requires
            self.wf(),
        ensures
            self@.actions.len() <= MAX_ACTIONS,
            self@.frames.len() == MAX_FRAMES,
    {
        self.store.lemma_wf_len();
    }

    /// A tracker at time `now`, before any record.
    pub fn new(now: u64) -> (tracker: LatencyTracker)
        ensures
            tracker.wf(),
            tracker@ == LatencyState::fresh(now),
    {
        LatencyTracker {
            actions: Vec::new(),
            store: FrameTimestampStore::new(),
            controller: LatencyController::new(now),
        }
    }

    /// The statistics.
    pub fn controller(&self) -> (controller: LatencyController)
        ensures
            controller == self@.controller,
    {
        self.controller
    }

    /// The number of records that wait.
    pub fn pending(&self) -> (n: usize)
        ensures
            n == self@.actions.len(),
    {
        self.actions.len()
    }

    /// The timestamps in the slot of frame `frame_index`, whichever frame
    /// holds it.
    pub fn slot(&self, frame_index: u64) -> (slot: FrameTimestamp)
        requires
            self.wf(),
        ensures
            slot == self@.frames[slot_index(frame_index)],
    {
        self.store.frames[(frame_index % 1024) as usize]
    }
}

/// Puts a record into the queue; when the queue is full, the oldest record
/// is dropped to make room.
pub fn queue(tracker: &mut LatencyTracker, frame_index: u64, time: ActTime)
    requires
        old(tracker).wf(),
    ensures
        final(tracker).wf(),
        final(tracker)@ == old(tracker)@.queued(frame_index, time),
{
    if tracker.actions.len() >= MAX_ACTIONS {
        tracker.actions.remove(0);
        assert(tracker.actions@ =~= old(tracker).actions@.drop_first());
    }
    tracker.actions.push(Action { frame_index, time });
}

/// Forgets all records and statistics and starts again at time `now`.
pub fn reset(tracker: &mut LatencyTracker, now: u64)
    ensures
        final(tracker).wf(),
        final(tracker)@ == LatencyState::fresh(now),
{
    tracker.actions.clear();
    tracker.store.reset();
    tracker.controller.reset(now);
}

/// Records that the tracking of `frame_index` was sent at `now`.
pub fn tracking(tracker: &mut LatencyTracker, frame_index: u64, now: u64)
    requires
        old(tracker).wf(),
    ensures
        final(tracker).wf(),
        final(tracker)@ == old(tracker)@.queued(frame_index, ActTime::Tracking(now)),
{
    queue(tracker, frame_index, ActTime::Tracking(now));
}

/// Records at `now` that the server received the tracking of `frame_index`
/// at `sent_time`, in client time.
pub fn received(tracker: &mut LatencyTracker, frame_index: u64, sent_time: u64, now: u64)
    requires
        old(tracker).wf(),
    ensures
        final(tracker).wf(),
        final(tracker)@ == old(tracker)@.queued(frame_index, ActTime::Received(sent_time, now)),
{
    queue(tracker, frame_index, ActTime::Received(sent_time, now));
}

/// Records at `now` that the server sent the first packet of frame
/// `frame_index` at about `estimated_sent_time`, in client time.
pub fn estimated_sent(
    tracker: &mut LatencyTracker,
    frame_index: u64,
    estimated_sent_time: u64,
    now: u64,
)
    requires
        old(tracker).wf(),
    ensures
        final(tracker).wf(),
        final(tracker)@ == old(tracker)@.queued(
            frame_index,
            ActTime::EstimatedSent(estimated_sent_time, now),
        ),
{
    queue(tracker, frame_index, ActTime::EstimatedSent(estimated_sent_time, now));
}

/// Records that the first video packet of `frame_index` came at `now`.
pub fn received_first(tracker: &mut LatencyTracker, frame_index: u64, now: u64)
    requires
        old(tracker).wf(),
    ensures
        final(tracker).wf(),
        final(tracker)@ == old(tracker)@.queued(frame_index, ActTime::ReceivedFirst(now)),
{
    queue(tracker, frame_index, ActTime::ReceivedFirst(now));
}

/// Records that the last video packet of `frame_index` came at `now`.
pub fn received_last(tracker: &mut LatencyTracker, frame_index: u64, now: u64)
    requires
        old(tracker).wf(),
    ensures
        final(tracker).wf(),
        final(tracker)@ == old(tracker)@.queued(frame_index, ActTime::ReceivedLast(now)),
{
    queue(tracker, frame_index, ActTime::ReceivedLast(now));
}

/// Records that `frame_index` went into the decoder at `now`.
pub fn decoder_input(tracker: &mut LatencyTracker, frame_index: u64, now: u64)
    requires
        old(tracker).wf(),
    ensures
        final(tracker).wf(),
        final(tracker)@ == old(tracker)@.queued(frame_index, ActTime::DecoderInput(now)),
{
    queue(tracker, frame_index, ActTime::DecoderInput(now));
}

/// Records that `frame_index` came out of the decoder at `now`.
pub fn decoder_output(tracker: &mut LatencyTracker, frame_index: u64, now: u64)
    requires
        old(tracker).wf(),
    ensures
        final(tracker).wf(),
        final(tracker)@ == old(tracker)@.queued(frame_index, ActTime::DecoderOutput(now)),
{
    queue(tracker, frame_index, ActTime::DecoderOutput(now));
}

/// Records that `frame_index` was rendered at `now`.
pub fn rendered(tracker: &mut LatencyTracker, frame_index: u64, now: u64)
    requires
        old(tracker).wf(),
    ensures
        final(tracker).wf(),
        final(tracker)@ == old(tracker)@.queued(frame_index, ActTime::Rendered(now)),
{
    queue(tracker, frame_index, ActTime::Rendered(now));
}

/// Submits frame `frame_index` at `now`. The waiting records go into the
/// ledger. The result is `true` exactly when the timestamps of the frame
/// are valid: then tracking is not after submit, decoder input not after
/// decoder output, the estimated send time not after the last video
/// packet, and the submit after the last accepted one; the statistics take
/// the latencies of the frame in.
pub fn submit(tracker: &mut LatencyTracker, frame_index: u64, now: u64) -> (accepted: bool)
    requires
        old(tracker).wf(),
    ensures
        final(tracker).wf(),
        accepted == old(tracker)@.submit_accepted(frame_index, now),
        final(tracker)@ == old(tracker)@.after_submit(frame_index, now),
        accepted ==> ({
            let ts = old(tracker)@.submitted_slot(frame_index, now);
            &&& ts.tracking <= ts.submit
            &&& ts.decoder_input <= ts.decoder_output
            &&& ts.estimated_sent <= ts.received_last
            &&& ts.submit > old(tracker)@.controller.last_submit
            &&& final(tracker)@.controller.last_submit == ts.submit
        }),
{
    let timestamp: FrameTimestamp = tracker.store.submit(frame_index, now, &tracker.actions);
    tracker.actions.clear();
    tracker.controller.submit(timestamp, now)
}

/// Makes the report that opens a time synchronisation at `now`.
pub fn new_time_sync(tracker: &mut LatencyTracker, now: u64) -> (time_sync: TimeSync)
    requires
        old(tracker).wf(),
    ensures
        final(tracker).wf(),
        time_sync == old(tracker)@.controller.report(now),
        final(tracker)@ == (LatencyState {
            controller: LatencyController {
                time_sync_sequence: LatencyController::next_sequence(
                    old(tracker)@.controller.time_sync_sequence,
                ),
                ..old(tracker)@.controller
            },
            ..old(tracker)@
        }),
{
    tracker.controller.new_time_sync(now)
}

/// Whether a frame loss is being reported.
pub fn get_fec_failure_state(tracker: &LatencyTracker) -> (state: bool)
    ensures
        state == tracker@.controller.fec_failure_state,
{
    tracker.controller.get_fec_failure_state()
}

/// Counts one lost frame at time `now`.
pub fn fec_failure(tracker: &mut LatencyTracker, now: u64)
    requires
        old(tracker).wf(),
    ensures
        final(tracker).wf(),
        final(tracker)@ == (LatencyState {
            controller: old(tracker)@.controller.after_fec_failure(now),
            ..old(tracker)@
        }),
{
    tracker.controller.fec_failure(now);
}

/// Sets whether a frame loss is being reported.
pub fn set_fec_failure_state(tracker: &mut LatencyTracker, fec_failure: bool)
    requires
        old(tracker).wf(),
    ensures
        final(tracker).wf(),
        final(tracker)@ == (LatencyState {
            controller: LatencyController {
                fec_failure_state: fec_failure,
                ..old(tracker)@.controller
            },
            ..old(tracker)@
        }),
{
    tracker.controller.set_fec_failure_state(fec_failure);
}

/// Counts `lost` missing packets at time `now`.
pub fn packet_loss(tracker: &mut LatencyTracker, lost: u32, now: u64)
    requires
        old(tracker).wf(),
    ensures
        final(tracker).wf(),
        final(tracker)@ == (LatencyState {
            controller: old(tracker)@.controller.after_packet_loss(lost, now),
            ..old(tracker)@
        }),
{
    tracker.controller.packet_loss(lost, now);
}

/// Takes in the total latency that the server measured; see
/// `LatencyController::set_total_latency`.
pub fn set_total_latency(tracker: &mut LatencyTracker, latency: u32, smoothed: u32)
    requires
        old(tracker).wf(),
    ensures
        final(tracker).wf(),
        final(tracker)@ == (LatencyState {
            controller: LatencyController {
                server_total_latency: if latency < TOTAL_LATENCY_LIMIT {
                    smoothed
                } else {
                    old(tracker)@.controller.server_total_latency
                },
                ..old(tracker)@.controller
            },
            ..old(tracker)@
        }),
{
    tracker.controller.set_total_latency(latency, smoothed);
}

/// Sets the frame rate that the next report carries, as the bit pattern of
/// a single-precision value.
pub fn set_frames_in_second(tracker: &mut LatencyTracker, fps: u32)
    requires
        old(tracker).wf(),
    ensures
        final(tracker).wf(),
        final(tracker)@ == (LatencyState {
            controller: LatencyController { frames_in_second: fps, ..old(tracker)@.controller },
            ..old(tracker)@
        }),
{
    tracker.controller.set_frames_in_second(fps);
}

} // verus!
