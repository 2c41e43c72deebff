//! What the loops of a running session decide.
//!
//! The loops themselves wait on sockets, channels and timers outside this
//! module. Their decisions are here: when a periodic action is due, when a
//! new IDR frame is to be requested, which frame index a tracking sample
//! gets, how packets of the typed streams are laid out as legacy buffers,
//! and what a rendered frame makes the client report.

use vstd::prelude::*;
use crate::latency_controller::{
    new_time_sync, rendered, submit, tracking, ActTime, LatencyController, LatencyState,
    LatencyTracker,
};
use crate::legacy_packets::{
    HapticsFeedback, TimeSync, VideoFrameHeader, CONTROLLER_FLAG_ENABLE,
    CONTROLLER_FLAG_LEFT_HAND, CONTROLLER_FLAG_OCULUS_QUEST,
};

verus! {

/// Time between two tracking samples: a 360th of a second, in nanoseconds.
pub const TRACKING_INTERVAL_NS: u64 = 2777778;

/// How long the stream may run without an IDR frame before a new one is
/// requested, in microseconds.
pub const IDR_REQUEST_DEADLINE_US: u64 = 2000000;

/// `a + b`, or the largest value where the sum does not fit.
pub open spec fn capped_sum(a: u64, b: u64) -> u64 {
    if a + b > u64::MAX {
        u64::MAX
    } else {
        (a + b) as u64
    }
}

/// A clock for an action that is due every `period`, without drift: each
/// deadline is the one before plus the period, however late the action ran.
#[derive(Debug, Clone, Copy, PartialEq, Eq, Structural)]
pub struct Pacer {
    pub period: u64,
    pub deadline: u64,
}

impl Pacer {
    /// A pacer whose first action is due at `start`.
    pub fn new(start: u64, period: u64) -> (pacer: Pacer)
        ensures
            pacer == (Pacer { period, deadline: start }),
    {
        Pacer { period, deadline: start }
    }

    /// Whether the action is due at `now`.
    pub fn is_due(&self, now: u64) -> (due: bool)
        ensures
            due == (now >= self.deadline),
    {
        now >= self.deadline
    }

    /// Moves on to the next deadline, and returns it.
    pub fn advance(&mut self) -> (deadline: u64)
        ensures
            deadline == capped_sum(old(self).deadline, old(self).period),
            *final(self) == (Pacer { deadline, ..*old(self) }),
    {
        self.deadline = self.deadline.saturating_add(self.period);
        self.deadline
    }
}

/// The watch over the first IDR frame of a stream.
#[derive(Debug, Clone, Copy, PartialEq, Eq, Structural)]
pub struct IdrWatch {
    /// When a new IDR frame is to be requested, while one is awaited.
    pub deadline: Option<u64>,
}

impl IdrWatch {
    /// A watch that awaits nothing yet.
    pub fn new() -> (watch: IdrWatch)
        ensures
            watch.deadline.is_none(),
    {
        IdrWatch { deadline: None }
    }

    /// The watch after data came at `now` while `idr_parsed` told whether
    /// an IDR frame has gone to the decoder, and whether a new IDR frame is
    /// to be requested. Without an IDR frame the first data sets a
    /// deadline; data after the deadline requests a frame and clears it.
    pub open spec fn after_data(self, idr_parsed: bool, now: u64) -> (IdrWatch, bool) {
        if idr_parsed {
            (self, false)
        } else {
            match self.deadline {
                Some(deadline) => if deadline < now {
                    (IdrWatch { deadline: None }, true)
                } else {
                    (self, false)
                },
                None => (
                    IdrWatch { deadline: Some(capped_sum(now, IDR_REQUEST_DEADLINE_US)) },
                    false,
                ),
            }
        }
    }

    /// Takes note of data that came at `now`; the result tells whether a
    /// new IDR frame is to be requested. See `after_data`.
    pub fn on_data(&mut self, idr_parsed: bool, now: u64) -> (request: bool)
        ensures
            (*final(self), request) == old(self).after_data(idr_parsed, now),
    {
        if idr_parsed {
            return false;
        }
        match self.deadline {
            Some(deadline) => {
                if deadline < now {
                    self.deadline = None;
                    true
                } else {
                    false
                }
            },
            None => {
                self.deadline = Some(now.saturating_add(IDR_REQUEST_DEADLINE_US));
                false
            },
        }
    }
}

/// The flags of the two controllers in a tracking sample: both enabled and
/// of the same kind, the first one the left hand.
pub fn controller_flags() -> (flags: [u32; 2])
    ensures
        flags[0] == 0x13,
        flags[1] == 0x11,
{
    assert(0x01u32 | 0x10u32 | 0x02u32 == 0x13u32) by (bit_vector);
    assert(0x01u32 | 0x10u32 == 0x11u32) by (bit_vector);
    [
        CONTROLLER_FLAG_ENABLE | CONTROLLER_FLAG_OCULUS_QUEST | CONTROLLER_FLAG_LEFT_HAND,
        CONTROLLER_FLAG_ENABLE | CONTROLLER_FLAG_OCULUS_QUEST,
    ]
}

/// The frame index after `frame_index`; it starts again at 0 after the
/// largest.
pub open spec fn next_frame_index(frame_index: u64) -> u64 {
    if frame_index == u64::MAX {
        0
    } else {
        (frame_index + 1) as u64
    }
}

/// The count of tracking samples.
#[derive(Debug, Clone, Copy, PartialEq, Eq, Structural)]
pub struct TrackingTicker {
    pub frame_index: u64,
    pub pacer: Pacer,
}

impl TrackingTicker {
    /// A ticker whose first sample is due at `start_ns`.
    pub fn new(start_ns: u64) -> (ticker: TrackingTicker)
        ensures
            ticker == (TrackingTicker {
                frame_index: 0,
                pacer: Pacer { period: TRACKING_INTERVAL_NS, deadline: start_ns },
            }),
    {
        TrackingTicker { frame_index: 0, pacer: Pacer::new(start_ns, TRACKING_INTERVAL_NS) }
    }

    /// Starts the next sample at `now_us`: gives it the next frame index,
    /// records in the ledger that its tracking is sent, and moves the
    /// deadline on by one interval. Returns the frame index and the new
    /// deadline.
    pub fn tick(&mut self, tracker: &mut LatencyTracker, now_us: u64) -> (r: (u64, u64))
        requires
            old(tracker).wf(),
        ensures
            final(tracker).wf(),
            r.0 == next_frame_index(old(self).frame_index),
            r.1 == capped_sum(old(self).pacer.deadline, old(self).pacer.period),
            *final(self) == (TrackingTicker {
                frame_index: r.0,
                pacer: Pacer { deadline: r.1, ..old(self).pacer },
            }),
            final(tracker)@ == old(tracker)@.queued(r.0, ActTime::Tracking(now_us)),
    {
        self.frame_index = if self.frame_index == u64::MAX {
            0
        } else {
            self.frame_index + 1
        };
        tracking(tracker, self.frame_index, now_us);
        let deadline: u64 = self.pacer.advance();
        (self.frame_index, deadline)
    }
}

/// The video header of the typed stream as a legacy header: the same
/// fields under the packet type of video frames.
pub open spec fn legacy_video_header(h: VideoFrameHeader) -> VideoFrameHeader {
    VideoFrameHeader { packet_type: 9, ..h }
}

/// Lays a video packet of the typed stream out as a legacy buffer: the
/// packed header, then the payload.
pub fn repack_video(header: &VideoFrameHeader, payload: &[u8]) -> (buffer: Vec<u8>)
    ensures
        buffer@ == legacy_video_header(*header).wire() + payload@,
{
    let mut legacy: VideoFrameHeader = *header;
    legacy.packet_type = 9;
    let mut buffer: Vec<u8> = legacy.encode();
    let mut i: usize = 0;
    while i < payload.len()
        invariant
            i <= payload@.len(),
            buffer@ == legacy_video_header(*header).wire() + payload@.subrange(0, i as int),
        decreases payload@.len() - i,
    {
        buffer.push(payload[i]);
        assert(buffer@ =~= legacy_video_header(*header).wire() + payload@.subrange(0, i + 1));
        i += 1;
    }
    assert(payload@.subrange(0, payload@.len() as int) =~= payload@);
    buffer
}

/// The haptics record for a vibration of the typed stream; amplitude,
/// duration in seconds and frequency as bit patterns. Hand 0 is the left.
pub open spec fn legacy_haptics(amplitude: u32, duration: u32, frequency: u32, left_hand: bool)
    -> HapticsFeedback {
    HapticsFeedback {
        packet_type: 13,
        start_time: 0,
        amplitude,
        duration,
        frequency,
        hand: if left_hand {
            0
        } else {
            1
        },
    }
}

/// Lays a vibration of the typed stream out as a legacy buffer.
pub fn repack_haptics(amplitude: u32, duration: u32, frequency: u32, left_hand: bool) -> (buffer:
    Vec<u8>)
    ensures
        buffer@ == legacy_haptics(amplitude, duration, frequency, left_hand).wire(),
{
    let haptics = HapticsFeedback {
        packet_type: 13,
        start_time: 0,
        amplitude,
        duration,
        frequency,
        hand: if left_hand {
            0
        } else {
            1
        },
    };
    haptics.encode()
}

/// A time synchronisation as the control channel carries it.
#[derive(Debug, Clone, Copy, PartialEq, Eq, Structural)]
pub struct TimeSyncPacket {
    pub mode: u32,
    pub server_time: u64,
    pub client_time: u64,
    pub packets_lost_total: u64,
    pub packets_lost_in_second: u64,
    pub average_send_latency: u32,
    pub average_transport_latency: u32,
    pub average_decode_latency: u64,
    pub idle_time: u32,
    pub fec_failure: u32,
    pub fec_failure_in_second: u64,
    pub fec_failure_total: u64,
    /// Frames per second, as the bit pattern of a single-precision value.
    pub fps: u32,
    pub server_total_latency: u32,
    pub tracking_recv_frame_index: u64,
}

impl TimeSyncPacket {
    /// The legacy record for this packet; the fields that the control
    /// channel does not carry are 0.
    pub open spec fn legacy(self) -> TimeSync {
        TimeSync {
            packet_type: 7,
            mode: self.mode,
            sequence: 0,
            server_time: self.server_time,
            client_time: self.client_time,
            packets_lost_total: self.packets_lost_total,
            packets_lost_in_second: self.packets_lost_in_second,
            average_total_latency: 0,
            average_send_latency: self.average_send_latency,
            average_transport_latency: self.average_transport_latency,
            average_decode_latency: self.average_decode_latency,
            idle_time: self.idle_time,
            fec_failure: self.fec_failure,
            fec_failure_in_second: self.fec_failure_in_second,
            fec_failure_total: self.fec_failure_total,
            fps: self.fps,
            server_total_latency: self.server_total_latency,
            tracking_recv_frame_index: self.tracking_recv_frame_index,
        }
    }

    /// The packet for a legacy record.
    pub open spec fn of_legacy(value: TimeSync) -> TimeSyncPacket {
        TimeSyncPacket {
            mode: value.mode,
            server_time: value.server_time,
            client_time: value.client_time,
            packets_lost_total: value.packets_lost_total,
            packets_lost_in_second: value.packets_lost_in_second,
            average_send_latency: value.average_send_latency,
            average_transport_latency: value.average_transport_latency,
            average_decode_latency: value.average_decode_latency,
            idle_time: value.idle_time,
            fec_failure: value.fec_failure,
            fec_failure_in_second: value.fec_failure_in_second,
            fec_failure_total: value.fec_failure_total,
            fps: value.fps,
            server_total_latency: value.server_total_latency,
            tracking_recv_frame_index: value.tracking_recv_frame_index,
        }
    }

    /// The packet for a legacy record.
    pub fn from_legacy(value: &TimeSync) -> (packet: TimeSyncPacket)
        ensures
            packet == TimeSyncPacket::of_legacy(*value),
    {
        TimeSyncPacket {
            mode: value.mode,
            server_time: value.server_time,
            client_time: value.client_time,
            packets_lost_total: value.packets_lost_total,
            packets_lost_in_second: value.packets_lost_in_second,
            average_send_latency: value.average_send_latency,
            average_transport_latency: value.average_transport_latency,
            average_decode_latency: value.average_decode_latency,
            idle_time: value.idle_time,
            fec_failure: value.fec_failure,
            fec_failure_in_second: value.fec_failure_in_second,
            fec_failure_total: value.fec_failure_total,
            fps: value.fps,
            server_total_latency: value.server_total_latency,
            tracking_recv_frame_index: value.tracking_recv_frame_index,
        }
    }

    /// The legacy record for this packet.
    pub fn to_legacy(&self) -> (value: TimeSync)
        ensures
            value == self.legacy(),
    {
        TimeSync {
            packet_type: 7,
            mode: self.mode,
            sequence: 0,
            server_time: self.server_time,
            client_time: self.client_time,
            packets_lost_total: self.packets_lost_total,
            packets_lost_in_second: self.packets_lost_in_second,
            average_total_latency: 0,
            average_send_latency: self.average_send_latency,
            average_transport_latency: self.average_transport_latency,
            average_decode_latency: self.average_decode_latency,
            idle_time: self.idle_time,
            fec_failure: self.fec_failure,
            fec_failure_in_second: self.fec_failure_in_second,
            fec_failure_total: self.fec_failure_total,
            fps: self.fps,
            server_total_latency: self.server_total_latency,
            tracking_recv_frame_index: self.tracking_recv_frame_index,
        }
    }
}

/// Lays a time synchronisation of the control channel out as a legacy
/// buffer.
pub fn repack_time_sync(packet: &TimeSyncPacket) -> (buffer: Vec<u8>)
    ensures
        buffer@ == packet.legacy().wire(),
{
    packet.to_legacy().encode()
}

/// What is carried by the control channel goes through the legacy record
/// and back unchanged.
pub proof fn lemma_time_sync_packet_round_trip(packet: TimeSyncPacket)
    ensures
        TimeSyncPacket::of_legacy(packet.legacy()) == packet,
{
}

/// Takes note at `now` that frame `frame_index` was rendered, and submits
/// it. Where the submit is accepted, the result is the report that opens
/// the next time synchronisation, for the control channel.
pub fn on_frame_rendered(tracker: &mut LatencyTracker, frame_index: u64, now: u64) -> (report:
    Option<TimeSyncPacket>)
    requires
        old(tracker).wf(),
    ensures
        final(tracker).wf(),
        ({
            let noted = old(tracker)@.queued(frame_index, ActTime::Rendered(now));
            let done = noted.after_submit(frame_index, now);
            if noted.submit_accepted(frame_index, now) {
                &&& report == Some(TimeSyncPacket::of_legacy(done.controller.report(now)))
                &&& final(tracker)@ == (LatencyState {
                    controller: LatencyController {
                        time_sync_sequence: LatencyController::next_sequence(
                            done.controller.time_sync_sequence,
                        ),
                        ..done.controller
                    },
                    ..done
                })
            } else {
                &&& report.is_none()
                &&& final(tracker)@ == done
            }
        }),
{
    rendered(tracker, frame_index, now);
    if submit(tracker, frame_index, now) {
        let time_sync: TimeSync = new_time_sync(tracker, now);
        Some(TimeSyncPacket::from_legacy(&time_sync))
    } else {
        None
    }
}

} // verus!
