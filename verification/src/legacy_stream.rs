//! The handler of the legacy stream: it takes each received buffer, tells
//! its kind by the first four bytes, and drives the latency ledger, the
//! loss accounting and the NAL parser.
//!
//! The handler does no I/O. What has to leave the handler (units for the
//! decoder, packets for the server, requests to the embedding code) comes
//! back as a `StreamOutput`.

use vstd::prelude::*;
use bytes::Bytes;
use crate::byte_buf::{bytes_as_slice, bytes_clone, bytes_get_u32_le, bytes_len, bytes_of};
use crate::common::AlvrCodec;
use crate::fec::{FecState, ReconstructError};
use crate::latency_controller::{
    estimated_sent, fec_failure, get_fec_failure_state, packet_loss, received, received_first,
    received_last, reset, set_fec_failure_state, ActTime, LatencyController, LatencyState,
    LatencyTracker,
};
use crate::legacy_packets::{
    AlvrPacketType, HapticsFeedback, PacketErrorReport, TimeSync, VideoFrame, VideoFrameHeader,
    HAPTICS_FEEDBACK_SIZE, TIME_SYNC_SIZE, VIDEO_FRAME_HEADER_SIZE,
};
use crate::nal::{nal_views, Nal, NalParser, NalParserState, NalView, ProcessError};
use crate::wire::u32_at;

verus! {

/// Half of `x`, rounded towards zero.
pub open spec fn half(x: int) -> int {
    if x >= 0 {
        x / 2
    } else {
        -((-x) / 2)
    }
}

/// How far the server's clock is ahead of the client's, from a time
/// synchronisation that the client opened at `client_time`, the server
/// answered at `server_time` and the client got back at `now`: the server's
/// time plus half the round trip, minus the client's time.
pub open spec fn time_diff(server_time: u64, client_time: u64, now: u64) -> int {
    server_time + half(now - client_time) - now
}

/// The client time that corresponds to `server_time`, modulo 2^64.
pub open spec fn estimated_client_time(server_time: u64, diff: int) -> u64 {
    ((server_time - diff) % 0x1_0000_0000_0000_0000) as u64
}

/// The packets that were lost or came out of order between the packet
/// counter `prev` and the counter `sequence` that follows it: none where
/// `sequence` is `prev + 1` modulo 2^32, or where `prev` is 0, which stands
/// for "no packet yet"; else the distance to the expected counter.
pub open spec fn lost_packets(prev: u32, sequence: u32) -> u32 {
    let expected = (prev + 1) % 0x1_0000_0000;
    if prev == 0 || expected == sequence {
        0
    } else if expected < sequence {
        (sequence - expected) as u32
    } else {
        (expected - sequence) as u32
    }
}

/// The state of a stream handler.
pub struct StreamState {
    pub server_time_diff: int,
    pub last_frame_index: u64,
    pub prev_video_sequence: u32,
    pub parser: NalParserState,
}

/// What a received buffer makes the handler hand out.
pub struct StreamOutput {
    /// Units for the decoder, in order.
    pub nals: Vec<Nal>,
    /// A time synchronisation packet to send to the server.
    pub time_sync: Option<TimeSync>,
    /// A loss report to send to the server.
    pub error_report: Option<PacketErrorReport>,
    /// Whether the decoder has to wait for a new IDR frame, which is to be
    /// requested.
    pub reset_idr_parsed: bool,
    /// A total latency measured by the server, to be taken into the
    /// statistics.
    pub total_latency: Option<u32>,
    /// A vibration for a controller.
    pub haptics: Option<HapticsFeedback>,
}

/// A `StreamOutput` as plain values.
pub struct StreamOutputView {
    pub nals: Seq<NalView>,
    pub time_sync: Option<TimeSync>,
    pub error_report: Option<PacketErrorReport>,
    pub reset_idr_parsed: bool,
    pub total_latency: Option<u32>,
    pub haptics: Option<HapticsFeedback>,
}

impl View for StreamOutput {
    type V = StreamOutputView;

    open spec fn view(&self) -> StreamOutputView {
        StreamOutputView {
            nals: nal_views(self.nals@),
            time_sync: self.time_sync,
            error_report: self.error_report,
            reset_idr_parsed: self.reset_idr_parsed,
            total_latency: self.total_latency,
            haptics: self.haptics,
        }
    }
}

impl StreamOutputView {
    /// Nothing to hand out.
    pub open spec fn nothing() -> StreamOutputView {
        StreamOutputView {
            nals: Seq::empty(),
            time_sync: None,
            error_report: None,
            reset_idr_parsed: false,
            total_latency: None,
            haptics: None,
        }
    }
}

/// The loss report that follows a lost video frame.
pub open spec fn video_loss_report() -> PacketErrorReport {
    PacketErrorReport {
        packet_type: 12,
        lost_frame_type: 0,
        from_packet_counter: 0,
        to_packet_counter: 0,
    }
}

/// A step of the handler: the states after it, and what is handed out.
pub struct StreamStep {
    pub stream: StreamState,
    pub latency: LatencyState,
    pub output: StreamOutputView,
}

impl StreamState {
    /// What a time synchronisation packet from the server does at `now`.
    ///
    /// Mode 1 closes a round trip: the clock difference is set, the
    /// server's total latency is handed out, and the packet goes back as
    /// mode 2 with the client time `now`. Mode 3 tells when the server got
    /// the tracking of a frame. Other modes do nothing.
    pub open spec fn on_time_sync(self, latency: LatencyState, ts: TimeSync, now: u64)
        -> StreamStep {
        if ts.mode == 1 {
            StreamStep {
                stream: StreamState {
                    server_time_diff: time_diff(ts.server_time, ts.client_time, now),
                    ..self
                },
                latency,
                output: StreamOutputView {
                    time_sync: Some(TimeSync { mode: 2, client_time: now, ..ts }),
                    total_latency: Some(ts.server_total_latency),
                    ..StreamOutputView::nothing()
                },
            }
        } else if ts.mode == 3 {
            StreamStep {
                stream: self,
                latency: latency.queued(
                    ts.tracking_recv_frame_index,
                    ActTime::Received(
                        estimated_client_time(ts.server_time, self.server_time_diff),
                        now,
                    ),
                ),
                output: StreamOutputView::nothing(),
            }
        } else {
            StreamStep { stream: self, latency, output: StreamOutputView::nothing() }
        }
    }

    /// The ledger after the header `h` of a video packet was seen at `now`:
    /// the first packet of a tracking frame records when the frame was sent
    /// and when it began to arrive; a gap in the packet counters is counted
    /// as loss.
    pub open spec fn note_video_packet(self, latency: LatencyState, h: VideoFrameHeader, now: u64)
        -> LatencyState {
        let first = if self.last_frame_index != h.tracking_frame_index {
            latency.queued(
                h.tracking_frame_index,
                ActTime::EstimatedSent(
                    estimated_client_time(h.sent_time, self.server_time_diff),
                    now,
                ),
            ).queued(h.tracking_frame_index, ActTime::ReceivedFirst(now))
        } else {
            latency
        };
        let lost = lost_packets(self.prev_video_sequence, h.packet_counter);
        if lost != 0 {
            LatencyState { controller: first.controller.after_packet_loss(lost, now), ..first }
        } else {
            first
        }
    }

    /// What a video packet does at `now`.
    ///
    /// The packet is noted in the ledger and goes to the parser with the
    /// loss flag of the statistics. Units that come out are handed out, and
    /// the arrival of the frame's last packet is recorded. A failure of the
    /// erasure code makes the decoder wait for a new IDR frame. While the
    /// loss flag stands, each packet counts one lost frame and sends a loss
    /// report.
    pub open spec fn on_video_frame(
        self,
        latency: LatencyState,
        h: VideoFrameHeader,
        payload: Seq<u8>,
        now: u64,
    ) -> StreamStep {
        let noted = self.note_video_packet(latency, h, now);
        let done = self.parser.process(h, payload, noted.controller.fec_failure_state);
        let arrived = if done.units is Ok {
            noted.queued(h.tracking_frame_index, ActTime::ReceivedLast(now))
        } else {
            noted
        };
        let counted = if done.fec_failure {
            arrived.controller.after_fec_failure(now)
        } else {
            arrived.controller
        };
        StreamStep {
            stream: StreamState {
                last_frame_index: h.tracking_frame_index,
                prev_video_sequence: h.packet_counter,
                parser: NalParserState { queue: done.queue, ..self.parser },
                ..self
            },
            latency: LatencyState {
                controller: LatencyController { fec_failure_state: done.fec_failure, ..counted },
                ..arrived
            },
            output: StreamOutputView {
                nals: if done.units is Ok {
                    done.units->Ok_0
                } else {
                    Seq::empty()
                },
                error_report: if done.fec_failure {
                    Some(video_loss_report())
                } else {
                    None
                },
                reset_idr_parsed: done.units == Err::<Seq<NalView>, ProcessError>(
                    ProcessError::ReconstructFailed(ReconstructError::ReconstructFailed),
                ),
                ..StreamOutputView::nothing()
            },
        }
    }

    /// What a received buffer does at `now`: a buffer is handled by the
    /// kind that its first four bytes tell; a buffer of another kind, or
    /// too short for its kind, is dropped.
    pub open spec fn on_buffer(self, latency: LatencyState, buffer: Seq<u8>, now: u64)
        -> StreamStep {
        let dropped = StreamStep { stream: self, latency, output: StreamOutputView::nothing() };
        if buffer.len() < 4 {
            dropped
        } else {
            match AlvrPacketType::of_number(u32_at(buffer, 0) as u32) {
                AlvrPacketType::TimeSync => if buffer.len() >= TIME_SYNC_SIZE {
                    self.on_time_sync(latency, TimeSync::parse(buffer), now)
                } else {
                    dropped
                },
                AlvrPacketType::VideoFrame => if buffer.len() >= VIDEO_FRAME_HEADER_SIZE {
                    self.on_video_frame(
                        latency,
                        VideoFrameHeader::parse(buffer),
                        buffer.subrange(VIDEO_FRAME_HEADER_SIZE as int, buffer.len() as int),
                        now,
                    )
                } else {
                    dropped
                },
                AlvrPacketType::HapticsFeedback => if buffer.len() >= HAPTICS_FEEDBACK_SIZE {
                    StreamStep {
                        output: StreamOutputView {
                            haptics: Some(HapticsFeedback::parse(buffer)),
                            ..StreamOutputView::nothing()
                        },
                        ..dropped
                    }
                } else {
                    dropped
                },
                _ => dropped,
            }
        }
    }
}

/// The handler of one legacy stream.
pub struct StreamHandler {
    server_time_diff: i128,
    last_frame_index: u64,
    prev_video_sequence: u32,
    nal_parser: NalParser,
}

impl View for StreamHandler {
    type V = StreamState;

    closed spec fn view(&self) -> StreamState {
        StreamState {
            server_time_diff: self.server_time_diff as int,
            last_frame_index: self.last_frame_index,
            prev_video_sequence: self.prev_video_sequence,
            parser: self.nal_parser@,
        }
    }
}

/// Nothing to hand out.
fn no_output() -> (out: StreamOutput)
    ensures
        out@ == StreamOutputView::nothing(),
{
    let out = StreamOutput {
        nals: Vec::new(),
        time_sync: None,
        error_report: None,
        reset_idr_parsed: false,
        total_latency: None,
        haptics: None,
    };
    assert(out@.nals =~= Seq::<NalView>::empty());
    out
}

impl StreamHandler {
    /// The invariant of the handler: its parser is well formed, and the
    /// clock difference is one that a time synchronisation can give.
    pub closed spec fn wf(&self) -> bool {
        &&& self.nal_parser.wf()
        &&& -0x2_0000_0000_0000_0000 < self.server_time_diff < 0x2_0000_0000_0000_0000
    }

    /// A handler for a stream of `codec`, with or without error
    /// correction. The latency tracker starts again at time `now`.
    pub fn new(enable_fec: bool, codec: AlvrCodec, tracker: &mut LatencyTracker, now: u64) -> (handler:
        StreamHandler)
        requires
            codec != AlvrCodec::Unknown,
        ensures
            handler.wf(),
            handler@ == (StreamState {
                server_time_diff: 0,
                last_frame_index: 0,
                prev_video_sequence: 0,
                parser: NalParserState { enable_fec, codec, queue: FecState::initial() },
            }),
            final(tracker).wf(),
            final(tracker)@ == LatencyState::fresh(now),
    {
        reset(tracker, now);
        StreamHandler {
            server_time_diff: 0,
            last_frame_index: 0,
            prev_video_sequence: 0,
            nal_parser: NalParser::new(enable_fec, codec),
        }
    }

    /// Sets the clock difference from a closed round trip; see `time_diff`.
    fn set_server_time_diff(&mut self, server_time: u64, client_time: u64, now: u64)
        requires
            old(self).wf(),
        ensures
            final(self).wf(),
            final(self)@ == (StreamState {
                server_time_diff: time_diff(server_time, client_time, now),
                ..old(self)@
            }),
    {
        let rtt: i128 = now as i128 - client_time as i128;
        let half_rtt: i128 = if rtt >= 0 {
            rtt / 2
        } else {
            -((-rtt) / 2)
        };
        self.server_time_diff = server_time as i128 + half_rtt - now as i128;
    }

    /// The client time that corresponds to `server_time`; see
    /// `estimated_client_time`.
    pub fn to_estimated_client_time(&self, server_time: u64) -> (client_time: u64)
        requires
            self.wf(),
        ensures
            client_time == estimated_client_time(server_time, self@.server_time_diff),
    {
        let shifted: i128 = server_time as i128 - self.server_time_diff + 0x4_0000_0000_0000_0000;
        proof {
            vstd::arithmetic::div_mod::lemma_mod_multiples_vanish(
                4,
                server_time - self.server_time_diff,
                0x1_0000_0000_0000_0000,
            );
        }
        ((shifted as u128) % 0x1_0000_0000_0000_0000) as u64
    }

    /// Counts the packets lost between the last packet counter and
    /// `sequence`; see `lost_packets`.
    fn process_video_sequence(&mut self, sequence: u32, tracker: &mut LatencyTracker, now: u64)
        requires
            old(self).wf(),
            old(tracker).wf(),
        ensures
            final(self).wf(),
            final(tracker).wf(),
            final(self)@ == (StreamState { prev_video_sequence: sequence, ..old(self)@ }),
            final(tracker)@ == ({
                let lost = lost_packets(old(self)@.prev_video_sequence, sequence);
                if lost != 0 {
                    LatencyState {
                        controller: old(tracker)@.controller.after_packet_loss(lost, now),
                        ..old(tracker)@
                    }
                } else {
                    old(tracker)@
                }
            }),
    {
        let expected: u32 = self.prev_video_sequence.wrapping_add(1);
        if self.prev_video_sequence != 0 && expected != sequence {
            let lost: u32 = if expected < sequence {
                sequence - expected
            } else {
                expected - sequence
            };
            packet_loss(tracker, lost, now);
        }
        self.prev_video_sequence = sequence;
    }

    /// Handles a time synchronisation packet; see
    /// `StreamState::on_time_sync`.
    fn process_time_sync(&mut self, time_sync: TimeSync, tracker: &mut LatencyTracker, now: u64) -> (out:
        StreamOutput)
        requires
            old(self).wf(),
            old(tracker).wf(),
        ensures
            final(self).wf(),
            final(tracker).wf(),
            final(self)@ == old(self)@.on_time_sync(old(tracker)@, time_sync, now).stream,
            final(tracker)@ == old(self)@.on_time_sync(old(tracker)@, time_sync, now).latency,
            out@ == old(self)@.on_time_sync(old(tracker)@, time_sync, now).output,
    {
        let mut out: StreamOutput = no_output();
        if time_sync.mode == 1 {
            self.set_server_time_diff(time_sync.server_time, time_sync.client_time, now);
            let mut reply: TimeSync = time_sync;
            reply.mode = 2;
            reply.client_time = now;
            out.time_sync = Some(reply);
            out.total_latency = Some(time_sync.server_total_latency);
        } else if time_sync.mode == 3 {
            let sent: u64 = self.to_estimated_client_time(time_sync.server_time);
            received(tracker, time_sync.tracking_recv_frame_index, sent, now);
        }
        out
    }

    /// Handles a video packet; see `StreamState::on_video_frame`.
    fn process_video_frame(
        &mut self,
        header: VideoFrameHeader,
        payload: Bytes,
        tracker: &mut LatencyTracker,
        now: u64,
    ) -> (out: StreamOutput)
        requires
            old(self).wf(),
            old(tracker).wf(),
        ensures
            final(self).wf(),
            final(tracker).wf(),
            final(self)@ == old(self)@.on_video_frame(
                old(tracker)@,
                header,
                bytes_of(payload),
                now,
            ).stream,
            final(tracker)@ == old(self)@.on_video_frame(
                old(tracker)@,
                header,
                bytes_of(payload),
                now,
            ).latency,
            out@ == old(self)@.on_video_frame(old(tracker)@, header, bytes_of(payload), now).output,
    {
        let tracking_frame_index: u64 = header.tracking_frame_index;
        if self.last_frame_index != tracking_frame_index {
            let sent: u64 = self.to_estimated_client_time(header.sent_time);
            estimated_sent(tracker, tracking_frame_index, sent, now);
            received_first(tracker, tracking_frame_index, now);
            self.last_frame_index = tracking_frame_index;
        }
        self.process_video_sequence(header.packet_counter, tracker, now);
        let mut failure: bool = get_fec_failure_state(tracker);
        let mut out: StreamOutput = no_output();
        match self.nal_parser.process_packet(header, payload, &mut failure) {
            Ok(nals) => {
                received_last(tracker, tracking_frame_index, now);
                out.nals = nals;
            },
            Err(ProcessError::ReconstructFailed(ReconstructError::ReconstructFailed)) => {
                out.reset_idr_parsed = true;
            },
            Err(_) => {},
        }
        if failure {
            fec_failure(tracker, now);
            out.error_report = Some(
                PacketErrorReport {
                    packet_type: 12,
                    lost_frame_type: 0,
                    from_packet_counter: 0,
                    to_packet_counter: 0,
                },
            );
        }
        set_fec_failure_state(tracker, failure);
        out
    }

    /// Takes in one received buffer at time `now`; see
    /// `StreamState::on_buffer`.
    pub fn legacy_receive(&mut self, buffer: Bytes, tracker: &mut LatencyTracker, now: u64) -> (out:
        StreamOutput)
        requires
            old(self).wf(),
            old(tracker).wf(),
        ensures
            final(self).wf(),
            final(tracker).wf(),
            final(self)@ == old(self)@.on_buffer(old(tracker)@, bytes_of(buffer), now).stream,
            final(tracker)@ == old(self)@.on_buffer(old(tracker)@, bytes_of(buffer), now).latency,
            out@ == old(self)@.on_buffer(old(tracker)@, bytes_of(buffer), now).output,
    {
        let len: usize = bytes_len(&buffer);
        if len < 4 {
            return no_output();
        }
        let mut front: Bytes = bytes_clone(&buffer);
        let number: u32 = bytes_get_u32_le(&mut front);
        match AlvrPacketType::from(number) {
            AlvrPacketType::TimeSync => {
                match TimeSync::decode(bytes_as_slice(&buffer)) {
                    Some(time_sync) => self.process_time_sync(time_sync, tracker, now),
                    None => no_output(),
                }
            },
            AlvrPacketType::VideoFrame => {
                match VideoFrame::split(buffer) {
                    Some(frame) => self.process_video_frame(
                        frame.header,
                        frame.payload,
                        tracker,
                        now,
                    ),
                    None => no_output(),
                }
            },
            AlvrPacketType::HapticsFeedback => {
                let mut out: StreamOutput = no_output();
                out.haptics = HapticsFeedback::decode(bytes_as_slice(&buffer));
                out
            },
            _ => no_output(),
        }
    }
}

} // verus!
