//! The packed little-endian records of the legacy stream: their fields,
//! their byte layout, and the encoders and decoders for both directions.

use vstd::prelude::*;
use vstd::std_specs::convert::FromSpecImpl;
use bytes::Bytes;
use crate::byte_buf::{bytes_as_slice, bytes_of, bytes_split_off};
use crate::wire::{
    lemma_field_ranges,
    lemma_u16_bytes_of_field, lemma_u16_in, lemma_u16_round_trip, lemma_u32_bytes_of_field,
    lemma_u32_in, lemma_u32_round_trip, lemma_u64_bytes_of_field, lemma_u64_in,
    lemma_u64_round_trip, push_u16_le, push_u32_le, push_u64_le, read_u16_le, read_u32_le,
    read_u64_le, u16_at, u16_bytes, u32_at, u32_bytes, u64_at, u64_bytes,
};

verus! {

/// Largest datagram of the legacy stream, header included.
pub const ALVR_MAX_PACKET_SIZE: usize = 1400;

/// Bytes of an encoded `VideoFrameHeader`.
pub const VIDEO_FRAME_HEADER_SIZE: usize = 42;

/// Bytes of an encoded `TimeSync`.
pub const TIME_SYNC_SIZE: usize = 108;

/// Bytes of an encoded `PacketErrorReport`.
pub const PACKET_ERROR_REPORT_SIZE: usize = 16;

/// Bytes of an encoded `HapticsFeedback`.
pub const HAPTICS_FEEDBACK_SIZE: usize = 25;

pub const CONTROLLER_FLAG_ENABLE: u32 = 0x01;
pub const CONTROLLER_FLAG_LEFT_HAND: u32 = 0x02;
pub const CONTROLLER_FLAG_GEAR_VR: u32 = 0x04;
pub const CONTROLLER_FLAG_OCULUS_GO: u32 = 0x08;
pub const CONTROLLER_FLAG_OCULUS_QUEST: u32 = 0x10;
pub const CONTROLLER_FLAG_OCULUS_HAND: u32 = 0x20;

/// The kind of a legacy packet, told by its first four bytes.
#[derive(Debug, Clone, Copy, PartialEq, Eq, Structural)]
pub enum AlvrPacketType {
    TrackingInfo,
    TimeSync,
    VideoFrame,
    PacketErrorReport,
    HapticsFeedback,
    Unknown,
}

impl AlvrPacketType {
    /// The kind that the number `n` stands for.
    pub open spec fn of_number(n: u32) -> AlvrPacketType {
        if n == 6 {
            AlvrPacketType::TrackingInfo
        } else if n == 7 {
            AlvrPacketType::TimeSync
        } else if n == 9 {
            AlvrPacketType::VideoFrame
        } else if n == 12 {
            AlvrPacketType::PacketErrorReport
        } else if n == 13 {
            AlvrPacketType::HapticsFeedback
        } else {
            AlvrPacketType::Unknown
        }
    }

    /// The number that stands for this kind on the wire.
    pub open spec fn number(self) -> u32 {
        match self {
            AlvrPacketType::TrackingInfo => 6,
            AlvrPacketType::TimeSync => 7,
            AlvrPacketType::VideoFrame => 9,
            AlvrPacketType::PacketErrorReport => 12,
            AlvrPacketType::HapticsFeedback => 13,
            AlvrPacketType::Unknown => u32::MAX,
        }
    }

    /// Every known kind is found again from its number.
    pub proof fn lemma_number_round_trip(t: AlvrPacketType)
        ensures
            AlvrPacketType::of_number(t.number()) == t,
    {
    }
}

impl From<u32> for AlvrPacketType {
    fn from(n: u32) -> (t: AlvrPacketType) {
        if n == 6 {
            AlvrPacketType::TrackingInfo
        } else if n == 7 {
            AlvrPacketType::TimeSync
        } else if n == 9 {
            AlvrPacketType::VideoFrame
        } else if n == 12 {
            AlvrPacketType::PacketErrorReport
        } else if n == 13 {
            AlvrPacketType::HapticsFeedback
        } else {
            AlvrPacketType::Unknown
        }
    }
}

impl FromSpecImpl<u32> for AlvrPacketType {
    open spec fn obeys_from_spec() -> bool {
        true
    }

    open spec fn from_spec(n: u32) -> AlvrPacketType {
        AlvrPacketType::of_number(n)
    }
}

impl From<AlvrPacketType> for u32 {
    fn from(t: AlvrPacketType) -> (n: u32) {
        match t {
            AlvrPacketType::TrackingInfo => 6,
            AlvrPacketType::TimeSync => 7,
            AlvrPacketType::VideoFrame => 9,
            AlvrPacketType::PacketErrorReport => 12,
            AlvrPacketType::HapticsFeedback => 13,
            AlvrPacketType::Unknown => u32::MAX,
        }
    }
}

impl FromSpecImpl<AlvrPacketType> for u32 {
    open spec fn obeys_from_spec() -> bool {
        true
    }

    open spec fn from_spec(t: AlvrPacketType) -> u32 {
        t.number()
    }
}

/// The kind of frame that a loss report speaks of.
#[derive(Debug, Clone, Copy, PartialEq, Eq, Structural)]
pub enum AlvrLostFrameType {
    Video,
    Unknown,
}

impl AlvrLostFrameType {
    /// The number that stands for this kind on the wire.
    pub open spec fn number(self) -> u32 {
        match self {
            AlvrLostFrameType::Video => 0,
            AlvrLostFrameType::Unknown => u32::MAX,
        }
    }
}

impl From<AlvrLostFrameType> for u32 {
    fn from(value: AlvrLostFrameType) -> (n: u32) {
        match value {
            AlvrLostFrameType::Video => 0,
            AlvrLostFrameType::Unknown => u32::MAX,
        }
    }
}

impl FromSpecImpl<AlvrLostFrameType> for u32 {
    open spec fn obeys_from_spec() -> bool {
        true
    }

    open spec fn from_spec(value: AlvrLostFrameType) -> u32 {
        value.number()
    }
}

/// The header in front of every video packet.
#[derive(Debug, Clone, Copy, PartialEq, Eq, Structural)]
pub struct VideoFrameHeader {
    pub packet_type: u32,
    pub packet_counter: u32,
    pub tracking_frame_index: u64,
    /// Tells one video frame from the next; the tracking index may repeat.
    pub video_frame_index: u64,
    pub sent_time: u64,
    pub frame_byte_size: u32,
    pub fec_index: u32,
    pub fec_percentage: u16,
}

impl VideoFrameHeader {
    /// The 42 bytes of this header on the wire.
    pub open spec fn wire(self) -> Seq<u8> {
        u32_bytes(self.packet_type) + u32_bytes(self.packet_counter) + u64_bytes(
            self.tracking_frame_index,
        ) + u64_bytes(self.video_frame_index) + u64_bytes(self.sent_time) + u32_bytes(
            self.frame_byte_size,
        ) + u32_bytes(self.fec_index) + u16_bytes(self.fec_percentage)
    }

    /// The header that the first 42 bytes of `s` hold.
    pub open spec fn parse(s: Seq<u8>) -> VideoFrameHeader {
        VideoFrameHeader {
            packet_type: u32_at(s, 0) as u32,
            packet_counter: u32_at(s, 4) as u32,
            tracking_frame_index: u64_at(s, 8) as u64,
            video_frame_index: u64_at(s, 16) as u64,
            sent_time: u64_at(s, 24) as u64,
            frame_byte_size: u32_at(s, 32) as u32,
            fec_index: u32_at(s, 36) as u32,
            fec_percentage: u16_at(s, 40) as u16,
        }
    }

    /// Decoding an encoded header gives the header back.
    pub proof fn lemma_parse_wire(h: VideoFrameHeader)
        ensures
            h.wire().len() == VIDEO_FRAME_HEADER_SIZE,
            VideoFrameHeader::parse(h.wire()) == h,
    {
        let s = h.wire();
        lemma_u32_round_trip(h.packet_type);
        lemma_u32_round_trip(h.packet_counter);
        lemma_u64_round_trip(h.tracking_frame_index);
        lemma_u64_round_trip(h.video_frame_index);
        lemma_u64_round_trip(h.sent_time);
        lemma_u32_round_trip(h.frame_byte_size);
        lemma_u32_round_trip(h.fec_index);
        lemma_u16_round_trip(h.fec_percentage);
        assert(s.subrange(0, 4) =~= u32_bytes(h.packet_type));
        assert(s.subrange(4, 8) =~= u32_bytes(h.packet_counter));
        assert(s.subrange(8, 16) =~= u64_bytes(h.tracking_frame_index));
        assert(s.subrange(16, 24) =~= u64_bytes(h.video_frame_index));
        assert(s.subrange(24, 32) =~= u64_bytes(h.sent_time));
        assert(s.subrange(32, 36) =~= u32_bytes(h.frame_byte_size));
        assert(s.subrange(36, 40) =~= u32_bytes(h.fec_index));
        assert(s.subrange(40, 42) =~= u16_bytes(h.fec_percentage));
        lemma_u32_in(s, 0, h.packet_type);
        lemma_u32_in(s, 4, h.packet_counter);
        lemma_u64_in(s, 8, h.tracking_frame_index);
        lemma_u64_in(s, 16, h.video_frame_index);
        lemma_u64_in(s, 24, h.sent_time);
        lemma_u32_in(s, 32, h.frame_byte_size);
        lemma_u32_in(s, 36, h.fec_index);
        lemma_u16_in(s, 40, h.fec_percentage);
    }

    /// Encoding a decoded header gives the first 42 bytes back.
    pub proof fn lemma_wire_parse(s: Seq<u8>)
        requires
            s.len() >= VIDEO_FRAME_HEADER_SIZE,
        ensures
            VideoFrameHeader::parse(s).wire() == s.subrange(0, VIDEO_FRAME_HEADER_SIZE as int),
    {
        lemma_u32_bytes_of_field(s, 0);
        lemma_u32_bytes_of_field(s, 4);
        lemma_u64_bytes_of_field(s, 8);
        lemma_u64_bytes_of_field(s, 16);
        lemma_u64_bytes_of_field(s, 24);
        lemma_u32_bytes_of_field(s, 32);
        lemma_u32_bytes_of_field(s, 36);
        lemma_u16_bytes_of_field(s, 40);
        lemma_field_ranges(s, 0);
        assert(VideoFrameHeader::parse(s).wire() =~= s.subrange(0, 42));
    }

    /// Reads a header from the front of `buf`; `None` when `buf` is too
    /// short to hold one.
    pub fn decode(buf: &[u8]) -> (r: Option<VideoFrameHeader>)
        ensures
            buf@.len() >= VIDEO_FRAME_HEADER_SIZE ==> r == Some(VideoFrameHeader::parse(buf@)),
            buf@.len() < VIDEO_FRAME_HEADER_SIZE ==> r.is_none(),
    {
        if buf.len() < VIDEO_FRAME_HEADER_SIZE {
            return None;
        }
        Some(
            VideoFrameHeader {
                packet_type: read_u32_le(buf, 0),
                packet_counter: read_u32_le(buf, 4),
                tracking_frame_index: read_u64_le(buf, 8),
                video_frame_index: read_u64_le(buf, 16),
                sent_time: read_u64_le(buf, 24),
                frame_byte_size: read_u32_le(buf, 32),
                fec_index: read_u32_le(buf, 36),
                fec_percentage: read_u16_le(buf, 40),
            },
        )
    }

    /// Appends the 42 bytes of this header to `out`.
    pub fn encode_into(&self, out: &mut Vec<u8>)
        ensures
            final(out)@ == old(out)@ + self.wire(),
    {
        push_u32_le(out, self.packet_type);
        push_u32_le(out, self.packet_counter);
        push_u64_le(out, self.tracking_frame_index);
        push_u64_le(out, self.video_frame_index);
        push_u64_le(out, self.sent_time);
        push_u32_le(out, self.frame_byte_size);
        push_u32_le(out, self.fec_index);
        push_u16_le(out, self.fec_percentage);
        assert(out@ =~= old(out)@ + self.wire());
    }

    /// The 42 bytes of this header.
    pub fn encode(&self) -> (out: Vec<u8>)
        ensures
            out@ == self.wire(),
    {
        let mut out: Vec<u8> = Vec::new();
        self.encode_into(&mut out);
        assert(out@ =~= self.wire());
        out
    }
}

impl Default for VideoFrameHeader {
    fn default() -> (h: VideoFrameHeader)
        ensures
            h == (VideoFrameHeader {
                packet_type: 9,
                packet_counter: 0,
                tracking_frame_index: 0,
                video_frame_index: 0,
                sent_time: 0,
                frame_byte_size: 0,
                fec_index: 0,
                fec_percentage: 0,
            }),
    {
        VideoFrameHeader {
            packet_type: 9,
            packet_counter: 0,
            tracking_frame_index: 0,
            video_frame_index: 0,
            sent_time: 0,
            frame_byte_size: 0,
            fec_index: 0,
            fec_percentage: 0,
        }
    }
}

/// One step of the four-step time synchronisation between client and server.
#[derive(Debug, Clone, Copy, PartialEq, Eq, Structural)]
pub struct TimeSync {
    pub packet_type: u32,
    /// 0 and 2 go to the server, 1 and 3 come from it.
    pub mode: u32,
    pub sequence: u64,
    pub server_time: u64,
    pub client_time: u64,
    pub packets_lost_total: u64,
    pub packets_lost_in_second: u64,
    pub average_total_latency: u32,
    pub average_send_latency: u32,
    pub average_transport_latency: u32,
    pub average_decode_latency: u64,
    pub idle_time: u32,
    pub fec_failure: u32,
    pub fec_failure_in_second: u64,
    pub fec_failure_total: u64,
    /// Frames per second, as the bit pattern of a single-precision value.
    pub fps: u32,
    pub server_total_latency: u32,
    pub tracking_recv_frame_index: u64,
}

impl TimeSync {
    /// The 108 bytes of this record on the wire.
    pub open spec fn wire(self) -> Seq<u8> {
        u32_bytes(self.packet_type)
            + u32_bytes(self.mode)
            + u64_bytes(self.sequence)
            + u64_bytes(self.server_time)
            + u64_bytes(self.client_time)
            + u64_bytes(self.packets_lost_total)
            + u64_bytes(self.packets_lost_in_second)
            + u32_bytes(self.average_total_latency)
            + u32_bytes(self.average_send_latency)
            + u32_bytes(self.average_transport_latency)
            + u64_bytes(self.average_decode_latency)
            + u32_bytes(self.idle_time)
            + u32_bytes(self.fec_failure)
            + u64_bytes(self.fec_failure_in_second)
            + u64_bytes(self.fec_failure_total)
            + u32_bytes(self.fps)
            + u32_bytes(self.server_total_latency)
            + u64_bytes(self.tracking_recv_frame_index)
    }

    /// The record that the first 108 bytes of `s` hold.
    pub open spec fn parse(s: Seq<u8>) -> TimeSync {
        TimeSync {
            packet_type: u32_at(s, 0) as u32,
            mode: u32_at(s, 4) as u32,
            sequence: u64_at(s, 8) as u64,
            server_time: u64_at(s, 16) as u64,
            client_time: u64_at(s, 24) as u64,
            packets_lost_total: u64_at(s, 32) as u64,
            packets_lost_in_second: u64_at(s, 40) as u64,
            average_total_latency: u32_at(s, 48) as u32,
            average_send_latency: u32_at(s, 52) as u32,
            average_transport_latency: u32_at(s, 56) as u32,
            average_decode_latency: u64_at(s, 60) as u64,
            idle_time: u32_at(s, 68) as u32,
            fec_failure: u32_at(s, 72) as u32,
            fec_failure_in_second: u64_at(s, 76) as u64,
            fec_failure_total: u64_at(s, 84) as u64,
            fps: u32_at(s, 92) as u32,
            server_total_latency: u32_at(s, 96) as u32,
            tracking_recv_frame_index: u64_at(s, 100) as u64,
        }
    }

    /// Decoding an encoded record gives the record back.
    pub proof fn lemma_parse_wire(r: TimeSync)
        ensures
            r.wire().len() == TIME_SYNC_SIZE,
            TimeSync::parse(r.wire()) == r,
    {
        let s = r.wire();
        lemma_u32_round_trip(r.packet_type);
        lemma_u32_round_trip(r.mode);
        lemma_u64_round_trip(r.sequence);
        lemma_u64_round_trip(r.server_time);
        lemma_u64_round_trip(r.client_time);
        lemma_u64_round_trip(r.packets_lost_total);
        lemma_u64_round_trip(r.packets_lost_in_second);
        lemma_u32_round_trip(r.average_total_latency);
        lemma_u32_round_trip(r.average_send_latency);
        lemma_u32_round_trip(r.average_transport_latency);
        lemma_u64_round_trip(r.average_decode_latency);
        lemma_u32_round_trip(r.idle_time);
        lemma_u32_round_trip(r.fec_failure);
        lemma_u64_round_trip(r.fec_failure_in_second);
        lemma_u64_round_trip(r.fec_failure_total);
        lemma_u32_round_trip(r.fps);
        lemma_u32_round_trip(r.server_total_latency);
        lemma_u64_round_trip(r.tracking_recv_frame_index);
        assert(s.subrange(0, 4) =~= u32_bytes(r.packet_type));
        lemma_u32_in(s, 0, r.packet_type);
        assert(s.subrange(4, 8) =~= u32_bytes(r.mode));
        lemma_u32_in(s, 4, r.mode);
        assert(s.subrange(8, 16) =~= u64_bytes(r.sequence));
        lemma_u64_in(s, 8, r.sequence);
        assert(s.subrange(16, 24) =~= u64_bytes(r.server_time));
        lemma_u64_in(s, 16, r.server_time);
        assert(s.subrange(24, 32) =~= u64_bytes(r.client_time));
        lemma_u64_in(s, 24, r.client_time);
        assert(s.subrange(32, 40) =~= u64_bytes(r.packets_lost_total));
        lemma_u64_in(s, 32, r.packets_lost_total);
        assert(s.subrange(40, 48) =~= u64_bytes(r.packets_lost_in_second));
        lemma_u64_in(s, 40, r.packets_lost_in_second);
        assert(s.subrange(48, 52) =~= u32_bytes(r.average_total_latency));
        lemma_u32_in(s, 48, r.average_total_latency);
        assert(s.subrange(52, 56) =~= u32_bytes(r.average_send_latency));
        lemma_u32_in(s, 52, r.average_send_latency);
        assert(s.subrange(56, 60) =~= u32_bytes(r.average_transport_latency));
        lemma_u32_in(s, 56, r.average_transport_latency);
        assert(s.subrange(60, 68) =~= u64_bytes(r.average_decode_latency));
        lemma_u64_in(s, 60, r.average_decode_latency);
        assert(s.subrange(68, 72) =~= u32_bytes(r.idle_time));
        lemma_u32_in(s, 68, r.idle_time);
        assert(s.subrange(72, 76) =~= u32_bytes(r.fec_failure));
        lemma_u32_in(s, 72, r.fec_failure);
        assert(s.subrange(76, 84) =~= u64_bytes(r.fec_failure_in_second));
        lemma_u64_in(s, 76, r.fec_failure_in_second);
        assert(s.subrange(84, 92) =~= u64_bytes(r.fec_failure_total));
        lemma_u64_in(s, 84, r.fec_failure_total);
        assert(s.subrange(92, 96) =~= u32_bytes(r.fps));
        lemma_u32_in(s, 92, r.fps);
        assert(s.subrange(96, 100) =~= u32_bytes(r.server_total_latency));
        lemma_u32_in(s, 96, r.server_total_latency);
        assert(s.subrange(100, 108) =~= u64_bytes(r.tracking_recv_frame_index));
        lemma_u64_in(s, 100, r.tracking_recv_frame_index);
    }

    /// Encoding a decoded record gives the first 108 bytes back.
    pub proof fn lemma_wire_parse(s: Seq<u8>)
        requires
            s.len() >= TIME_SYNC_SIZE,
        ensures
            TimeSync::parse(s).wire() == s.subrange(0, TIME_SYNC_SIZE as int),
    {
        lemma_u32_bytes_of_field(s, 0);
        lemma_u32_bytes_of_field(s, 4);
        lemma_u64_bytes_of_field(s, 8);
        lemma_u64_bytes_of_field(s, 16);
        lemma_u64_bytes_of_field(s, 24);
        lemma_u64_bytes_of_field(s, 32);
        lemma_u64_bytes_of_field(s, 40);
        lemma_u32_bytes_of_field(s, 48);
        lemma_u32_bytes_of_field(s, 52);
        lemma_u32_bytes_of_field(s, 56);
        lemma_u64_bytes_of_field(s, 60);
        lemma_u32_bytes_of_field(s, 68);
        lemma_u32_bytes_of_field(s, 72);
        lemma_u64_bytes_of_field(s, 76);
        lemma_u64_bytes_of_field(s, 84);
        lemma_u32_bytes_of_field(s, 92);
        lemma_u32_bytes_of_field(s, 96);
        lemma_u64_bytes_of_field(s, 100);
        lemma_field_ranges(s, 0);
        assert(TimeSync::parse(s).wire() =~= s.subrange(0, 108));
    }

    /// Reads a record from the front of `buf`; `None` when `buf` is too
    /// short to hold one.
    pub fn decode(buf: &[u8]) -> (r: Option<TimeSync>)
        ensures
            buf@.len() >= TIME_SYNC_SIZE ==> r == Some(TimeSync::parse(buf@)),
            buf@.len() < TIME_SYNC_SIZE ==> r.is_none(),
    {
        if buf.len() < TIME_SYNC_SIZE {
            return None;
        }
        Some(
            TimeSync {
                packet_type: read_u32_le(buf, 0),
                mode: read_u32_le(buf, 4),
                sequence: read_u64_le(buf, 8),
                server_time: read_u64_le(buf, 16),
                client_time: read_u64_le(buf, 24),
                packets_lost_total: read_u64_le(buf, 32),
                packets_lost_in_second: read_u64_le(buf, 40),
                average_total_latency: read_u32_le(buf, 48),
                average_send_latency: read_u32_le(buf, 52),
                average_transport_latency: read_u32_le(buf, 56),
                average_decode_latency: read_u64_le(buf, 60),
                idle_time: read_u32_le(buf, 68),
                fec_failure: read_u32_le(buf, 72),
                fec_failure_in_second: read_u64_le(buf, 76),
                fec_failure_total: read_u64_le(buf, 84),
                fps: read_u32_le(buf, 92),
                server_total_latency: read_u32_le(buf, 96),
                tracking_recv_frame_index: read_u64_le(buf, 100),
            },
        )
    }

    /// Appends the 108 bytes of this record to `out`.
    pub fn encode_into(&self, out: &mut Vec<u8>)
        ensures
            final(out)@ == old(out)@ + self.wire(),
    {
        push_u32_le(out, self.packet_type);
        push_u32_le(out, self.mode);
        push_u64_le(out, self.sequence);
        push_u64_le(out, self.server_time);
        push_u64_le(out, self.client_time);
        push_u64_le(out, self.packets_lost_total);
        push_u64_le(out, self.packets_lost_in_second);
        push_u32_le(out, self.average_total_latency);
        push_u32_le(out, self.average_send_latency);
        push_u32_le(out, self.average_transport_latency);
        push_u64_le(out, self.average_decode_latency);
        push_u32_le(out, self.idle_time);
        push_u32_le(out, self.fec_failure);
        push_u64_le(out, self.fec_failure_in_second);
        push_u64_le(out, self.fec_failure_total);
        push_u32_le(out, self.fps);
        push_u32_le(out, self.server_total_latency);
        push_u64_le(out, self.tracking_recv_frame_index);
        assert(out@ =~= old(out)@ + self.wire());
    }

    /// The 108 bytes of this record.
    pub fn encode(&self) -> (out: Vec<u8>)
        ensures
            out@ == self.wire(),
    {
        let mut out: Vec<u8> = Vec::new();
        self.encode_into(&mut out);
        assert(out@ =~= self.wire());
        out
    }
}

impl Default for TimeSync {
    fn default() -> (r: TimeSync)
        ensures
            r == (TimeSync {
                packet_type: 7,
                mode: 0,
                sequence: 0,
                server_time: 0,
                client_time: 0,
                packets_lost_total: 0,
                packets_lost_in_second: 0,
                average_total_latency: 0,
                average_send_latency: 0,
                average_transport_latency: 0,
                average_decode_latency: 0,
                idle_time: 0,
                fec_failure: 0,
                fec_failure_in_second: 0,
                fec_failure_total: 0,
                fps: 0,
                server_total_latency: 0,
                tracking_recv_frame_index: 0,
            }),
    {
        TimeSync {
            packet_type: 7,
            mode: 0,
            sequence: 0,
            server_time: 0,
            client_time: 0,
            packets_lost_total: 0,
            packets_lost_in_second: 0,
            average_total_latency: 0,
            average_send_latency: 0,
            average_transport_latency: 0,
            average_decode_latency: 0,
            idle_time: 0,
            fec_failure: 0,
            fec_failure_in_second: 0,
            fec_failure_total: 0,
            fps: 0,
            server_total_latency: 0,
            tracking_recv_frame_index: 0,
        }
    }
}

/// A report of lost packets, sent back to the server.
#[derive(Debug, Clone, Copy, PartialEq, Eq, Structural)]
pub struct PacketErrorReport {
    pub packet_type: u32,
    pub lost_frame_type: u32,
    pub from_packet_counter: u32,
    pub to_packet_counter: u32,
}

impl PacketErrorReport {
    /// The 16 bytes of this record on the wire.
    pub open spec fn wire(self) -> Seq<u8> {
        u32_bytes(self.packet_type)
            + u32_bytes(self.lost_frame_type)
            + u32_bytes(self.from_packet_counter)
            + u32_bytes(self.to_packet_counter)
    }

    /// The record that the first 16 bytes of `s` hold.
    pub open spec fn parse(s: Seq<u8>) -> PacketErrorReport {
        PacketErrorReport {
            packet_type: u32_at(s, 0) as u32,
            lost_frame_type: u32_at(s, 4) as u32,
            from_packet_counter: u32_at(s, 8) as u32,
            to_packet_counter: u32_at(s, 12) as u32,
        }
    }

    /// Decoding an encoded record gives the record back.
    pub proof fn lemma_parse_wire(r: PacketErrorReport)
        ensures
            r.wire().len() == PACKET_ERROR_REPORT_SIZE,
            PacketErrorReport::parse(r.wire()) == r,
    {
        let s = r.wire();
        lemma_u32_round_trip(r.packet_type);
        lemma_u32_round_trip(r.lost_frame_type);
        lemma_u32_round_trip(r.from_packet_counter);
        lemma_u32_round_trip(r.to_packet_counter);
        assert(s.subrange(0, 4) =~= u32_bytes(r.packet_type));
        lemma_u32_in(s, 0, r.packet_type);
        assert(s.subrange(4, 8) =~= u32_bytes(r.lost_frame_type));
        lemma_u32_in(s, 4, r.lost_frame_type);
        assert(s.subrange(8, 12) =~= u32_bytes(r.from_packet_counter));
        lemma_u32_in(s, 8, r.from_packet_counter);
        assert(s.subrange(12, 16) =~= u32_bytes(r.to_packet_counter));
        lemma_u32_in(s, 12, r.to_packet_counter);
    }

    /// Encoding a decoded record gives the first 16 bytes back.
    pub proof fn lemma_wire_parse(s: Seq<u8>)
        requires
            s.len() >= PACKET_ERROR_REPORT_SIZE,
        ensures
            PacketErrorReport::parse(s).wire() == s.subrange(0, PACKET_ERROR_REPORT_SIZE as int),
    {
        lemma_u32_bytes_of_field(s, 0);
        lemma_u32_bytes_of_field(s, 4);
        lemma_u32_bytes_of_field(s, 8);
        lemma_u32_bytes_of_field(s, 12);
        lemma_field_ranges(s, 0);
        assert(PacketErrorReport::parse(s).wire() =~= s.subrange(0, 16));
    }

    /// Reads a record from the front of `buf`; `None` when `buf` is too
    /// short to hold one.
    pub fn decode(buf: &[u8]) -> (r: Option<PacketErrorReport>)
        ensures
            buf@.len() >= PACKET_ERROR_REPORT_SIZE ==> r == Some(PacketErrorReport::parse(buf@)),
            buf@.len() < PACKET_ERROR_REPORT_SIZE ==> r.is_none(),
    {
        if buf.len() < PACKET_ERROR_REPORT_SIZE {
            return None;
        }
        Some(
            PacketErrorReport {
                packet_type: read_u32_le(buf, 0),
                lost_frame_type: read_u32_le(buf, 4),
                from_packet_counter: read_u32_le(buf, 8),
                to_packet_counter: read_u32_le(buf, 12),
            },
        )
    }

    /// Appends the 16 bytes of this record to `out`.
    pub fn encode_into(&self, out: &mut Vec<u8>)
        ensures
            final(out)@ == old(out)@ + self.wire(),
    {
        push_u32_le(out, self.packet_type);
        push_u32_le(out, self.lost_frame_type);
        push_u32_le(out, self.from_packet_counter);
        push_u32_le(out, self.to_packet_counter);
        assert(out@ =~= old(out)@ + self.wire());
    }

    /// The 16 bytes of this record.
    pub fn encode(&self) -> (out: Vec<u8>)
        ensures
            out@ == self.wire(),
    {
        let mut out: Vec<u8> = Vec::new();
        self.encode_into(&mut out);
        assert(out@ =~= self.wire());
        out
    }
}

impl Default for PacketErrorReport {
    fn default() -> (r: PacketErrorReport)
        ensures
            r == (PacketErrorReport {
                packet_type: 12,
                lost_frame_type: 0,
                from_packet_counter: 0,
                to_packet_counter: 0,
            }),
    {
        PacketErrorReport {
            packet_type: 12,
            lost_frame_type: 0,
            from_packet_counter: 0,
            to_packet_counter: 0,
        }
    }
}

/// A vibration for one controller. Amplitude, duration in seconds and
/// frequency are carried as the bit patterns of single-precision values.
#[derive(Debug, Clone, Copy, PartialEq, Eq, Structural)]
pub struct HapticsFeedback {
    pub packet_type: u32,
    /// Microseconds from now until the vibration starts.
    pub start_time: u64,
    pub amplitude: u32,
    pub duration: u32,
    pub frequency: u32,
    /// 0 for one hand, 1 for the other.
    pub hand: u8,
}

impl HapticsFeedback {
    /// The 25 bytes of this record on the wire.
    pub open spec fn wire(self) -> Seq<u8> {
        u32_bytes(self.packet_type)
            + u64_bytes(self.start_time)
            + u32_bytes(self.amplitude)
            + u32_bytes(self.duration)
            + u32_bytes(self.frequency)
            + seq![self.hand]
    }

    /// The record that the first 25 bytes of `s` hold.
    pub open spec fn parse(s: Seq<u8>) -> HapticsFeedback {
        HapticsFeedback {
            packet_type: u32_at(s, 0) as u32,
            start_time: u64_at(s, 4) as u64,
            amplitude: u32_at(s, 12) as u32,
            duration: u32_at(s, 16) as u32,
            frequency: u32_at(s, 20) as u32,
            hand: s[24],
        }
    }

    /// Decoding an encoded record gives the record back.
    pub proof fn lemma_parse_wire(r: HapticsFeedback)
        ensures
            r.wire().len() == HAPTICS_FEEDBACK_SIZE,
            HapticsFeedback::parse(r.wire()) == r,
    {
        let s = r.wire();
        lemma_u32_round_trip(r.packet_type);
        lemma_u64_round_trip(r.start_time);
        lemma_u32_round_trip(r.amplitude);
        lemma_u32_round_trip(r.duration);
        lemma_u32_round_trip(r.frequency);
        assert(s.subrange(0, 4) =~= u32_bytes(r.packet_type));
        lemma_u32_in(s, 0, r.packet_type);
        assert(s.subrange(4, 12) =~= u64_bytes(r.start_time));
        lemma_u64_in(s, 4, r.start_time);
        assert(s.subrange(12, 16) =~= u32_bytes(r.amplitude));
        lemma_u32_in(s, 12, r.amplitude);
        assert(s.subrange(16, 20) =~= u32_bytes(r.duration));
        lemma_u32_in(s, 16, r.duration);
        assert(s.subrange(20, 24) =~= u32_bytes(r.frequency));
        lemma_u32_in(s, 20, r.frequency);
        assert(s[24] == r.hand);
    }

    /// Encoding a decoded record gives the first 25 bytes back.
    pub proof fn lemma_wire_parse(s: Seq<u8>)
        requires
            s.len() >= HAPTICS_FEEDBACK_SIZE,
        ensures
            HapticsFeedback::parse(s).wire() == s.subrange(0, HAPTICS_FEEDBACK_SIZE as int),
    {
        lemma_u32_bytes_of_field(s, 0);
        lemma_u64_bytes_of_field(s, 4);
        lemma_u32_bytes_of_field(s, 12);
        lemma_u32_bytes_of_field(s, 16);
        lemma_u32_bytes_of_field(s, 20);
        lemma_field_ranges(s, 0);
        assert(HapticsFeedback::parse(s).wire() =~= s.subrange(0, 25));
    }

    /// Reads a record from the front of `buf`; `None` when `buf` is too
    /// short to hold one.
    pub fn decode(buf: &[u8]) -> (r: Option<HapticsFeedback>)
        ensures
            buf@.len() >= HAPTICS_FEEDBACK_SIZE ==> r == Some(HapticsFeedback::parse(buf@)),
            buf@.len() < HAPTICS_FEEDBACK_SIZE ==> r.is_none(),
    {
        if buf.len() < HAPTICS_FEEDBACK_SIZE {
            return None;
        }
        Some(
            HapticsFeedback {
                packet_type: read_u32_le(buf, 0),
                start_time: read_u64_le(buf, 4),
                amplitude: read_u32_le(buf, 12),
                duration: read_u32_le(buf, 16),
                frequency: read_u32_le(buf, 20),
                hand: buf[24],
            },
        )
    }

    /// Appends the 25 bytes of this record to `out`.
    pub fn encode_into(&self, out: &mut Vec<u8>)
        ensures
            final(out)@ == old(out)@ + self.wire(),
    {
        push_u32_le(out, self.packet_type);
        push_u64_le(out, self.start_time);
        push_u32_le(out, self.amplitude);
        push_u32_le(out, self.duration);
        push_u32_le(out, self.frequency);
        out.push(self.hand);
        assert(out@ =~= old(out)@ + self.wire());
    }

    /// The 25 bytes of this record.
    pub fn encode(&self) -> (out: Vec<u8>)
        ensures
            out@ == self.wire(),
    {
        let mut out: Vec<u8> = Vec::new();
        self.encode_into(&mut out);
        assert(out@ =~= self.wire());
        out
    }
}

impl Default for HapticsFeedback {
    fn default() -> (r: HapticsFeedback)
        ensures
            r == (HapticsFeedback {
                packet_type: 13,
                start_time: 0,
                amplitude: 0,
                duration: 0,
                frequency: 0,
                hand: 0,
            }),
    {
        HapticsFeedback {
            packet_type: 13,
            start_time: 0,
            amplitude: 0,
            duration: 0,
            frequency: 0,
            hand: 0,
        }
    }
}

/// A video packet: its header and the payload behind it.
pub struct VideoFrame {
    pub header: VideoFrameHeader,
    pub payload: Bytes,
}

impl VideoFrame {
    /// Takes a buffer apart into header and payload; `None` when the buffer
    /// is too short to hold a header.
    pub fn split(buffer: Bytes) -> (r: Option<VideoFrame>)
        ensures
            bytes_of(buffer).len() < VIDEO_FRAME_HEADER_SIZE ==> r.is_none(),
            bytes_of(buffer).len() >= VIDEO_FRAME_HEADER_SIZE ==> (r matches Some(frame)
                && frame.header == VideoFrameHeader::parse(bytes_of(buffer)) && bytes_of(
                frame.payload,
            ) == bytes_of(buffer).subrange(
                VIDEO_FRAME_HEADER_SIZE as int,
                bytes_of(buffer).len() as int,
            )),
    {
        match VideoFrameHeader::decode(bytes_as_slice(&buffer)) {
            Some(header) => {
                let mut head: Bytes = buffer;
                let payload: Bytes = bytes_split_off(&mut head, VIDEO_FRAME_HEADER_SIZE);
                Some(VideoFrame { header, payload })
            },
            None => None,
        }
    }
}

} // verus!
