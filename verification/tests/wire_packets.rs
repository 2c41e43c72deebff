use alvr_client_stream::common::{AlvrCodec, ConnectionError};
use alvr_client_stream::legacy_packets::{
    AlvrLostFrameType, AlvrPacketType, HapticsFeedback, PacketErrorReport, TimeSync, VideoFrame,
    VideoFrameHeader, ALVR_MAX_PACKET_SIZE, HAPTICS_FEEDBACK_SIZE, PACKET_ERROR_REPORT_SIZE,
    TIME_SYNC_SIZE, VIDEO_FRAME_HEADER_SIZE,
};
use alvr_client_stream::wire::{
    push_u16_le, push_u32_le, push_u64_le, read_u16_le, read_u32_le, read_u64_le,
};
use bytes::Bytes;

fn sample_header() -> VideoFrameHeader {
    VideoFrameHeader {
        packet_type: 9,
        packet_counter: 0x0403_0201,
        tracking_frame_index: 0x1817_1615_1413_1211,
        video_frame_index: 0x2827_2625_2423_2221,
        sent_time: 0x3837_3635_3433_3231,
        frame_byte_size: 0x4443_4241,
        fec_index: 0x5453_5251,
        fec_percentage: 0x6261,
    }
}

fn sample_time_sync() -> TimeSync {
    TimeSync {
        packet_type: 7,
        mode: 1,
        sequence: 2,
        server_time: 3_000_000_000_000,
        client_time: 4_000_000_000_000,
        packets_lost_total: 5,
        packets_lost_in_second: 6,
        average_total_latency: 7,
        average_send_latency: 8,
        average_transport_latency: 9,
        average_decode_latency: 10,
        idle_time: 11,
        fec_failure: 1,
        fec_failure_in_second: 12,
        fec_failure_total: 13,
        fps: 72.0f32.to_bits(),
        server_total_latency: 14,
        tracking_recv_frame_index: u64::MAX,
    }
}

#[test]
fn integers_are_little_endian() {
    let mut out = Vec::new();
    push_u16_le(&mut out, 0x0201);
    push_u32_le(&mut out, 0x0605_0403);
    push_u64_le(&mut out, 0x0e0d_0c0b_0a09_0807);
    assert_eq!(out, (1u8..=14).collect::<Vec<u8>>());
    assert_eq!(read_u16_le(&out, 0), 0x0201);
    assert_eq!(read_u32_le(&out, 2), 0x0605_0403);
    assert_eq!(read_u64_le(&out, 6), 0x0e0d_0c0b_0a09_0807);
    let mut max = Vec::new();
    push_u16_le(&mut max, u16::MAX);
    push_u32_le(&mut max, u32::MAX);
    push_u64_le(&mut max, u64::MAX);
    assert_eq!(max, vec![0xff; 14]);
    assert_eq!(read_u64_le(&max, 6), u64::MAX);
}

#[test]
fn sizes_of_the_packed_records() {
    assert_eq!(ALVR_MAX_PACKET_SIZE, 1400);
    assert_eq!(VIDEO_FRAME_HEADER_SIZE, 42);
    assert_eq!(TIME_SYNC_SIZE, 108);
    assert_eq!(PACKET_ERROR_REPORT_SIZE, 16);
    assert_eq!(HAPTICS_FEEDBACK_SIZE, 25);
    assert_eq!(sample_header().encode().len(), 42);
    assert_eq!(sample_time_sync().encode().len(), 108);
    assert_eq!(PacketErrorReport::default().encode().len(), 16);
    assert_eq!(HapticsFeedback::default().encode().len(), 25);
}

#[test]
fn video_header_layout_is_bit_exact() {
    let bytes = sample_header().encode();
    let mut expected = vec![9, 0, 0, 0, 1, 2, 3, 4];
    expected.extend(0x11u8..=0x18);
    expected.extend(0x21u8..=0x28);
    expected.extend(0x31u8..=0x38);
    expected.extend(0x41u8..=0x44);
    expected.extend(0x51u8..=0x54);
    expected.extend(0x61u8..=0x62);
    assert_eq!(bytes, expected);
}

#[test]
fn video_header_matches_bincode() {
    let h = sample_header();
    let by_bincode = bincode::serialize(&(
        h.packet_type,
        h.packet_counter,
        h.tracking_frame_index,
        h.video_frame_index,
        h.sent_time,
        h.frame_byte_size,
        h.fec_index,
        h.fec_percentage,
    ))
    .unwrap();
    assert_eq!(h.encode(), by_bincode);
}

#[test]
fn video_header_round_trip() {
    let h = sample_header();
    let mut bytes = h.encode();
    assert_eq!(VideoFrameHeader::decode(&bytes), Some(h));
    bytes.extend_from_slice(&[1, 2, 3]);
    assert_eq!(VideoFrameHeader::decode(&bytes), Some(h));
    assert_eq!(VideoFrameHeader::decode(&bytes[..41]), None);
    assert_eq!(VideoFrameHeader::decode(&[]), None);
    let again = VideoFrameHeader::decode(&bytes).unwrap().encode();
    assert_eq!(&again[..], &bytes[..42]);
}

#[test]
fn video_header_default_is_a_video_frame() {
    let h = VideoFrameHeader::default();
    assert_eq!(h.packet_type, 9);
    assert_eq!(h.packet_counter, 0);
    assert_eq!(h.tracking_frame_index, 0);
    assert_eq!(h.video_frame_index, 0);
    assert_eq!(h.sent_time, 0);
    assert_eq!(h.frame_byte_size, 0);
    assert_eq!(h.fec_index, 0);
    assert_eq!(h.fec_percentage, 0);
}

#[test]
fn video_frame_is_split_behind_the_header() {
    let mut buffer = sample_header().encode();
    buffer.extend_from_slice(&[0xde, 0xad, 0xbe, 0xef]);
    let frame = VideoFrame::split(Bytes::from(buffer)).unwrap();
    assert_eq!(frame.header, sample_header());
    assert_eq!(&frame.payload[..], &[0xde, 0xad, 0xbe, 0xef]);
    let bare = VideoFrame::split(Bytes::from(sample_header().encode())).unwrap();
    assert!(bare.payload.is_empty());
    assert!(VideoFrame::split(Bytes::from(vec![9u8; 41])).is_none());
}

#[test]
fn time_sync_matches_bincode_and_round_trips() {
    let t = sample_time_sync();
    let by_bincode = bincode::serialize(&(
        (
            t.packet_type,
            t.mode,
            t.sequence,
            t.server_time,
            t.client_time,
            t.packets_lost_total,
            t.packets_lost_in_second,
            t.average_total_latency,
            t.average_send_latency,
        ),
        (
            t.average_transport_latency,
            t.average_decode_latency,
            t.idle_time,
            t.fec_failure,
            t.fec_failure_in_second,
            t.fec_failure_total,
            72.0f32,
            t.server_total_latency,
            t.tracking_recv_frame_index,
        ),
    ))
    .unwrap();
    let bytes = t.encode();
    assert_eq!(bytes, by_bincode);
    assert_eq!(TimeSync::decode(&bytes), Some(t));
    assert_eq!(TimeSync::decode(&bytes[..107]), None);
    assert_eq!(&bytes[..8], &[7, 0, 0, 0, 1, 0, 0, 0]);
    assert_eq!(&bytes[92..96], &72.0f32.to_le_bytes());
    assert_eq!(&bytes[100..108], &[0xff; 8]);
}

#[test]
fn time_sync_default_is_a_time_sync() {
    let t = TimeSync::default();
    assert_eq!(t.packet_type, 7);
    let mut zero = t;
    zero.packet_type = 0;
    assert_eq!(zero.encode(), vec![0u8; 108]);
}

#[test]
fn packet_error_report_layout() {
    let r = PacketErrorReport::default();
    assert_eq!(r.packet_type, 12);
    assert_eq!(r.lost_frame_type, 0);
    assert_eq!(r.encode(), vec![12, 0, 0, 0, 0, 0, 0, 0, 0, 0, 0, 0, 0, 0, 0, 0]);
    let r = PacketErrorReport {
        packet_type: 12,
        lost_frame_type: u32::from(AlvrLostFrameType::Unknown),
        from_packet_counter: 0x0102_0304,
        to_packet_counter: 5,
    };
    let bytes = r.encode();
    assert_eq!(bytes, vec![12, 0, 0, 0, 255, 255, 255, 255, 4, 3, 2, 1, 5, 0, 0, 0]);
    assert_eq!(PacketErrorReport::decode(&bytes), Some(r));
    assert_eq!(PacketErrorReport::decode(&bytes[..15]), None);
    assert_eq!(
        bytes,
        bincode::serialize(&(12u32, u32::MAX, 0x0102_0304u32, 5u32)).unwrap()
    );
}

#[test]
fn haptics_feedback_layout() {
    let h = HapticsFeedback {
        packet_type: 13,
        start_time: 0x0807_0605_0403_0201,
        amplitude: 0.5f32.to_bits(),
        duration: 0.25f32.to_bits(),
        frequency: 200.0f32.to_bits(),
        hand: 1,
    };
    let bytes = h.encode();
    assert_eq!(bytes.len(), 25);
    assert_eq!(
        bytes,
        bincode::serialize(&(13u32, 0x0807_0605_0403_0201u64, 0.5f32, 0.25f32, 200.0f32, 1u8)).unwrap()
    );
    assert_eq!(HapticsFeedback::decode(&bytes), Some(h));
    assert_eq!(HapticsFeedback::decode(&bytes[..24]), None);
    assert_eq!(HapticsFeedback::default().packet_type, 13);
}

#[test]
fn packet_types_by_number() {
    assert_eq!(AlvrPacketType::from(6), AlvrPacketType::TrackingInfo);
    assert_eq!(AlvrPacketType::from(7), AlvrPacketType::TimeSync);
    assert_eq!(AlvrPacketType::from(9), AlvrPacketType::VideoFrame);
    assert_eq!(AlvrPacketType::from(12), AlvrPacketType::PacketErrorReport);
    assert_eq!(AlvrPacketType::from(13), AlvrPacketType::HapticsFeedback);
    for n in [0u32, 1, 5, 8, 10, 11, 14, 255, u32::MAX] {
        assert_eq!(AlvrPacketType::from(n), AlvrPacketType::Unknown);
    }
    assert_eq!(u32::from(AlvrPacketType::TrackingInfo), 6);
    assert_eq!(u32::from(AlvrPacketType::TimeSync), 7);
    assert_eq!(u32::from(AlvrPacketType::VideoFrame), 9);
    assert_eq!(u32::from(AlvrPacketType::PacketErrorReport), 12);
    assert_eq!(u32::from(AlvrPacketType::HapticsFeedback), 13);
    assert_eq!(u32::from(AlvrPacketType::Unknown), u32::MAX);
    for t in [
        AlvrPacketType::TrackingInfo,
        AlvrPacketType::TimeSync,
        AlvrPacketType::VideoFrame,
        AlvrPacketType::PacketErrorReport,
        AlvrPacketType::HapticsFeedback,
        AlvrPacketType::Unknown,
    ] {
        assert_eq!(AlvrPacketType::from(u32::from(t)), t);
    }
}

#[test]
fn lost_frame_types_by_number() {
    assert_eq!(u32::from(AlvrLostFrameType::Video), 0);
    assert_eq!(u32::from(AlvrLostFrameType::Unknown), u32::MAX);
}

#[test]
fn codecs_by_number() {
    assert_eq!(AlvrCodec::from(0), AlvrCodec::H264);
    assert_eq!(AlvrCodec::from(1), AlvrCodec::H265);
    assert_eq!(AlvrCodec::from(2), AlvrCodec::Unknown);
    assert_eq!(AlvrCodec::from(u32::MAX), AlvrCodec::Unknown);
}

#[test]
fn a_text_becomes_a_system_error() {
    assert_eq!(
        ConnectionError::from("boom".to_string()),
        ConnectionError::SystemError { cause: "boom".to_string() }
    );
}
