use alvr_client_stream::audio::{audio_plan, frames_count, playback_plan, AudioPlan, PlaybackPlan};
use alvr_client_stream::common::AlvrCodec;
use alvr_client_stream::connection::{AudioConfig, SessionSettings, StreamProtocol};
use alvr_client_stream::latency_controller::{
    decoder_input, decoder_output, submit, tracking, LatencyTracker,
};
use alvr_client_stream::legacy_packets::{HapticsFeedback, TimeSync, VideoFrameHeader};
use alvr_client_stream::session::{
    controller_flags, on_frame_rendered, repack_haptics, repack_time_sync, repack_video, IdrWatch,
    Pacer, TimeSyncPacket, TrackingTicker, IDR_REQUEST_DEADLINE_US, TRACKING_INTERVAL_NS,
};
use alvr_client_stream::util::{get_timestamp_us, second_index, timestamp_from, US_IN_SEC};

#[test]
fn a_pacer_does_not_drift() {
    let mut pacer = Pacer::new(1_000, 250);
    assert!(!pacer.is_due(999));
    assert!(pacer.is_due(1_000));
    assert_eq!(pacer.advance(), 1_250);
    assert!(!pacer.is_due(1_249));
    assert!(pacer.is_due(1_400));
    assert_eq!(pacer.advance(), 1_500);
    assert_eq!(pacer.advance(), 1_750);
    assert_eq!(pacer.deadline, 1_750);
    let mut late = Pacer::new(u64::MAX - 10, 250);
    assert_eq!(late.advance(), u64::MAX);
    assert_eq!(late.advance(), u64::MAX);
}

#[test]
fn an_idr_frame_is_requested_two_seconds_after_the_first_data() {
    let mut watch = IdrWatch::new();
    assert_eq!(IDR_REQUEST_DEADLINE_US, 2_000_000);
    assert!(!watch.on_data(false, 1_000));
    assert_eq!(watch.deadline, Some(2_001_000));
    assert!(!watch.on_data(false, 2_000_999));
    assert!(!watch.on_data(false, 2_001_000));
    assert!(watch.on_data(false, 2_001_001));
    assert_eq!(watch.deadline, None);
    assert!(!watch.on_data(false, 2_001_002));
    assert_eq!(watch.deadline, Some(4_001_002));
    assert!(!watch.on_data(true, 9_000_000));
    assert_eq!(watch.deadline, Some(4_001_002));
    assert!(watch.on_data(false, 9_000_000));
    let mut late = IdrWatch::new();
    assert!(!late.on_data(false, u64::MAX));
    assert_eq!(late.deadline, Some(u64::MAX));
    assert!(!late.on_data(false, u64::MAX));
}

#[test]
fn tracking_samples_are_counted_and_paced() {
    let mut tracker = LatencyTracker::new(0);
    let mut ticker = TrackingTicker::new(5_000);
    assert_eq!(TRACKING_INTERVAL_NS, 2_777_778);
    assert_eq!(ticker.tick(&mut tracker, 100), (1, 5_000 + 2_777_778));
    assert_eq!(ticker.tick(&mut tracker, 200), (2, 5_000 + 2 * 2_777_778));
    assert_eq!(tracker.pending(), 2);
    assert!(submit(&mut tracker, 1, 300));
    assert_eq!(tracker.slot(1).tracking, 100);
    assert_eq!(tracker.slot(2).tracking, 200);
    ticker.frame_index = u64::MAX;
    assert_eq!(ticker.tick(&mut tracker, 400).0, 0);
    for i in 0..360u64 {
        ticker.tick(&mut tracker, i);
    }
    let after_a_second = ticker.pacer.deadline - (5_000 + 3 * 2_777_778);
    assert_eq!(after_a_second, 1_000_000_080);
}

#[test]
fn flags_of_the_controllers() {
    assert_eq!(controller_flags(), [0x13, 0x11]);
}

#[test]
fn video_of_the_typed_stream_becomes_a_legacy_buffer() {
    let header = VideoFrameHeader {
        packet_type: 0,
        packet_counter: 3,
        tracking_frame_index: 4,
        video_frame_index: 5,
        sent_time: 6,
        frame_byte_size: 7,
        fec_index: 8,
        fec_percentage: 9,
    };
    let buffer = repack_video(&header, &[1, 2, 3]);
    assert_eq!(buffer.len(), 45);
    assert_eq!(&buffer[42..], &[1, 2, 3]);
    assert_eq!(
        VideoFrameHeader::decode(&buffer),
        Some(VideoFrameHeader { packet_type: 9, ..header })
    );
    assert_eq!(repack_video(&header, &[]).len(), 42);
}

#[test]
fn haptics_of_the_typed_stream_become_a_legacy_buffer() {
    let buffer = repack_haptics(1.0f32.to_bits(), 0.5f32.to_bits(), 2.0f32.to_bits(), true);
    assert_eq!(
        HapticsFeedback::decode(&buffer),
        Some(HapticsFeedback {
            packet_type: 13,
            start_time: 0,
            amplitude: 1.0f32.to_bits(),
            duration: 0.5f32.to_bits(),
            frequency: 2.0f32.to_bits(),
            hand: 0,
        })
    );
    let buffer = repack_haptics(0, 0, 0, false);
    assert_eq!(buffer.len(), 25);
    assert_eq!(buffer[24], 1);
    assert_eq!(&buffer[..4], &[13, 0, 0, 0]);
}

fn packet() -> TimeSyncPacket {
    TimeSyncPacket {
        mode: 1,
        server_time: 2,
        client_time: 3,
        packets_lost_total: 4,
        packets_lost_in_second: 5,
        average_send_latency: 6,
        average_transport_latency: 7,
        average_decode_latency: 8,
        idle_time: 9,
        fec_failure: 10,
        fec_failure_in_second: 11,
        fec_failure_total: 12,
        fps: 13,
        server_total_latency: 14,
        tracking_recv_frame_index: 15,
    }
}

#[test]
fn time_sync_of_the_control_channel_becomes_a_legacy_buffer() {
    let legacy = packet().to_legacy();
    assert_eq!(
        legacy,
        TimeSync {
            packet_type: 7,
            mode: 1,
            sequence: 0,
            server_time: 2,
            client_time: 3,
            packets_lost_total: 4,
            packets_lost_in_second: 5,
            average_total_latency: 0,
            average_send_latency: 6,
            average_transport_latency: 7,
            average_decode_latency: 8,
            idle_time: 9,
            fec_failure: 10,
            fec_failure_in_second: 11,
            fec_failure_total: 12,
            fps: 13,
            server_total_latency: 14,
            tracking_recv_frame_index: 15,
        }
    );
    assert_eq!(repack_time_sync(&packet()), legacy.encode());
    assert_eq!(TimeSyncPacket::from_legacy(&legacy), packet());
    let full = TimeSync { sequence: 77, average_total_latency: 88, ..legacy };
    assert_eq!(TimeSyncPacket::from_legacy(&full), packet());
}

#[test]
fn a_rendered_frame_that_is_accepted_opens_a_time_sync() {
    let mut tracker = LatencyTracker::new(0);
    tracking(&mut tracker, 3, 1_000);
    decoder_input(&mut tracker, 3, 2_000);
    decoder_output(&mut tracker, 3, 2_500);
    let report = on_frame_rendered(&mut tracker, 3, 4_000).unwrap();
    assert_eq!(report.mode, 0);
    assert_eq!(report.client_time, 4_000);
    assert_eq!(report.average_decode_latency, 500);
    assert_eq!(tracker.slot(3).rendered1, 4_000);
    assert_eq!(tracker.slot(3).rendered2, 4_000);
    assert_eq!(tracker.slot(3).submit, 4_000);
    assert_eq!(tracker.controller().total_latency, 3_000);
    assert_eq!(tracker.controller().time_sync_sequence, 1);
    assert_eq!(on_frame_rendered(&mut tracker, 4, 4_000), None);
    assert_eq!(tracker.controller().time_sync_sequence, 1);
    assert!(on_frame_rendered(&mut tracker, 5, 4_001).is_some());
    assert_eq!(tracker.controller().time_sync_sequence, 2);
}

#[test]
fn batches_of_audio_frames() {
    assert_eq!(frames_count(48_000, 10), 480);
    assert_eq!(frames_count(44_100, 50), 2_205);
    assert_eq!(frames_count(44_100, 1), 44);
    assert_eq!(frames_count(0, 1_000), 0);
    assert_eq!(frames_count(999, 1), 0);
    assert_eq!(frames_count(u32::MAX, u64::MAX), u64::MAX);
    assert_eq!(frames_count(1_000, u64::MAX), u64::MAX);
    assert_eq!(frames_count(1, u64::MAX), u64::MAX / 1_000);
    let config = AudioConfig { batch_ms: 10, average_buffering_ms: 50 };
    assert_eq!(
        playback_plan(&config, 48_000),
        PlaybackPlan { sample_rate: 48_000, batch_frames_count: 480, average_buffer_frames_count: 2_400 }
    );
}

#[test]
fn audio_loops_follow_the_settings() {
    let mut settings = SessionSettings {
        stream_port: 9944,
        stream_protocol: StreamProtocol::Tcp,
        enable_fec: false,
        codec: AlvrCodec::H265,
        client_request_realtime_decoder: false,
        foveated_rendering: None,
        clientside_prediction: true,
        game_audio: None,
        microphone_sample_rate: None,
        client_dark_mode: true,
    };
    assert_eq!(audio_plan(&settings, 48_000), AudioPlan { playback: None, microphone: None });
    settings.game_audio = Some(AudioConfig { batch_ms: 20, average_buffering_ms: 100 });
    settings.microphone_sample_rate = Some(16_000);
    assert_eq!(
        audio_plan(&settings, 44_100),
        AudioPlan {
            playback: Some(PlaybackPlan {
                sample_rate: 44_100,
                batch_frames_count: 882,
                average_buffer_frames_count: 4_410,
            }),
            microphone: Some(16_000),
        }
    );
}

#[test]
fn timestamps_are_microseconds_since_the_epoch() {
    assert_eq!(US_IN_SEC, 1_000_000);
    assert_eq!(second_index(1_999_999), 1);
    assert_eq!(second_index(2_000_000), 2);
    assert_eq!(timestamp_from(None), 0);
    assert_eq!(timestamp_from(Some(1_234_567)), 1_234_567);
    assert_eq!(timestamp_from(Some(u64::MAX as u128 + 6)), 5);
    let a = get_timestamp_us();
    let b = get_timestamp_us();
    assert!(a > 1_600_000_000 * US_IN_SEC);
    assert!(a < 4_000_000_000 * US_IN_SEC);
    assert!(b + US_IN_SEC > a);
}
