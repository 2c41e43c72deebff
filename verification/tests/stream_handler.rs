use alvr_client_stream::common::AlvrCodec;
use alvr_client_stream::latency_controller::{
    received_last, set_fec_failure_state, submit, tracking, LatencyTracker,
};
use alvr_client_stream::legacy_packets::{
    HapticsFeedback, PacketErrorReport, TimeSync, VideoFrameHeader,
};
use alvr_client_stream::legacy_stream::StreamHandler;
use alvr_client_stream::nal::NalType;
use bytes::Bytes;

const T0: u64 = 1_700_000_000_000_000;

fn handler(enable_fec: bool) -> (StreamHandler, LatencyTracker) {
    let mut tracker = LatencyTracker::new(0);
    tracking(&mut tracker, 1, 1);
    let handler = StreamHandler::new(enable_fec, AlvrCodec::H264, &mut tracker, T0);
    assert_eq!(tracker.pending(), 0);
    (handler, tracker)
}

fn video_packet(counter: u32, tracking_frame_index: u64, sent_time: u64, payload: &[u8]) -> Bytes {
    let header = VideoFrameHeader {
        packet_type: 9,
        packet_counter: counter,
        tracking_frame_index,
        video_frame_index: tracking_frame_index,
        sent_time,
        frame_byte_size: payload.len() as u32,
        fec_index: 0,
        fec_percentage: 0,
    };
    let mut buffer = header.encode();
    buffer.extend_from_slice(payload);
    Bytes::from(buffer)
}

fn p_frame() -> Vec<u8> {
    vec![0, 0, 0, 1, 0x41, 0x9a, 0x55, 0x66]
}

#[test]
fn a_gap_in_the_packet_counters_is_counted_as_loss() {
    let (mut h, mut t) = handler(false);
    for (i, counter) in [10u32, 11, 13, 14].into_iter().enumerate() {
        let out = h.legacy_receive(video_packet(counter, 1, 0, &p_frame()), &mut t, T0 + i as u64);
        assert_eq!(out.nals.len(), 1);
        assert_eq!(out.nals[0].nal_type, NalType::P);
        assert!(out.error_report.is_none());
        let lost = t.controller().packets_lost_total;
        assert_eq!(lost, if counter >= 13 { 1 } else { 0 });
    }
    assert_eq!(t.controller().packets_lost_in_second, 1);
}

#[test]
fn packets_out_of_order_are_counted_by_their_distance() {
    let (mut h, mut t) = handler(false);
    for counter in [20u32, 18] {
        h.legacy_receive(video_packet(counter, 1, 0, &p_frame()), &mut t, T0);
    }
    assert_eq!(t.controller().packets_lost_total, 3);
    h.legacy_receive(video_packet(19, 1, 0, &p_frame()), &mut t, T0);
    assert_eq!(t.controller().packets_lost_total, 3);
    h.legacy_receive(video_packet(119, 1, 0, &p_frame()), &mut t, T0);
    assert_eq!(t.controller().packets_lost_total, 102);
}

#[test]
fn the_packet_counter_wraps_without_loss() {
    let (mut h, mut t) = handler(false);
    for counter in [u32::MAX - 1, u32::MAX, 0, 7] {
        h.legacy_receive(video_packet(counter, 1, 0, &p_frame()), &mut t, T0);
    }
    assert_eq!(t.controller().packets_lost_total, 0);
    h.legacy_receive(video_packet(9, 1, 0, &p_frame()), &mut t, T0);
    assert_eq!(t.controller().packets_lost_total, 1);
}

#[test]
fn the_first_packet_of_a_frame_records_its_arrival() {
    let (mut h, mut t) = handler(false);
    h.legacy_receive(video_packet(1, 5, 1_000, &p_frame()), &mut t, T0 + 10);
    assert_eq!(t.pending(), 3);
    h.legacy_receive(video_packet(2, 5, 2_000, &p_frame()), &mut t, T0 + 20);
    assert_eq!(t.pending(), 4);
    assert!(submit(&mut t, 5, T0 + 30));
    let slot = t.slot(5);
    assert_eq!(slot.estimated_sent, 1_000);
    assert_eq!(slot.received_first, T0 + 10);
    assert_eq!(slot.received_last, T0 + 10);
}

#[test]
fn time_sync_mode_one_sets_the_clock_difference_and_answers() {
    let (mut h, mut t) = handler(false);
    assert_eq!(h.to_estimated_client_time(123), 123);
    let ts = TimeSync {
        mode: 1,
        sequence: 44,
        server_time: 5_000_000,
        client_time: T0 - 3_000,
        server_total_latency: 31_000,
        ..TimeSync::default()
    };
    let out = h.legacy_receive(Bytes::from(ts.encode()), &mut t, T0);
    assert_eq!(out.total_latency, Some(31_000));
    assert_eq!(out.time_sync, Some(TimeSync { mode: 2, client_time: T0, ..ts }));
    assert!(out.nals.is_empty());
    assert!(out.error_report.is_none());
    assert!(!out.reset_idr_parsed);
    assert!(out.haptics.is_none());
    assert_eq!(h.to_estimated_client_time(5_000_000), T0 - 1_500);
    assert_eq!(h.to_estimated_client_time(5_001_500), T0);
    assert_eq!(h.to_estimated_client_time(0), T0 - 1_500 - 5_000_000);
}

#[test]
fn estimated_client_time_wraps() {
    let (mut h, mut t) = handler(false);
    let ts = TimeSync { mode: 1, server_time: 100, client_time: 10, ..TimeSync::default() };
    h.legacy_receive(Bytes::from(ts.encode()), &mut t, 20);
    assert_eq!(h.to_estimated_client_time(100), 15);
    assert_eq!(h.to_estimated_client_time(85), 0);
    assert_eq!(h.to_estimated_client_time(84), u64::MAX);
    let ts = TimeSync { mode: 1, server_time: 0, client_time: 31, ..TimeSync::default() };
    h.legacy_receive(Bytes::from(ts.encode()), &mut t, 20);
    assert_eq!(h.to_estimated_client_time(0), 25);
    assert_eq!(h.to_estimated_client_time(u64::MAX), 24);
}

#[test]
fn time_sync_mode_three_records_when_the_server_got_the_tracking() {
    let (mut h, mut t) = handler(false);
    let sync = TimeSync { mode: 1, server_time: 1_000, client_time: T0, ..TimeSync::default() };
    h.legacy_receive(Bytes::from(sync.encode()), &mut t, T0 + 200);
    tracking(&mut t, 8, T0 + 250);
    let ts = TimeSync {
        mode: 3,
        server_time: 1_300,
        tracking_recv_frame_index: 8,
        ..TimeSync::default()
    };
    let out = h.legacy_receive(Bytes::from(ts.encode()), &mut t, T0 + 500);
    assert!(out.time_sync.is_none());
    assert!(out.total_latency.is_none());
    assert_eq!(t.pending(), 2);
    received_last(&mut t, 8, T0 + 600);
    assert!(submit(&mut t, 8, T0 + 700));
    assert_eq!(t.slot(8).received, T0 + 400);
    assert_eq!(t.controller().send_latency, 150);
}

#[test]
fn other_modes_and_other_packets_are_dropped() {
    let (mut h, mut t) = handler(false);
    for mode in [0u32, 2, 4, u32::MAX] {
        let ts = TimeSync { mode, ..TimeSync::default() };
        let out = h.legacy_receive(Bytes::from(ts.encode()), &mut t, T0);
        assert!(out.time_sync.is_none());
        assert!(out.total_latency.is_none());
    }
    let mut short = TimeSync { mode: 1, ..TimeSync::default() }.encode();
    short.pop();
    assert!(h.legacy_receive(Bytes::from(short), &mut t, T0).time_sync.is_none());
    for buffer in [
        vec![],
        vec![9],
        vec![9, 0, 0],
        vec![9, 0, 0, 0],
        vec![6, 0, 0, 0, 1, 2, 3],
        PacketErrorReport::default().encode(),
        vec![13, 0, 0, 0, 1],
        vec![255; 200],
    ] {
        let out = h.legacy_receive(Bytes::from(buffer), &mut t, T0);
        assert!(out.nals.is_empty());
        assert!(out.time_sync.is_none());
        assert!(out.error_report.is_none());
        assert!(out.haptics.is_none());
        assert!(out.total_latency.is_none());
        assert!(!out.reset_idr_parsed);
    }
    assert_eq!(t.pending(), 0);
    assert_eq!(t.controller().packets_lost_total, 0);
}

#[test]
fn haptics_are_handed_out() {
    let (mut h, mut t) = handler(false);
    let feedback = HapticsFeedback {
        packet_type: 13,
        start_time: 0,
        amplitude: 1.0f32.to_bits(),
        duration: 0.1f32.to_bits(),
        frequency: 160.0f32.to_bits(),
        hand: 0,
    };
    let out = h.legacy_receive(Bytes::from(feedback.encode()), &mut t, T0);
    assert_eq!(out.haptics, Some(feedback));
    assert!(out.nals.is_empty());
}

#[test]
fn a_standing_loss_flag_sends_a_report_with_each_packet() {
    let (mut h, mut t) = handler(false);
    set_fec_failure_state(&mut t, true);
    let out = h.legacy_receive(video_packet(1, 1, 0, &p_frame()), &mut t, T0);
    assert_eq!(out.error_report, Some(PacketErrorReport::default()));
    assert_eq!(t.controller().fec_failure_total, 1);
    assert!(t.controller().fec_failure_state);
    let mut idr = vec![0, 0, 0, 1, 0x67, 1, 2, 0, 0, 0, 1, 0x68, 3];
    idr.extend_from_slice(&[0, 0, 0, 1, 0x65, 4, 5, 6]);
    let out = h.legacy_receive(video_packet(2, 2, 0, &idr), &mut t, T0);
    assert_eq!(out.nals.len(), 2);
    assert!(out.error_report.is_none());
    assert!(!t.controller().fec_failure_state);
    assert_eq!(t.controller().fec_failure_total, 1);
    let out = h.legacy_receive(video_packet(3, 3, 0, &p_frame()), &mut t, T0);
    assert!(out.error_report.is_none());
}

#[test]
fn with_error_correction_a_bad_packet_raises_the_loss_flag() {
    let (mut h, mut t) = handler(true);
    let out = h.legacy_receive(video_packet(1, 1, 0, &p_frame()), &mut t, T0);
    assert!(out.nals.is_empty());
    assert_eq!(out.error_report, Some(PacketErrorReport::default()));
    assert!(!out.reset_idr_parsed);
    assert!(t.controller().fec_failure_state);
    assert_eq!(t.controller().fec_failure_total, 1);
    assert_eq!(t.pending(), 2);
}
