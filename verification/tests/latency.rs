use alvr_client_stream::latency_controller::{
    decoder_input, decoder_output, estimated_sent, fec_failure, get_fec_failure_state,
    new_time_sync, packet_loss, queue, received, received_first, received_last, rendered, reset,
    set_fec_failure_state, set_total_latency, submit, tracking, ActTime, Action, FrameTimestamp,
    FrameTimestampStore, LatencyController, LatencyTracker, MAX_ACTIONS, MAX_FRAMES,
};

const T0: u64 = 1_700_000_000_000_000;

fn full_frame(tracker: &mut LatencyTracker, f: u64, base: u64) {
    tracking(tracker, f, base + 100);
    received(tracker, f, base + 200, base + 900);
    estimated_sent(tracker, f, base + 1_000, base + 1_500);
    received_first(tracker, f, base + 1_400);
    received_last(tracker, f, base + 3_000);
    decoder_input(tracker, f, base + 3_100);
    decoder_output(tracker, f, base + 7_100);
    rendered(tracker, f, base + 9_000);
}

#[test]
fn latencies_of_a_frame() {
    let mut t = LatencyTracker::new(T0);
    full_frame(&mut t, 5, T0);
    assert_eq!(t.pending(), 8);
    assert!(submit(&mut t, 5, T0 + 10_000));
    assert_eq!(t.pending(), 0);
    let slot = t.slot(5);
    assert_eq!(
        slot,
        FrameTimestamp {
            frame_index: 5,
            tracking: T0 + 100,
            estimated_sent: T0 + 1_000,
            received: T0 + 200,
            received_first: T0 + 1_400,
            received_last: T0 + 3_000,
            decoder_input: T0 + 3_100,
            decoder_output: T0 + 7_100,
            rendered1: T0 + 9_000,
            rendered2: T0 + 9_000,
            submit: T0 + 10_000,
        }
    );
    let c = t.controller();
    assert_eq!(c.total_latency, 9_900);
    assert_eq!(c.transport_latency, 2_000);
    assert_eq!(c.decode_latency, 4_000);
    assert_eq!(c.send_latency, 100);
    assert_eq!(c.last_submit, T0 + 10_000);
    assert_eq!(c.frame_interval, T0 + 10_000);
    full_frame(&mut t, 6, T0 + 11_111);
    assert!(submit(&mut t, 6, T0 + 21_111));
    assert_eq!(t.controller().frame_interval, 11_111);
    assert_eq!(t.controller().last_submit, T0 + 21_111);
}

#[test]
fn send_latency_falls_back_to_transport_latency() {
    let mut t = LatencyTracker::new(T0);
    tracking(&mut t, 1, T0);
    estimated_sent(&mut t, 1, T0 + 10, T0 + 50);
    received_last(&mut t, 1, T0 + 60);
    assert!(submit(&mut t, 1, T0 + 100));
    let c = t.controller();
    assert_eq!(c.transport_latency, 50);
    assert_eq!(c.send_latency, 50);
    assert_eq!(c.decode_latency, 0);
    assert_eq!(c.total_latency, 100);
}

#[test]
fn submit_is_refused_on_timestamps_out_of_order() {
    let fresh = LatencyController::new(T0);
    let good = FrameTimestamp {
        frame_index: 1,
        tracking: 10,
        estimated_sent: 20,
        received: 15,
        received_first: 25,
        received_last: 30,
        decoder_input: 31,
        decoder_output: 40,
        rendered1: 45,
        rendered2: 45,
        submit: 50,
    };
    let mut c = fresh;
    assert!(c.submit(good, T0));
    let bad = [
        FrameTimestamp { estimated_sent: 31, ..good },
        FrameTimestamp { decoder_input: 41, ..good },
        FrameTimestamp { received: 9, ..good },
        FrameTimestamp { submit: 0, ..good },
        FrameTimestamp { tracking: 51, received: 0, ..good },
    ];
    for ts in bad {
        let mut c = fresh;
        assert!(!c.submit(ts, T0));
        assert_eq!(c, fresh);
    }
    let mut c = fresh;
    assert!(c.submit(FrameTimestamp { tracking: 16, received: 0, ..good }, T0));
    let mut c = fresh;
    assert!(c.submit(good, T0));
    assert!(!c.submit(good, T0));
    assert!(c.submit(FrameTimestamp { submit: 51, ..good }, T0));
    assert_eq!(c.frame_interval, 1);
}

#[test]
fn submit_must_be_later_than_the_last_one() {
    let mut t = LatencyTracker::new(T0);
    tracking(&mut t, 1, T0);
    assert!(submit(&mut t, 1, T0 + 5));
    tracking(&mut t, 2, T0 + 1);
    assert!(!submit(&mut t, 2, T0 + 5));
    assert_eq!(t.controller().last_submit, T0 + 5);
    tracking(&mut t, 3, T0 + 1);
    assert!(!submit(&mut t, 3, T0 + 4));
    tracking(&mut t, 4, T0 + 1);
    assert!(submit(&mut t, 4, T0 + 6));
    assert_eq!(t.controller().last_submit, T0 + 6);
}

#[test]
fn a_frame_that_takes_a_slot_erases_the_frame_before() {
    let mut store = FrameTimestampStore::new();
    let f1 = 7u64;
    let f2 = 7 + 1024 * 3;
    store.record(f1, ActTime::Tracking(111));
    store.record(f1, ActTime::DecoderOutput(222));
    store.record(f1, ActTime::Rendered(333));
    assert_eq!(store.get_frame(f1).tracking, 111);
    store.record(f2, ActTime::Tracking(444));
    let slot = store.get_frame(f2);
    assert_eq!(slot, FrameTimestamp { tracking: 444, ..FrameTimestamp::new(f2) });
    assert_eq!(store.get_frame(f1), FrameTimestamp::new(f1));
    assert_eq!(store.get_frame(8), FrameTimestamp::new(8));
    assert_eq!(MAX_FRAMES, 1024);
}

#[test]
fn records_of_other_slots_stay() {
    let mut store = FrameTimestampStore::new();
    store.record(1, ActTime::Tracking(10));
    store.record(2, ActTime::Tracking(20));
    store.record(1025 + 1024, ActTime::Tracking(30));
    assert_eq!(store.get_frame(2).tracking, 20);
    assert_eq!(store.get_frame(2049).tracking, 30);
    assert_eq!(store.get_frame(1).tracking, 0);
    store.reset();
    assert_eq!(store.get_frame(2), FrameTimestamp::new(2));
}

#[test]
fn received_counts_only_between_tracking_and_now() {
    let mut s = FrameTimestamp::new(3);
    s.record(ActTime::Tracking(100));
    s.record(ActTime::Received(100, 500));
    assert_eq!(s.received, 0);
    s.record(ActTime::Received(500, 500));
    assert_eq!(s.received, 0);
    s.record(ActTime::Received(101, 500));
    assert_eq!(s.received, 101);
    s.record(ActTime::Received(600, 500));
    assert_eq!(s.received, 101);
}

#[test]
fn estimated_sent_is_capped_by_the_time_it_was_told() {
    let mut s = FrameTimestamp::new(3);
    s.record(ActTime::EstimatedSent(100, 500));
    assert_eq!(s.estimated_sent, 100);
    s.record(ActTime::EstimatedSent(500, 500));
    assert_eq!(s.estimated_sent, 500);
    s.record(ActTime::EstimatedSent(u64::MAX, 700));
    assert_eq!(s.estimated_sent, 700);
}

#[test]
fn first_record_of_last_packet_and_decoder_input_stays() {
    let mut s = FrameTimestamp::new(3);
    s.record(ActTime::ReceivedLast(100));
    s.record(ActTime::ReceivedLast(200));
    assert_eq!(s.received_last, 100);
    s.record(ActTime::DecoderInput(300));
    s.record(ActTime::DecoderInput(400));
    assert_eq!(s.decoder_input, 300);
    s.record(ActTime::DecoderOutput(500));
    s.record(ActTime::DecoderOutput(600));
    assert_eq!(s.decoder_output, 600);
    s.record(ActTime::ReceivedFirst(1));
    s.record(ActTime::ReceivedFirst(2));
    assert_eq!(s.received_first, 2);
    s.record(ActTime::Rendered(9));
    assert_eq!((s.rendered1, s.rendered2), (9, 9));
    assert_eq!(FrameTimestamp::default(), FrameTimestamp::new(0));
}

#[test]
fn a_full_queue_drops_the_oldest_record() {
    let mut t = LatencyTracker::new(T0);
    assert_eq!(MAX_ACTIONS, 64);
    for i in 0..64u64 {
        queue(&mut t, 100, ActTime::ReceivedFirst(i + 1));
    }
    assert_eq!(t.pending(), 64);
    tracking(&mut t, 100, 5);
    assert_eq!(t.pending(), 64);
    let mut u = LatencyTracker::new(T0);
    for i in 0..64u64 {
        queue(&mut u, 200 + i, ActTime::Tracking(i + 1));
    }
    queue(&mut u, 300, ActTime::Tracking(77));
    assert!(!submit(&mut u, 0, 0));
    assert_eq!(u.slot(200), FrameTimestamp::new(0));
    assert_eq!(u.slot(201).tracking, 2);
    assert_eq!(u.slot(263).tracking, 64);
    assert_eq!(u.slot(300).tracking, 77);
}

#[test]
fn stale_records_are_passed_over_on_submit() {
    let mut t = LatencyTracker::new(T0);
    tracking(&mut t, 9, T0 + 1);
    tracking(&mut t, 10, T0 + 2);
    tracking(&mut t, 11, T0 + 3);
    assert!(submit(&mut t, 10, T0 + 10));
    assert_eq!(t.slot(9), FrameTimestamp::new(0));
    assert_eq!(t.slot(10).tracking, T0 + 2);
    assert_eq!(t.slot(11).tracking, T0 + 3);
    assert_eq!(t.controller().total_latency, 8);
}

#[test]
fn store_submit_replays_in_order() {
    let mut store = FrameTimestampStore::new();
    let actions = vec![
        Action { frame_index: 4, time: ActTime::Tracking(1) },
        Action { frame_index: 5, time: ActTime::Tracking(2) },
        Action { frame_index: 5, time: ActTime::Tracking(3) },
        Action { frame_index: 5 + 1024, time: ActTime::Tracking(4) },
    ];
    let slot = store.submit(5, 99, &actions);
    assert_eq!(slot, FrameTimestamp::new(5));
    let mut store = FrameTimestampStore::new();
    let slot = store.submit(5, 99, &actions[..3].to_vec());
    assert_eq!(slot, FrameTimestamp { tracking: 3, submit: 99, ..FrameTimestamp::new(5) });
}

#[test]
fn packet_loss_and_fec_failures_are_counted_by_second() {
    let mut t = LatencyTracker::new(T0);
    packet_loss(&mut t, 3, T0 + 1);
    packet_loss(&mut t, 4, T0 + 999_999);
    fec_failure(&mut t, T0 + 5);
    let c = t.controller();
    assert_eq!((c.packets_lost_total, c.packets_lost_in_second, c.packets_lost_previous), (7, 7, 0));
    assert_eq!((c.fec_failure_total, c.fec_failure_in_second, c.fec_failure_previous), (1, 1, 0));
    packet_loss(&mut t, 1, T0 + 1_000_000);
    let c = t.controller();
    assert_eq!((c.packets_lost_total, c.packets_lost_in_second, c.packets_lost_previous), (8, 1, 7));
    assert_eq!((c.fec_failure_total, c.fec_failure_in_second, c.fec_failure_previous), (1, 0, 1));
    assert_eq!(c.statistics_time, T0 / 1_000_000 + 1);
    fec_failure(&mut t, T0 + 5_000_000);
    let c = t.controller();
    assert_eq!((c.packets_lost_total, c.packets_lost_in_second, c.packets_lost_previous), (8, 0, 1));
    assert_eq!((c.fec_failure_total, c.fec_failure_in_second, c.fec_failure_previous), (2, 1, 0));
}

#[test]
fn counters_wrap_around() {
    let mut c = LatencyController::new(0);
    c.packets_lost_total = u64::MAX - 1;
    c.fec_failure_total = u64::MAX;
    c.packet_loss(3, 0);
    c.fec_failure(0);
    assert_eq!(c.packets_lost_total, 1);
    assert_eq!(c.packets_lost_in_second, 3);
    assert_eq!(c.fec_failure_total, 0);
    assert_eq!(c.fec_failure_in_second, 1);
}

#[test]
fn a_submit_in_a_new_second_starts_the_counters_again() {
    let mut t = LatencyTracker::new(T0);
    packet_loss(&mut t, 2, T0);
    tracking(&mut t, 1, T0);
    assert!(submit(&mut t, 1, T0 + 2_000_000));
    let c = t.controller();
    assert_eq!(c.packets_lost_in_second, 0);
    assert_eq!(c.packets_lost_previous, 2);
    assert_eq!(c.total_latency, 2_000_000);
}

#[test]
fn total_latency_of_the_server_is_taken_below_the_limit() {
    let mut t = LatencyTracker::new(T0);
    set_total_latency(&mut t, 199_999, 5_000);
    assert_eq!(t.controller().server_total_latency, 5_000);
    set_total_latency(&mut t, 200_000, 9_000);
    assert_eq!(t.controller().server_total_latency, 5_000);
    set_total_latency(&mut t, 0, 4_750);
    assert_eq!(t.controller().server_total_latency, 4_750);
}

#[test]
fn report_carries_the_statistics() {
    let mut t = LatencyTracker::new(T0);
    full_frame(&mut t, 5, T0);
    assert!(submit(&mut t, 5, T0 + 10_000));
    packet_loss(&mut t, 3, T0 + 10_001);
    fec_failure(&mut t, T0 + 10_002);
    set_fec_failure_state(&mut t, true);
    assert!(get_fec_failure_state(&t));
    let first = new_time_sync(&mut t, T0 + 20_000);
    assert_eq!(first.packet_type, 7);
    assert_eq!(first.mode, 0);
    assert_eq!(first.sequence, 0);
    assert_eq!(first.server_time, 0);
    assert_eq!(first.client_time, T0 + 20_000);
    assert_eq!(first.packets_lost_total, 3);
    assert_eq!(first.packets_lost_in_second, 3);
    assert_eq!(first.average_total_latency, 9_900);
    assert_eq!(first.average_send_latency, 100);
    assert_eq!(first.average_transport_latency, 2_000);
    assert_eq!(first.average_decode_latency, 4_000);
    assert_eq!(first.idle_time, 0);
    assert_eq!(first.fec_failure, 1);
    assert_eq!(first.fec_failure_in_second, 1);
    assert_eq!(first.fec_failure_total, 1);
    assert_eq!(first.fps, 0);
    assert_eq!(first.server_total_latency, 0);
    assert_eq!(first.tracking_recv_frame_index, 0);
    set_fec_failure_state(&mut t, false);
    let second = new_time_sync(&mut t, T0 + 30_000);
    assert_eq!(second.sequence, 1);
    assert_eq!(second.fec_failure, 0);
}

#[test]
fn sequence_starts_again_after_the_largest() {
    let mut c = LatencyController::new(0);
    c.time_sync_sequence = u64::MAX;
    c.set_frames_in_second(90.0f32.to_bits());
    assert_eq!(c.increment_time_sync_sequence(), u64::MAX);
    let report = c.new_time_sync(1);
    assert_eq!(report.sequence, 0);
    assert_eq!(f32::from_bits(report.fps), 90.0);
    assert_eq!(c.time_sync_sequence, 1);
}

#[test]
fn reset_forgets_everything() {
    let mut t = LatencyTracker::new(T0);
    full_frame(&mut t, 5, T0);
    assert!(submit(&mut t, 5, T0 + 10_000));
    tracking(&mut t, 6, T0);
    reset(&mut t, T0 + 3_000_000);
    assert_eq!(t.pending(), 0);
    assert_eq!(t.slot(5), FrameTimestamp::new(0));
    assert_eq!(t.controller(), LatencyController::new(T0 + 3_000_000));
    assert_eq!(t.controller().statistics_time, T0 / 1_000_000 + 3);
}

#[test]
fn latencies_keep_their_low_32_bits() {
    let mut c = LatencyController::new(0);
    let ts = FrameTimestamp {
        frame_index: 1,
        tracking: 1,
        estimated_sent: 0,
        received: 0,
        received_first: 0,
        received_last: (1u64 << 32) + 5,
        decoder_input: 0,
        decoder_output: u64::MAX,
        rendered1: 0,
        rendered2: 0,
        submit: (3u64 << 32) + 8,
    };
    assert!(c.submit(ts, 0));
    assert_eq!(c.total_latency, 7);
    assert_eq!(c.transport_latency, 5);
    assert_eq!(c.decode_latency, u32::MAX);
    assert_eq!(c.send_latency, 5);
}
