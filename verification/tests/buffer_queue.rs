use alvr_client_stream::buffer_queue::{
    buffer_coordination_loop, is_idr_parsed, push_input_buffer, push_nal, reset_idr_parsed,
    start_loop, terminate_loop, BufferQueue, DecoderAction, QUEUE_LIMIT,
};
use alvr_client_stream::latency_controller::{submit, LatencyTracker};
use alvr_client_stream::nal::{Nal, NalType};
use bytes::Bytes;

fn nal(nal_type: NalType, frame_index: u64) -> Nal {
    Nal { nal_type, frame_buffer: Bytes::from(vec![frame_index as u8; 6]), frame_index }
}

fn describe(action: Option<DecoderAction<u32>>) -> Option<(bool, u32, NalType, u64)> {
    match action {
        Some(DecoderAction::QueueConfig { buffer, nal }) => {
            Some((true, buffer, nal.nal_type, nal.frame_index))
        }
        Some(DecoderAction::Queue { buffer, nal }) => {
            Some((false, buffer, nal.nal_type, nal.frame_index))
        }
        None => None,
    }
}

#[test]
fn buffers_and_units_are_paired_in_order() {
    let mut q = BufferQueue::<u32>::new();
    let mut t = LatencyTracker::new(0);
    start_loop(&mut q);
    assert!(q.is_running());
    assert!(push_nal(&mut q, nal(NalType::Sps, 1)));
    assert!(push_nal(&mut q, nal(NalType::Idr, 1)));
    assert!(push_nal(&mut q, nal(NalType::P, 2)));
    assert_eq!(describe(buffer_coordination_loop(&mut q, &mut t, 10)), None);
    push_input_buffer(&mut q, 100);
    push_input_buffer(&mut q, 101);
    assert!(!is_idr_parsed(&q));
    assert_eq!(
        describe(buffer_coordination_loop(&mut q, &mut t, 11)),
        Some((true, 100, NalType::Sps, 1))
    );
    assert!(!is_idr_parsed(&q));
    assert_eq!(t.pending(), 0);
    assert_eq!(
        describe(buffer_coordination_loop(&mut q, &mut t, 12)),
        Some((false, 101, NalType::Idr, 1))
    );
    assert!(is_idr_parsed(&q));
    assert_eq!(t.pending(), 1);
    assert_eq!(describe(buffer_coordination_loop(&mut q, &mut t, 13)), None);
    assert_eq!(q.pending_nals(), 1);
    push_input_buffer(&mut q, 102);
    assert_eq!(
        describe(buffer_coordination_loop(&mut q, &mut t, 14)),
        Some((false, 102, NalType::P, 2))
    );
    assert!(is_idr_parsed(&q));
    assert!(!submit(&mut t, 1, 20));
    assert_eq!(t.slot(1).decoder_input, 12);
    assert_eq!(t.slot(2).decoder_input, 14);
}

#[test]
fn buffers_that_came_early_are_replayed_in_order() {
    let mut q = BufferQueue::<u32>::new();
    let mut t = LatencyTracker::new(0);
    push_input_buffer(&mut q, 1);
    push_input_buffer(&mut q, 2);
    assert_eq!(q.pending_buffers(), 0);
    assert!(!push_nal(&mut q, nal(NalType::P, 9)));
    assert_eq!(q.pending_nals(), 0);
    start_loop(&mut q);
    assert_eq!(q.pending_buffers(), 2);
    push_input_buffer(&mut q, 3);
    for (i, expected) in [1u32, 2, 3].into_iter().enumerate() {
        assert!(push_nal(&mut q, nal(NalType::P, i as u64)));
        assert_eq!(
            describe(buffer_coordination_loop(&mut q, &mut t, 0)),
            Some((false, expected, NalType::P, i as u64))
        );
    }
}

#[test]
fn a_full_queue_drops_the_unit_and_a_turn_makes_room() {
    let mut q = BufferQueue::<u32>::new();
    let mut t = LatencyTracker::new(0);
    start_loop(&mut q);
    assert_eq!(QUEUE_LIMIT, 128);
    for i in 0..128u64 {
        assert!(push_nal(&mut q, nal(NalType::P, i)));
    }
    assert!(!push_nal(&mut q, nal(NalType::P, 999)));
    assert!(!push_nal(&mut q, nal(NalType::Idr, 1000)));
    assert_eq!(q.pending_nals(), 128);
    push_input_buffer(&mut q, 7);
    assert_eq!(
        describe(buffer_coordination_loop(&mut q, &mut t, 0)),
        Some((false, 7, NalType::P, 0))
    );
    assert_eq!(q.pending_nals(), 127);
    assert!(push_nal(&mut q, nal(NalType::P, 1001)));
    assert!(!push_nal(&mut q, nal(NalType::P, 1002)));
    for i in 1..128u64 {
        push_input_buffer(&mut q, i as u32);
        assert_eq!(
            describe(buffer_coordination_loop(&mut q, &mut t, 0)),
            Some((false, i as u32, NalType::P, i))
        );
    }
    push_input_buffer(&mut q, 0);
    assert_eq!(
        describe(buffer_coordination_loop(&mut q, &mut t, 0)),
        Some((false, 0, NalType::P, 1001))
    );
}

#[test]
fn the_end_of_the_loop_clears_everything() {
    let mut q = BufferQueue::<u32>::new();
    let mut t = LatencyTracker::new(0);
    start_loop(&mut q);
    push_input_buffer(&mut q, 1);
    push_input_buffer(&mut q, 2);
    assert!(push_nal(&mut q, nal(NalType::Idr, 1)));
    assert!(push_nal(&mut q, nal(NalType::P, 2)));
    assert!(buffer_coordination_loop(&mut q, &mut t, 0).is_some());
    assert!(is_idr_parsed(&q));
    terminate_loop(&mut q);
    assert!(!q.is_running());
    assert!(!is_idr_parsed(&q));
    assert_eq!(q.pending_buffers(), 0);
    assert_eq!(q.pending_nals(), 0);
    assert!(buffer_coordination_loop(&mut q, &mut t, 0).is_none());
    start_loop(&mut q);
    assert_eq!(q.pending_buffers(), 0);
    assert!(buffer_coordination_loop(&mut q, &mut t, 0).is_none());
}

#[test]
fn the_idr_flag_can_be_reset() {
    let mut q = BufferQueue::<u32>::new();
    let mut t = LatencyTracker::new(0);
    start_loop(&mut q);
    push_input_buffer(&mut q, 1);
    assert!(push_nal(&mut q, nal(NalType::Idr, 1)));
    assert!(buffer_coordination_loop(&mut q, &mut t, 0).is_some());
    assert!(is_idr_parsed(&q));
    reset_idr_parsed(&mut q);
    assert!(!is_idr_parsed(&q));
    assert!(q.is_running());
}
