use voice_cloner::frame::PcmFormat;
use voice_cloner::frame_queue::FrameQueue;
use voice_cloner::playback::{
    OrderedPlaybackBuffer, PendingOutputChunk, PendingPlaybackFrame, PLAYBACK_GAP_SKIP_PENDING, PLAYBACK_MAX_PENDING,
};

fn chunk(index: u64) -> PendingOutputChunk {
    PendingOutputChunk {
        chunk_id: None,
        tts_job_id: Some("tts_1".into()),
        audio_chunk_index: Some(index),
        expected_bytes: Some(2),
    }
}

#[test]
fn ordered_playback_buffer_waits_for_contiguous_audio_before_playing() {
    let format = PcmFormat::default_format();
    let mut buffer = OrderedPlaybackBuffer::new(PLAYBACK_GAP_SKIP_PENDING, PLAYBACK_MAX_PENDING, 0);

    buffer.enqueue(chunk(1), vec![1, 1], Some(10)).expect("chunk 1 should queue");
    let (index, _) = buffer.pop_playable(format).expect("chunk 1 should play");
    assert_eq!(index, 1);

    buffer.enqueue(chunk(3), vec![3, 3], Some(30)).expect("chunk 3 should queue");
    assert!(buffer.pop_playable(format).is_none());
}

#[test]
fn ordered_playback_buffer_skips_gap_when_playback_pressure_builds() {
    let format = PcmFormat::default_format();
    let mut buffer = OrderedPlaybackBuffer::new(2, PLAYBACK_MAX_PENDING, 0);

    buffer.enqueue(chunk(1), vec![1, 1], Some(10)).expect("chunk 1 should queue");
    let (index, _) = buffer.pop_playable(format).expect("chunk 1 should play");
    assert_eq!(index, 1);

    buffer.enqueue(chunk(4), vec![4, 4], Some(40)).expect("chunk 4 should queue");
    buffer.enqueue(chunk(5), vec![5, 5], Some(50)).expect("chunk 5 should queue");

    let drops = buffer.apply_pressure();
    assert_eq!(drops[0].status, "gap_skip");
    assert_eq!(drops[0].audio_chunk_index, 2);
    let (index, frame) = buffer.pop_playable(format).expect("chunk 4 should play after gap skip");
    assert_eq!(index, 4);
    assert_eq!(frame.bytes, vec![4, 4]);
}

#[test]
fn ordered_playback_buffer_waits_for_fixed_jitter_prebuffer() {
    let format = PcmFormat { frame_ms: 20, ..PcmFormat::default_format() };
    let mut buffer = OrderedPlaybackBuffer::new(PLAYBACK_GAP_SKIP_PENDING, PLAYBACK_MAX_PENDING, 40);

    buffer.enqueue(chunk(1), vec![1, 1], Some(10)).expect("chunk 1 should queue");
    assert!(buffer.pop_playable(format).is_none());

    buffer.enqueue(chunk(2), vec![2, 2], Some(20)).expect("chunk 2 should queue");
    let (index, _) = buffer.pop_playable(format).expect("prebuffer is full");
    assert_eq!(index, 1);
}

#[test]
fn played_chunk_index_is_late_when_offered_again() {
    let format = PcmFormat::default_format();
    let mut buffer = OrderedPlaybackBuffer::new(PLAYBACK_GAP_SKIP_PENDING, PLAYBACK_MAX_PENDING, 0);
    buffer.enqueue(chunk(1), vec![1], None).unwrap();
    buffer.enqueue(chunk(2), vec![2], None).unwrap();
    assert_eq!(buffer.pop_playable(format).unwrap().0, 1);
    let late = buffer.enqueue(chunk(1), vec![1], None).unwrap_err();
    assert_eq!(late.status, "late_drop");
    assert_eq!(late.audio_chunk_index, 1);
    let duplicate = buffer.enqueue(chunk(2), vec![2], None).unwrap_err();
    assert_eq!(duplicate.status, "duplicate_drop");
}

#[test]
fn overflow_pressure_keeps_queue_within_limit() {
    let mut buffer = OrderedPlaybackBuffer::new(100, 2, 0);
    for i in 1..=4u64 {
        buffer.enqueue(chunk(i), vec![i as u8], None).unwrap();
    }
    let drops = buffer.apply_pressure();
    assert!(buffer.pending_len() <= 2);
    assert_eq!(drops.len(), 2);
    assert_eq!(drops[0].status, "playback_overflow_drop");
    assert_eq!(drops[0].audio_chunk_index, 1);
}

#[test]
fn chunk_without_index_takes_next_free_index() {
    let format = PcmFormat::default_format();
    let mut buffer = OrderedPlaybackBuffer::new(PLAYBACK_GAP_SKIP_PENDING, PLAYBACK_MAX_PENDING, 0);
    let unindexed = PendingOutputChunk { audio_chunk_index: None, ..chunk(0) };
    let first = buffer.enqueue(chunk(5), vec![5], None).unwrap();
    assert_eq!(first, 5);
    let second = buffer.enqueue(unindexed, vec![6], None).unwrap();
    assert_eq!(second, 6);
    assert_eq!(buffer.queued_ms(format), 40);
}

#[test]
fn frame_queue_hands_frames_out_in_index_order() {
    let mut queue = FrameQueue::new();
    assert_eq!(queue.len(), 0);
    assert_eq!(queue.first_key(), None);
    for index in [7u64, 2, 5] {
        queue.insert(index, PendingPlaybackFrame { metadata: chunk(index), bytes: vec![index as u8], latency_ms: None });
    }
    assert_eq!(queue.len(), 3);
    assert!(queue.contains(5));
    assert!(!queue.contains(3));
    assert_eq!(queue.first_key(), Some(2));
    let (first, frame) = queue.remove_first();
    assert_eq!(first, 2);
    assert_eq!(frame.bytes, vec![2]);
    assert_eq!(queue.remove_first().0, 5);
    assert_eq!(queue.remove_first().0, 7);
    assert_eq!(queue.len(), 0);
}
