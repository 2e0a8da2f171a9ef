use voice_cloner::json::{JsonField, RealtimeEvent};
use voice_cloner::playback::PLAYBACK_JITTER_PREBUFFER_MS;
use voice_cloner::realtime::{
    apply_asr_event, apply_json_event_at, apply_output_drop_status, apply_tts_event, fits_event,
    is_final_asr_event, text_from_asr_event, RealtimeStreamSnapshot,
};
use voice_cloner::session::{RealtimeSession, RealtimeSessionStatus, RuntimeParams};
use voice_cloner::voice_stream::{
    binary_counters_fit_for, client_audio_backpressure_event, client_audio_played_event, playback_counters_fit_for,
    ClientEvent,
};

const WALL_MS: i64 = 1_730_000_000_000;

fn session() -> RealtimeSession {
    RealtimeSession {
        session_id: "session-1".into(),
        trace_id: "trace-1".into(),
        voice_name: "desktop_voice".into(),
        runtime_params: RuntimeParams::empty(),
        status: RealtimeSessionStatus::Running,
        websocket_url: "ws://localhost:8000/ws/v1/realtime/voice".into(),
        error_summary: None,
        created_at: 1_730_000_000_000,
        updated_at: 1_730_000_000_000,
    }
}

fn text(key: &str, value: &str) -> (String, JsonField) {
    (key.into(), JsonField::Text(value.into()))
}

fn number(key: &str, value: u64) -> (String, JsonField) {
    (key.into(), JsonField::Number { as_u64: Some(value), as_i64: i64::try_from(value).ok() })
}

fn signed(key: &str, value: i64) -> (String, JsonField) {
    (key.into(), JsonField::Number { as_u64: u64::try_from(value).ok(), as_i64: Some(value) })
}

fn flag(key: &str, value: bool) -> (String, JsonField) {
    (key.into(), JsonField::Flag(value))
}

fn event(fields: Vec<(String, JsonField)>, payload: Vec<(String, JsonField)>) -> RealtimeEvent {
    RealtimeEvent { fields, header: Vec::new(), payload }
}

#[test]
fn realtime_snapshot_tracks_output_drop_statuses_separately() {
    let mut snapshot = RealtimeStreamSnapshot::pending(&session());

    apply_output_drop_status(&mut snapshot, "gap_skip");
    apply_output_drop_status(&mut snapshot, "late_drop");
    apply_output_drop_status(&mut snapshot, "playback_overflow_drop");
    apply_output_drop_status(&mut snapshot, "duplicate_drop");

    assert_eq!(snapshot.output_gap_skips, 1);
    assert_eq!(snapshot.output_late_drops, 1);
    assert_eq!(snapshot.output_overflow_drops, 1);
    assert_eq!(snapshot.output_duplicate_drops, 1);
    assert_eq!(snapshot.output_ack_mismatches, 0);
}

#[test]
fn aliyun_asr_and_tts_events_update_snapshot() {
    let mut snapshot = RealtimeStreamSnapshot::pending(&session());
    let asr_final = RealtimeEvent {
        fields: Vec::new(),
        header: vec![text("name", "SentenceEnd")],
        payload: vec![text("text", "你好"), flag("is_final", true)],
    };

    assert!(is_final_asr_event(&asr_final));
    assert_eq!(text_from_asr_event(&asr_final).as_deref(), Some("你好"));
    apply_asr_event(&mut snapshot, &asr_final);
    assert_eq!(snapshot.asr_text.as_deref(), Some("你好"));
    assert_eq!(snapshot.last_event.as_deref(), Some("asr_SentenceEnd"));

    let tts_started = RealtimeEvent {
        fields: Vec::new(),
        header: vec![text("name", "SynthesisStarted")],
        payload: Vec::new(),
    };
    apply_tts_event(&mut snapshot, &tts_started);
    assert_eq!(snapshot.pipeline_stage, "tts_ready");
    assert_eq!(snapshot.last_event.as_deref(), Some("tts_SynthesisStarted"));
}

#[test]
fn realtime_voice_events_accept_type_protocol_aliases() {
    let mut snapshot = RealtimeStreamSnapshot::pending(&session());

    apply_json_event_at(
        &mut snapshot,
        &event(vec![text("type", "ready"), text("session_id", "rt-1"), text("voiceName", "robot")], Vec::new()),
        WALL_MS,
    );
    assert_eq!(snapshot.websocket_state, "running");
    assert_eq!(snapshot.task_id.as_deref(), Some("rt-1"));
    assert_eq!(snapshot.configured_voice_name, "robot");

    apply_json_event_at(&mut snapshot, &event(vec![text("type", "voice_updated"), text("voice_name", "girl")], Vec::new()), WALL_MS);
    assert_eq!(snapshot.configured_voice_name, "girl");
    assert_eq!(snapshot.last_event.as_deref(), Some("voice_updated"));
}

#[test]
fn realtime_voice_v1_events_update_lightweight_prompt_fields() {
    let mut snapshot = RealtimeStreamSnapshot::pending(&session());

    apply_json_event_at(
        &mut snapshot,
        &event(
            vec![
                text("event", "asr.text_committed"),
                text("task_id", "realtime_voice_1"),
                number("seq", 7),
                signed("server_ts_ms", 1730000000000i64),
                text("schema_version", "realtime_voice.v1"),
            ],
            vec![
                text("utterance_id", "utt_1"),
                number("revision_id", 3),
                text("full_text", "你好"),
                text("tts_job_id", "tts_3"),
            ],
        ),
        WALL_MS,
    );

    assert_eq!(snapshot.task_id.as_deref(), Some("realtime_voice_1"));
    assert_eq!(snapshot.event_seq, Some(7));
    assert_eq!(snapshot.schema_version.as_deref(), Some("realtime_voice.v1"));
    assert_eq!(snapshot.utterance_id.as_deref(), Some("utt_1"));
    assert_eq!(snapshot.revision_id, Some(3));
    assert_eq!(snapshot.tts_job_id.as_deref(), Some("tts_3"));
    assert_eq!(snapshot.asr_text.as_deref(), Some("你好"));
    assert_eq!(snapshot.last_prompt.as_deref(), Some("已确认文本，正在准备变声"));

    apply_json_event_at(
        &mut snapshot,
        &event(
            vec![text("event", "tts.audio_chunk")],
            vec![text("tts_job_id", "tts_3"), number("revision_id", 3), number("audio_chunk_index", 2)],
        ),
        WALL_MS,
    );

    assert_eq!(snapshot.audio_chunk_index, Some(2));
    assert_eq!(snapshot.last_prompt.as_deref(), Some("正在输出转换后语音"));

    apply_json_event_at(
        &mut snapshot,
        &event(
            vec![text("event", "asr.segment_committed")],
            vec![
                text("segment_id", "utt_1_seg_3"),
                text("utterance_id", "utt_1"),
                number("first_input_frame_index", 41),
                number("last_input_frame_index", 80),
                number("duration_ms", 800),
                number("frame_count", 40),
                flag("is_final", false),
                text("commit_reason", "partial"),
                number("queue_ms", 120),
            ],
        ),
        WALL_MS,
    );

    assert_eq!(snapshot.asr_committed_segments, 1);
    assert_eq!(snapshot.asr_segment_id.as_deref(), Some("utt_1_seg_3"));
    assert_eq!(snapshot.asr_first_frame_seq, Some(41));
    assert_eq!(snapshot.asr_last_frame_seq, Some(80));
    assert_eq!(snapshot.asr_queue_ms, Some(120));
    assert!(snapshot
        .ledger
        .iter()
        .any(|entry| entry.stage == "asr_segment" && entry.asr_first_frame_seq == Some(41)));

    apply_json_event_at(
        &mut snapshot,
        &event(vec![text("event", "vad.speech_started")], vec![text("utterance_id", "utt_2")]),
        WALL_MS,
    );
    assert_eq!(snapshot.vad_speech_frames, 1);
}

#[test]
fn ledger_entries_carry_the_given_time() {
    let mut snapshot = RealtimeStreamSnapshot::pending(&session());
    apply_json_event_at(
        &mut snapshot,
        &event(vec![text("event", "asr.segment_committed")], vec![text("segment_id", "s1"), number("queue_ms", 5)]),
        1234,
    );
    let last = snapshot.ledger.last().expect("a ledger entry is kept");
    assert_eq!(last.timestamp_ms, 1234);
    assert_eq!(last.stage, "asr_segment");
}

#[test]
fn realtime_client_control_events_match_funspeech_protocol() {
    assert_eq!(PLAYBACK_JITTER_PREBUFFER_MS, 0);

    let played = client_audio_played_event(Some("tts_1_chunk_1".into()), Some("tts_1".into()), 1, "played", 0)
        .expect("chunk_id is required for FunSpeech playback flow control");
    match played {
        ClientEvent::AudioPlayed { chunk_id, tts_job_id, audio_chunk_index, .. } => {
            assert_eq!(chunk_id, "tts_1_chunk_1");
            assert_eq!(tts_job_id.as_deref(), Some("tts_1"));
            assert_eq!(audio_chunk_index, 1);
        }
        other => panic!("unexpected event {other:?}"),
    }

    let backpressure = client_audio_backpressure_event("drop", 120, "playback_overflow_drop");
    match backpressure {
        ClientEvent::AudioBackpressure { level, playback_queue_ms, reason } => {
            assert_eq!(level, "drop");
            assert_eq!(playback_queue_ms, 120);
            assert_eq!(reason, "playback_overflow_drop");
        }
        other => panic!("unexpected event {other:?}"),
    }

    assert!(client_audio_played_event(None, Some("tts_1".into()), 1, "played", 0).is_none());
}

#[test]
fn counter_checks_match_what_an_event_adds() {
    let mut snapshot = RealtimeStreamSnapshot::pending(&session());
    let frames = event(vec![text("event", "vad.speech_frame")], vec![number("frames", 5)]);
    assert!(fits_event(&snapshot, &frames));
    snapshot.vad_speech_frames = u64::MAX - 4;
    assert!(!fits_event(&snapshot, &frames));
    snapshot.vad_speech_frames = u64::MAX - 5;
    assert!(fits_event(&snapshot, &frames));
    let nameless = event(Vec::new(), vec![number("frames", 5)]);
    snapshot.vad_speech_frames = u64::MAX;
    assert!(fits_event(&snapshot, &nameless));

    assert!(binary_counters_fit_for(&snapshot, 10));
    snapshot.received_bytes = u64::MAX - 9;
    assert!(!binary_counters_fit_for(&snapshot, 10));
    assert!(binary_counters_fit_for(&snapshot, 9));

    assert!(playback_counters_fit_for(&snapshot));
    snapshot.monitor_frames = u64::MAX;
    assert!(!playback_counters_fit_for(&snapshot));
}
