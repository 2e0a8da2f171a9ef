use voice_cloner::full_chain::check_full_chain_request;
use voice_cloner::full_chain::{
    chain_sums_fit_for, normalize_backend_base_url, summarize_full_chain_timeline, RealtimeFullChainTimelineSample,
    RealtimeFullChainVerdict,
};
use voice_cloner::realtime::RealtimeStreamSnapshot;
use voice_cloner::session::{RealtimeSession, RealtimeSessionStatus, RuntimeParams};

fn snapshot_with_counts(sent: u64, vad: u64, received: u64, playable: u64) -> RealtimeStreamSnapshot {
    let session = RealtimeSession {
        session_id: "session-1".into(),
        trace_id: "trace-1".into(),
        voice_name: "voice".into(),
        runtime_params: RuntimeParams::empty(),
        status: RealtimeSessionStatus::Running,
        websocket_url: "ws://localhost:8000/ws/v1/realtime/voice".into(),
        error_summary: None,
        created_at: 0,
        updated_at: 0,
    };
    let mut snapshot = RealtimeStreamSnapshot::pending(&session);
    snapshot.sent_frames = sent;
    snapshot.vad_speech_frames = vad;
    snapshot.output_received_frames = received;
    snapshot.output_playable_frames = playable;
    snapshot
}

#[test]
fn realtime_full_chain_summary_fails_without_output_audio() {
    let snapshot = snapshot_with_counts(200, 100, 0, 0);
    let summary = summarize_full_chain_timeline(
        &vec![RealtimeFullChainTimelineSample { elapsed_ms: 1_000, snapshot }],
        None,
        "buffer_only",
    );

    assert_eq!(summary.verdict, RealtimeFullChainVerdict::Fail);
    assert!(summary.reasons.iter().any(|reason| reason.contains("未收到 FunSpeech")));
}

#[test]
fn realtime_full_chain_summary_marks_buffer_only_as_degraded() {
    let mut snapshot = snapshot_with_counts(200, 100, 50, 50);
    snapshot.vad_speech_frames = 100;
    let summary = summarize_full_chain_timeline(
        &vec![RealtimeFullChainTimelineSample { elapsed_ms: 1_000, snapshot }],
        None,
        "buffer_only",
    );

    assert_eq!(summary.verdict, RealtimeFullChainVerdict::Degraded);
    assert!(summary.reasons.iter().any(|reason| reason.contains("ACK")));
}

#[test]
fn realtime_full_chain_summary_marks_excess_playback_latency_as_degraded() {
    let mut snapshot = snapshot_with_counts(200, 100, 80, 80);
    snapshot.output_playback_queue_ms = 3_000;
    let summary = summarize_full_chain_timeline(
        &vec![RealtimeFullChainTimelineSample { elapsed_ms: 1_000, snapshot }],
        None,
        "monitor",
    );

    assert_eq!(summary.verdict, RealtimeFullChainVerdict::Degraded);
    assert!(summary.reasons.iter().any(|reason| reason.contains("实时监听延迟过高")));
}

#[test]
fn realtime_full_chain_normalizes_bare_server_address() {
    assert_eq!(normalize_backend_base_url("10.0.0.96:8000").unwrap(), "http://10.0.0.96:8000");
    assert_eq!(normalize_backend_base_url("ws://10.0.0.96:8000").unwrap(), "http://10.0.0.96:8000");
}

#[test]
fn realtime_full_chain_base_url_edge_cases() {
    assert_eq!(normalize_backend_base_url(" wss://host/ ").unwrap(), "https://host");
    assert_eq!(normalize_backend_base_url("https://host").unwrap(), "https://host");
    assert_eq!(normalize_backend_base_url(" / ").unwrap_err().message(), "backend realtime baseUrl is empty");
}

#[test]
fn chain_sums_fit_only_while_drop_counters_add_up() {
    assert!(chain_sums_fit_for(&Vec::new()));
    let mut snapshot = snapshot_with_counts(10, 5, 4, 4);
    snapshot.output_gap_skips = u64::MAX - 1;
    snapshot.output_late_drops = 1;
    assert!(chain_sums_fit_for(&vec![RealtimeFullChainTimelineSample { elapsed_ms: 1, snapshot: snapshot.clone() }]));
    snapshot.output_overflow_drops = 1;
    assert!(!chain_sums_fit_for(&vec![RealtimeFullChainTimelineSample { elapsed_ms: 1, snapshot }]));
}

#[test]
fn full_chain_request_needs_audio_then_a_voice_name() {
    assert_eq!(check_full_chain_request(4, "  narrator ").unwrap(), "narrator");
    assert_eq!(
        check_full_chain_request(0, "  ").unwrap_err().message(),
        "full-chain realtime test audio is empty"
    );
    assert_eq!(check_full_chain_request(4, "  ").unwrap_err().message(), "voiceName is required");
}
