use vstd::prelude::*;

use crate::json::{JsonField, JsonFieldView, RealtimeEvent, RealtimeEventView, as_i64, as_text, as_u64, member, or_else};
use crate::session::RealtimeSession;
use crate::settings::opt_str;
use crate::text::{concat2, concat3, decimal, decimal_seq, is_blank, is_blank_str, same_text, to_string};

verus! {

/// The most ledger entries a snapshot keeps.
pub const REALTIME_LEDGER_LIMIT: usize = 80;

pub open spec fn opt_json(v: Option<JsonField>) -> Option<JsonFieldView> {
    match v {
        Some(j) => Some(j@),
        None => None,
    }
}

/// One step of the realtime pipeline, kept for diagnostics.
#[derive(Debug, Clone, PartialEq, Eq)]
pub struct RealtimeLedgerEntry {
    pub timestamp_ms: i64,
    pub stage: String,
    pub event: String,
    pub status: Option<String>,
    pub message: Option<String>,
    pub input_frame_seq: Option<u64>,
    pub rust_sent_seq: Option<u64>,
    pub server_dequeued_seq: Option<u64>,
    pub asr_segment_id: Option<String>,
    pub asr_first_frame_seq: Option<u64>,
    pub asr_last_frame_seq: Option<u64>,
    pub asr_commit_reason: Option<String>,
    pub asr_queue_ms: Option<u64>,
    pub tts_revision_id: Option<u64>,
    pub tts_job_id: Option<String>,
    pub audio_chunk_index: Option<u64>,
    pub playback_queue_ms: Option<u64>,
}

pub struct RealtimeLedgerEntryView {
    pub timestamp_ms: i64,
    pub stage: Seq<char>,
    pub event: Seq<char>,
    pub status: Option<Seq<char>>,
    pub message: Option<Seq<char>>,
    pub input_frame_seq: Option<u64>,
    pub rust_sent_seq: Option<u64>,
    pub server_dequeued_seq: Option<u64>,
    pub asr_segment_id: Option<Seq<char>>,
    pub asr_first_frame_seq: Option<u64>,
    pub asr_last_frame_seq: Option<u64>,
    pub asr_commit_reason: Option<Seq<char>>,
    pub asr_queue_ms: Option<u64>,
    pub tts_revision_id: Option<u64>,
    pub tts_job_id: Option<Seq<char>>,
    pub audio_chunk_index: Option<u64>,
    pub playback_queue_ms: Option<u64>,
}

impl View for RealtimeLedgerEntry {
    type V = RealtimeLedgerEntryView;

    open spec fn view(&self) -> RealtimeLedgerEntryView {
        RealtimeLedgerEntryView {
            timestamp_ms: self.timestamp_ms,
            stage: self.stage@,
            event: self.event@,
            status: opt_str(self.status),
            message: opt_str(self.message),
            input_frame_seq: self.input_frame_seq,
            rust_sent_seq: self.rust_sent_seq,
            server_dequeued_seq: self.server_dequeued_seq,
            asr_segment_id: opt_str(self.asr_segment_id),
            asr_first_frame_seq: self.asr_first_frame_seq,
            asr_last_frame_seq: self.asr_last_frame_seq,
            asr_commit_reason: opt_str(self.asr_commit_reason),
            asr_queue_ms: self.asr_queue_ms,
            tts_revision_id: self.tts_revision_id,
            tts_job_id: opt_str(self.tts_job_id),
            audio_chunk_index: self.audio_chunk_index,
            playback_queue_ms: self.playback_queue_ms,
        }
    }
}

/// What the client knows of a running realtime stream.
#[derive(Debug, Clone, PartialEq, Eq)]
pub struct RealtimeStreamSnapshot {
    pub session_id: String,
    pub websocket_url: String,
    pub websocket_state: String,
    pub task_id: Option<String>,
    pub audio_mode: Option<String>,
    pub configured_voice_name: String,
    pub sent_frames: u64,
    pub received_frames: u64,
    pub sent_bytes: u64,
    pub received_bytes: u64,
    pub latency_ms: Option<u64>,
    pub input_state: String,
    pub input_source: String,
    pub input_health: Option<String>,
    pub monitor_state: String,
    pub virtual_mic_frames: u64,
    pub monitor_frames: u64,
    pub output_received_frames: u64,
    pub output_written_frames: u64,
    pub output_ack_mismatches: u64,
    pub output_playback_queue_ms: u64,
    pub output_last_frame_gap_ms: Option<u64>,
    pub output_max_frame_gap_ms: Option<u64>,
    pub output_gap_skips: u64,
    pub output_late_drops: u64,
    pub output_overflow_drops: u64,
    pub output_duplicate_drops: u64,
    pub output_playable_frames: u64,
    pub first_output_latency_ms: Option<u64>,
    pub last_output_at_ms: Option<i64>,
    pub rust_sent_seq: Option<u64>,
    pub server_dequeued_seq: Option<u64>,
    pub asr_committed_segments: u64,
    pub asr_committed_audio_ms: u64,
    pub asr_segment_id: Option<String>,
    pub asr_first_frame_seq: Option<u64>,
    pub asr_last_frame_seq: Option<u64>,
    pub asr_commit_reason: Option<String>,
    pub asr_queue_ms: Option<u64>,
    pub ledger: Vec<RealtimeLedgerEntry>,
    pub vad_speech_frames: u64,
    pub vad_utterances_ended: u64,
    pub tts_audio_chunks: u64,
    pub converted_frames: u64,
    pub pipeline_stage: String,
    pub asr_text: Option<String>,
    pub tts_text_chunks: u64,
    pub last_event: Option<String>,
    pub protocol_event: Option<String>,
    pub last_prompt: Option<String>,
    pub event_seq: Option<u64>,
    pub server_ts_ms: Option<i64>,
    pub schema_version: Option<String>,
    pub utterance_id: Option<String>,
    pub hypothesis_id: Option<String>,
    pub revision_id: Option<u64>,
    pub tts_job_id: Option<String>,
    pub audio_chunk_index: Option<u64>,
    pub config_version: Option<u64>,
    pub server_realtime_config: Option<JsonField>,
    pub asr_committed_text: Option<String>,
    pub asr_committed_chars: u64,
    pub tts_queued_jobs: u64,
    pub tts_started_jobs: u64,
    pub tts_completed_jobs: u64,
    pub tts_dropped_jobs: u64,
    pub tts_queued_chars: u64,
    pub tts_started_chars: u64,
    pub tts_completed_chars: u64,
    pub tts_dropped_chars: u64,
    pub backpressure_hint: Option<String>,
    pub last_error: Option<String>,
}

pub struct RealtimeStreamSnapshotView {
    pub session_id: Seq<char>,
    pub websocket_url: Seq<char>,
    pub websocket_state: Seq<char>,
    pub task_id: Option<Seq<char>>,
    pub audio_mode: Option<Seq<char>>,
    pub configured_voice_name: Seq<char>,
    pub sent_frames: u64,
    pub received_frames: u64,
    pub sent_bytes: u64,
    pub received_bytes: u64,
    pub latency_ms: Option<u64>,
    pub input_state: Seq<char>,
    pub input_source: Seq<char>,
    pub input_health: Option<Seq<char>>,
    pub monitor_state: Seq<char>,
    pub virtual_mic_frames: u64,
    pub monitor_frames: u64,
    pub output_received_frames: u64,
    pub output_written_frames: u64,
    pub output_ack_mismatches: u64,
    pub output_playback_queue_ms: u64,
    pub output_last_frame_gap_ms: Option<u64>,
    pub output_max_frame_gap_ms: Option<u64>,
    pub output_gap_skips: u64,
    pub output_late_drops: u64,
    pub output_overflow_drops: u64,
    pub output_duplicate_drops: u64,
    pub output_playable_frames: u64,
    pub first_output_latency_ms: Option<u64>,
    pub last_output_at_ms: Option<i64>,
    pub rust_sent_seq: Option<u64>,
    pub server_dequeued_seq: Option<u64>,
    pub asr_committed_segments: u64,
    pub asr_committed_audio_ms: u64,
    pub asr_segment_id: Option<Seq<char>>,
    pub asr_first_frame_seq: Option<u64>,
    pub asr_last_frame_seq: Option<u64>,
    pub asr_commit_reason: Option<Seq<char>>,
    pub asr_queue_ms: Option<u64>,
    pub ledger: Seq<RealtimeLedgerEntryView>,
    pub vad_speech_frames: u64,
    pub vad_utterances_ended: u64,
    pub tts_audio_chunks: u64,
    pub converted_frames: u64,
    pub pipeline_stage: Seq<char>,
    pub asr_text: Option<Seq<char>>,
    pub tts_text_chunks: u64,
    pub last_event: Option<Seq<char>>,
    pub protocol_event: Option<Seq<char>>,
    pub last_prompt: Option<Seq<char>>,
    pub event_seq: Option<u64>,
    pub server_ts_ms: Option<i64>,
    pub schema_version: Option<Seq<char>>,
    pub utterance_id: Option<Seq<char>>,
    pub hypothesis_id: Option<Seq<char>>,
    pub revision_id: Option<u64>,
    pub tts_job_id: Option<Seq<char>>,
    pub audio_chunk_index: Option<u64>,
    pub config_version: Option<u64>,
    pub server_realtime_config: Option<JsonFieldView>,
    pub asr_committed_text: Option<Seq<char>>,
    pub asr_committed_chars: u64,
    pub tts_queued_jobs: u64,
    pub tts_started_jobs: u64,
    pub tts_completed_jobs: u64,
    pub tts_dropped_jobs: u64,
    pub tts_queued_chars: u64,
    pub tts_started_chars: u64,
    pub tts_completed_chars: u64,
    pub tts_dropped_chars: u64,
    pub backpressure_hint: Option<Seq<char>>,
    pub last_error: Option<Seq<char>>,
}

impl View for RealtimeStreamSnapshot {
    type V = RealtimeStreamSnapshotView;

    open spec fn view(&self) -> RealtimeStreamSnapshotView {
        RealtimeStreamSnapshotView {
            session_id: self.session_id@,
            websocket_url: self.websocket_url@,
            websocket_state: self.websocket_state@,
            task_id: opt_str(self.task_id),
            audio_mode: opt_str(self.audio_mode),
            configured_voice_name: self.configured_voice_name@,
            sent_frames: self.sent_frames,
            received_frames: self.received_frames,
            sent_bytes: self.sent_bytes,
            received_bytes: self.received_bytes,
            latency_ms: self.latency_ms,
            input_state: self.input_state@,
            input_source: self.input_source@,
            input_health: opt_str(self.input_health),
            monitor_state: self.monitor_state@,
            virtual_mic_frames: self.virtual_mic_frames,
            monitor_frames: self.monitor_frames,
            output_received_frames: self.output_received_frames,
            output_written_frames: self.output_written_frames,
            output_ack_mismatches: self.output_ack_mismatches,
            output_playback_queue_ms: self.output_playback_queue_ms,
            output_last_frame_gap_ms: self.output_last_frame_gap_ms,
            output_max_frame_gap_ms: self.output_max_frame_gap_ms,
            output_gap_skips: self.output_gap_skips,
            output_late_drops: self.output_late_drops,
            output_overflow_drops: self.output_overflow_drops,
            output_duplicate_drops: self.output_duplicate_drops,
            output_playable_frames: self.output_playable_frames,
            first_output_latency_ms: self.first_output_latency_ms,
            last_output_at_ms: self.last_output_at_ms,
            rust_sent_seq: self.rust_sent_seq,
            server_dequeued_seq: self.server_dequeued_seq,
            asr_committed_segments: self.asr_committed_segments,
            asr_committed_audio_ms: self.asr_committed_audio_ms,
            asr_segment_id: opt_str(self.asr_segment_id),
            asr_first_frame_seq: self.asr_first_frame_seq,
            asr_last_frame_seq: self.asr_last_frame_seq,
            asr_commit_reason: opt_str(self.asr_commit_reason),
            asr_queue_ms: self.asr_queue_ms,
            ledger: self.ledger@.map_values(|e: RealtimeLedgerEntry| e@),
            vad_speech_frames: self.vad_speech_frames,
            vad_utterances_ended: self.vad_utterances_ended,
            tts_audio_chunks: self.tts_audio_chunks,
            converted_frames: self.converted_frames,
            pipeline_stage: self.pipeline_stage@,
            asr_text: opt_str(self.asr_text),
            tts_text_chunks: self.tts_text_chunks,
            last_event: opt_str(self.last_event),
            protocol_event: opt_str(self.protocol_event),
            last_prompt: opt_str(self.last_prompt),
            event_seq: self.event_seq,
            server_ts_ms: self.server_ts_ms,
            schema_version: opt_str(self.schema_version),
            utterance_id: opt_str(self.utterance_id),
            hypothesis_id: opt_str(self.hypothesis_id),
            revision_id: self.revision_id,
            tts_job_id: opt_str(self.tts_job_id),
            audio_chunk_index: self.audio_chunk_index,
            config_version: self.config_version,
            server_realtime_config: opt_json(self.server_realtime_config),
            asr_committed_text: opt_str(self.asr_committed_text),
            asr_committed_chars: self.asr_committed_chars,
            tts_queued_jobs: self.tts_queued_jobs,
            tts_started_jobs: self.tts_started_jobs,
            tts_completed_jobs: self.tts_completed_jobs,
            tts_dropped_jobs: self.tts_dropped_jobs,
            tts_queued_chars: self.tts_queued_chars,
            tts_started_chars: self.tts_started_chars,
            tts_completed_chars: self.tts_completed_chars,
            tts_dropped_chars: self.tts_dropped_chars,
            backpressure_hint: opt_str(self.backpressure_hint),
            last_error: opt_str(self.last_error),
        }
    }
}

/// The snapshot of a session whose stream is still connecting.
pub open spec fn pending_view(session: RealtimeSession) -> RealtimeStreamSnapshotView {
    RealtimeStreamSnapshotView {
        session_id: session.session_id@,
        websocket_url: session.websocket_url@,
        websocket_state: "connecting"@,
        task_id: None,
        audio_mode: None,
        configured_voice_name: session.voice_name@,
        sent_frames: 0,
        received_frames: 0,
        sent_bytes: 0,
        received_bytes: 0,
        latency_ms: None,
        input_state: "off"@,
        input_source: "microphone"@,
        input_health: None,
        monitor_state: "off"@,
        virtual_mic_frames: 0,
        monitor_frames: 0,
        output_received_frames: 0,
        output_written_frames: 0,
        output_ack_mismatches: 0,
        output_playback_queue_ms: 0,
        output_last_frame_gap_ms: None,
        output_max_frame_gap_ms: None,
        output_gap_skips: 0,
        output_late_drops: 0,
        output_overflow_drops: 0,
        output_duplicate_drops: 0,
        output_playable_frames: 0,
        first_output_latency_ms: None,
        last_output_at_ms: None,
        rust_sent_seq: None,
        server_dequeued_seq: None,
        asr_committed_segments: 0,
        asr_committed_audio_ms: 0,
        asr_segment_id: None,
        asr_first_frame_seq: None,
        asr_last_frame_seq: None,
        asr_commit_reason: None,
        asr_queue_ms: None,
        ledger: Seq::empty(),
        vad_speech_frames: 0,
        vad_utterances_ended: 0,
        tts_audio_chunks: 0,
        converted_frames: 0,
        pipeline_stage: "connecting"@,
        asr_text: None,
        tts_text_chunks: 0,
        last_event: None,
        protocol_event: None,
        last_prompt: None,
        event_seq: None,
        server_ts_ms: None,
        schema_version: None,
        utterance_id: None,
        hypothesis_id: None,
        revision_id: None,
        tts_job_id: None,
        audio_chunk_index: None,
        config_version: None,
        server_realtime_config: None,
        asr_committed_text: None,
        asr_committed_chars: 0,
        tts_queued_jobs: 0,
        tts_started_jobs: 0,
        tts_completed_jobs: 0,
        tts_dropped_jobs: 0,
        tts_queued_chars: 0,
        tts_started_chars: 0,
        tts_completed_chars: 0,
        tts_dropped_chars: 0,
        backpressure_hint: None,
        last_error: None,
    }
}

impl RealtimeStreamSnapshot {
    /// A fresh snapshot for `session`: connecting, nothing sent or received,
    /// microphone input and monitoring off.
    pub fn pending(session: &RealtimeSession) -> (s: RealtimeStreamSnapshot)
        ensures
            s@ == pending_view(*session),
    {
        let s = RealtimeStreamSnapshot {
            session_id: session.session_id.clone(),
            websocket_url: session.websocket_url.clone(),
            websocket_state: to_string("connecting"),
            task_id: None,
            audio_mode: None,
            configured_voice_name: session.voice_name.clone(),
            sent_frames: 0,
            received_frames: 0,
            sent_bytes: 0,
            received_bytes: 0,
            latency_ms: None,
            input_state: to_string("off"),
            input_source: to_string("microphone"),
            input_health: None,
            monitor_state: to_string("off"),
            virtual_mic_frames: 0,
            monitor_frames: 0,
            output_received_frames: 0,
            output_written_frames: 0,
            output_ack_mismatches: 0,
            output_playback_queue_ms: 0,
            output_last_frame_gap_ms: None,
            output_max_frame_gap_ms: None,
            output_gap_skips: 0,
            output_late_drops: 0,
            output_overflow_drops: 0,
            output_duplicate_drops: 0,
            output_playable_frames: 0,
            first_output_latency_ms: None,
            last_output_at_ms: None,
            rust_sent_seq: None,
            server_dequeued_seq: None,
            asr_committed_segments: 0,
            asr_committed_audio_ms: 0,
            asr_segment_id: None,
            asr_first_frame_seq: None,
            asr_last_frame_seq: None,
            asr_commit_reason: None,
            asr_queue_ms: None,
            ledger: Vec::new(),
            vad_speech_frames: 0,
            vad_utterances_ended: 0,
            tts_audio_chunks: 0,
            converted_frames: 0,
            pipeline_stage: to_string("connecting"),
            asr_text: None,
            tts_text_chunks: 0,
            last_event: None,
            protocol_event: None,
            last_prompt: None,
            event_seq: None,
            server_ts_ms: None,
            schema_version: None,
            utterance_id: None,
            hypothesis_id: None,
            revision_id: None,
            tts_job_id: None,
            audio_chunk_index: None,
            config_version: None,
            server_realtime_config: None,
            asr_committed_text: None,
            asr_committed_chars: 0,
            tts_queued_jobs: 0,
            tts_started_jobs: 0,
            tts_completed_jobs: 0,
            tts_dropped_jobs: 0,
            tts_queued_chars: 0,
            tts_started_chars: 0,
            tts_completed_chars: 0,
            tts_dropped_chars: 0,
            backpressure_hint: None,
            last_error: None,
        };
        assert(s@.ledger =~= Seq::<RealtimeLedgerEntryView>::empty());
        s
    }
}

/// A ledger entry for `event` at `stage`, stamped `timestamp_ms`, with no details.
pub open spec fn ledger_entry(stage: Seq<char>, event: Seq<char>, timestamp_ms: i64) -> RealtimeLedgerEntryView {
    RealtimeLedgerEntryView {
        timestamp_ms,
        stage,
        event,
        status: None,
        message: None,
        input_frame_seq: None,
        rust_sent_seq: None,
        server_dequeued_seq: None,
        asr_segment_id: None,
        asr_first_frame_seq: None,
        asr_last_frame_seq: None,
        asr_commit_reason: None,
        asr_queue_ms: None,
        tts_revision_id: None,
        tts_job_id: None,
        audio_chunk_index: None,
        playback_queue_ms: None,
    }
}

/// `ledger` with `entry` appended, the oldest entry dropped when it already held the limit.
pub open spec fn ledger_push(ledger: Seq<RealtimeLedgerEntryView>, entry: RealtimeLedgerEntryView) -> Seq<RealtimeLedgerEntryView> {
    if ledger.len() >= REALTIME_LEDGER_LIMIT {
        ledger.drop_first().push(entry)
    } else {
        ledger.push(entry)
    }
}

impl RealtimeLedgerEntry {
    /// An entry for `event` at `stage`, stamped `timestamp_ms`, with no details.
    pub fn new(stage: &str, event: &str, timestamp_ms: i64) -> (e: RealtimeLedgerEntry)
        ensures
            e@ == ledger_entry(stage@, event@, timestamp_ms),
    {
        RealtimeLedgerEntry {
            timestamp_ms,
            stage: to_string(stage),
            event: to_string(event),
            status: None,
            message: None,
            input_frame_seq: None,
            rust_sent_seq: None,
            server_dequeued_seq: None,
            asr_segment_id: None,
            asr_first_frame_seq: None,
            asr_last_frame_seq: None,
            asr_commit_reason: None,
            asr_queue_ms: None,
            tts_revision_id: None,
            tts_job_id: None,
            audio_chunk_index: None,
            playback_queue_ms: None,
        }
    }
}

/// Appends `entry` to the snapshot's ledger, dropping the oldest entry when
/// the ledger already holds `REALTIME_LEDGER_LIMIT` entries.
pub fn push_ledger(state: &mut RealtimeStreamSnapshot, entry: RealtimeLedgerEntry)
    ensures
        final(state)@ == (RealtimeStreamSnapshotView { ledger: ledger_push(old(state)@.ledger, entry@), ..old(state)@ }),
{
    if state.ledger.len() >= REALTIME_LEDGER_LIMIT {
        state.ledger.remove(0);
    }
    state.ledger.push(entry);
    assert(state@.ledger =~= ledger_push(old(state)@.ledger, entry@));
}

/// The drop counter that `status` counts, incremented; other statuses change nothing.
pub open spec fn drop_status_effect(s: RealtimeStreamSnapshotView, status: Seq<char>) -> RealtimeStreamSnapshotView {
    if status == "gap_skip"@ {
        RealtimeStreamSnapshotView { output_gap_skips: (s.output_gap_skips + 1) as u64, ..s }
    } else if status == "late_drop"@ {
        RealtimeStreamSnapshotView { output_late_drops: (s.output_late_drops + 1) as u64, ..s }
    } else if status == "playback_overflow_drop"@ {
        RealtimeStreamSnapshotView { output_overflow_drops: (s.output_overflow_drops + 1) as u64, ..s }
    } else if status == "duplicate_drop"@ {
        RealtimeStreamSnapshotView { output_duplicate_drops: (s.output_duplicate_drops + 1) as u64, ..s }
    } else {
        s
    }
}

/// Counts a playback drop under its status.
pub fn apply_output_drop_status(state: &mut RealtimeStreamSnapshot, status: &str)
    requires
        status@ == "gap_skip"@ ==> old(state).output_gap_skips < u64::MAX,
        status@ == "late_drop"@ ==> old(state).output_late_drops < u64::MAX,
        status@ == "playback_overflow_drop"@ ==> old(state).output_overflow_drops < u64::MAX,
        status@ == "duplicate_drop"@ ==> old(state).output_duplicate_drops < u64::MAX,
    ensures
        final(state)@ == drop_status_effect(old(state)@, status@),
{
    if same_text(status, "gap_skip") {
        state.output_gap_skips = state.output_gap_skips + 1;
    } else if same_text(status, "late_drop") {
        state.output_late_drops = state.output_late_drops + 1;
    } else if same_text(status, "playback_overflow_drop") {
        state.output_overflow_drops = state.output_overflow_drops + 1;
    } else if same_text(status, "duplicate_drop") {
        state.output_duplicate_drops = state.output_duplicate_drops + 1;
    }
}

/// The snapshot with every output-flow measurement cleared.
pub open spec fn flow_metrics_reset(s: RealtimeStreamSnapshotView) -> RealtimeStreamSnapshotView {
    RealtimeStreamSnapshotView {
        output_playback_queue_ms: 0,
        output_last_frame_gap_ms: None,
        output_max_frame_gap_ms: None,
        output_gap_skips: 0,
        output_late_drops: 0,
        output_overflow_drops: 0,
        output_duplicate_drops: 0,
        output_playable_frames: 0,
        first_output_latency_ms: None,
        last_output_at_ms: None,
        ..s
    }
}

/// Clears the output-flow measurements before a new output stream.
pub fn reset_output_flow_metrics(state: &mut RealtimeStreamSnapshot)
    ensures
        final(state)@ == flow_metrics_reset(old(state)@),
{
    state.output_playback_queue_ms = 0;
    state.output_last_frame_gap_ms = None;
    state.output_max_frame_gap_ms = None;
    state.output_gap_skips = 0;
    state.output_late_drops = 0;
    state.output_overflow_drops = 0;
    state.output_duplicate_drops = 0;
    state.output_playable_frames = 0;
    state.first_output_latency_ms = None;
    state.last_output_at_ms = None;
}


/// `RealtimeStreamSnapshotView`, for brevity in the event specifications.
pub type SnapView = RealtimeStreamSnapshotView;

/// The snapshot with a pipeline stage and the prompt shown to the user.
pub open spec fn staged(s: SnapView, stage: Seq<char>, prompt: Seq<char>) -> SnapView {
    SnapView { pipeline_stage: stage, last_prompt: Some(prompt), ..s }
}

/// What every named event records: its name, protocol details, the task id
/// and the ids and counters it carries (absent ones keep their old values).
pub open spec fn with_event_header(s: SnapView, e: RealtimeEventView, name: Seq<char>) -> SnapView {
    SnapView {
        last_event: Some(name),
        protocol_event: e.payload_text("protocol_event"@),
        event_seq: as_u64(member(e.fields, "seq"@)),
        server_ts_ms: as_i64(member(e.fields, "server_ts_ms"@)),
        schema_version: e.top_text("schema_version"@),
        task_id: or_else(or_else(e.top_text("task_id"@), e.top_text("session_id"@)), s.task_id),
        utterance_id: or_else(e.payload_text("utterance_id"@), s.utterance_id),
        hypothesis_id: or_else(e.payload_text("hypothesis_id"@), s.hypothesis_id),
        revision_id: or_else(e.payload_u64("revision_id"@), s.revision_id),
        tts_job_id: or_else(e.payload_text("tts_job_id"@), s.tts_job_id),
        audio_chunk_index: or_else(e.payload_u64("audio_chunk_index"@), s.audio_chunk_index),
        config_version: or_else(e.payload_u64("config_version"@), s.config_version),
        ..s
    }
}

/// Text length carried by a TTS event: `text_chars`, or else the length of `key`.
pub open spec fn text_chars(e: RealtimeEventView, key: Seq<char>) -> u64 {
    match e.payload_u64("text_chars"@) {
        Some(n) => n,
        None => match e.payload_text(key) {
            Some(t) => t.len() as u64,
            None => 0,
        },
    }
}

/// `final` when the event is marked `is_final`, else `other`.
pub open spec fn final_or(e: RealtimeEventView, other: Seq<char>) -> Seq<char> {
    if e.payload_flag("is_final"@) == Some(true) {
        "final"@
    } else {
        other
    }
}

pub open spec fn unwrap_or_u64(v: Option<u64>, d: u64) -> u64 {
    match v {
        Some(x) => x,
        None => d,
    }
}

/// The counters an event adds to stay within `u64`.
pub open spec fn event_fits(s: SnapView, e: RealtimeEventView) -> bool {
    let n = e.event_name()->0;
    e.event_name() is Some ==> {
        &&& n == "vad.speech_frame"@ ==> s.vad_speech_frames + unwrap_or_u64(e.payload_u64("frames"@), 1) <= u64::MAX
        &&& n == "vad.speech_started"@ ==> s.vad_speech_frames < u64::MAX
        &&& n == "vad.speech_ended"@ ==> s.vad_utterances_ended < u64::MAX
        &&& n == "asr.segment_committed"@ ==> s.asr_committed_segments < u64::MAX && s.asr_committed_audio_ms
            + unwrap_or_u64(e.payload_u64("duration_ms"@), 0) <= u64::MAX
        &&& n == "asr.text_committed"@ ==> match e.payload_text("delta_text"@) {
            Some(d) => s.asr_committed_chars + d.len() <= u64::MAX,
            None => true,
        }
        &&& n == "tts.job_queued"@ ==> s.tts_queued_jobs < u64::MAX && s.tts_queued_chars + text_chars(e, "text"@)
            <= u64::MAX
        &&& n == "tts.job_started"@ ==> s.tts_started_jobs < u64::MAX && s.tts_started_chars + text_chars(e, "text"@)
            <= u64::MAX
        &&& n == "tts.audio_chunk"@ ==> s.tts_audio_chunks < u64::MAX
        &&& n == "tts.job_completed"@ ==> s.tts_completed_jobs < u64::MAX && s.tts_completed_chars + text_chars(
            e,
            "text"@,
        ) <= u64::MAX
        &&& n == "tts.job_dropped"@ ==> s.tts_dropped_jobs < u64::MAX && s.tts_dropped_chars + text_chars(e, "text"@)
            <= u64::MAX
    }
}

pub open spec fn configured_effect(s: SnapView, e: RealtimeEventView, n: Seq<char>) -> SnapView {
    let s1 = SnapView {
        websocket_state: "running"@,
        server_realtime_config: or_else(e.payload_value("realtime_config"@), s.server_realtime_config),
        audio_mode: or_else(e.payload_text("audio_mode"@), s.audio_mode),
        configured_voice_name: match or_else(e.payload_text("voice_name"@), e.payload_text("voiceName"@)) {
            Some(v) => v,
            None => s.configured_voice_name,
        },
        ..s
    };
    if n == "voice_switched"@ || n == "voice_updated"@ {
        staged(s1, "voice_switched"@, "已切换音色"@)
    } else {
        staged(s1, "configured"@, "音色已就绪，可以打开麦克风"@)
    }
}

pub open spec fn input_dequeued_effect(s: SnapView, e: RealtimeEventView, n: Seq<char>, now: i64) -> SnapView {
    let s1 = SnapView {
        server_dequeued_seq: or_else(e.payload_u64("input_frame_index"@), s.server_dequeued_seq),
        pipeline_stage: "input_audio_dequeued"@,
        input_health: match e.payload_flag("is_silence"@) {
            Some(true) => Some("服务端收到输入，但判定为静音"@),
            Some(false) => Some("服务端正在接收有效输入"@),
            None => s.input_health,
        },
        ..s
    };
    let entry = RealtimeLedgerEntryView {
        server_dequeued_seq: s1.server_dequeued_seq,
        playback_queue_ms: e.payload_u64("queue_ms"@),
        status: e.payload_text("vad_state"@),
        message: s1.input_health,
        ..ledger_entry("server_input"@, n, now)
    };
    SnapView { ledger: ledger_push(s1.ledger, entry), last_prompt: Some("正在接收麦克风输入"@), ..s1 }
}

pub open spec fn segment_committed_effect(s: SnapView, e: RealtimeEventView, n: Seq<char>, now: i64) -> SnapView {
    let s1 = SnapView {
        asr_committed_segments: (s.asr_committed_segments + 1) as u64,
        asr_committed_audio_ms: (s.asr_committed_audio_ms + unwrap_or_u64(e.payload_u64("duration_ms"@), 0)) as u64,
        asr_segment_id: e.payload_text("segment_id"@),
        asr_first_frame_seq: e.payload_u64("first_input_frame_index"@),
        asr_last_frame_seq: e.payload_u64("last_input_frame_index"@),
        asr_commit_reason: e.payload_text("commit_reason"@),
        asr_queue_ms: e.payload_u64("queue_ms"@),
        pipeline_stage: "asr_segment_committed"@,
        last_prompt: Some("ASR 连续语音段已入队"@),
        ..s
    };
    let entry = RealtimeLedgerEntryView {
        asr_segment_id: s1.asr_segment_id,
        asr_first_frame_seq: s1.asr_first_frame_seq,
        asr_last_frame_seq: s1.asr_last_frame_seq,
        asr_commit_reason: s1.asr_commit_reason,
        asr_queue_ms: s1.asr_queue_ms,
        status: Some(final_or(e, "partial"@)),
        message: Some("duration="@ + decimal_seq(unwrap_or_u64(e.payload_u64("duration_ms"@), 0) as nat) + "ms frames="@
            + decimal_seq(unwrap_or_u64(e.payload_u64("frame_count"@), 0) as nat)),
        ..ledger_entry("asr_segment"@, n, now)
    };
    SnapView { ledger: ledger_push(s1.ledger, entry), ..s1 }
}

pub open spec fn backpressure_effect(s: SnapView, e: RealtimeEventView, n: Seq<char>, now: i64) -> SnapView {
    let reason = match e.payload_text("reason"@) {
        Some(r) => r,
        None => "backpressure"@,
    };
    let message = match e.payload_text("message"@) {
        Some(m) => m,
        None => "处理压力较高，可能有轻微延迟"@,
    };
    let hint = if is_blank(message) { reason } else { message };
    let s1 = SnapView { backpressure_hint: Some(hint), pipeline_stage: "backpressure_applied"@, ..s };
    let entry = RealtimeLedgerEntryView {
        status: e.payload_text("reason"@),
        message: Some(hint),
        asr_queue_ms: e.payload_u64("queue_ms"@),
        asr_first_frame_seq: e.payload_u64("first_dropped_seq"@),
        asr_last_frame_seq: e.payload_u64("last_dropped_seq"@),
        ..ledger_entry("backpressure"@, n, now)
    };
    SnapView { ledger: ledger_push(s1.ledger, entry), last_prompt: Some("处理压力较高，可能有轻微延迟"@), ..s1 }
}

pub open spec fn text_committed_effect(s: SnapView, e: RealtimeEventView, n: Seq<char>, now: i64) -> SnapView {
    let s1 = match e.payload_text("delta_text"@) {
        Some(d) => {
            let committed = match s.asr_committed_text {
                Some(c) => c,
                None => Seq::empty(),
            } + d;
            SnapView {
                asr_committed_text: Some(committed),
                asr_committed_chars: (s.asr_committed_chars + d.len()) as u64,
                asr_text: Some(committed),
                ..s
            }
        },
        None => match e.payload_text("full_text"@) {
            Some(t) => SnapView {
                asr_committed_chars: t.len() as u64,
                asr_committed_text: Some(t),
                asr_text: Some(t),
                ..s
            },
            None => s,
        },
    };
    let entry = RealtimeLedgerEntryView {
        tts_revision_id: s1.revision_id,
        tts_job_id: s1.tts_job_id,
        message: or_else(e.payload_text("delta_text"@), e.payload_text("full_text"@)),
        status: Some(final_or(e, "stable"@)),
        ..ledger_entry("asr_text"@, n, now)
    };
    SnapView {
        pipeline_stage: "text_committed"@,
        ledger: ledger_push(s1.ledger, entry),
        last_prompt: Some("已确认文本，正在准备变声"@),
        ..s1
    }
}

/// A TTS job ledger entry with the current revision and job id.
pub open spec fn tts_entry(s: SnapView, stage: Seq<char>, n: Seq<char>, now: i64, status: Option<Seq<char>>, message: Option<Seq<char>>) -> RealtimeLedgerEntryView {
    RealtimeLedgerEntryView {
        tts_revision_id: s.revision_id,
        tts_job_id: s.tts_job_id,
        status,
        message,
        ..ledger_entry(stage, n, now)
    }
}

pub open spec fn job_queued_effect(s: SnapView, e: RealtimeEventView, n: Seq<char>, now: i64) -> SnapView {
    let s1 = SnapView {
        tts_queued_jobs: (s.tts_queued_jobs + 1) as u64,
        tts_queued_chars: (s.tts_queued_chars + text_chars(e, "text"@)) as u64,
        pipeline_stage: "tts_queued"@,
        ..s
    };
    let entry = tts_entry(s1, "tts_queue"@, n, now, e.payload_text("priority"@), e.payload_text("text"@));
    SnapView { ledger: ledger_push(s1.ledger, entry), last_prompt: Some("变声任务已排队"@), ..s1 }
}

pub open spec fn job_started_effect(s: SnapView, e: RealtimeEventView, n: Seq<char>, now: i64) -> SnapView {
    let s1 = SnapView {
        tts_started_jobs: (s.tts_started_jobs + 1) as u64,
        tts_started_chars: (s.tts_started_chars + text_chars(e, "text"@)) as u64,
        pipeline_stage: "tts_synthesizing"@,
        ..s
    };
    let entry = tts_entry(s1, "tts_synth"@, n, now, e.payload_text("priority"@), e.payload_text("text"@));
    SnapView { ledger: ledger_push(s1.ledger, entry), last_prompt: Some("正在合成目标音色"@), ..s1 }
}

pub open spec fn audio_chunk_effect(s: SnapView, e: RealtimeEventView, n: Seq<char>, now: i64) -> SnapView {
    let s1 = SnapView {
        tts_audio_chunks: (s.tts_audio_chunks + 1) as u64,
        pipeline_stage: "tts_audio_chunk_ready"@,
        ..s
    };
    let entry = RealtimeLedgerEntryView {
        audio_chunk_index: s1.audio_chunk_index,
        ..tts_entry(
            s1,
            "output_metadata"@,
            n,
            now,
            Some("metadata"@),
            Some("bytes="@ + decimal_seq(unwrap_or_u64(e.payload_u64("bytes"@), 0) as nat)),
        )
    };
    SnapView { ledger: ledger_push(s1.ledger, entry), last_prompt: Some("正在输出转换后语音"@), ..s1 }
}

pub open spec fn ack_received_effect(s: SnapView, e: RealtimeEventView, n: Seq<char>, now: i64) -> SnapView {
    let entry = RealtimeLedgerEntryView {
        playback_queue_ms: e.payload_u64("playback_queue_ms"@),
        audio_chunk_index: e.payload_u64("audio_chunk_index"@),
        status: Some("server_received"@),
        ..ledger_entry("playback_ack"@, n, now)
    };
    SnapView {
        pipeline_stage: "client_audio_ack_received"@,
        ledger: ledger_push(s.ledger, entry),
        last_prompt: Some("服务端已确认客户端收到变声音频"@),
        ..s
    }
}

pub open spec fn job_completed_effect(s: SnapView, e: RealtimeEventView, n: Seq<char>, now: i64) -> SnapView {
    let s1 = if n == "tts.job_completed"@ {
        SnapView {
            tts_completed_jobs: (s.tts_completed_jobs + 1) as u64,
            tts_completed_chars: (s.tts_completed_chars + text_chars(e, "text"@)) as u64,
            ..s
        }
    } else {
        s
    };
    let entry = tts_entry(s1, "tts_synth"@, n, now, Some("completed"@), e.payload_text("text"@));
    SnapView {
        pipeline_stage: "tts_completed"@,
        ledger: ledger_push(s1.ledger, entry),
        last_prompt: Some("本段语音转换完成"@),
        ..s1
    }
}

pub open spec fn job_dropped_effect(s: SnapView, e: RealtimeEventView, n: Seq<char>, now: i64) -> SnapView {
    let s1 = SnapView {
        tts_dropped_jobs: (s.tts_dropped_jobs + 1) as u64,
        tts_dropped_chars: (s.tts_dropped_chars + text_chars(e, "text"@)) as u64,
        pipeline_stage: "tts_dropped"@,
        ..s
    };
    let entry = tts_entry(
        s1,
        "tts_queue"@,
        n,
        now,
        or_else(e.payload_text("reason"@), Some("dropped"@)),
        e.payload_text("text"@),
    );
    SnapView { ledger: ledger_push(s1.ledger, entry), last_prompt: Some("变声任务被服务端丢弃"@), ..s1 }
}

/// What an event named `n` does to the snapshot (after its header is recorded).
pub open spec fn event_effect(s: SnapView, e: RealtimeEventView, n: Seq<char>, now: i64) -> SnapView {
    if n == "session_started"@ {
        SnapView {
            websocket_state: "connected"@,
            audio_mode: e.payload_text("audio_mode"@),
            ..staged(s, "session_started"@, "已连接 FunSpeech，正在准备实时会话"@)
        }
    } else if n == "configured"@ || n == "ready"@ || n == "voice_switched"@ || n == "voice_updated"@ {
        configured_effect(s, e, n)
    } else if n == "parameters_updated"@ || n == "params_updated"@ {
        SnapView { websocket_state: "running"@, ..staged(s, "parameters_updated"@, "实时参数已生效"@) }
    } else if n == "session_completed"@ || n == "closed"@ {
        SnapView { websocket_state: "stopped"@, ..staged(s, "completed"@, "实时会话已结束"@) }
    } else if n == "session.error"@ || n == "error"@ {
        SnapView {
            websocket_state: "error"@,
            last_error: e.payload_text("message"@),
            last_prompt: or_else(e.payload_text("message"@), Some("实时会话发生错误"@)),
            ..s
        }
    } else if n == "input.audio_dequeued"@ {
        input_dequeued_effect(s, e, n, now)
    } else if n == "vad.speech_frame"@ {
        SnapView {
            vad_speech_frames: (s.vad_speech_frames + unwrap_or_u64(e.payload_u64("frames"@), 1)) as u64,
            input_health: Some("VAD 检测到有效语音帧"@),
            ..staged(s, "vad_speech_frame"@, "VAD 检测到语音，正在送入 ASR"@)
        }
    } else if n == "vad.speech_started"@ {
        SnapView {
            vad_speech_frames: (s.vad_speech_frames + 1) as u64,
            input_health: Some("VAD 检测到开始说话"@),
            ..staged(s, "vad_speech_started"@, "检测到开始说话"@)
        }
    } else if n == "vad.speech_ended"@ {
        SnapView {
            vad_utterances_ended: (s.vad_utterances_ended + 1) as u64,
            input_health: Some("VAD 检测到本句结束"@),
            ..staged(s, "vad_speech_ended"@, "本句语音结束，等待变声输出"@)
        }
    } else if n == "asr.segment_committed"@ {
        segment_committed_effect(s, e, n, now)
    } else if n == "backpressure.applied"@ {
        backpressure_effect(s, e, n, now)
    } else if n == "asr.hypothesis"@ || n == "asr_result"@ {
        SnapView {
            asr_text: or_else(e.payload_text("text"@), s.asr_text),
            ..staged(
                s,
                if e.payload_flag("is_final"@) == Some(true) { "asr_final"@ } else { "asr_recognizing"@ },
                "正在识别语音"@,
            )
        }
    } else if n == "asr.text_committed"@ {
        text_committed_effect(s, e, n, now)
    } else if n == "asr.sentence_finalized"@ {
        SnapView {
            asr_text: or_else(e.payload_text("text"@), s.asr_text),
            ..staged(s, "sentence_finalized"@, "本句语音识别完成"@)
        }
    } else if n == "tts.job_queued"@ {
        job_queued_effect(s, e, n, now)
    } else if n == "tts.job_started"@ {
        job_started_effect(s, e, n, now)
    } else if n == "tts.first_audio"@ {
        staged(s, "tts_first_audio"@, "即将播放转换后语音"@)
    } else if n == "tts.audio_chunk"@ {
        audio_chunk_effect(s, e, n, now)
    } else if n == "client.audio_ack.received"@ {
        ack_received_effect(s, e, n, now)
    } else if n == "tts.job_completed"@ || n == "tts_completed"@ {
        job_completed_effect(s, e, n, now)
    } else if n == "tts.job_dropped"@ {
        job_dropped_effect(s, e, n, now)
    } else {
        s
    }
}

/// What a realtime protocol event does to the snapshot, with ledger entries
/// stamped `now`: events without a name change nothing.
pub open spec fn json_event_effect(s: SnapView, e: RealtimeEventView, now: i64) -> SnapView {
    match e.event_name() {
        Some(n) => event_effect(with_event_header(s, e, n), e, n, now),
        None => s,
    }
}

/// `String::append` of `b` onto `a`, by value.
fn joined(a: String, b: &str) -> (r: String)
    ensures
        r@ == a@ + b@,
{
    a.concat(b)
}

fn set_stage(state: &mut RealtimeStreamSnapshot, stage: &str, prompt: &str)
    ensures
        final(state)@ == staged(old(state)@, stage@, prompt@),
{
    state.pipeline_stage = to_string(stage);
    state.last_prompt = Some(to_string(prompt));
}

fn apply_event_header(state: &mut RealtimeStreamSnapshot, event: &RealtimeEvent, name: &String)
    ensures
        final(state)@ == with_event_header(old(state)@, event@, name@),
{
    state.last_event = Some(name.clone());
    state.protocol_event = event.payload_string("protocol_event");
    state.event_seq = crate::json::member_u64(&event.fields, "seq");
    state.server_ts_ms = crate::json::member_i64(&event.fields, "server_ts_ms");
    state.schema_version = crate::json::member_text(&event.fields, "schema_version");
    let task = match crate::json::member_text(&event.fields, "task_id") {
        Some(t) => Some(t),
        None => crate::json::member_text(&event.fields, "session_id"),
    };
    if let Some(t) = task {
        state.task_id = Some(t);
    }
    if let Some(v) = event.payload_string("utterance_id") {
        state.utterance_id = Some(v);
    }
    if let Some(v) = event.payload_string("hypothesis_id") {
        state.hypothesis_id = Some(v);
    }
    if let Some(v) = event.payload_u64("revision_id") {
        state.revision_id = Some(v);
    }
    if let Some(v) = event.payload_string("tts_job_id") {
        state.tts_job_id = Some(v);
    }
    if let Some(v) = event.payload_u64("audio_chunk_index") {
        state.audio_chunk_index = Some(v);
    }
    if let Some(v) = event.payload_u64("config_version") {
        state.config_version = Some(v);
    }
}

fn text_chars_of(event: &RealtimeEvent, key: &str) -> (n: u64)
    ensures
        n == text_chars(event@, key@),
{
    match event.payload_u64("text_chars") {
        Some(n) => n,
        None => match event.payload_string(key) {
            Some(t) => t.as_str().unicode_len() as u64,
            None => 0,
        },
    }
}

fn final_or_word(event: &RealtimeEvent, other: &str) -> (w: String)
    ensures
        w@ == final_or(event@, other@),
{
    if event.payload_bool("is_final") == Some(true) {
        to_string("final")
    } else {
        to_string(other)
    }
}

fn apply_configured(state: &mut RealtimeStreamSnapshot, event: &RealtimeEvent, name: &String)
    ensures
        final(state)@ == configured_effect(old(state)@, event@, name@),
{
    state.websocket_state = to_string("running");
    if let Some(config) = event.payload_value("realtime_config") {
        state.server_realtime_config = Some(config);
    }
    if let Some(mode) = event.payload_string("audio_mode") {
        state.audio_mode = Some(mode);
    }
    let voice = match event.payload_string("voice_name") {
        Some(v) => Some(v),
        None => event.payload_string("voiceName"),
    };
    if let Some(v) = voice {
        state.configured_voice_name = v;
    }
    if same_text(name.as_str(), "voice_switched") || same_text(name.as_str(), "voice_updated") {
        set_stage(state, "voice_switched", "已切换音色");
    } else {
        set_stage(state, "configured", "音色已就绪，可以打开麦克风");
    }
}

fn apply_input_dequeued(state: &mut RealtimeStreamSnapshot, event: &RealtimeEvent, name: &String, now: i64)
    ensures
        final(state)@ == input_dequeued_effect(old(state)@, event@, name@, now),
{
    if let Some(seq) = event.payload_u64("input_frame_index") {
        state.server_dequeued_seq = Some(seq);
    }
    state.pipeline_stage = to_string("input_audio_dequeued");
    if let Some(is_silence) = event.payload_bool("is_silence") {
        state.input_health = Some(
            if is_silence {
                to_string("服务端收到输入，但判定为静音")
            } else {
                to_string("服务端正在接收有效输入")
            },
        );
    }
    let mut entry = RealtimeLedgerEntry::new("server_input", name.as_str(), now);
    entry.server_dequeued_seq = state.server_dequeued_seq;
    entry.playback_queue_ms = event.payload_u64("queue_ms");
    entry.status = event.payload_string("vad_state");
    entry.message = crate::settings::clone_opt_string(&state.input_health);
    push_ledger(state, entry);
    state.last_prompt = Some(to_string("正在接收麦克风输入"));
}

fn apply_segment_committed(state: &mut RealtimeStreamSnapshot, event: &RealtimeEvent, name: &String, now: i64)
    requires
        old(state).asr_committed_segments < u64::MAX,
        old(state).asr_committed_audio_ms + unwrap_or_u64(event@.payload_u64("duration_ms"@), 0) <= u64::MAX,
    ensures
        final(state)@ == segment_committed_effect(old(state)@, event@, name@, now),
{
    let duration = match event.payload_u64("duration_ms") {
        Some(d) => d,
        None => 0,
    };
    let frames = match event.payload_u64("frame_count") {
        Some(f) => f,
        None => 0,
    };
    state.asr_committed_segments = state.asr_committed_segments + 1;
    state.asr_committed_audio_ms = state.asr_committed_audio_ms + duration;
    state.asr_segment_id = event.payload_string("segment_id");
    state.asr_first_frame_seq = event.payload_u64("first_input_frame_index");
    state.asr_last_frame_seq = event.payload_u64("last_input_frame_index");
    state.asr_commit_reason = event.payload_string("commit_reason");
    state.asr_queue_ms = event.payload_u64("queue_ms");
    set_stage(state, "asr_segment_committed", "ASR 连续语音段已入队");
    let mut entry = RealtimeLedgerEntry::new("asr_segment", name.as_str(), now);
    entry.asr_segment_id = crate::settings::clone_opt_string(&state.asr_segment_id);
    entry.asr_first_frame_seq = state.asr_first_frame_seq;
    entry.asr_last_frame_seq = state.asr_last_frame_seq;
    entry.asr_commit_reason = crate::settings::clone_opt_string(&state.asr_commit_reason);
    entry.asr_queue_ms = state.asr_queue_ms;
    entry.status = Some(final_or_word(event, "partial"));
    let d = decimal(duration);
    let f = decimal(frames);
    let message = joined(concat3("duration=", d.as_str(), "ms frames="), f.as_str());
    assert(message@ == "duration="@ + decimal_seq(duration as nat) + "ms frames="@ + decimal_seq(frames as nat));
    entry.message = Some(message);
    push_ledger(state, entry);
}

fn apply_backpressure(state: &mut RealtimeStreamSnapshot, event: &RealtimeEvent, name: &String, now: i64)
    ensures
        final(state)@ == backpressure_effect(old(state)@, event@, name@, now),
{
    let reason = match event.payload_string("reason") {
        Some(r) => r,
        None => to_string("backpressure"),
    };
    let message = match event.payload_string("message") {
        Some(m) => m,
        None => to_string("处理压力较高，可能有轻微延迟"),
    };
    let hint = if is_blank_str(message.as_str()) { reason } else { message };
    state.backpressure_hint = Some(hint.clone());
    state.pipeline_stage = to_string("backpressure_applied");
    let mut entry = RealtimeLedgerEntry::new("backpressure", name.as_str(), now);
    entry.status = event.payload_string("reason");
    entry.message = Some(hint);
    entry.asr_queue_ms = event.payload_u64("queue_ms");
    entry.asr_first_frame_seq = event.payload_u64("first_dropped_seq");
    entry.asr_last_frame_seq = event.payload_u64("last_dropped_seq");
    push_ledger(state, entry);
    state.last_prompt = Some(to_string("处理压力较高，可能有轻微延迟"));
}

fn apply_text_committed(state: &mut RealtimeStreamSnapshot, event: &RealtimeEvent, name: &String, now: i64)
    requires
        match event@.payload_text("delta_text"@) {
            Some(d) => old(state).asr_committed_chars + d.len() <= u64::MAX,
            None => true,
        },
    ensures
        final(state)@ == text_committed_effect(old(state)@, event@, name@, now),
{
    let delta = event.payload_string("delta_text");
    let full = event.payload_string("full_text");
    match &delta {
        Some(d) => {
            let base = match &state.asr_committed_text {
                Some(c) => c.clone(),
                None => String::new(),
            };
            let committed = joined(base, d.as_str());
            state.asr_committed_chars = state.asr_committed_chars + d.as_str().unicode_len() as u64;
            state.asr_text = Some(committed.clone());
            state.asr_committed_text = Some(committed);
        },
        None => {
            if let Some(t) = &full {
                state.asr_committed_chars = t.as_str().unicode_len() as u64;
                state.asr_committed_text = Some(t.clone());
                state.asr_text = Some(t.clone());
            }
        },
    }
    state.pipeline_stage = to_string("text_committed");
    let mut entry = RealtimeLedgerEntry::new("asr_text", name.as_str(), now);
    entry.tts_revision_id = state.revision_id;
    entry.tts_job_id = crate::settings::clone_opt_string(&state.tts_job_id);
    entry.message = match delta {
        Some(d) => Some(d),
        None => full,
    };
    entry.status = Some(final_or_word(event, "stable"));
    push_ledger(state, entry);
    state.last_prompt = Some(to_string("已确认文本，正在准备变声"));
}

fn tts_ledger_entry(state: &RealtimeStreamSnapshot, stage: &str, name: &String, now: i64, status: Option<String>, message: Option<String>) -> (e: RealtimeLedgerEntry)
    ensures
        e@ == tts_entry(state@, stage@, name@, now, crate::settings::opt_str(status), crate::settings::opt_str(message)),
{
    let mut entry = RealtimeLedgerEntry::new(stage, name.as_str(), now);
    entry.tts_revision_id = state.revision_id;
    entry.tts_job_id = crate::settings::clone_opt_string(&state.tts_job_id);
    entry.status = status;
    entry.message = message;
    entry
}

fn apply_job_queued(state: &mut RealtimeStreamSnapshot, event: &RealtimeEvent, name: &String, now: i64)
    requires
        old(state).tts_queued_jobs < u64::MAX,
        old(state).tts_queued_chars + text_chars(event@, "text"@) <= u64::MAX,
    ensures
        final(state)@ == job_queued_effect(old(state)@, event@, name@, now),
{
    state.tts_queued_jobs = state.tts_queued_jobs + 1;
    state.tts_queued_chars = state.tts_queued_chars + text_chars_of(event, "text");
    state.pipeline_stage = to_string("tts_queued");
    let entry = tts_ledger_entry(state, "tts_queue", name, now, event.payload_string("priority"), event.payload_string("text"));
    push_ledger(state, entry);
    state.last_prompt = Some(to_string("变声任务已排队"));
}

fn apply_job_started(state: &mut RealtimeStreamSnapshot, event: &RealtimeEvent, name: &String, now: i64)
    requires
        old(state).tts_started_jobs < u64::MAX,
        old(state).tts_started_chars + text_chars(event@, "text"@) <= u64::MAX,
    ensures
        final(state)@ == job_started_effect(old(state)@, event@, name@, now),
{
    state.tts_started_jobs = state.tts_started_jobs + 1;
    state.tts_started_chars = state.tts_started_chars + text_chars_of(event, "text");
    state.pipeline_stage = to_string("tts_synthesizing");
    let entry = tts_ledger_entry(state, "tts_synth", name, now, event.payload_string("priority"), event.payload_string("text"));
    push_ledger(state, entry);
    state.last_prompt = Some(to_string("正在合成目标音色"));
}

fn apply_audio_chunk(state: &mut RealtimeStreamSnapshot, event: &RealtimeEvent, name: &String, now: i64)
    requires
        old(state).tts_audio_chunks < u64::MAX,
    ensures
        final(state)@ == audio_chunk_effect(old(state)@, event@, name@, now),
{
    state.tts_audio_chunks = state.tts_audio_chunks + 1;
    state.pipeline_stage = to_string("tts_audio_chunk_ready");
    let bytes = match event.payload_u64("bytes") {
        Some(b) => b,
        None => 0,
    };
    let digits = decimal(bytes);
    let mut entry = tts_ledger_entry(state, "output_metadata", name, now, Some(to_string("metadata")), Some(concat2("bytes=", digits.as_str())));
    entry.audio_chunk_index = state.audio_chunk_index;
    push_ledger(state, entry);
    state.last_prompt = Some(to_string("正在输出转换后语音"));
}

fn apply_ack_received(state: &mut RealtimeStreamSnapshot, event: &RealtimeEvent, name: &String, now: i64)
    ensures
        final(state)@ == ack_received_effect(old(state)@, event@, name@, now),
{
    state.pipeline_stage = to_string("client_audio_ack_received");
    let mut entry = RealtimeLedgerEntry::new("playback_ack", name.as_str(), now);
    entry.playback_queue_ms = event.payload_u64("playback_queue_ms");
    entry.audio_chunk_index = event.payload_u64("audio_chunk_index");
    entry.status = Some(to_string("server_received"));
    push_ledger(state, entry);
    state.last_prompt = Some(to_string("服务端已确认客户端收到变声音频"));
}

fn apply_job_completed(state: &mut RealtimeStreamSnapshot, event: &RealtimeEvent, name: &String, now: i64)
    requires
        name@ == "tts.job_completed"@ ==> old(state).tts_completed_jobs < u64::MAX && old(state).tts_completed_chars
            + text_chars(event@, "text"@) <= u64::MAX,
    ensures
        final(state)@ == job_completed_effect(old(state)@, event@, name@, now),
{
    if same_text(name.as_str(), "tts.job_completed") {
        state.tts_completed_jobs = state.tts_completed_jobs + 1;
        state.tts_completed_chars = state.tts_completed_chars + text_chars_of(event, "text");
    }
    state.pipeline_stage = to_string("tts_completed");
    let entry = tts_ledger_entry(state, "tts_synth", name, now, Some(to_string("completed")), event.payload_string("text"));
    push_ledger(state, entry);
    state.last_prompt = Some(to_string("本段语音转换完成"));
}

fn apply_job_dropped(state: &mut RealtimeStreamSnapshot, event: &RealtimeEvent, name: &String, now: i64)
    requires
        old(state).tts_dropped_jobs < u64::MAX,
        old(state).tts_dropped_chars + text_chars(event@, "text"@) <= u64::MAX,
    ensures
        final(state)@ == job_dropped_effect(old(state)@, event@, name@, now),
{
    state.tts_dropped_jobs = state.tts_dropped_jobs + 1;
    state.tts_dropped_chars = state.tts_dropped_chars + text_chars_of(event, "text");
    state.pipeline_stage = to_string("tts_dropped");
    let status = match event.payload_string("reason") {
        Some(r) => Some(r),
        None => Some(to_string("dropped")),
    };
    let entry = tts_ledger_entry(state, "tts_queue", name, now, status, event.payload_string("text"));
    push_ledger(state, entry);
    state.last_prompt = Some(to_string("变声任务被服务端丢弃"));
}

/// Applies one realtime protocol event to the snapshot, stamping any ledger
/// entry with `now` (milliseconds since the Unix epoch).
pub fn apply_json_event_at(state: &mut RealtimeStreamSnapshot, event: &RealtimeEvent, now: i64)
    requires
        event_fits(old(state)@, event@),
    ensures
        final(state)@ == json_event_effect(old(state)@, event@, now),
{
    let name = match event.event_name() {
        Some(n) => n,
        None => return,
    };
    apply_event_header(state, event, &name);
    let n = name.as_str();
    if same_text(n, "session_started") {
        state.websocket_state = to_string("connected");
        state.audio_mode = event.payload_string("audio_mode");
        set_stage(state, "session_started", "已连接 FunSpeech，正在准备实时会话");
    } else if same_text(n, "configured") || same_text(n, "ready") || same_text(n, "voice_switched") || same_text(
        n,
        "voice_updated",
    ) {
        apply_configured(state, event, &name);
    } else if same_text(n, "parameters_updated") || same_text(n, "params_updated") {
        state.websocket_state = to_string("running");
        set_stage(state, "parameters_updated", "实时参数已生效");
    } else if same_text(n, "session_completed") || same_text(n, "closed") {
        state.websocket_state = to_string("stopped");
        set_stage(state, "completed", "实时会话已结束");
    } else if same_text(n, "session.error") || same_text(n, "error") {
        state.websocket_state = to_string("error");
        state.last_error = event.payload_string("message");
        state.last_prompt = match crate::settings::clone_opt_string(&state.last_error) {
            Some(m) => Some(m),
            None => Some(to_string("实时会话发生错误")),
        };
    } else if same_text(n, "input.audio_dequeued") {
        apply_input_dequeued(state, event, &name, now);
    } else if same_text(n, "vad.speech_frame") {
        let frames = match event.payload_u64("frames") {
            Some(f) => f,
            None => 1,
        };
        state.vad_speech_frames = state.vad_speech_frames + frames;
        state.pipeline_stage = to_string("vad_speech_frame");
        state.input_health = Some(to_string("VAD 检测到有效语音帧"));
        state.last_prompt = Some(to_string("VAD 检测到语音，正在送入 ASR"));
    } else if same_text(n, "vad.speech_started") {
        state.vad_speech_frames = state.vad_speech_frames + 1;
        state.pipeline_stage = to_string("vad_speech_started");
        state.input_health = Some(to_string("VAD 检测到开始说话"));
        state.last_prompt = Some(to_string("检测到开始说话"));
    } else if same_text(n, "vad.speech_ended") {
        state.vad_utterances_ended = state.vad_utterances_ended + 1;
        state.pipeline_stage = to_string("vad_speech_ended");
        state.input_health = Some(to_string("VAD 检测到本句结束"));
        state.last_prompt = Some(to_string("本句语音结束，等待变声输出"));
    } else if same_text(n, "asr.segment_committed") {
        apply_segment_committed(state, event, &name, now);
    } else if same_text(n, "backpressure.applied") {
        apply_backpressure(state, event, &name, now);
    } else if same_text(n, "asr.hypothesis") || same_text(n, "asr_result") {
        if let Some(text) = event.payload_string("text") {
            state.asr_text = Some(text);
        }
        if event.payload_bool("is_final") == Some(true) {
            set_stage(state, "asr_final", "正在识别语音");
        } else {
            set_stage(state, "asr_recognizing", "正在识别语音");
        }
    } else if same_text(n, "asr.text_committed") {
        apply_text_committed(state, event, &name, now);
    } else if same_text(n, "asr.sentence_finalized") {
        if let Some(text) = event.payload_string("text") {
            state.asr_text = Some(text);
        }
        set_stage(state, "sentence_finalized", "本句语音识别完成");
    } else if same_text(n, "tts.job_queued") {
        apply_job_queued(state, event, &name, now);
    } else if same_text(n, "tts.job_started") {
        apply_job_started(state, event, &name, now);
    } else if same_text(n, "tts.first_audio") {
        set_stage(state, "tts_first_audio", "即将播放转换后语音");
    } else if same_text(n, "tts.audio_chunk") {
        apply_audio_chunk(state, event, &name, now);
    } else if same_text(n, "client.audio_ack.received") {
        apply_ack_received(state, event, &name, now);
    } else if same_text(n, "tts.job_completed") || same_text(n, "tts_completed") {
        apply_job_completed(state, event, &name, now);
    } else if same_text(n, "tts.job_dropped") {
        apply_job_dropped(state, event, &name, now);
    }
}

/// Whether `event` fits the snapshot's counters (see `event_fits`).
pub fn fits_event(state: &RealtimeStreamSnapshot, event: &RealtimeEvent) -> (r: bool)
    ensures
        r == event_fits(state@, event@),
{
    let name = match event.event_name() {
        Some(n) => n,
        None => return true,
    };
    let n = name.as_str();
    let frames = match event.payload_u64("frames") {
        Some(f) => f,
        None => 1,
    };
    let duration = match event.payload_u64("duration_ms") {
        Some(d) => d,
        None => 0,
    };
    let delta_fits = match event.payload_string("delta_text") {
        Some(d) => (d.as_str().unicode_len() as u64) <= u64::MAX - state.asr_committed_chars,
        None => true,
    };
    let chars = text_chars_of(event, "text");
    let c1 = !same_text(n, "vad.speech_frame") || frames <= u64::MAX - state.vad_speech_frames;
    let c2 = !same_text(n, "vad.speech_started") || state.vad_speech_frames < u64::MAX;
    let c3 = !same_text(n, "vad.speech_ended") || state.vad_utterances_ended < u64::MAX;
    let c4 = !same_text(n, "asr.segment_committed") || (state.asr_committed_segments < u64::MAX && duration
        <= u64::MAX - state.asr_committed_audio_ms);
    let c5 = !same_text(n, "asr.text_committed") || delta_fits;
    let c6 = !same_text(n, "tts.job_queued") || (state.tts_queued_jobs < u64::MAX && chars <= u64::MAX
        - state.tts_queued_chars);
    let c7 = !same_text(n, "tts.job_started") || (state.tts_started_jobs < u64::MAX && chars <= u64::MAX
        - state.tts_started_chars);
    let c8 = !same_text(n, "tts.audio_chunk") || state.tts_audio_chunks < u64::MAX;
    let c9 = !same_text(n, "tts.job_completed") || (state.tts_completed_jobs < u64::MAX && chars <= u64::MAX
        - state.tts_completed_chars);
    let c10 = !same_text(n, "tts.job_dropped") || (state.tts_dropped_jobs < u64::MAX && chars <= u64::MAX
        - state.tts_dropped_chars);
    c1 && c2 && c3 && c4 && c5 && c6 && c7 && c8 && c9 && c10
}

/// The transcript an ASR event carries: the first of `text`, `result`,
/// `transcript`, `payload.text` and `payload.result` that is present, if it is a string.
pub open spec fn asr_event_text(e: RealtimeEventView) -> Option<Seq<char>> {
    as_text(
        or_else(
            member(e.fields, "text"@),
            or_else(
                member(e.fields, "result"@),
                or_else(
                    member(e.fields, "transcript"@),
                    or_else(member(e.payload, "text"@), member(e.payload, "result"@)),
                ),
            ),
        ),
    )
}

/// The status text of an Aliyun-style header (`status_text`, else `status_message`).
pub open spec fn aliyun_status(e: RealtimeEventView) -> Option<Seq<char>> {
    as_text(or_else(member(e.header, "status_text"@), member(e.header, "status_message"@)))
}

/// A final ASR result: a `SentenceEnd` event, or one whose payload says `is_final`.
pub open spec fn is_final_asr(e: RealtimeEventView) -> bool {
    e.aliyun_event_name() == Some("SentenceEnd"@) || crate::json::as_flag(member(e.payload, "is_final"@)) == Some(true)
}

/// See `asr_event_text`.
pub fn text_from_asr_event(event: &RealtimeEvent) -> (r: Option<String>)
    ensures
        match r {
            Some(t) => asr_event_text(event@) == Some(t@),
            None => asr_event_text(event@) is None,
        },
{
    let found = match crate::json::find_member(&event.fields, "text") {
        Some(v) => Some(v),
        None => match crate::json::find_member(&event.fields, "result") {
            Some(v) => Some(v),
            None => match crate::json::find_member(&event.fields, "transcript") {
                Some(v) => Some(v),
                None => match crate::json::find_member(&event.payload, "text") {
                    Some(v) => Some(v),
                    None => crate::json::find_member(&event.payload, "result"),
                },
            },
        },
    };
    match found {
        Some(JsonField::Text(t)) => Some(t.clone()),
        _ => None,
    }
}

/// See `aliyun_status`.
pub fn aliyun_status_message(event: &RealtimeEvent) -> (r: Option<String>)
    ensures
        match r {
            Some(t) => aliyun_status(event@) == Some(t@),
            None => aliyun_status(event@) is None,
        },
{
    let found = match crate::json::find_member(&event.header, "status_text") {
        Some(v) => Some(v),
        None => crate::json::find_member(&event.header, "status_message"),
    };
    match found {
        Some(JsonField::Text(t)) => Some(t.clone()),
        _ => None,
    }
}

/// See `is_final_asr`.
pub fn is_final_asr_event(event: &RealtimeEvent) -> (r: bool)
    ensures
        r == is_final_asr(event@),
{
    let sentence_end = match event.aliyun_event_name() {
        Some(n) => same_text(n.as_str(), "SentenceEnd"),
        None => false,
    };
    sentence_end || crate::json::member_flag(&event.payload, "is_final") == Some(true)
}

/// What an event of the ASR websocket does to the snapshot.
pub open spec fn asr_event_effect(s: SnapView, e: RealtimeEventView) -> SnapView {
    let s1 = match e.aliyun_event_name() {
        Some(n) => {
            let t = SnapView { last_event: Some("asr_"@ + n), ..s };
            if n == "TranscriptionStarted"@ {
                SnapView { pipeline_stage: "asr_ready"@, ..t }
            } else if n == "TranscriptionResultChanged"@ || n == "SentenceEnd"@ {
                SnapView { pipeline_stage: "asr_text_received"@, ..t }
            } else if n == "TranscriptionCompleted"@ {
                SnapView { pipeline_stage: "asr_completed"@, ..t }
            } else if n == "TaskFailed"@ {
                SnapView { websocket_state: "error"@, last_error: aliyun_status(e), ..t }
            } else {
                t
            }
        },
        None => s,
    };
    let s2 = match asr_event_text(e) {
        Some(text) => SnapView { asr_text: Some(text), pipeline_stage: "asr_text_received"@, ..s1 },
        None => s1,
    };
    if e.event_name() == Some("error"@) {
        SnapView { websocket_state: "error"@, last_error: e.top_text("message"@), ..s2 }
    } else {
        s2
    }
}

/// Applies an event of the ASR websocket (ASR+TTS pipeline mode).
pub fn apply_asr_event(state: &mut RealtimeStreamSnapshot, event: &RealtimeEvent)
    ensures
        final(state)@ == asr_event_effect(old(state)@, event@),
{
    if let Some(n) = event.aliyun_event_name() {
        state.last_event = Some(concat2("asr_", n.as_str()));
        if same_text(n.as_str(), "TranscriptionStarted") {
            state.pipeline_stage = to_string("asr_ready");
        } else if same_text(n.as_str(), "TranscriptionResultChanged") || same_text(n.as_str(), "SentenceEnd") {
            state.pipeline_stage = to_string("asr_text_received");
        } else if same_text(n.as_str(), "TranscriptionCompleted") {
            state.pipeline_stage = to_string("asr_completed");
        } else if same_text(n.as_str(), "TaskFailed") {
            state.websocket_state = to_string("error");
            state.last_error = aliyun_status_message(event);
        }
    }
    if let Some(text) = text_from_asr_event(event) {
        state.asr_text = Some(text);
        state.pipeline_stage = to_string("asr_text_received");
    }
    let is_error = match event.event_name() {
        Some(n) => same_text(n.as_str(), "error"),
        None => false,
    };
    if is_error {
        state.websocket_state = to_string("error");
        state.last_error = crate::json::member_text(&event.fields, "message");
    }
}

/// What an event of the TTS websocket does to the snapshot.
pub open spec fn tts_event_effect(s: SnapView, e: RealtimeEventView) -> SnapView {
    match e.aliyun_event_name() {
        Some(n) => {
            let t = SnapView { last_event: Some("tts_"@ + n), ..s };
            if n == "configured"@ || n == "synthesis_started"@ || n == "SynthesisStarted"@ {
                SnapView { pipeline_stage: "tts_ready"@, ..t }
            } else if n == "synthesis_completed"@ || n == "SynthesisCompleted"@ {
                SnapView { pipeline_stage: "tts_completed"@, ..t }
            } else if n == "error"@ || n == "TaskFailed"@ {
                SnapView {
                    websocket_state: "error"@,
                    last_error: or_else(e.top_text("message"@), aliyun_status(e)),
                    ..t
                }
            } else {
                t
            }
        },
        None => s,
    }
}

/// Applies an event of the TTS websocket (ASR+TTS pipeline mode).
pub fn apply_tts_event(state: &mut RealtimeStreamSnapshot, event: &RealtimeEvent)
    ensures
        final(state)@ == tts_event_effect(old(state)@, event@),
{
    if let Some(n) = event.aliyun_event_name() {
        state.last_event = Some(concat2("tts_", n.as_str()));
        if same_text(n.as_str(), "configured") || same_text(n.as_str(), "synthesis_started") || same_text(
            n.as_str(),
            "SynthesisStarted",
        ) {
            state.pipeline_stage = to_string("tts_ready");
        } else if same_text(n.as_str(), "synthesis_completed") || same_text(n.as_str(), "SynthesisCompleted") {
            state.pipeline_stage = to_string("tts_completed");
        } else if same_text(n.as_str(), "error") || same_text(n.as_str(), "TaskFailed") {
            state.websocket_state = to_string("error");
            state.last_error = match crate::json::member_text(&event.fields, "message") {
                Some(m) => Some(m),
                None => aliyun_status_message(event),
            };
        }
    }
}

/// The ledger never grows past `REALTIME_LEDGER_LIMIT` entries, and the entry
/// just pushed is always the newest one kept.
pub proof fn lemma_ledger_stays_bounded(ledger: Seq<RealtimeLedgerEntryView>, entry: RealtimeLedgerEntryView)
    requires
        ledger.len() <= REALTIME_LEDGER_LIMIT,
    ensures
        ledger_push(ledger, entry).len() <= REALTIME_LEDGER_LIMIT,
        ledger_push(ledger, entry).last() == entry,
{
}

/// Every named event is recorded as the last event; a nameless one changes nothing.
pub proof fn lemma_event_name_recorded(s: SnapView, e: RealtimeEventView, now: i64)
    ensures
        e.event_name() is Some ==> json_event_effect(s, e, now).last_event == e.event_name(),
        e.event_name() is None ==> json_event_effect(s, e, now) == s,
{
}

/// A `tts.job_completed` event counts exactly one more completed TTS job,
/// adds its text length to the completed characters and puts the pipeline at
/// `tts_completed`; no other event changes the count of completed jobs.
pub proof fn lemma_completed_jobs_counted(s: SnapView, e: RealtimeEventView, now: i64)
    requires
        s.tts_completed_jobs < u64::MAX,
        s.tts_completed_chars + text_chars(e, "text"@) <= u64::MAX,
    ensures
        e.event_name() == Some("tts.job_completed"@) ==> json_event_effect(s, e, now).tts_completed_jobs
            == s.tts_completed_jobs + 1 && json_event_effect(s, e, now).pipeline_stage == "tts_completed"@
            && json_event_effect(s, e, now).tts_completed_chars == s.tts_completed_chars + text_chars(e, "text"@),
        e.event_name() != Some("tts.job_completed"@) ==> json_event_effect(s, e, now).tts_completed_jobs
            == s.tts_completed_jobs,
{
    if e.event_name() == Some("tts.job_completed"@) {
        reveal_strlit("session_started");
        reveal_strlit("configured");
        reveal_strlit("ready");
        reveal_strlit("voice_switched");
        reveal_strlit("voice_updated");
        reveal_strlit("parameters_updated");
        reveal_strlit("params_updated");
        reveal_strlit("session_completed");
        reveal_strlit("closed");
        reveal_strlit("session.error");
        reveal_strlit("error");
        reveal_strlit("input.audio_dequeued");
        reveal_strlit("vad.speech_frame");
        reveal_strlit("vad.speech_started");
        reveal_strlit("vad.speech_ended");
        reveal_strlit("asr.segment_committed");
        reveal_strlit("backpressure.applied");
        reveal_strlit("asr.hypothesis");
        reveal_strlit("asr_result");
        reveal_strlit("asr.text_committed");
        reveal_strlit("asr.sentence_finalized");
        reveal_strlit("tts.job_queued");
        reveal_strlit("tts.job_started");
        reveal_strlit("tts.first_audio");
        reveal_strlit("tts.audio_chunk");
        reveal_strlit("client.audio_ack.received");
        reveal_strlit("tts.job_completed");
        reveal_strlit("tts_completed");
        reveal_strlit("tts.job_dropped");
        assert("tts.job_completed"@.len() == 17);
        assert("session_started"@.len() == 15);
        assert("configured"@.len() == 10);
        assert("ready"@.len() == 5);
        assert("voice_switched"@.len() == 14);
        assert("voice_updated"@.len() == 13);
        assert("parameters_updated"@.len() == 18);
        assert("params_updated"@.len() == 14);
        assert("session_completed"@[0] != "tts.job_completed"@[0]);
        assert("closed"@.len() == 6);
        assert("session.error"@.len() == 13);
        assert("error"@.len() == 5);
        assert("input.audio_dequeued"@.len() == 20);
        assert("vad.speech_frame"@.len() == 16);
        assert("vad.speech_started"@.len() == 18);
        assert("vad.speech_ended"@.len() == 16);
        assert("asr.segment_committed"@.len() == 21);
        assert("backpressure.applied"@.len() == 20);
        assert("asr.hypothesis"@.len() == 14);
        assert("asr_result"@.len() == 10);
        assert("asr.text_committed"@.len() == 18);
        assert("asr.sentence_finalized"@.len() == 22);
        assert("tts.job_queued"@.len() == 14);
        assert("tts.job_started"@.len() == 15);
        assert("tts.first_audio"@.len() == 15);
        assert("tts.audio_chunk"@.len() == 15);
        assert("client.audio_ack.received"@.len() == 25);
        assert("tts_completed"@.len() == 13);
        assert("tts.job_dropped"@.len() == 15);
        let s2 = with_event_header(s, e, "tts.job_completed"@);
        assert(event_effect(s2, e, "tts.job_completed"@, now) == job_completed_effect(s2, e, "tts.job_completed"@, now));
    }
}

} // verus!
