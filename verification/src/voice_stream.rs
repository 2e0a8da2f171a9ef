use vstd::prelude::*;

use crate::error::AppError;
use crate::frame::{spec_samples_per_frame, PcmFormat, SampleFormat};
use crate::json::{RealtimeEvent, RealtimeEventView};
use crate::playback::{
    insertion_point, EnqueueVerdict, OrderedPlaybackBuffer, PendingOutputChunk, PendingPlaybackFrame, PlaybackBufferView,
    PlaybackDrop, PLAYBACK_GAP_SKIP_PENDING,
    PLAYBACK_JITTER_PREBUFFER_MS, PLAYBACK_MAX_PENDING,
};
use crate::realtime::{
    apply_asr_event, apply_json_event_at, apply_output_drop_status, asr_event_effect, asr_event_text, is_final_asr,
    is_final_asr_event, text_from_asr_event, drop_status_effect, event_fits, flow_metrics_reset, json_event_effect, ledger_entry, ledger_push, pending_view, push_ledger,
    reset_output_flow_metrics, RealtimeLedgerEntry, RealtimeLedgerEntryView, RealtimeStreamSnapshot, SnapView,
};
use crate::session::RealtimeSession;
use crate::settings::{clone_opt_string, opt_str};
use crate::text::{concat2, concat3, decimal, decimal_seq, is_ascii_alphanumeric_char, same_text, trim_seq, trimmed};

verus! {

/// Sample rate of the FunSpeech realtime protocol.
pub const FUNSPEECH_REALTIME_SAMPLE_RATE: u32 = 16_000;

/// Which backend pipeline a realtime stream runs.
#[derive(Debug, Clone, PartialEq, Eq)]
pub enum RealtimeStreamMode {
    /// The FunSpeech realtime voice websocket.
    RealtimeVoice,
    /// Separate FunSpeech ASR and TTS websockets.
    AsrTts { asr_url: String, tts_url: String },
}

impl RealtimeStreamMode {
    /// `realtime_voice` or `asr_tts`.
    pub fn label(&self) -> (l: &'static str)
        ensures
            l@ == match self {
                RealtimeStreamMode::RealtimeVoice => "realtime_voice"@,
                RealtimeStreamMode::AsrTts { .. } => "asr_tts"@,
            },
    {
        match self {
            RealtimeStreamMode::RealtimeVoice => "realtime_voice",
            RealtimeStreamMode::AsrTts { .. } => "asr_tts",
        }
    }
}

/// The format sent to FunSpeech for a local format: 16 kHz mono 16-bit PCM
/// with the local frame length.
pub fn funspeech_realtime_format(local_format: PcmFormat) -> (f: PcmFormat)
    ensures
        f == (PcmFormat {
            sample_rate: FUNSPEECH_REALTIME_SAMPLE_RATE,
            channels: 1,
            sample_format: SampleFormat::I16,
            frame_ms: local_format.frame_ms,
        }),
{
    PcmFormat {
        sample_rate: FUNSPEECH_REALTIME_SAMPLE_RATE,
        channels: 1,
        sample_format: SampleFormat::I16,
        frame_ms: local_format.frame_ms,
    }
}

/// One frame of silence as 16-bit PCM bytes.
pub fn silent_pcm_i16_frame(format: PcmFormat) -> (bytes: Vec<u8>)
    requires
        spec_samples_per_frame(format) * 2 <= usize::MAX,
    ensures
        bytes@.len() == spec_samples_per_frame(format) * 2,
        forall|i: int| 0 <= i < bytes@.len() ==> bytes@[i] == 0,
{
    let n = format.samples_per_frame() * 2;
    let mut bytes: Vec<u8> = Vec::new();
    while bytes.len() < n
        invariant
            bytes@.len() <= n,
            forall|i: int| 0 <= i < bytes@.len() ==> bytes@[i] == 0,
        decreases n - bytes@.len(),
    {
        bytes.push(0);
    }
    bytes
}

/// The snapshot a stream starts from: pending, and for the ASR+TTS pipeline
/// both websocket URLs and the pipeline's audio mode.
pub open spec fn initial_snapshot_view(session: RealtimeSession, mode: RealtimeStreamMode) -> SnapView {
    match mode {
        RealtimeStreamMode::RealtimeVoice => pending_view(session),
        RealtimeStreamMode::AsrTts { asr_url, tts_url } => SnapView {
            websocket_url: asr_url@ + " -> "@ + tts_url@,
            audio_mode: Some("asr_tts_pipeline"@),
            ..pending_view(session)
        },
    }
}

/// See `initial_snapshot_view`.
pub fn initial_stream_snapshot(session: &RealtimeSession, mode: &RealtimeStreamMode) -> (s: RealtimeStreamSnapshot)
    ensures
        s@ == initial_snapshot_view(*session, *mode),
{
    let mut s = RealtimeStreamSnapshot::pending(session);
    if let RealtimeStreamMode::AsrTts { asr_url, tts_url } = mode {
        s.websocket_url = concat3(asr_url.as_str(), " -> ", tts_url.as_str());
        s.audio_mode = Some(String::from_str("asr_tts_pipeline"));
    }
    s
}

/// How waiting for a new stream to become ready ended.
pub enum ReadyOutcome {
    Ready,
    Failed(AppError),
    ExitedBeforeReady,
    TimedOut,
}

/// The result of starting a stream, from how waiting for it ended.
pub fn ready_result(outcome: ReadyOutcome) -> (r: Result<(), AppError>)
    ensures
        match outcome {
            ReadyOutcome::Ready => r is Ok,
            ReadyOutcome::Failed(e) => r == Err::<(), AppError>(e),
            ReadyOutcome::ExitedBeforeReady => r matches Err(AppError::RealtimeSession { message })
                && message@ == "FunSpeech realtime stream exited before it became ready"@,
            ReadyOutcome::TimedOut => r matches Err(AppError::RealtimeSession { message })
                && message@ == "timed out while connecting FunSpeech realtime stream"@,
        },
{
    match outcome {
        ReadyOutcome::Ready => Ok(()),
        ReadyOutcome::Failed(e) => Err(e),
        ReadyOutcome::ExitedBeforeReady => Err(
            AppError::realtime_session(String::from_str("FunSpeech realtime stream exited before it became ready")),
        ),
        ReadyOutcome::TimedOut => Err(
            AppError::realtime_session(String::from_str("timed out while connecting FunSpeech realtime stream")),
        ),
    }
}

/// A flow-control event the client sends to FunSpeech.
#[derive(Debug, Clone, PartialEq, Eq)]
pub enum ClientEvent {
    /// `client.audio_played`: a converted chunk was played, queued or dropped.
    AudioPlayed {
        chunk_id: String,
        tts_job_id: Option<String>,
        audio_chunk_index: u64,
        playback_queue_ms: u64,
        status: String,
    },
    /// `client.audio_backpressure`: the playback queue is under pressure.
    AudioBackpressure { level: String, playback_queue_ms: u64, reason: String },
}

pub enum ClientEventView {
    AudioPlayed {
        chunk_id: Seq<char>,
        tts_job_id: Option<Seq<char>>,
        audio_chunk_index: u64,
        playback_queue_ms: u64,
        status: Seq<char>,
    },
    AudioBackpressure { level: Seq<char>, playback_queue_ms: u64, reason: Seq<char> },
}

impl View for ClientEvent {
    type V = ClientEventView;

    open spec fn view(&self) -> ClientEventView {
        match self {
            ClientEvent::AudioPlayed { chunk_id, tts_job_id, audio_chunk_index, playback_queue_ms, status } =>
                ClientEventView::AudioPlayed {
                chunk_id: chunk_id@,
                tts_job_id: opt_str(*tts_job_id),
                audio_chunk_index: *audio_chunk_index,
                playback_queue_ms: *playback_queue_ms,
                status: status@,
            },
            ClientEvent::AudioBackpressure { level, playback_queue_ms, reason } =>
                ClientEventView::AudioBackpressure {
                level: level@,
                playback_queue_ms: *playback_queue_ms,
                reason: reason@,
            },
        }
    }
}

/// The played report for a chunk, when it has an id.
pub open spec fn played_event_view(
    chunk_id: Option<Seq<char>>,
    tts_job_id: Option<Seq<char>>,
    audio_chunk_index: u64,
    status: Seq<char>,
    playback_queue_ms: u64,
) -> Option<ClientEventView> {
    match chunk_id {
        Some(c) => Some(
            ClientEventView::AudioPlayed { chunk_id: c, tts_job_id, audio_chunk_index, playback_queue_ms, status },
        ),
        None => None,
    }
}

pub open spec fn backpressure_event_view(level: Seq<char>, playback_queue_ms: u64, reason: Seq<char>) -> ClientEventView {
    ClientEventView::AudioBackpressure { level, playback_queue_ms, reason }
}

/// The played report for a chunk; only chunks with an id are reported. The
/// report is stamped with the time it is sent.
pub fn client_audio_played_event(
    chunk_id: Option<String>,
    tts_job_id: Option<String>,
    audio_chunk_index: u64,
    status: &str,
    playback_queue_ms: u64,
) -> (e: Option<ClientEvent>)
    ensures
        match e {
            Some(ev) => played_event_view(opt_str(chunk_id), opt_str(tts_job_id), audio_chunk_index, status@, playback_queue_ms)
                == Some(ev@),
            None => chunk_id is None,
        },
{
    let chunk_id = match chunk_id {
        Some(c) => c,
        None => return None,
    };
    Some(
        ClientEvent::AudioPlayed {
            chunk_id,
            tts_job_id,
            audio_chunk_index,
            playback_queue_ms,
            status: String::from_str(status),
        },
    )
}

/// A back-pressure report, stamped with the time it is sent.
pub fn client_audio_backpressure_event(level: &str, playback_queue_ms: u64, reason: &str) -> (e: ClientEvent)
    ensures
        e@ == backpressure_event_view(level@, playback_queue_ms, reason@),
{
    ClientEvent::AudioBackpressure { level: String::from_str(level), playback_queue_ms, reason: String::from_str(reason) }
}

/// The ASCII letters and digits of `s`, in order.
pub open spec fn ascii_alphanumerics(s: Seq<char>) -> Seq<char> {
    s.filter(|c: char| is_ascii_alphanumeric_char(c))
}

/// A task id for one websocket of the ASR+TTS pipeline: the prefix, the time in
/// milliseconds, and the first twelve ASCII letters and digits of the session id.
pub open spec fn pipeline_task_id_spec(prefix: Seq<char>, session_id: Seq<char>, now_ms: i64) -> Seq<char> {
    let tail = ascii_alphanumerics(session_id);
    let kept = if tail.len() > 12 {
        tail.take(12)
    } else {
        tail
    };
    prefix + "_"@ + signed_decimal(now_ms) + "_"@ + kept
}

/// The decimal form of a signed number.
pub open spec fn signed_decimal(n: i64) -> Seq<char> {
    if n < 0 {
        "-"@ + decimal_seq((-n) as nat)
    } else {
        decimal_seq(n as nat)
    }
}

/// See `signed_decimal`.
pub fn signed_decimal_text(n: i64) -> (s: String)
    ensures
        s@ == signed_decimal(n),
{
    if n < 0 {
        let m: u64 = if n == i64::MIN {
            9_223_372_036_854_775_808u64
        } else {
            (-n) as u64
        };
        concat2("-", decimal(m).as_str())
    } else {
        decimal(n as u64)
    }
}

/// See `pipeline_task_id_spec`.
pub fn pipeline_task_id_at(prefix: &str, session_id: &str, now_ms: i64) -> (id: String)
    ensures
        id@ == pipeline_task_id_spec(prefix@, session_id@, now_ms),
{
    let chars = crate::text::chars_of(session_id);
    let mut kept = String::new();
    let mut count: usize = 0;
    let mut i: usize = 0;
    let ghost all = ascii_alphanumerics(session_id@);
    while i < chars.len()
        invariant
            i <= chars.len(),
            chars@ == session_id@,
            all == ascii_alphanumerics(session_id@),
            count == kept@.len(),
            count <= 12,
            ({
                let t = ascii_alphanumerics(session_id@.take(i as int));
                kept@ == if t.len() > 12 {
                    t.take(12)
                } else {
                    t
                }
            }),
        decreases chars.len() - i,
    {
        proof {
            let s = session_id@;
            assert(s.take(i as int + 1) =~= s.take(i as int).push(s[i as int]));
            Seq::<char>::filter_distributes_over_add(s.take(i as int), seq![s[i as int]], |c: char| is_ascii_alphanumeric_char(c));
            assert(s.take(i as int).push(s[i as int]) =~= s.take(i as int) + seq![s[i as int]]);
            reveal_with_fuel(Seq::filter, 2);
        }
        let c = chars[i];
        if crate::text::is_ascii_alphanumeric(c) && count < 12 {
            crate::text::push_char(&mut kept, c);
            count += 1;
        }
        i += 1;
        proof {
            let t = ascii_alphanumerics(session_id@.take(i as int));
            let t0 = ascii_alphanumerics(session_id@.take(i as int - 1));
            if t.len() > 12 {
                assert(t.take(12) =~= if t0.len() > 12 { t0.take(12) } else { t0 });
            }
        }
    }
    assert(session_id@.take(chars.len() as int) =~= session_id@);
    let s = concat3(prefix, "_", signed_decimal_text(now_ms).as_str());
    concat3(s.as_str(), "_", kept.as_str())
}

/// `e` is a realtime-session error with message `m`.
pub open spec fn session_error(e: AppError, m: Seq<char>) -> bool {
    e matches AppError::RealtimeSession { message } && message@ == m
}

/// The first event of the realtime voice websocket must be `session_started`;
/// otherwise the error quotes the event's JSON text `raw`.
pub fn check_session_started(event: &RealtimeEvent, raw: &str) -> (r: Result<(), AppError>)
    ensures
        match r {
            Ok(()) => event@.event_name() == Some("session_started"@),
            Err(e) => event@.event_name() != Some("session_started"@) && session_error(
                e,
                "expected session_started from FunSpeech, got "@ + raw@,
            ),
        },
{
    let ok = match event.event_name() {
        Some(n) => same_text(n.as_str(), "session_started"),
        None => false,
    };
    if ok {
        Ok(())
    } else {
        Err(AppError::realtime_session(concat2("expected session_started from FunSpeech, got ", raw)))
    }
}

/// How the server answered the configure event.
#[derive(Debug)]
pub enum ConfigureReply {
    /// `configured` or `ready`.
    Accepted,
    /// `error`.
    Rejected(AppError),
    /// Anything else: keep reading.
    Pending,
}

/// How many events after configure may pass before the server must have answered.
pub const CONFIGURE_REPLY_EVENTS: usize = 4;

/// Classifies an event read after configure (`raw` is its JSON text).
pub fn configure_reply(event: &RealtimeEvent, raw: &str) -> (r: ConfigureReply)
    ensures
        match r {
            ConfigureReply::Accepted => event@.event_name() == Some("configured"@) || event@.event_name() == Some(
                "ready"@,
            ),
            ConfigureReply::Rejected(e) => event@.event_name() == Some("error"@) && session_error(
                e,
                "FunSpeech realtime configure failed: "@ + raw@,
            ),
            ConfigureReply::Pending => event@.event_name() != Some("configured"@) && event@.event_name() != Some(
                "ready"@,
            ) && event@.event_name() != Some("error"@),
        },
{
    match event.event_name() {
        Some(n) => {
            if same_text(n.as_str(), "configured") || same_text(n.as_str(), "ready") {
                ConfigureReply::Accepted
            } else if same_text(n.as_str(), "error") {
                ConfigureReply::Rejected(
                    AppError::realtime_session(concat2("FunSpeech realtime configure failed: ", raw)),
                )
            } else {
                ConfigureReply::Pending
            }
        },
        None => ConfigureReply::Pending,
    }
}

/// The error when the server never answered configure.
pub fn configure_not_accepted(voice_name: &str) -> (e: AppError)
    ensures
        session_error(e, "expected configured/ready from FunSpeech after configure for voice "@ + voice_name@),
{
    AppError::realtime_session(concat2("expected configured/ready from FunSpeech after configure for voice ", voice_name))
}

/// The ASR websocket must start with `TranscriptionStarted`.
pub fn check_transcription_started(event: &RealtimeEvent, raw: &str) -> (r: Result<(), AppError>)
    ensures
        match r {
            Ok(()) => event@.aliyun_event_name() == Some("TranscriptionStarted"@),
            Err(e) => event@.aliyun_event_name() != Some("TranscriptionStarted"@) && session_error(
                e,
                "expected TranscriptionStarted from FunSpeech ASR, got "@ + raw@,
            ),
        },
{
    let ok = match event.aliyun_event_name() {
        Some(n) => same_text(n.as_str(), "TranscriptionStarted"),
        None => false,
    };
    if ok {
        Ok(())
    } else {
        Err(AppError::realtime_session(concat2("expected TranscriptionStarted from FunSpeech ASR, got ", raw)))
    }
}

/// The TTS websocket must start with `SynthesisStarted`.
pub fn check_synthesis_started(event: &RealtimeEvent, raw: &str) -> (r: Result<(), AppError>)
    ensures
        match r {
            Ok(()) => event@.aliyun_event_name() == Some("SynthesisStarted"@),
            Err(e) => event@.aliyun_event_name() != Some("SynthesisStarted"@) && session_error(
                e,
                "expected SynthesisStarted from FunSpeech TTS, got "@ + raw@,
            ),
        },
{
    let ok = match event.aliyun_event_name() {
        Some(n) => same_text(n.as_str(), "SynthesisStarted"),
        None => false,
    };
    if ok {
        Ok(())
    } else {
        Err(AppError::realtime_session(concat2("expected SynthesisStarted from FunSpeech TTS, got ", raw)))
    }
}

/// The realtime voice stream is configured and running.
pub open spec fn voice_ready_view(s: SnapView) -> SnapView {
    SnapView { websocket_state: "running"@, pipeline_stage: "realtime_voice_ready"@, last_error: None, ..s }
}

/// See `voice_ready_view`.
pub fn mark_voice_stream_ready(s: &mut RealtimeStreamSnapshot)
    ensures
        final(s)@ == voice_ready_view(old(s)@),
{
    s.websocket_state = String::from_str("running");
    s.pipeline_stage = String::from_str("realtime_voice_ready");
    s.last_error = None;
}

/// Microphone capture was asked for.
pub open spec fn input_requested_view(s: SnapView) -> SnapView {
    SnapView {
        input_state: "starting"@,
        input_source: "microphone"@,
        input_health: Some("麦克风启动中"@),
        ..s
    }
}

/// See `input_requested_view`.
pub fn mark_input_requested(s: &mut RealtimeStreamSnapshot)
    ensures
        final(s)@ == input_requested_view(old(s)@),
{
    s.input_state = String::from_str("starting");
    s.input_source = String::from_str("microphone");
    s.input_health = Some(String::from_str("麦克风启动中"));
}

/// Playing a local file into the stream was asked for.
pub open spec fn file_input_requested_view(s: SnapView, file_name: Seq<char>) -> SnapView {
    SnapView {
        input_state: "starting"@,
        input_source: "local_file"@,
        input_health: Some("正在读取本地音频: "@ + file_name),
        ..s
    }
}

/// See `file_input_requested_view`.
pub fn mark_file_input_requested(s: &mut RealtimeStreamSnapshot, file_name: &str)
    ensures
        final(s)@ == file_input_requested_view(old(s)@, file_name@),
{
    s.input_state = String::from_str("starting");
    s.input_source = String::from_str("local_file");
    s.input_health = Some(concat2("正在读取本地音频: ", file_name));
}

/// Stopping the input was asked for.
pub fn mark_input_stop_requested(s: &mut RealtimeStreamSnapshot)
    ensures
        final(s)@ == (SnapView { input_state: "stopping"@, ..old(s)@ }),
{
    s.input_state = String::from_str("stopping");
}

/// Monitoring was asked for.
pub fn mark_monitor_requested(s: &mut RealtimeStreamSnapshot)
    ensures
        final(s)@ == (SnapView { monitor_state: "starting"@, ..old(s)@ }),
{
    s.monitor_state = String::from_str("starting");
}

/// Stopping monitoring was asked for.
pub fn mark_monitor_stop_requested(s: &mut RealtimeStreamSnapshot)
    ensures
        final(s)@ == (SnapView { monitor_state: "stopping"@, ..old(s)@ }),
{
    s.monitor_state = String::from_str("stopping");
}

/// The server closed the websocket.
pub fn mark_stream_closed(s: &mut RealtimeStreamSnapshot)
    ensures
        final(s)@ == (SnapView { websocket_state: "closed"@, last_event: Some("closed"@), ..old(s)@ }),
{
    s.websocket_state = String::from_str("closed");
    s.last_event = Some(String::from_str("closed"));
}

/// The stream loop ended normally.
pub open spec fn voice_finished_view(s: SnapView) -> SnapView {
    SnapView {
        websocket_state: if s.websocket_state != "closed"@ {
            "stopped"@
        } else {
            s.websocket_state
        },
        input_state: "off"@,
        monitor_state: "off"@,
        ..s
    }
}

/// See `voice_finished_view`.
pub fn mark_voice_stream_finished(s: &mut RealtimeStreamSnapshot)
    ensures
        final(s)@ == voice_finished_view(old(s)@),
{
    if !same_text(s.websocket_state.as_str(), "closed") {
        s.websocket_state = String::from_str("stopped");
    }
    s.input_state = String::from_str("off");
    s.monitor_state = String::from_str("off");
}

/// The stream failed with `error` (its text).
pub fn mark_stream_failed(s: &mut RealtimeStreamSnapshot, error: &str)
    ensures
        final(s)@ == (SnapView { websocket_state: "error"@, last_error: Some(error@), ..old(s)@ }),
{
    s.websocket_state = String::from_str("error");
    s.last_error = Some(String::from_str(error));
}

/// A server message that is not valid JSON.
pub fn mark_invalid_server_json(s: &mut RealtimeStreamSnapshot, error: &str)
    ensures
        final(s)@ == (SnapView { last_error: Some("invalid FunSpeech event JSON: "@ + error@), ..old(s)@ }),
{
    s.last_error = Some(concat2("invalid FunSpeech event JSON: ", error));
}

/// Where the stream's input audio comes from.
#[derive(Debug, Clone, Copy, PartialEq, Eq, Structural)]
pub enum InputSource {
    Idle,
    Microphone,
    File,
}

/// The state of the realtime voice stream loop between two events. Times
/// ending in `_ms` without `wall` are milliseconds on a monotonic clock.
#[derive(Debug)]
pub struct VoiceStreamState {
    pub snapshot: RealtimeStreamSnapshot,
    /// The local audio format.
    pub format: PcmFormat,
    /// Frames sent so far.
    pub sequence: u64,
    /// When each sent frame still awaiting its converted audio was sent, oldest first.
    pub pending_sends_ms: Vec<u64>,
    /// What the server announced about converted chunks not yet received, oldest first.
    pub pending_output_chunks: Vec<PendingOutputChunk>,
    pub playback: OrderedPlaybackBuffer,
    /// When the current input started; first-output latency is measured from here.
    pub output_timeline_started_at_ms: u64,
    /// When the last frame was played.
    pub last_playable_output_at_ms: Option<u64>,
    /// Flow-control events waiting to be sent.
    pub pending_client_events: Vec<ClientEvent>,
    pub input: InputSource,
    pub monitor_on: bool,
}

pub struct VoiceStreamView {
    pub snapshot: SnapView,
    pub format: PcmFormat,
    pub sequence: u64,
    pub pending_sends_ms: Seq<u64>,
    pub pending_output_chunks: Seq<PendingOutputChunk>,
    pub playback: PlaybackBufferView,
    pub output_timeline_started_at_ms: u64,
    pub last_playable_output_at_ms: Option<u64>,
    pub pending_client_events: Seq<ClientEventView>,
    pub input: InputSource,
    pub monitor_on: bool,
}

pub open spec fn events_view(v: Seq<ClientEvent>) -> Seq<ClientEventView> {
    v.map_values(|e: ClientEvent| e@)
}

impl View for VoiceStreamState {
    type V = VoiceStreamView;

    open spec fn view(&self) -> VoiceStreamView {
        VoiceStreamView {
            snapshot: self.snapshot@,
            format: self.format,
            sequence: self.sequence,
            pending_sends_ms: self.pending_sends_ms@,
            pending_output_chunks: self.pending_output_chunks@,
            playback: self.playback@,
            output_timeline_started_at_ms: self.output_timeline_started_at_ms,
            last_playable_output_at_ms: self.last_playable_output_at_ms,
            pending_client_events: events_view(self.pending_client_events@),
            input: self.input,
            monitor_on: self.monitor_on,
        }
    }
}

impl VoiceStreamView {
    /// The playback buffer is well formed, was made with the standard limit,
    /// and holds no more than that limit between events.
    pub open spec fn inv(self) -> bool {
        &&& self.playback.wf()
        &&& self.playback.max_pending == PLAYBACK_MAX_PENDING
        &&& self.playback.pending.len() <= PLAYBACK_MAX_PENDING
    }
}

/// Milliseconds of audio waiting in `b`, one frame per chunk.
pub open spec fn queue_ms(b: PlaybackBufferView, format: PcmFormat) -> u64 {
    (b.pending.len() * format.frame_ms) as u64
}

/// The ledger entry of a sent frame.
pub open spec fn frame_sent_entry(seq: u64, bytes_len: u64, rms_text: Seq<char>, wall_ms: i64) -> RealtimeLedgerEntryView {
    RealtimeLedgerEntryView {
        rust_sent_seq: Some(seq),
        status: Some("sent"@),
        message: Some("bytes="@ + decimal_seq(bytes_len as nat) + " rms="@ + rms_text),
        ..ledger_entry("rust_send"@, "audio_frame_sent"@, wall_ms)
    }
}

/// A frame of `bytes_len` bytes was sent at `now_ms` (`rms_text` is its
/// formatted loudness).
pub open spec fn frame_sent_effect(v: VoiceStreamView, bytes_len: u64, rms_text: Seq<char>, now_ms: u64, wall_ms: i64) -> VoiceStreamView {
    let seq = (v.sequence + 1) as u64;
    let s = v.snapshot;
    VoiceStreamView {
        sequence: seq,
        pending_sends_ms: v.pending_sends_ms.push(now_ms),
        snapshot: SnapView {
            sent_frames: (s.sent_frames + 1) as u64,
            sent_bytes: (s.sent_bytes + bytes_len) as u64,
            rust_sent_seq: Some(seq),
            pipeline_stage: "realtime_voice_sending_audio"@,
            ledger: ledger_push(s.ledger, frame_sent_entry(seq, bytes_len, rms_text, wall_ms)),
            ..s
        },
        ..v
    }
}

/// Input started from `source` at `now_ms` (`file_name` names a played file).
pub open spec fn input_started_effect(v: VoiceStreamView, source: InputSource, file_name: Seq<char>, now_ms: u64) -> VoiceStreamView {
    let s = flow_metrics_reset(v.snapshot);
    VoiceStreamView {
        input: source,
        output_timeline_started_at_ms: now_ms,
        last_playable_output_at_ms: None,
        snapshot: if source == InputSource::File {
            SnapView {
                input_state: "capturing"@,
                input_source: "local_file"@,
                input_health: Some("正在模拟播放本地音频: "@ + file_name),
                pipeline_stage: "realtime_file_input_capturing"@,
                last_event: Some("file_input_started"@),
                last_error: None,
                ..s
            }
        } else {
            SnapView {
                input_state: "capturing"@,
                input_source: "microphone"@,
                input_health: Some("麦克风正在采集"@),
                pipeline_stage: "realtime_input_capturing"@,
                last_event: Some("input_started"@),
                last_error: None,
                ..s
            }
        },
        ..v
    }
}

/// Starting input from `source` failed with `error`.
pub open spec fn input_failed_view(s: SnapView, source: InputSource, error: Seq<char>) -> SnapView {
    if source == InputSource::File {
        SnapView {
            input_state: "error"@,
            input_source: "local_file"@,
            input_health: Some("本地音频读取失败"@),
            last_error: Some(error),
            ..s
        }
    } else {
        SnapView { input_state: "error"@, input_health: Some("麦克风采集启动失败"@), last_error: Some(error), ..s }
    }
}

impl VoiceStreamState {
    /// A stream loop about to start, with an empty playback buffer made with the
    /// standard limits and its first-output clock started at `now_ms`.
    pub fn new(snapshot: RealtimeStreamSnapshot, format: PcmFormat, now_ms: u64) -> (st: VoiceStreamState)
        ensures
            st@.inv(),
            st@.snapshot == snapshot@,
            st@.format == format,
            st@.sequence == 0,
            st@.pending_sends_ms.len() == 0,
            st@.pending_output_chunks.len() == 0,
            st@.playback.pending.len() == 0,
            st@.playback.expected is None,
            st@.playback.gap_skip_pending == PLAYBACK_GAP_SKIP_PENDING,
            st@.playback.prebuffer_ms == PLAYBACK_JITTER_PREBUFFER_MS,
            st@.output_timeline_started_at_ms == now_ms,
            st@.last_playable_output_at_ms is None,
            st@.pending_client_events.len() == 0,
            st@.input == InputSource::Idle,
            !st@.monitor_on,
    {
        let events: Vec<ClientEvent> = Vec::new();
        assert(events_view(events@) =~= Seq::<ClientEventView>::empty());
        VoiceStreamState {
            snapshot,
            format,
            sequence: 0,
            pending_sends_ms: Vec::new(),
            pending_output_chunks: Vec::new(),
            playback: OrderedPlaybackBuffer::new(
                PLAYBACK_GAP_SKIP_PENDING,
                PLAYBACK_MAX_PENDING,
                PLAYBACK_JITTER_PREBUFFER_MS,
            ),
            output_timeline_started_at_ms: now_ms,
            last_playable_output_at_ms: None,
            pending_client_events: events,
            input: InputSource::Idle,
            monitor_on: false,
        }
    }

    /// Records a frame of `bytes_len` bytes sent at `now_ms`; `rms_text` is its
    /// formatted loudness and `wall_ms` the time for the ledger.
    pub fn on_frame_sent(&mut self, bytes_len: u64, rms_text: &str, now_ms: u64, wall_ms: i64)
        requires
            old(self).sequence < u64::MAX,
            old(self).snapshot.sent_frames < u64::MAX,
            old(self).snapshot.sent_bytes + bytes_len <= u64::MAX,
        ensures
            final(self)@ == frame_sent_effect(old(self)@, bytes_len, rms_text@, now_ms, wall_ms),
    {
        self.sequence = self.sequence + 1;
        self.pending_sends_ms.push(now_ms);
        self.snapshot.sent_frames = self.snapshot.sent_frames + 1;
        self.snapshot.sent_bytes = self.snapshot.sent_bytes + bytes_len;
        self.snapshot.rust_sent_seq = Some(self.sequence);
        self.snapshot.pipeline_stage = String::from_str("realtime_voice_sending_audio");
        let mut entry = RealtimeLedgerEntry::new("rust_send", "audio_frame_sent", wall_ms);
        entry.rust_sent_seq = Some(self.sequence);
        entry.status = Some(String::from_str("sent"));
        let m = concat2("bytes=", decimal(bytes_len).as_str());
        entry.message = Some(concat3(m.as_str(), " rms=", rms_text));
        push_ledger(&mut self.snapshot, entry);
    }

    /// A new input may start only while none runs.
    pub fn input_start_allowed(&self) -> (r: bool)
        ensures
            r == (self.input == InputSource::Idle),
    {
        self.input == InputSource::Idle
    }

    /// Input from `source` started at `now_ms`: the output measurements start over.
    pub fn on_input_started(&mut self, source: InputSource, file_name: &str, now_ms: u64)
        requires
            source != InputSource::Idle,
        ensures
            final(self)@ == input_started_effect(old(self)@, source, file_name@, now_ms),
    {
        self.input = source;
        self.output_timeline_started_at_ms = now_ms;
        self.last_playable_output_at_ms = None;
        reset_output_flow_metrics(&mut self.snapshot);
        self.snapshot.input_state = String::from_str("capturing");
        if source == InputSource::File {
            self.snapshot.input_source = String::from_str("local_file");
            self.snapshot.input_health = Some(concat2("正在模拟播放本地音频: ", file_name));
            self.snapshot.pipeline_stage = String::from_str("realtime_file_input_capturing");
            self.snapshot.last_event = Some(String::from_str("file_input_started"));
        } else {
            self.snapshot.input_source = String::from_str("microphone");
            self.snapshot.input_health = Some(String::from_str("麦克风正在采集"));
            self.snapshot.pipeline_stage = String::from_str("realtime_input_capturing");
            self.snapshot.last_event = Some(String::from_str("input_started"));
        }
        self.snapshot.last_error = None;
    }

    /// Starting input from `source` failed with `error`; no input runs.
    pub fn on_input_start_failed(&mut self, source: InputSource, error: &str)
        ensures
            final(self)@ == (VoiceStreamView {
                snapshot: input_failed_view(old(self)@.snapshot, source, error@),
                ..old(self)@
            }),
    {
        self.snapshot.input_state = String::from_str("error");
        if source == InputSource::File {
            self.snapshot.input_source = String::from_str("local_file");
            self.snapshot.input_health = Some(String::from_str("本地音频读取失败"));
        } else {
            self.snapshot.input_health = Some(String::from_str("麦克风采集启动失败"));
        }
        self.snapshot.last_error = Some(String::from_str(error));
    }

    /// The input was stopped.
    pub fn on_input_stopped(&mut self)
        ensures
            final(self)@ == (VoiceStreamView {
                input: InputSource::Idle,
                snapshot: SnapView {
                    input_state: "off"@,
                    input_health: Some("输入已停止"@),
                    pipeline_stage: "realtime_voice_ready"@,
                    last_event: Some("input_stopped"@),
                    ..old(self)@.snapshot
                },
                ..old(self)@
            }),
    {
        self.input = InputSource::Idle;
        self.snapshot.input_state = String::from_str("off");
        self.snapshot.input_health = Some(String::from_str("输入已停止"));
        self.snapshot.pipeline_stage = String::from_str("realtime_voice_ready");
        self.snapshot.last_event = Some(String::from_str("input_stopped"));
    }

    /// The local file has been played completely.
    pub fn on_file_input_completed(&mut self)
        ensures
            final(self)@ == (VoiceStreamView {
                input: InputSource::Idle,
                snapshot: SnapView {
                    input_state: "off"@,
                    input_health: Some("本地音频模拟播放完成"@),
                    pipeline_stage: "realtime_file_input_completed"@,
                    last_event: Some("file_input_completed"@),
                    ..old(self)@.snapshot
                },
                ..old(self)@
            }),
    {
        self.input = InputSource::Idle;
        self.snapshot.input_state = String::from_str("off");
        self.snapshot.input_health = Some(String::from_str("本地音频模拟播放完成"));
        self.snapshot.pipeline_stage = String::from_str("realtime_file_input_completed");
        self.snapshot.last_event = Some(String::from_str("file_input_completed"));
    }

    /// Monitoring may start only while it is off.
    pub fn monitor_start_allowed(&self) -> (r: bool)
        ensures
            r == !self.monitor_on,
    {
        !self.monitor_on
    }

    /// Monitoring started.
    pub fn on_monitor_started(&mut self)
        ensures
            final(self)@ == (VoiceStreamView {
                monitor_on: true,
                snapshot: SnapView {
                    monitor_state: "listening"@,
                    last_event: Some("monitor_started"@),
                    last_error: None,
                    ..old(self)@.snapshot
                },
                ..old(self)@
            }),
    {
        self.monitor_on = true;
        self.snapshot.monitor_state = String::from_str("listening");
        self.snapshot.last_event = Some(String::from_str("monitor_started"));
        self.snapshot.last_error = None;
    }

    /// Starting monitoring failed with `error`.
    pub fn on_monitor_start_failed(&mut self, error: &str)
        ensures
            final(self)@ == (VoiceStreamView {
                snapshot: SnapView { monitor_state: "error"@, last_error: Some(error@), ..old(self)@.snapshot },
                ..old(self)@
            }),
    {
        self.snapshot.monitor_state = String::from_str("error");
        self.snapshot.last_error = Some(String::from_str(error));
    }

    /// Monitoring stopped.
    pub fn on_monitor_stopped(&mut self)
        ensures
            final(self)@ == (VoiceStreamView {
                monitor_on: false,
                snapshot: SnapView {
                    monitor_state: "off"@,
                    last_event: Some("monitor_stopped"@),
                    ..old(self)@.snapshot
                },
                ..old(self)@
            }),
    {
        self.monitor_on = false;
        self.snapshot.monitor_state = String::from_str("off");
        self.snapshot.last_event = Some(String::from_str("monitor_stopped"));
    }

    /// The stream is asked to stop: input and monitoring end, and the loop ends.
    pub fn on_stop_requested(&mut self)
        ensures
            final(self)@ == (VoiceStreamView {
                input: InputSource::Idle,
                monitor_on: false,
                snapshot: SnapView {
                    websocket_state: "stopping"@,
                    input_state: "off"@,
                    monitor_state: "off"@,
                    last_event: Some("stop_requested"@),
                    ..old(self)@.snapshot
                },
                ..old(self)@
            }),
    {
        self.input = InputSource::Idle;
        self.monitor_on = false;
        self.snapshot.websocket_state = String::from_str("stopping");
        self.snapshot.input_state = String::from_str("off");
        self.snapshot.monitor_state = String::from_str("off");
        self.snapshot.last_event = Some(String::from_str("stop_requested"));
    }

    /// Hands out the flow-control events waiting to be sent, leaving none.
    pub fn take_client_events(&mut self) -> (events: Vec<ClientEvent>)
        ensures
            events_view(events@) == old(self)@.pending_client_events,
            final(self)@ == (VoiceStreamView { pending_client_events: Seq::empty(), ..old(self)@ }),
    {
        let mut events: Vec<ClientEvent> = Vec::new();
        std::mem::swap(&mut events, &mut self.pending_client_events);
        assert(events_view(self.pending_client_events@) =~= Seq::<ClientEventView>::empty());
        events
    }
}

/// What the server said about a converted chunk, by its views.
pub struct ChunkNoteView {
    pub tts_job_id: Option<Seq<char>>,
    pub chunk_id: Option<Seq<char>>,
    pub audio_chunk_index: Option<u64>,
    pub expected_bytes: Option<u64>,
}

pub open spec fn chunk_note_view(c: PendingOutputChunk) -> ChunkNoteView {
    ChunkNoteView {
        tts_job_id: opt_str(c.tts_job_id),
        chunk_id: opt_str(c.chunk_id),
        audio_chunk_index: c.audio_chunk_index,
        expected_bytes: c.expected_bytes,
    }
}

/// The note a `tts.audio_chunk` event gives about the chunk that follows it.
pub open spec fn announced_chunk(e: RealtimeEventView) -> ChunkNoteView {
    ChunkNoteView {
        tts_job_id: e.payload_text("tts_job_id"@),
        chunk_id: e.payload_text("chunk_id"@),
        audio_chunk_index: e.payload_u64("audio_chunk_index"@),
        expected_bytes: e.payload_u64("bytes"@),
    }
}

/// How the stream loop goes on after a server event.
#[derive(Debug)]
pub enum StreamStep {
    Continue,
    /// The server reported an error; the stream fails with it.
    Fail(AppError),
    /// The server completed the session; the loop ends.
    Finish,
}

/// The message of an error event: its `message`, or else its JSON text.
pub open spec fn event_message(e: RealtimeEventView, raw: Seq<char>) -> Seq<char> {
    match e.payload_text("message"@) {
        Some(m) => m,
        None => raw,
    }
}

/// The step after event `e` (with JSON text `raw`).
pub open spec fn server_event_step_ok(e: RealtimeEventView, raw: Seq<char>, step: StreamStep) -> bool {
    let n = e.event_name();
    if n == Some("error"@) || n == Some("session.error"@) {
        step matches StreamStep::Fail(err) && session_error(err, "FunSpeech realtime error: "@ + event_message(e, raw))
    } else if n == Some("session_completed"@) {
        step is Finish
    } else {
        step is Continue
    }
}

impl VoiceStreamState {
    /// Waiting flow-control events go out before a TTS job's completion is handled.
    pub fn needs_flush_before(&self, event: &RealtimeEvent) -> (r: bool)
        ensures
            r == ((event@.event_name() == Some("tts.job_completed"@) || event@.event_name() == Some(
                "tts_completed"@,
            )) && self@.pending_client_events.len() > 0),
    {
        let completed = match event.event_name() {
            Some(n) => same_text(n.as_str(), "tts.job_completed") || same_text(n.as_str(), "tts_completed"),
            None => false,
        };
        completed && self.pending_client_events.len() > 0
    }

    /// Handles a server event (`raw` is its JSON text, `wall_ms` the time for
    /// the ledger): a `tts.audio_chunk` announcement is queued for the binary
    /// chunk that follows, the event is applied to the snapshot, and error and
    /// completion events end the loop.
    pub fn on_server_event(&mut self, event: &RealtimeEvent, raw: &str, wall_ms: i64) -> (step: StreamStep)
        requires
            event_fits(old(self)@.snapshot, event@),
        ensures
            final(self)@.snapshot == json_event_effect(old(self)@.snapshot, event@, wall_ms),
            if event@.event_name() == Some("tts.audio_chunk"@) {
                &&& final(self)@.pending_output_chunks.len() == old(self)@.pending_output_chunks.len() + 1
                &&& final(self)@.pending_output_chunks.drop_last() == old(self)@.pending_output_chunks
                &&& chunk_note_view(final(self)@.pending_output_chunks.last()) == announced_chunk(event@)
            } else {
                final(self)@.pending_output_chunks == old(self)@.pending_output_chunks
            },
            final(self)@ == (VoiceStreamView {
                snapshot: final(self)@.snapshot,
                pending_output_chunks: final(self)@.pending_output_chunks,
                ..old(self)@
            }),
            server_event_step_ok(event@, raw@, step),
    {
        let name = event.event_name();
        let is_chunk = match &name {
            Some(n) => same_text(n.as_str(), "tts.audio_chunk"),
            None => false,
        };
        if is_chunk {
            let note = PendingOutputChunk {
                chunk_id: event.payload_string("chunk_id"),
                tts_job_id: event.payload_string("tts_job_id"),
                audio_chunk_index: event.payload_u64("audio_chunk_index"),
                expected_bytes: event.payload_u64("bytes"),
            };
            let ghost before = self.pending_output_chunks@;
            self.pending_output_chunks.push(note);
            assert(self.pending_output_chunks@.drop_last() =~= before);
        }
        apply_json_event_at(&mut self.snapshot, event, wall_ms);
        let (is_error, is_done) = match &name {
            Some(n) => (
                same_text(n.as_str(), "error") || same_text(n.as_str(), "session.error"),
                same_text(n.as_str(), "session_completed"),
            ),
            None => (false, false),
        };
        if is_error {
            let message = match event.payload_string("message") {
                Some(m) => m,
                None => String::from_str(raw),
            };
            StreamStep::Fail(AppError::realtime_session(concat2("FunSpeech realtime error: ", message.as_str())))
        } else if is_done {
            StreamStep::Finish
        } else {
            StreamStep::Continue
        }
    }
}

/// A dropped chunk, by its views.
pub struct DropNote {
    pub audio_chunk_index: u64,
    pub tts_job_id: Option<Seq<char>>,
    pub chunk_id: Option<Seq<char>>,
    pub status: Seq<char>,
}

pub open spec fn drop_note(d: PlaybackDrop) -> DropNote {
    DropNote {
        audio_chunk_index: d.audio_chunk_index,
        tts_job_id: opt_str(d.tts_job_id),
        chunk_id: opt_str(d.chunk_id),
        status: d.status@,
    }
}

/// The buffer after `enqueue` offered it the chunk described by `m`.
pub open spec fn after_enqueue(b: PlaybackBufferView, m: PendingOutputChunk, bytes: Vec<u8>, latency_ms: Option<u64>) -> PlaybackBufferView {
    let k = b.enqueue_index(m.audio_chunk_index);
    let e = Some(b.expected_after_offer(k));
    if b.verdict(k) is Accepted {
        PlaybackBufferView {
            expected: e,
            pending: b.pending.insert(
                insertion_point(b.pending, k),
                (k, PendingPlaybackFrame { metadata: m, bytes, latency_ms }),
            ),
            ..b
        }
    } else {
        PlaybackBufferView { expected: e, ..b }
    }
}

/// The drop `enqueue` reports for the chunk described by `m`, if it drops it.
pub open spec fn enqueue_drop(b: PlaybackBufferView, m: PendingOutputChunk) -> Option<DropNote> {
    let k = b.enqueue_index(m.audio_chunk_index);
    let note = |status: Seq<char>|
        DropNote { audio_chunk_index: k, tts_job_id: opt_str(m.tts_job_id), chunk_id: opt_str(m.chunk_id), status };
    match b.verdict(k) {
        EnqueueVerdict::Accepted => None,
        EnqueueVerdict::Late => Some(note("late_drop"@)),
        EnqueueVerdict::Duplicate => Some(note("duplicate_drop"@)),
    }
}

/// The drops `apply_pressure` reports on `b`: the skipped index, then the
/// oldest chunks beyond the limit.
pub open spec fn pressure_drops(b: PlaybackBufferView) -> Seq<DropNote> {
    let (mid, gap) = b.gap_step();
    let head = match gap {
        Some(g) => seq![DropNote { audio_chunk_index: g, tts_job_id: None, chunk_id: None, status: "gap_skip"@ }],
        None => Seq::empty(),
    };
    head + Seq::new(
        mid.overflow_count(),
        |i: int|
            DropNote {
                audio_chunk_index: mid.pending[i].0,
                tts_job_id: opt_str(mid.pending[i].1.metadata.tts_job_id),
                chunk_id: opt_str(mid.pending[i].1.metadata.chunk_id),
                status: "playback_overflow_drop"@,
            },
    )
}

/// The ledger entry of a received binary chunk.
pub open spec fn binary_entry(m: Option<ChunkNoteView>, len: u64, q: u64, wall_ms: i64) -> RealtimeLedgerEntryView {
    RealtimeLedgerEntryView {
        audio_chunk_index: match m {
            Some(n) => n.audio_chunk_index,
            None => None,
        },
        tts_job_id: match m {
            Some(n) => n.tts_job_id,
            None => None,
        },
        playback_queue_ms: Some(q),
        status: Some("received"@),
        message: Some("bytes="@ + decimal_seq(len as nat)),
        ..ledger_entry("output_receive"@, "audio_binary_received"@, wall_ms)
    }
}

/// A binary chunk of `len` bytes arrived while `q` ms of audio waited.
pub open spec fn binary_received_view(s: SnapView, m: Option<ChunkNoteView>, len: u64, q: u64, wall_ms: i64) -> SnapView {
    SnapView {
        received_frames: (s.received_frames + 1) as u64,
        received_bytes: (s.received_bytes + len) as u64,
        output_received_frames: (s.output_received_frames + 1) as u64,
        output_playback_queue_ms: q,
        pipeline_stage: "realtime_voice_buffering_audio"@,
        ledger: ledger_push(s.ledger, binary_entry(m, len, q, wall_ms)),
        ..s
    }
}

/// A drop recorded while `q` ms of audio wait; a drop under pressure also
/// leaves a back-pressure hint.
pub open spec fn drop_recorded_view(s: SnapView, d: DropNote, q: u64, wall_ms: i64, under_pressure: bool) -> SnapView {
    let s1 = drop_status_effect(s, d.status);
    SnapView {
        output_playback_queue_ms: q,
        backpressure_hint: if under_pressure {
            Some("播放队列压力过高，已跳到最新连续音频窗口"@)
        } else {
            s1.backpressure_hint
        },
        ledger: ledger_push(
            s1.ledger,
            RealtimeLedgerEntryView {
                tts_job_id: d.tts_job_id,
                audio_chunk_index: Some(d.audio_chunk_index),
                playback_queue_ms: Some(q),
                status: Some(d.status),
                ..ledger_entry("playback"@, "audio_chunk_dropped"@, wall_ms)
            },
        ),
        ..s1
    }
}

/// The flow-control events reporting a drop.
pub open spec fn drop_events_view(d: DropNote, q: u64) -> Seq<ClientEventView> {
    let head = match played_event_view(d.chunk_id, d.tts_job_id, d.audio_chunk_index, d.status, q) {
        Some(e) => seq![e],
        None => Seq::empty(),
    };
    head.push(backpressure_event_view("drop"@, q, d.status))
}

pub open spec fn drops_recorded_view(s: SnapView, ds: Seq<DropNote>, q: u64, wall_ms: i64) -> SnapView
    decreases ds.len(),
{
    if ds.len() == 0 {
        s
    } else {
        drop_recorded_view(drops_recorded_view(s, ds.drop_last(), q, wall_ms), ds.last(), q, wall_ms, true)
    }
}

pub open spec fn drops_events_view(ds: Seq<DropNote>, q: u64) -> Seq<ClientEventView>
    decreases ds.len(),
{
    if ds.len() == 0 {
        Seq::empty()
    } else {
        drops_events_view(ds.drop_last(), q) + drop_events_view(ds.last(), q)
    }
}

/// A binary chunk of `len` bytes arrived at `now_ms`: the oldest announcement
/// and the oldest sent frame are taken for it, and its arrival is recorded.
pub open spec fn received_effect(v: VoiceStreamView, len: u64, now_ms: u64, wall_ms: i64) -> VoiceStreamView {
    let meta = if v.pending_output_chunks.len() > 0 {
        Some(chunk_note_view(v.pending_output_chunks[0]))
    } else {
        None
    };
    VoiceStreamView {
        snapshot: binary_received_view(v.snapshot, meta, len, queue_ms(v.playback, v.format), wall_ms),
        pending_output_chunks: if v.pending_output_chunks.len() > 0 {
            v.pending_output_chunks.drop_first()
        } else {
            v.pending_output_chunks
        },
        pending_sends_ms: if v.pending_sends_ms.len() > 0 {
            v.pending_sends_ms.drop_first()
        } else {
            v.pending_sends_ms
        },
        ..v
    }
}

/// The chunk is checked against its announcement `meta` and offered to the
/// playback buffer; a chunk without announcement counts as a mismatch.
pub open spec fn offer_effect(
    v: VoiceStreamView,
    meta: Option<PendingOutputChunk>,
    bytes: Vec<u8>,
    latency: Option<u64>,
    wall_ms: i64,
) -> VoiceStreamView {
    let s1 = v.snapshot;
    let len = bytes@.len();
    let (s2, b1, ev1) = match meta {
        None => (
            SnapView { output_ack_mismatches: (s1.output_ack_mismatches + 1) as u64, ..s1 },
            v.playback,
            Seq::<ClientEventView>::empty(),
        ),
        Some(m) => {
            let s_ack = if m.expected_bytes matches Some(e) && e != len {
                SnapView { output_ack_mismatches: (s1.output_ack_mismatches + 1) as u64, ..s1 }
            } else {
                s1
            };
            let b1 = after_enqueue(v.playback, m, bytes, latency);
            match enqueue_drop(v.playback, m) {
                Some(d) => (
                    drop_recorded_view(s_ack, d, queue_ms(b1, v.format), wall_ms, false),
                    b1,
                    drop_events_view(d, queue_ms(b1, v.format)),
                ),
                None => (s_ack, b1, Seq::<ClientEventView>::empty()),
            }
        },
    };
    VoiceStreamView {
        snapshot: SnapView { output_playback_queue_ms: queue_ms(b1, v.format), ..s2 },
        playback: b1,
        pending_client_events: v.pending_client_events + ev1,
        ..v
    }
}

/// Pressure on the playback buffer is relieved; every drop is recorded and reported.
pub open spec fn pressure_effect(v: VoiceStreamView, wall_ms: i64) -> VoiceStreamView {
    let b2 = v.playback.after_pressure();
    let ds = pressure_drops(v.playback);
    VoiceStreamView {
        snapshot: drops_recorded_view(v.snapshot, ds, queue_ms(b2, v.format), wall_ms),
        playback: b2,
        pending_client_events: v.pending_client_events + drops_events_view(ds, queue_ms(b2, v.format)),
        ..v
    }
}

/// The loop state after a binary chunk arrived at `now_ms`: it is matched with
/// the oldest announcement and the oldest sent frame, recorded, offered to the
/// playback buffer, and pressure on the buffer is relieved; every drop is
/// counted and reported to the server.
pub open spec fn output_binary_effect(v: VoiceStreamView, bytes: Vec<u8>, now_ms: u64, wall_ms: i64) -> VoiceStreamView {
    let meta = if v.pending_output_chunks.len() > 0 {
        Some(v.pending_output_chunks[0])
    } else {
        None
    };
    let latency = if v.pending_sends_ms.len() > 0 {
        Some((now_ms - v.pending_sends_ms[0]) as u64)
    } else {
        None
    };
    pressure_effect(
        offer_effect(received_effect(v, bytes@.len() as u64, now_ms, wall_ms), meta, bytes, latency, wall_ms),
        wall_ms,
    )
}

/// The counters a binary chunk can raise have room: one more received frame,
/// its bytes, one acknowledgement mismatch, and up to three drops.
pub open spec fn binary_counters_fit(s: SnapView, len: int) -> bool {
    &&& s.received_frames < u64::MAX
    &&& s.received_bytes + len <= u64::MAX
    &&& s.output_received_frames < u64::MAX
    &&& s.output_ack_mismatches < u64::MAX
    &&& s.output_gap_skips + 3 <= u64::MAX
    &&& s.output_late_drops + 3 <= u64::MAX
    &&& s.output_overflow_drops + 3 <= u64::MAX
    &&& s.output_duplicate_drops + 3 <= u64::MAX
}

/// Whether a binary chunk of `len` bytes fits the counters (see `binary_counters_fit`).
pub fn binary_counters_fit_for(s: &RealtimeStreamSnapshot, len: usize) -> (r: bool)
    ensures
        r == binary_counters_fit(s@, len as int),
{
    s.received_frames < u64::MAX && (len as u64) <= u64::MAX - s.received_bytes && s.output_received_frames
        < u64::MAX && s.output_ack_mismatches < u64::MAX && s.output_gap_skips <= u64::MAX - 3
        && s.output_late_drops <= u64::MAX - 3 && s.output_overflow_drops <= u64::MAX - 3
        && s.output_duplicate_drops <= u64::MAX - 3
}

proof fn lemma_queue_fits(n: nat, frame_ms: u16)
    requires
        n <= PLAYBACK_MAX_PENDING + 1,
    ensures
        n * frame_ms <= 601 * 65535,
        n * frame_ms <= usize::MAX,
{
    assert(n * frame_ms <= 601 * 65535) by (nonlinear_arith)
        requires
            n <= 601,
            frame_ms <= 65535,
    ;
}

impl VoiceStreamState {
    /// Records `d` while `q` ms of audio wait and queues its reports.
    fn record_drop(&mut self, d: &PlaybackDrop, q: u64, wall_ms: i64, under_pressure: bool)
        requires
            d.status@ == "gap_skip"@ ==> old(self).snapshot.output_gap_skips < u64::MAX,
            d.status@ == "late_drop"@ ==> old(self).snapshot.output_late_drops < u64::MAX,
            d.status@ == "playback_overflow_drop"@ ==> old(self).snapshot.output_overflow_drops < u64::MAX,
            d.status@ == "duplicate_drop"@ ==> old(self).snapshot.output_duplicate_drops < u64::MAX,
        ensures
            final(self)@ == (VoiceStreamView {
                snapshot: drop_recorded_view(old(self)@.snapshot, drop_note(*d), q, wall_ms, under_pressure),
                pending_client_events: old(self)@.pending_client_events + drop_events_view(drop_note(*d), q),
                ..old(self)@
            }),
    {
        apply_output_drop_status(&mut self.snapshot, d.status);
        self.snapshot.output_playback_queue_ms = q;
        if under_pressure {
            self.snapshot.backpressure_hint = Some(String::from_str("播放队列压力过高，已跳到最新连续音频窗口"));
        }
        let mut entry = RealtimeLedgerEntry::new("playback", "audio_chunk_dropped", wall_ms);
        entry.tts_job_id = clone_opt_string(&d.tts_job_id);
        entry.audio_chunk_index = Some(d.audio_chunk_index);
        entry.playback_queue_ms = Some(q);
        entry.status = Some(String::from_str(d.status));
        push_ledger(&mut self.snapshot, entry);
        let ghost before = self.pending_client_events@;
        let played = client_audio_played_event(
            clone_opt_string(&d.chunk_id),
            clone_opt_string(&d.tts_job_id),
            d.audio_chunk_index,
            d.status,
            q,
        );
        if let Some(e) = played {
            self.pending_client_events.push(e);
        }
        self.pending_client_events.push(client_audio_backpressure_event("drop", q, d.status));
        assert(events_view(self.pending_client_events@) =~= events_view(before) + drop_events_view(drop_note(*d), q));
    }
}

impl VoiceStreamState {
    fn take_chunk_context(&mut self, len: u64, now_ms: u64, wall_ms: i64) -> (r: (Option<PendingOutputChunk>, Option<u64>))
        requires
            old(self)@.inv(),
            old(self)@.pending_sends_ms.len() > 0 ==> old(self)@.pending_sends_ms[0] <= now_ms,
            binary_counters_fit(old(self)@.snapshot, len as int),
        ensures
            final(self)@ == received_effect(old(self)@, len, now_ms, wall_ms),
            r.0 == (if old(self)@.pending_output_chunks.len() > 0 {
                Some(old(self)@.pending_output_chunks[0])
            } else {
                None
            }),
            r.1 == (if old(self)@.pending_sends_ms.len() > 0 {
                Some((now_ms - old(self)@.pending_sends_ms[0]) as u64)
            } else {
                None
            }),
    {
        let meta = if self.pending_output_chunks.len() > 0 {
            Some(self.pending_output_chunks.remove(0))
        } else {
            None
        };
        let latency = if self.pending_sends_ms.len() > 0 {
            let sent_at = self.pending_sends_ms.remove(0);
            Some(now_ms - sent_at)
        } else {
            None
        };
        proof {
            lemma_queue_fits(self.playback@.pending.len(), self.format.frame_ms);
        }
        let q0 = self.playback.queued_ms(self.format) as u64;
        self.snapshot.received_frames = self.snapshot.received_frames + 1;
        self.snapshot.received_bytes = self.snapshot.received_bytes + len;
        self.snapshot.output_received_frames = self.snapshot.output_received_frames + 1;
        self.snapshot.output_playback_queue_ms = q0;
        self.snapshot.pipeline_stage = String::from_str("realtime_voice_buffering_audio");
        let mut entry = RealtimeLedgerEntry::new("output_receive", "audio_binary_received", wall_ms);
        match &meta {
            Some(m) => {
                entry.audio_chunk_index = m.audio_chunk_index;
                entry.tts_job_id = clone_opt_string(&m.tts_job_id);
            },
            None => {},
        }
        entry.playback_queue_ms = Some(q0);
        entry.status = Some(String::from_str("received"));
        entry.message = Some(concat2("bytes=", decimal(len).as_str()));
        push_ledger(&mut self.snapshot, entry);
        (meta, latency)
    }

    fn offer_chunk(
        &mut self,
        meta: Option<PendingOutputChunk>,
        bytes: Vec<u8>,
        latency: Option<u64>,
        wall_ms: i64,
    )
        requires
            old(self)@.playback.wf(),
            old(self)@.playback.max_pending == PLAYBACK_MAX_PENDING,
            old(self)@.playback.pending.len() <= PLAYBACK_MAX_PENDING,
            old(self)@.snapshot.output_ack_mismatches < u64::MAX,
            old(self)@.snapshot.output_late_drops < u64::MAX,
            old(self)@.snapshot.output_duplicate_drops < u64::MAX,
        ensures
            final(self)@ == offer_effect(old(self)@, meta, bytes, latency, wall_ms),
            final(self)@.playback.wf(),
            final(self)@.playback.pending.len() <= PLAYBACK_MAX_PENDING + 1,
    {
        let ghost v = self@;
        let len = bytes.len() as u64;
        proof {
            reveal_strlit("late_drop");
            reveal_strlit("duplicate_drop");
            reveal_strlit("gap_skip");
            reveal_strlit("playback_overflow_drop");
        }
        match meta {
            Some(m) => {
                let mismatch = match m.expected_bytes {
                    Some(e) => e != len,
                    None => false,
                };
                if mismatch {
                    self.snapshot.output_ack_mismatches = self.snapshot.output_ack_mismatches + 1;
                }
                let ghost m_in = m;
                let r = self.playback.enqueue(m, bytes, latency);
                assert(self@.playback == after_enqueue(v.playback, m_in, bytes, latency));
                proof {
                    lemma_queue_fits(self.playback@.pending.len(), self.format.frame_ms);
                }
                if let Err(d) = r {
                    let q1 = self.playback.queued_ms(self.format) as u64;
                    let ghost k = v.playback.enqueue_index(m_in.audio_chunk_index);
                    assert(!(v.playback.verdict(k) is Accepted));
                    assert(d.status@ == "late_drop"@ || d.status@ == "duplicate_drop"@);
                    assert(d.status@ != "playback_overflow_drop"@);
                    assert(Some(drop_note(d)) == enqueue_drop(v.playback, m_in));
                    self.record_drop(&d, q1, wall_ms, false);
                } else {
                    assert(enqueue_drop(v.playback, m_in) is None);
                }
            },
            None => {
                self.snapshot.output_ack_mismatches = self.snapshot.output_ack_mismatches + 1;
            },
        }
        proof {
            lemma_queue_fits(self.playback@.pending.len(), self.format.frame_ms);
        }
        self.snapshot.output_playback_queue_ms = self.playback.queued_ms(self.format) as u64;
        assert(self@.pending_client_events =~= offer_effect(v, meta, bytes, latency, wall_ms).pending_client_events);
    }

    fn relieve_pressure(&mut self, wall_ms: i64)
        requires
            old(self)@.playback.wf(),
            old(self)@.playback.max_pending == PLAYBACK_MAX_PENDING,
            old(self)@.playback.pending.len() <= PLAYBACK_MAX_PENDING + 1,
            old(self)@.snapshot.output_gap_skips + 2 <= u64::MAX,
            old(self)@.snapshot.output_overflow_drops + 2 <= u64::MAX,
        ensures
            final(self)@ == pressure_effect(old(self)@, wall_ms),
            final(self)@.inv(),
    {
        let ghost b1 = self.playback@;
        proof {
            reveal_strlit("late_drop");
            reveal_strlit("duplicate_drop");
            reveal_strlit("gap_skip");
            reveal_strlit("playback_overflow_drop");
        }
        let drops = self.playback.apply_pressure();
        proof {
            crate::playback::lemma_pressure_bounds_queue(b1);
            lemma_queue_fits(self.playback@.pending.len(), self.format.frame_ms);
        }
        let q2 = self.playback.queued_ms(self.format) as u64;
        let ghost s3 = self@.snapshot;
        let ghost ev3 = self@.pending_client_events;
        let ghost rest = self@;
        let ghost ds = pressure_drops(b1);
        proof {
            let (mid, gap) = b1.gap_step();
            let g: int = if gap is Some { 1 } else { 0 };
            assert(mid.overflow_count() <= 1);
            assert(drops@.len() == g + mid.overflow_count());

            assert forall|j: int| 0 <= j < ds.len() implies drop_note(#[trigger] drops@[j]) == ds[j] by {
                if j >= g {
                    assert(crate::playback::drop_reports(drops@[j], mid.pending[j - g], "playback_overflow_drop"@));
                }
            }
        }
        let mut i: usize = 0;
        while i < drops.len()
            invariant
                i <= drops.len(),
                drops@.len() == ds.len(),
                ds.len() <= 2,
                forall|j: int| 0 <= j < ds.len() ==> drop_note(#[trigger] drops@[j]) == ds[j],
                forall|j: int| 0 <= j < ds.len() ==> (#[trigger] ds[j]).status == "gap_skip"@ || ds[j].status == "playback_overflow_drop"@,
                s3.output_gap_skips + 2 <= u64::MAX,
                s3.output_overflow_drops + 2 <= u64::MAX,
                self@.snapshot.output_gap_skips <= s3.output_gap_skips + i,
                self@.snapshot.output_overflow_drops <= s3.output_overflow_drops + i,
                self@ == (VoiceStreamView {
                    snapshot: drops_recorded_view(s3, ds.take(i as int), q2, wall_ms),
                    pending_client_events: ev3 + drops_events_view(ds.take(i as int), q2),
                    ..rest
                }),
            decreases drops.len() - i,
        {
            assert(ds.take(i as int + 1).drop_last() =~= ds.take(i as int));
            assert(drop_note(drops@[i as int]) == ds[i as int]);
            proof {
                reveal_strlit("late_drop");
                reveal_strlit("duplicate_drop");
                reveal_strlit("gap_skip");
                reveal_strlit("playback_overflow_drop");
            }
            self.record_drop(&drops[i], q2, wall_ms, true);
            i += 1;
            assert(ds.take(i as int).last() == ds[i as int - 1]);
            assert(ev3 + drops_events_view(ds.take(i as int), q2) =~= ev3 + drops_events_view(ds.take(i as int - 1), q2)
                + drop_events_view(ds[i as int - 1], q2));
        }
        assert(ds.take(drops.len() as int) =~= ds);
    }

    /// Handles a binary chunk of converted audio that arrived at `now_ms` (see
    /// `output_binary_effect`); says whether flow-control events wait to be sent.
    pub fn on_output_binary(&mut self, bytes: Vec<u8>, now_ms: u64, wall_ms: i64) -> (flush: bool)
        requires
            old(self)@.inv(),
            old(self)@.pending_sends_ms.len() > 0 ==> old(self)@.pending_sends_ms[0] <= now_ms,
            binary_counters_fit(old(self)@.snapshot, bytes@.len() as int),
        ensures
            final(self)@.inv(),
            final(self)@ == output_binary_effect(old(self)@, bytes, now_ms, wall_ms),
            flush == (final(self)@.pending_client_events.len() > 0),
    {
        let len = bytes.len() as u64;
        let (meta, latency) = self.take_chunk_context(len, now_ms, wall_ms);
        self.offer_chunk(meta, bytes, latency, wall_ms);
        self.relieve_pressure(wall_ms);
        self.pending_client_events.len() > 0
    }
}

/// A frame taken from the playback buffer, to be written to the devices.
#[derive(Debug)]
pub struct PlaybackStart {
    pub index: u64,
    pub frame: PendingPlaybackFrame,
    /// Milliseconds since the previous frame was played, if one was.
    pub frame_gap_ms: Option<u64>,
}

/// How writing a frame to the virtual microphone went.
#[derive(Debug, Clone, PartialEq, Eq)]
pub enum VirtualMicWrite {
    /// The stream does not write to the virtual microphone.
    Skipped,
    Written,
    Failed(String),
}

pub open spec fn bool_text(b: bool) -> Seq<char> {
    if b {
        "true"@
    } else {
        "false"@
    }
}

/// The ledger entry of a played (or, when no device took it, queued) frame.
pub open spec fn played_entry(
    m: PendingOutputChunk,
    index: u64,
    q: u64,
    monitor_written: bool,
    vm_written: bool,
    wall_ms: i64,
) -> RealtimeLedgerEntryView {
    RealtimeLedgerEntryView {
        tts_job_id: opt_str(m.tts_job_id),
        audio_chunk_index: Some(index),
        playback_queue_ms: Some(q),
        status: Some(
            if monitor_written || vm_written {
                "played"@
            } else {
                "queued"@
            },
        ),
        message: Some("monitor="@ + bool_text(monitor_written) + " virtual_mic="@ + bool_text(vm_written)),
        ..ledger_entry("playback"@, "client_audio_played_queued"@, wall_ms)
    }
}

/// The loop state once frame `index` (described by `m`) has been played at
/// `now_ms`: counted, timed, logged, and reported to the server.
pub open spec fn played_effect(
    v: VoiceStreamView,
    index: u64,
    m: PendingOutputChunk,
    latency_ms: Option<u64>,
    frame_gap_ms: Option<u64>,
    monitor_written: bool,
    vm: VirtualMicWrite,
    now_ms: u64,
    wall_ms: i64,
) -> VoiceStreamView {
    let s = v.snapshot;
    let vm_written = vm is Written;
    let written = monitor_written || vm_written;
    let q = queue_ms(v.playback, v.format);
    let status = if written {
        "played"@
    } else {
        "queued"@
    };
    let events = match played_event_view(opt_str(m.chunk_id), opt_str(m.tts_job_id), index, status, q) {
        Some(e) => v.pending_client_events.push(e),
        None => v.pending_client_events,
    };
    VoiceStreamView {
        snapshot: SnapView {
            converted_frames: (s.converted_frames + 1) as u64,
            output_playable_frames: (s.output_playable_frames + 1) as u64,
            output_playback_queue_ms: q,
            output_last_frame_gap_ms: frame_gap_ms,
            output_max_frame_gap_ms: match frame_gap_ms {
                Some(g) => Some(
                    if s.output_max_frame_gap_ms.unwrap_or(0) >= g {
                        s.output_max_frame_gap_ms.unwrap_or(0)
                    } else {
                        g
                    },
                ),
                None => s.output_max_frame_gap_ms,
            },
            first_output_latency_ms: if s.first_output_latency_ms is None {
                Some((now_ms - v.output_timeline_started_at_ms) as u64)
            } else {
                s.first_output_latency_ms
            },
            last_output_at_ms: Some(wall_ms),
            latency_ms,
            pipeline_stage: "realtime_voice_received_audio"@,
            last_prompt: Some("正在输出转换后语音"@),
            output_written_frames: if written {
                (s.output_written_frames + 1) as u64
            } else {
                s.output_written_frames
            },
            tts_job_id: opt_str(m.tts_job_id),
            audio_chunk_index: m.audio_chunk_index,
            monitor_frames: if monitor_written {
                (s.monitor_frames + 1) as u64
            } else {
                s.monitor_frames
            },
            virtual_mic_frames: if vm_written {
                (s.virtual_mic_frames + 1) as u64
            } else {
                s.virtual_mic_frames
            },
            last_error: match vm {
                VirtualMicWrite::Failed(e) => Some(e@),
                _ => s.last_error,
            },
            ledger: ledger_push(s.ledger, played_entry(m, index, q, monitor_written, vm_written, wall_ms)),
            ..s
        },
        pending_client_events: events,
        ..v
    }
}

/// The playback counters have room for one more frame.
pub open spec fn playback_counters_fit(s: SnapView) -> bool {
    &&& s.converted_frames < u64::MAX
    &&& s.output_playable_frames < u64::MAX
    &&& s.output_written_frames < u64::MAX
    &&& s.monitor_frames < u64::MAX
    &&& s.virtual_mic_frames < u64::MAX
}

/// Whether playing a frame fits the counters (see `playback_counters_fit`).
pub fn playback_counters_fit_for(s: &RealtimeStreamSnapshot) -> (r: bool)
    ensures
        r == playback_counters_fit(s@),
{
    s.converted_frames < u64::MAX && s.output_playable_frames < u64::MAX && s.output_written_frames < u64::MAX
        && s.monitor_frames < u64::MAX && s.virtual_mic_frames < u64::MAX
}

impl VoiceStreamState {
    /// On a playback tick at `now_ms`: takes the next frame in order from the
    /// buffer, if it is there, and measures the gap since the previous one.
    pub fn begin_playback(&mut self, now_ms: u64) -> (r: Option<PlaybackStart>)
        requires
            old(self)@.inv(),
            old(self)@.last_playable_output_at_ms matches Some(t) ==> t <= now_ms,
        ensures
            final(self)@.inv(),
            final(self)@.playback == old(self)@.playback.after_pop(old(self)@.format.frame_ms as nat).0,
            match r {
                Some(p) => {
                    &&& old(self)@.playback.after_pop(old(self)@.format.frame_ms as nat).1 == Some(p.index)
                    &&& old(self)@.playback.pending.len() > 0
                    &&& old(self)@.playback.pending[0] == (p.index, p.frame)
                    &&& p.frame_gap_ms == match old(self)@.last_playable_output_at_ms {
                        Some(t) => Some((now_ms - t) as u64),
                        None => None,
                    }
                    &&& final(self)@ == (VoiceStreamView {
                        playback: final(self)@.playback,
                        last_playable_output_at_ms: Some(now_ms),
                        ..old(self)@
                    })
                },
                None => {
                    &&& old(self)@.playback.after_pop(old(self)@.format.frame_ms as nat).1 is None
                    &&& final(self)@ == (VoiceStreamView { playback: final(self)@.playback, ..old(self)@ })
                },
            },
    {
        proof {
            lemma_queue_fits(self.playback@.pending.len(), self.format.frame_ms);
        }
        let popped = self.playback.pop_playable(self.format);
        match popped {
            None => None,
            Some((index, frame)) => {
                let frame_gap_ms = match self.last_playable_output_at_ms {
                    Some(t) => Some(now_ms - t),
                    None => None,
                };
                self.last_playable_output_at_ms = Some(now_ms);
                Some(PlaybackStart { index, frame, frame_gap_ms })
            },
        }
    }

    /// Records that frame `index` (announced as `metadata`) was played at
    /// `now_ms` (see `played_effect`).
    pub fn finish_playback(
        &mut self,
        index: u64,
        metadata: PendingOutputChunk,
        latency_ms: Option<u64>,
        frame_gap_ms: Option<u64>,
        monitor_written: bool,
        virtual_mic: VirtualMicWrite,
        now_ms: u64,
        wall_ms: i64,
    )
        requires
            old(self)@.inv(),
            old(self)@.output_timeline_started_at_ms <= now_ms,
            playback_counters_fit(old(self)@.snapshot),
        ensures
            final(self)@.inv(),
            final(self)@ == played_effect(
                old(self)@,
                index,
                metadata,
                latency_ms,
                frame_gap_ms,
                monitor_written,
                virtual_mic,
                now_ms,
                wall_ms,
            ),
    {
        let ghost v = self@;
        proof {
            lemma_queue_fits(self.playback@.pending.len(), self.format.frame_ms);
        }
        let q = self.playback.queued_ms(self.format) as u64;
        let vm_written = match &virtual_mic {
            VirtualMicWrite::Written => true,
            _ => false,
        };
        let written = monitor_written || vm_written;
        self.snapshot.converted_frames = self.snapshot.converted_frames + 1;
        self.snapshot.output_playable_frames = self.snapshot.output_playable_frames + 1;
        self.snapshot.output_playback_queue_ms = q;
        self.snapshot.output_last_frame_gap_ms = frame_gap_ms;
        if let Some(g) = frame_gap_ms {
            let prev = match self.snapshot.output_max_frame_gap_ms {
                Some(p) => p,
                None => 0,
            };
            self.snapshot.output_max_frame_gap_ms = Some(if prev >= g { prev } else { g });
        }
        if self.snapshot.first_output_latency_ms.is_none() {
            self.snapshot.first_output_latency_ms = Some(now_ms - self.output_timeline_started_at_ms);
        }
        self.snapshot.last_output_at_ms = Some(wall_ms);
        self.snapshot.latency_ms = latency_ms;
        self.snapshot.pipeline_stage = String::from_str("realtime_voice_received_audio");
        self.snapshot.last_prompt = Some(String::from_str("正在输出转换后语音"));
        if written {
            self.snapshot.output_written_frames = self.snapshot.output_written_frames + 1;
        }
        self.snapshot.tts_job_id = clone_opt_string(&metadata.tts_job_id);
        self.snapshot.audio_chunk_index = metadata.audio_chunk_index;
        if monitor_written {
            self.snapshot.monitor_frames = self.snapshot.monitor_frames + 1;
        }
        match &virtual_mic {
            VirtualMicWrite::Written => {
                self.snapshot.virtual_mic_frames = self.snapshot.virtual_mic_frames + 1;
            },
            VirtualMicWrite::Failed(e) => {
                self.snapshot.last_error = Some(e.clone());
            },
            VirtualMicWrite::Skipped => {},
        }
        let status = if written {
            "played"
        } else {
            "queued"
        };
        let mut entry = RealtimeLedgerEntry::new("playback", "client_audio_played_queued", wall_ms);
        entry.tts_job_id = clone_opt_string(&metadata.tts_job_id);
        entry.audio_chunk_index = Some(index);
        entry.playback_queue_ms = Some(q);
        entry.status = Some(String::from_str(status));
        let m = concat3("monitor=", if monitor_written { "true" } else { "false" }, " virtual_mic=");
        entry.message = Some(concat2(m.as_str(), if vm_written { "true" } else { "false" }));
        push_ledger(&mut self.snapshot, entry);
        let ghost before = self.pending_client_events@;
        if let Some(e) = client_audio_played_event(metadata.chunk_id, metadata.tts_job_id, index, status, q) {
            self.pending_client_events.push(e);
            assert(events_view(self.pending_client_events@) =~= events_view(before).push(e@));
        }
    }
}

/// The ASR+TTS pipeline is connected and running.
pub fn mark_asr_tts_ready(s: &mut RealtimeStreamSnapshot)
    ensures
        final(s)@ == (SnapView {
            websocket_state: "running"@,
            pipeline_stage: "asr_tts_ready"@,
            audio_mode: Some("asr_tts_pipeline"@),
            last_event: Some("asr_tts_started"@),
            last_error: None,
            ..old(s)@
        }),
{
    s.websocket_state = String::from_str("running");
    s.pipeline_stage = String::from_str("asr_tts_ready");
    s.audio_mode = Some(String::from_str("asr_tts_pipeline"));
    s.last_event = Some(String::from_str("asr_tts_started"));
    s.last_error = None;
}

/// An input control reached the ASR+TTS pipeline, whose input is fixed for the session.
pub fn mark_input_control_ignored(s: &mut RealtimeStreamSnapshot, stopping: bool)
    ensures
        final(s)@ == (SnapView {
            last_event: Some("asr_tts_dynamic_input_ignored"@),
            last_error: Some(
                if stopping {
                    "ASR->TTS standalone pipeline stops input when the session stops"@
                } else {
                    "ASR->TTS standalone pipeline keeps input fixed for the current session"@
                },
            ),
            ..old(s)@
        }),
{
    s.last_event = Some(String::from_str("asr_tts_dynamic_input_ignored"));
    s.last_error = Some(
        String::from_str(
            if stopping {
                "ASR->TTS standalone pipeline stops input when the session stops"
            } else {
                "ASR->TTS standalone pipeline keeps input fixed for the current session"
            },
        ),
    );
}

/// A monitor control reached the ASR+TTS pipeline, which does not monitor.
pub fn mark_monitor_control_ignored(s: &mut RealtimeStreamSnapshot)
    ensures
        final(s)@ == (SnapView {
            monitor_state: "off"@,
            last_event: Some("asr_tts_monitor_ignored"@),
            last_error: Some("ASR->TTS standalone pipeline does not own realtime monitor output"@),
            ..old(s)@
        }),
{
    s.monitor_state = String::from_str("off");
    s.last_event = Some(String::from_str("asr_tts_monitor_ignored"));
    s.last_error = Some(String::from_str("ASR->TTS standalone pipeline does not own realtime monitor output"));
}

/// New conversion parameters (`params_text`, as shown) cannot reach a running TTS session.
pub fn mark_params_update_ignored(s: &mut RealtimeStreamSnapshot, params_text: &str)
    ensures
        final(s)@ == (SnapView {
            last_event: Some("tts_parameters_update_ignored"@),
            last_error: Some(
                "FunSpeech /ws/v1/tts StartSynthesis parameters are fixed for the current session: "@ + params_text@,
            ),
            ..old(s)@
        }),
{
    s.last_event = Some(String::from_str("tts_parameters_update_ignored"));
    s.last_error = Some(
        concat2("FunSpeech /ws/v1/tts StartSynthesis parameters are fixed for the current session: ", params_text),
    );
}

/// A voice switch cannot reach a running TTS session.
pub fn mark_voice_switch_ignored(s: &mut RealtimeStreamSnapshot, voice_name: &str)
    ensures
        final(s)@ == (SnapView {
            last_event: Some("tts_voice_switch_ignored"@),
            last_error: Some(
                "FunSpeech /ws/v1/tts voice is fixed until the realtime ASR->TTS session restarts: "@ + voice_name@,
            ),
            ..old(s)@
        }),
{
    s.last_event = Some(String::from_str("tts_voice_switch_ignored"));
    s.last_error = Some(
        concat2("FunSpeech /ws/v1/tts voice is fixed until the realtime ASR->TTS session restarts: ", voice_name),
    );
}

/// The ASR+TTS pipeline is asked to stop; its loop ends.
pub fn mark_asr_tts_stop_requested(s: &mut RealtimeStreamSnapshot)
    ensures
        final(s)@ == (SnapView {
            websocket_state: "stopping"@,
            pipeline_stage: "stopping"@,
            last_event: Some("stop_requested"@),
            ..old(s)@
        }),
{
    s.websocket_state = String::from_str("stopping");
    s.pipeline_stage = String::from_str("stopping");
    s.last_event = Some(String::from_str("stop_requested"));
}

/// An ASR message that is not valid JSON.
pub fn mark_invalid_asr_json(s: &mut RealtimeStreamSnapshot, error: &str)
    ensures
        final(s)@ == (SnapView { last_error: Some("invalid FunSpeech ASR event JSON: "@ + error@), ..old(s)@ }),
{
    s.last_error = Some(concat2("invalid FunSpeech ASR event JSON: ", error));
}

/// One of the pipeline's websockets (`asr` or `tts`) closed; its loop ends.
pub fn mark_pipeline_socket_closed(s: &mut RealtimeStreamSnapshot, asr: bool)
    ensures
        final(s)@ == (SnapView {
            websocket_state: "closed"@,
            pipeline_stage: if asr {
                "asr_closed"@
            } else {
                "tts_closed"@
            },
            last_event: Some(
                if asr {
                    "asr_closed"@
                } else {
                    "tts_closed"@
                },
            ),
            ..old(s)@
        }),
{
    s.websocket_state = String::from_str("closed");
    let name = if asr {
        "asr_closed"
    } else {
        "tts_closed"
    };
    s.pipeline_stage = String::from_str(name);
    s.last_event = Some(String::from_str(name));
}

/// The ASR+TTS loop ended normally.
pub fn mark_asr_tts_finished(s: &mut RealtimeStreamSnapshot)
    ensures
        final(s)@ == (SnapView {
            websocket_state: if old(s)@.websocket_state != "closed"@ {
                "stopped"@
            } else {
                old(s)@.websocket_state
            },
            ..old(s)@
        }),
{
    if !same_text(s.websocket_state.as_str(), "closed") {
        s.websocket_state = String::from_str("stopped");
    }
}

/// The ASR+TTS pipeline failed with `error` (its text).
pub fn mark_asr_tts_failed(s: &mut RealtimeStreamSnapshot, error: &str)
    ensures
        final(s)@ == (SnapView {
            websocket_state: "error"@,
            pipeline_stage: "error"@,
            last_error: Some(error@),
            ..old(s)@
        }),
{
    s.websocket_state = String::from_str("error");
    s.pipeline_stage = String::from_str("error");
    s.last_error = Some(String::from_str(error));
}

/// The state of the ASR+TTS pipeline loop between events.
#[derive(Debug)]
pub struct AsrTtsState {
    pub snapshot: RealtimeStreamSnapshot,
    /// Frames sent to ASR so far.
    pub sequence: u64,
    /// When each text sent to TTS and not yet answered with audio was sent, oldest first.
    pub pending_sends_ms: Vec<u64>,
    /// The last text sent to TTS.
    pub last_synthesized_text: String,
}

/// The text a final ASR result asks to synthesize: its trimmed text, unless
/// that is empty or what was synthesized last.
pub open spec fn text_to_synthesize(e: RealtimeEventView, last: Seq<char>) -> Option<Seq<char>> {
    if is_final_asr(e) {
        match asr_event_text(e) {
            Some(t) => {
                let t = trim_seq(t);
                if t.len() > 0 && t != last {
                    Some(t)
                } else {
                    None
                }
            },
            None => None,
        }
    } else {
        None
    }
}

impl AsrTtsState {
    /// A pipeline loop about to start.
    pub fn new(snapshot: RealtimeStreamSnapshot) -> (st: AsrTtsState)
        ensures
            st.snapshot@ == snapshot@,
            st.sequence == 0,
            st.pending_sends_ms@.len() == 0,
            st.last_synthesized_text@.len() == 0,
    {
        AsrTtsState { snapshot, sequence: 0, pending_sends_ms: Vec::new(), last_synthesized_text: String::new() }
    }

    /// A frame of `bytes_len` bytes was sent to ASR.
    pub fn on_frame_sent(&mut self, bytes_len: u64)
        requires
            old(self).sequence < u64::MAX,
            old(self).snapshot.sent_frames < u64::MAX,
            old(self).snapshot.sent_bytes + bytes_len <= u64::MAX,
        ensures
            final(self).sequence == old(self).sequence + 1,
            final(self).pending_sends_ms@ == old(self).pending_sends_ms@,
            final(self).last_synthesized_text@ == old(self).last_synthesized_text@,
            final(self).snapshot@ == (SnapView {
                sent_frames: (old(self).snapshot.sent_frames + 1) as u64,
                sent_bytes: (old(self).snapshot.sent_bytes + bytes_len) as u64,
                pipeline_stage: "asr_receiving_audio"@,
                ..old(self).snapshot@
            }),
    {
        self.sequence = self.sequence + 1;
        self.snapshot.sent_frames = self.snapshot.sent_frames + 1;
        self.snapshot.sent_bytes = self.snapshot.sent_bytes + bytes_len;
        self.snapshot.pipeline_stage = String::from_str("asr_receiving_audio");
    }

    /// Applies an ASR event, and returns the text to send to TTS, if any (see
    /// `text_to_synthesize`); that text becomes the last one synthesized.
    pub fn on_asr_event(&mut self, event: &RealtimeEvent) -> (r: Option<String>)
        ensures
            final(self).snapshot@ == asr_event_effect(old(self).snapshot@, event@),
            final(self).sequence == old(self).sequence,
            final(self).pending_sends_ms@ == old(self).pending_sends_ms@,
            match r {
                Some(t) => text_to_synthesize(event@, old(self).last_synthesized_text@) == Some(t@)
                    && final(self).last_synthesized_text@ == t@,
                None => text_to_synthesize(event@, old(self).last_synthesized_text@) is None
                    && final(self).last_synthesized_text@ == old(self).last_synthesized_text@,
            },
    {
        apply_asr_event(&mut self.snapshot, event);
        if !is_final_asr_event(event) {
            return None;
        }
        let text = match text_from_asr_event(event) {
            Some(t) => t,
            None => return None,
        };
        let t = trimmed(text.as_str());
        if t.unicode_len() > 0 && !same_text(t.as_str(), self.last_synthesized_text.as_str()) {
            self.last_synthesized_text = t.clone();
            Some(t)
        } else {
            None
        }
    }

    /// A text was sent to TTS at `now_ms`.
    pub fn on_tts_text_sent(&mut self, now_ms: u64)
        requires
            old(self).snapshot.tts_text_chunks < u64::MAX,
        ensures
            final(self).sequence == old(self).sequence,
            final(self).pending_sends_ms@ == old(self).pending_sends_ms@.push(now_ms),
            final(self).last_synthesized_text@ == old(self).last_synthesized_text@,
            final(self).snapshot@ == (SnapView {
                tts_text_chunks: (old(self).snapshot.tts_text_chunks + 1) as u64,
                pipeline_stage: "tts_synthesizing"@,
                last_event: Some("tts_text_sent"@),
                ..old(self).snapshot@
            }),
    {
        self.pending_sends_ms.push(now_ms);
        self.snapshot.tts_text_chunks = self.snapshot.tts_text_chunks + 1;
        self.snapshot.pipeline_stage = String::from_str("tts_synthesizing");
        self.snapshot.last_event = Some(String::from_str("tts_text_sent"));
    }

    /// TTS audio of `bytes_len` bytes arrived at `now_ms` and went to the
    /// virtual microphone as `virtual_mic` says; it answers the oldest text sent.
    pub fn on_tts_audio(&mut self, bytes_len: u64, now_ms: u64, virtual_mic: VirtualMicWrite)
        requires
            old(self).pending_sends_ms@.len() > 0 ==> old(self).pending_sends_ms@[0] <= now_ms,
            old(self).snapshot.received_frames < u64::MAX,
            old(self).snapshot.received_bytes + bytes_len <= u64::MAX,
            old(self).snapshot.converted_frames < u64::MAX,
            old(self).snapshot.virtual_mic_frames < u64::MAX,
        ensures
            final(self).sequence == old(self).sequence,
            final(self).last_synthesized_text@ == old(self).last_synthesized_text@,
            final(self).pending_sends_ms@ == if old(self).pending_sends_ms@.len() > 0 {
                old(self).pending_sends_ms@.drop_first()
            } else {
                old(self).pending_sends_ms@
            },
            final(self).snapshot@ == (SnapView {
                received_frames: (old(self).snapshot.received_frames + 1) as u64,
                received_bytes: (old(self).snapshot.received_bytes + bytes_len) as u64,
                converted_frames: (old(self).snapshot.converted_frames + 1) as u64,
                latency_ms: if old(self).pending_sends_ms@.len() > 0 {
                    Some((now_ms - old(self).pending_sends_ms@[0]) as u64)
                } else {
                    None
                },
                pipeline_stage: "tts_audio_received"@,
                virtual_mic_frames: if virtual_mic is Written {
                    (old(self).snapshot.virtual_mic_frames + 1) as u64
                } else {
                    old(self).snapshot.virtual_mic_frames
                },
                last_error: match virtual_mic {
                    VirtualMicWrite::Failed(e) => Some(e@),
                    _ => old(self).snapshot@.last_error,
                },
                ..old(self).snapshot@
            }),
    {
        let latency = if self.pending_sends_ms.len() > 0 {
            let sent_at = self.pending_sends_ms.remove(0);
            Some(now_ms - sent_at)
        } else {
            None
        };
        self.snapshot.received_frames = self.snapshot.received_frames + 1;
        self.snapshot.received_bytes = self.snapshot.received_bytes + bytes_len;
        self.snapshot.converted_frames = self.snapshot.converted_frames + 1;
        self.snapshot.latency_ms = latency;
        self.snapshot.pipeline_stage = String::from_str("tts_audio_received");
        match virtual_mic {
            VirtualMicWrite::Written => {
                self.snapshot.virtual_mic_frames = self.snapshot.virtual_mic_frames + 1;
            },
            VirtualMicWrite::Failed(e) => {
                self.snapshot.last_error = Some(e);
            },
            VirtualMicWrite::Skipped => {},
        }
    }
}

} // verus!
