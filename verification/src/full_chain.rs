use vstd::prelude::*;

use crate::realtime::{RealtimeStreamSnapshot, SnapView};
use crate::settings::{clone_opt_string, opt_str};
use crate::error::AppError;
use crate::frame::{PcmFormat, SampleFormat};
use crate::settings::AppSettings;
use crate::text::{
    concat2, decimal, decimal_seq, has_prefix, same_text, starts_with, strip_prefix, trim_end_char, trim_seq,
    trimmed, without_trailing,
};

verus! {

/// Checks a full-chain test request before anything starts: the audio must not
/// be empty (an audio error), then the trimmed voice name must not be empty (a
/// realtime-session error). Gives the trimmed voice name.
pub fn check_full_chain_request(audio_len: usize, voice_name: &str) -> (r: Result<String, AppError>)
    ensures
        match r {
            Ok(v) => audio_len > 0 && trim_seq(voice_name@).len() > 0 && v@ == trim_seq(voice_name@),
            Err(e) => if audio_len == 0 {
                e matches AppError::Audio { message } && message@ == "full-chain realtime test audio is empty"@
            } else {
                trim_seq(voice_name@).len() == 0 && (e matches AppError::RealtimeSession { message } && message@
                    == "voiceName is required"@)
            },
        },
{
    if audio_len == 0 {
        return Err(AppError::audio(String::from_str("full-chain realtime test audio is empty")));
    }
    let name = trimmed(voice_name);
    if name.unicode_len() == 0 {
        return Err(AppError::realtime_session(String::from_str("voiceName is required")));
    }
    Ok(name)
}

/// One poll of a full-chain test: the time since the test started and the
/// stream snapshot seen then.
#[derive(Debug, Clone)]
pub struct RealtimeFullChainTimelineSample {
    pub elapsed_ms: u64,
    pub snapshot: RealtimeStreamSnapshot,
}

pub struct TimelineSampleView {
    pub elapsed_ms: u64,
    pub snapshot: SnapView,
}

impl View for RealtimeFullChainTimelineSample {
    type V = TimelineSampleView;

    open spec fn view(&self) -> TimelineSampleView {
        TimelineSampleView { elapsed_ms: self.elapsed_ms, snapshot: self.snapshot@ }
    }
}

/// The outcome of a full-chain test.
#[derive(Debug, Clone, Copy, PartialEq, Eq, Structural)]
pub enum RealtimeFullChainVerdict {
    Pass,
    Degraded,
    Fail,
}

/// What a full-chain test found: a verdict, the reasons behind it, and the
/// counters of the last snapshot.
#[derive(Debug, Clone)]
pub struct RealtimeFullChainSummary {
    pub verdict: RealtimeFullChainVerdict,
    pub reasons: Vec<String>,
    pub duration_ms: u64,
    pub sent_frames: u64,
    pub received_frames: u64,
    pub output_received_frames: u64,
    pub output_playable_frames: u64,
    pub output_written_frames: u64,
    pub monitor_frames: u64,
    pub virtual_mic_frames: u64,
    pub output_ack_mismatches: u64,
    pub output_gap_skips: u64,
    pub output_late_drops: u64,
    pub output_overflow_drops: u64,
    pub output_duplicate_drops: u64,
    pub first_output_latency_ms: Option<u64>,
    pub output_max_frame_gap_ms: Option<u64>,
    pub max_playback_queue_ms: u64,
    pub vad_speech_frames: u64,
    pub vad_utterances_ended: u64,
    pub tts_audio_chunks: u64,
    pub asr_committed_chars: u64,
    pub tts_queued_jobs: u64,
    pub tts_started_jobs: u64,
    pub tts_completed_jobs: u64,
    pub tts_dropped_jobs: u64,
    pub tts_queued_chars: u64,
    pub tts_started_chars: u64,
    pub tts_completed_chars: u64,
    pub tts_dropped_chars: u64,
    pub last_event: Option<String>,
    pub last_error: Option<String>,
}

pub struct SummaryView {
    pub verdict: RealtimeFullChainVerdict,
    pub reasons: Seq<Seq<char>>,
    pub duration_ms: u64,
    pub sent_frames: u64,
    pub received_frames: u64,
    pub output_received_frames: u64,
    pub output_playable_frames: u64,
    pub output_written_frames: u64,
    pub monitor_frames: u64,
    pub virtual_mic_frames: u64,
    pub output_ack_mismatches: u64,
    pub output_gap_skips: u64,
    pub output_late_drops: u64,
    pub output_overflow_drops: u64,
    pub output_duplicate_drops: u64,
    pub first_output_latency_ms: Option<u64>,
    pub output_max_frame_gap_ms: Option<u64>,
    pub max_playback_queue_ms: u64,
    pub vad_speech_frames: u64,
    pub vad_utterances_ended: u64,
    pub tts_audio_chunks: u64,
    pub asr_committed_chars: u64,
    pub tts_queued_jobs: u64,
    pub tts_started_jobs: u64,
    pub tts_completed_jobs: u64,
    pub tts_dropped_jobs: u64,
    pub tts_queued_chars: u64,
    pub tts_started_chars: u64,
    pub tts_completed_chars: u64,
    pub tts_dropped_chars: u64,
    pub last_event: Option<Seq<char>>,
    pub last_error: Option<Seq<char>>,
}

impl View for RealtimeFullChainSummary {
    type V = SummaryView;

    open spec fn view(&self) -> SummaryView {
        SummaryView {
            verdict: self.verdict,
            reasons: strings_view(self.reasons@),
            duration_ms: self.duration_ms,
            sent_frames: self.sent_frames,
            received_frames: self.received_frames,
            output_received_frames: self.output_received_frames,
            output_playable_frames: self.output_playable_frames,
            output_written_frames: self.output_written_frames,
            monitor_frames: self.monitor_frames,
            virtual_mic_frames: self.virtual_mic_frames,
            output_ack_mismatches: self.output_ack_mismatches,
            output_gap_skips: self.output_gap_skips,
            output_late_drops: self.output_late_drops,
            output_overflow_drops: self.output_overflow_drops,
            output_duplicate_drops: self.output_duplicate_drops,
            first_output_latency_ms: self.first_output_latency_ms,
            output_max_frame_gap_ms: self.output_max_frame_gap_ms,
            max_playback_queue_ms: self.max_playback_queue_ms,
            vad_speech_frames: self.vad_speech_frames,
            vad_utterances_ended: self.vad_utterances_ended,
            tts_audio_chunks: self.tts_audio_chunks,
            asr_committed_chars: self.asr_committed_chars,
            tts_queued_jobs: self.tts_queued_jobs,
            tts_started_jobs: self.tts_started_jobs,
            tts_completed_jobs: self.tts_completed_jobs,
            tts_dropped_jobs: self.tts_dropped_jobs,
            tts_queued_chars: self.tts_queued_chars,
            tts_started_chars: self.tts_started_chars,
            tts_completed_chars: self.tts_completed_chars,
            tts_dropped_chars: self.tts_dropped_chars,
            last_event: opt_str(self.last_event),
            last_error: opt_str(self.last_error),
        }
    }
}

pub open spec fn timeline_view(t: Seq<RealtimeFullChainTimelineSample>) -> Seq<TimelineSampleView> {
    t.map_values(|x: RealtimeFullChainTimelineSample| x@)
}

/// The largest playback queue seen in the timeline (0 when it is empty).
pub open spec fn max_queue_ms(t: Seq<TimelineSampleView>) -> u64
    decreases t.len(),
{
    if t.len() == 0 {
        0
    } else {
        let rest = max_queue_ms(t.drop_last());
        let q = t.last().snapshot.output_playback_queue_ms;
        if q > rest {
            q
        } else {
            rest
        }
    }
}

/// The largest output frame gap reported in the timeline, if any was.
pub open spec fn max_frame_gap(t: Seq<TimelineSampleView>) -> Option<u64>
    decreases t.len(),
{
    if t.len() == 0 {
        None
    } else {
        let rest = max_frame_gap(t.drop_last());
        match t.last().snapshot.output_max_frame_gap_ms {
            None => rest,
            Some(g) => match rest {
                None => Some(g),
                Some(m) => if g > m {
                    Some(g)
                } else {
                    Some(m)
                },
            },
        }
    }
}

/// The last snapshot of the timeline.
pub open spec fn last_snapshot(t: Seq<TimelineSampleView>) -> Option<SnapView> {
    if t.len() == 0 {
        None
    } else {
        Some(t.last().snapshot)
    }
}

/// The counters a summary copies from the last snapshot (all zero and absent
/// without one); verdict, reasons, duration and maxima are filled in later.
pub open spec fn chain_counts(last: Option<SnapView>) -> SummaryView {
    match last {
        Some(s) => SummaryView {
            verdict: RealtimeFullChainVerdict::Pass,
            reasons: Seq::empty(),
            duration_ms: 0,
            sent_frames: s.sent_frames,
            received_frames: s.received_frames,
            output_received_frames: s.output_received_frames,
            output_playable_frames: s.output_playable_frames,
            output_written_frames: s.output_written_frames,
            monitor_frames: s.monitor_frames,
            virtual_mic_frames: s.virtual_mic_frames,
            output_ack_mismatches: s.output_ack_mismatches,
            output_gap_skips: s.output_gap_skips,
            output_late_drops: s.output_late_drops,
            output_overflow_drops: s.output_overflow_drops,
            output_duplicate_drops: s.output_duplicate_drops,
            first_output_latency_ms: s.first_output_latency_ms,
            output_max_frame_gap_ms: None,
            max_playback_queue_ms: 0,
            vad_speech_frames: s.vad_speech_frames,
            vad_utterances_ended: s.vad_utterances_ended,
            tts_audio_chunks: s.tts_audio_chunks,
            asr_committed_chars: s.asr_committed_chars,
            tts_queued_jobs: s.tts_queued_jobs,
            tts_started_jobs: s.tts_started_jobs,
            tts_completed_jobs: s.tts_completed_jobs,
            tts_dropped_jobs: s.tts_dropped_jobs,
            tts_queued_chars: s.tts_queued_chars,
            tts_started_chars: s.tts_started_chars,
            tts_completed_chars: s.tts_completed_chars,
            tts_dropped_chars: s.tts_dropped_chars,
            last_event: s.last_event,
            last_error: s.last_error,
        },
        None => SummaryView {
            verdict: RealtimeFullChainVerdict::Pass,
            reasons: Seq::empty(),
            duration_ms: 0,
            sent_frames: 0,
            received_frames: 0,
            output_received_frames: 0,
            output_playable_frames: 0,
            output_written_frames: 0,
            monitor_frames: 0,
            virtual_mic_frames: 0,
            output_ack_mismatches: 0,
            output_gap_skips: 0,
            output_late_drops: 0,
            output_overflow_drops: 0,
            output_duplicate_drops: 0,
            first_output_latency_ms: None,
            output_max_frame_gap_ms: None,
            max_playback_queue_ms: 0,
            vad_speech_frames: 0,
            vad_utterances_ended: 0,
            tts_audio_chunks: 0,
            asr_committed_chars: 0,
            tts_queued_jobs: 0,
            tts_started_jobs: 0,
            tts_completed_jobs: 0,
            tts_dropped_jobs: 0,
            tts_queued_chars: 0,
            tts_started_chars: 0,
            tts_completed_chars: 0,
            tts_dropped_chars: 0,
            last_event: None,
            last_error: None,
        },
    }
}

/// Output frames dropped by ordering or back-pressure.
pub open spec fn drop_total(c: SummaryView) -> int {
    c.output_gap_skips + c.output_late_drops + c.output_overflow_drops + c.output_duplicate_drops
}

/// Less text was queued for TTS than ASR committed.
pub open spec fn tts_text_behind(c: SummaryView) -> bool {
    c.asr_committed_chars > 0 && c.tts_queued_chars < c.asr_committed_chars
}

/// TTS has finished (completed or dropped) some but not all queued text.
pub open spec fn tts_completion_behind(c: SummaryView) -> bool {
    &&& c.tts_queued_chars > 0
    &&& (c.tts_completed_chars > 0 || c.tts_dropped_chars > 0)
    &&& c.tts_completed_chars + c.tts_dropped_chars < c.tts_queued_chars
}

/// A gap between output frames long enough to be heard (over 250 ms).
pub open spec fn frame_gap_too_long(gap: Option<u64>) -> bool {
    gap matches Some(g) && g > 250
}

/// Playback latency too high for live monitoring (over 2.5 s queued).
pub open spec fn queue_too_long(queue_ms: u64) -> bool {
    queue_ms > 2_500
}

/// The chain failed: it errored, sent nothing, or got no converted audio back.
pub open spec fn chain_failed(c: SummaryView) -> bool {
    c.last_error is Some || c.sent_frames == 0 || c.output_received_frames == 0
}

/// The chain worked with defects.
pub open spec fn chain_degraded(
    c: SummaryView,
    gap: Option<u64>,
    queue_ms: u64,
    monitor_error: Option<Seq<char>>,
    mode: Seq<char>,
) -> bool {
    ||| drop_total(c) > 0
    ||| c.output_ack_mismatches > 0
    ||| tts_text_behind(c)
    ||| tts_completion_behind(c)
    ||| c.tts_dropped_jobs > 0
    ||| frame_gap_too_long(gap)
    ||| queue_too_long(queue_ms)
    ||| mode == "buffer_only"@
    ||| monitor_error is Some
}

pub open spec fn chain_verdict(
    c: SummaryView,
    gap: Option<u64>,
    queue_ms: u64,
    monitor_error: Option<Seq<char>>,
    mode: Seq<char>,
) -> RealtimeFullChainVerdict {
    if chain_failed(c) {
        RealtimeFullChainVerdict::Fail
    } else if chain_degraded(c, gap, queue_ms, monitor_error, mode) {
        RealtimeFullChainVerdict::Degraded
    } else {
        RealtimeFullChainVerdict::Pass
    }
}

/// `r` with `reason` added when `cond` holds.
pub open spec fn push_when(r: Seq<Seq<char>>, cond: bool, reason: Seq<char>) -> Seq<Seq<char>> {
    if cond {
        r.push(reason)
    } else {
        r
    }
}

/// `r` with `prefix` and the message added when there is one.
pub open spec fn push_message(r: Seq<Seq<char>>, prefix: Seq<char>, message: Option<Seq<char>>) -> Seq<Seq<char>> {
    match message {
        Some(m) => r.push(prefix + m),
        None => r,
    }
}

pub open spec fn dec(n: u64) -> Seq<char> {
    decimal_seq(n as nat)
}

/// The reasons about the stream itself and the TTS pipeline.
pub open spec fn pipeline_reasons(c: SummaryView) -> Seq<Seq<char>> {
    let r = push_message(Seq::empty(), "链路错误: "@, c.last_error);
    let r = push_when(r, c.sent_frames == 0, "未发送本地模拟音频帧"@);
    let r = push_when(r, c.vad_speech_frames == 0, "服务端 VAD 没有确认有效语音帧"@);
    let r = push_when(r, c.output_received_frames == 0, "未收到 FunSpeech 变声音频输出"@);
    let r = push_when(
        r,
        tts_text_behind(c),
        "TTS 入队文本少于 ASR 已提交文本: queued="@ + dec(c.tts_queued_chars) + " committed="@ + dec(
            c.asr_committed_chars,
        ),
    );
    let r = push_when(
        r,
        tts_completion_behind(c),
        "TTS 已完成文本少于入队文本: completed="@ + dec(c.tts_completed_chars) + " dropped="@ + dec(
            c.tts_dropped_chars,
        ) + " queued="@ + dec(c.tts_queued_chars),
    );
    push_when(r, c.tts_dropped_jobs > 0, "服务端 TTS 丢弃任务 "@ + dec(c.tts_dropped_jobs) + " 个"@)
}

/// `r` followed by the reasons about playback and output.
pub open spec fn playback_reasons(
    r: Seq<Seq<char>>,
    c: SummaryView,
    gap: Option<u64>,
    queue_ms: u64,
    monitor_error: Option<Seq<char>>,
    mode: Seq<char>,
) -> Seq<Seq<char>> {
    let r = push_when(
        r,
        c.output_playable_frames == 0 && c.output_received_frames > 0,
        "收到输出但未进入连续保序播放窗口"@,
    );
    let r = push_when(
        r,
        c.output_ack_mismatches > 0,
        "输出元数据/ACK 匹配异常 "@ + dec(c.output_ack_mismatches) + " 次"@,
    );
    let r = push_when(r, drop_total(c) > 0, "播放保序/背压丢弃 "@ + dec(drop_total(c) as u64) + " 次"@);
    let r = push_when(
        r,
        frame_gap_too_long(gap),
        "最大输出帧间隔 "@ + dec(gap.unwrap_or(0)) + "ms，存在可感知卡顿风险"@,
    );
    let r = push_when(r, queue_too_long(queue_ms), "最大播放预缓冲 "@ + dec(queue_ms) + "ms，实时监听延迟过高"@);
    let r = push_when(r, mode == "buffer_only"@, "未写入监听设备或虚拟麦克风，仅验证了输出保序缓冲与 ACK"@);
    push_message(r, "监听输出启动失败: "@, monitor_error)
}

/// The reasons a summary gives, in the order they are checked.
pub open spec fn chain_reasons(
    c: SummaryView,
    gap: Option<u64>,
    queue_ms: u64,
    monitor_error: Option<Seq<char>>,
    mode: Seq<char>,
) -> Seq<Seq<char>> {
    playback_reasons(pipeline_reasons(c), c, gap, queue_ms, monitor_error, mode)
}

/// The summary of a timeline.
pub open spec fn chain_summary(
    t: Seq<TimelineSampleView>,
    monitor_error: Option<Seq<char>>,
    mode: Seq<char>,
) -> SummaryView {
    let c = chain_counts(last_snapshot(t));
    let gap = max_frame_gap(t);
    let queue_ms = max_queue_ms(t);
    SummaryView {
        verdict: chain_verdict(c, gap, queue_ms, monitor_error, mode),
        reasons: chain_reasons(c, gap, queue_ms, monitor_error, mode),
        duration_ms: if t.len() == 0 {
            0
        } else {
            t.last().elapsed_ms
        },
        output_max_frame_gap_ms: gap,
        max_playback_queue_ms: queue_ms,
        ..c
    }
}

/// The sums a summary computes fit in 64 bits: the dropped frames, and the
/// finished TTS text where that is compared with the queued text.
pub open spec fn chain_sums_fit(c: SummaryView) -> bool {
    &&& drop_total(c) <= u64::MAX
    &&& (c.tts_queued_chars > 0 && (c.tts_completed_chars > 0 || c.tts_dropped_chars > 0)) ==> c.tts_completed_chars
        + c.tts_dropped_chars <= u64::MAX
}

pub open spec fn opt_text(o: Option<&str>) -> Option<Seq<char>> {
    match o {
        Some(s) => Some(s@),
        None => None,
    }
}

pub open spec fn strings_view(v: Seq<String>) -> Seq<Seq<char>> {
    v.map_values(|x: String| x@)
}

fn push_reason(r: &mut Vec<String>, reason: String)
    ensures
        strings_view(final(r)@) == strings_view(old(r)@).push(reason@),
{
    r.push(reason);
    assert(strings_view(r@) =~= strings_view(old(r)@).push(reason@));
}

/// The largest playback queue and frame gap of the timeline.
fn timeline_maxima(timeline: &Vec<RealtimeFullChainTimelineSample>) -> (r: (u64, Option<u64>))
    ensures
        r.0 == max_queue_ms(timeline_view(timeline@)),
        r.1 == max_frame_gap(timeline_view(timeline@)),
{
    let ghost tv = timeline_view(timeline@);
    let mut q: u64 = 0;
    let mut g: Option<u64> = None;
    let mut i: usize = 0;
    assert(tv.take(0) =~= Seq::<TimelineSampleView>::empty());
    while i < timeline.len()
        invariant
            i <= timeline.len(),
            tv == timeline_view(timeline@),
            q == max_queue_ms(tv.take(i as int)),
            g == max_frame_gap(tv.take(i as int)),
        decreases timeline.len() - i,
    {
        assert(tv.take(i as int + 1).drop_last() =~= tv.take(i as int));
        assert(tv.take(i as int + 1).last() == timeline@[i as int]@);
        let s = &timeline[i].snapshot;
        if s.output_playback_queue_ms > q {
            q = s.output_playback_queue_ms;
        }
        match s.output_max_frame_gap_ms {
            Some(v) => match g {
                None => {
                    g = Some(v);
                },
                Some(m) => {
                    if v > m {
                        g = Some(v);
                    }
                },
            },
            None => {},
        }
        i += 1;
    }
    assert(tv.take(timeline.len() as int) =~= tv);
    (q, g)
}

/// A summary holding the counters of `last` (see `chain_counts`).
fn counts_of(last: Option<&RealtimeStreamSnapshot>) -> (c: RealtimeFullChainSummary)
    ensures
        c@ == chain_counts(match last {
            Some(s) => Some(s@),
            None => None,
        }),
{
    let reasons: Vec<String> = Vec::new();
    assert(strings_view(reasons@) =~= Seq::<Seq<char>>::empty());
    match last {
        Some(s) => RealtimeFullChainSummary {
            verdict: RealtimeFullChainVerdict::Pass,
            reasons,
            duration_ms: 0,
            sent_frames: s.sent_frames,
            received_frames: s.received_frames,
            output_received_frames: s.output_received_frames,
            output_playable_frames: s.output_playable_frames,
            output_written_frames: s.output_written_frames,
            monitor_frames: s.monitor_frames,
            virtual_mic_frames: s.virtual_mic_frames,
            output_ack_mismatches: s.output_ack_mismatches,
            output_gap_skips: s.output_gap_skips,
            output_late_drops: s.output_late_drops,
            output_overflow_drops: s.output_overflow_drops,
            output_duplicate_drops: s.output_duplicate_drops,
            first_output_latency_ms: s.first_output_latency_ms,
            output_max_frame_gap_ms: None,
            max_playback_queue_ms: 0,
            vad_speech_frames: s.vad_speech_frames,
            vad_utterances_ended: s.vad_utterances_ended,
            tts_audio_chunks: s.tts_audio_chunks,
            asr_committed_chars: s.asr_committed_chars,
            tts_queued_jobs: s.tts_queued_jobs,
            tts_started_jobs: s.tts_started_jobs,
            tts_completed_jobs: s.tts_completed_jobs,
            tts_dropped_jobs: s.tts_dropped_jobs,
            tts_queued_chars: s.tts_queued_chars,
            tts_started_chars: s.tts_started_chars,
            tts_completed_chars: s.tts_completed_chars,
            tts_dropped_chars: s.tts_dropped_chars,
            last_event: clone_opt_string(&s.last_event),
            last_error: clone_opt_string(&s.last_error),
        },
        None => RealtimeFullChainSummary {
            verdict: RealtimeFullChainVerdict::Pass,
            reasons,
            duration_ms: 0,
            sent_frames: 0,
            received_frames: 0,
            output_received_frames: 0,
            output_playable_frames: 0,
            output_written_frames: 0,
            monitor_frames: 0,
            virtual_mic_frames: 0,
            output_ack_mismatches: 0,
            output_gap_skips: 0,
            output_late_drops: 0,
            output_overflow_drops: 0,
            output_duplicate_drops: 0,
            first_output_latency_ms: None,
            output_max_frame_gap_ms: None,
            max_playback_queue_ms: 0,
            vad_speech_frames: 0,
            vad_utterances_ended: 0,
            tts_audio_chunks: 0,
            asr_committed_chars: 0,
            tts_queued_jobs: 0,
            tts_started_jobs: 0,
            tts_completed_jobs: 0,
            tts_dropped_jobs: 0,
            tts_queued_chars: 0,
            tts_started_chars: 0,
            tts_completed_chars: 0,
            tts_dropped_chars: 0,
            last_event: None,
            last_error: None,
        },
    }
}

/// `prefix`, the decimal `n`, then `suffix`.
fn counted(prefix: &str, n: u64, suffix: &str) -> (r: String)
    ensures
        r@ == prefix@ + dec(n) + suffix@,
{
    let s = concat2(prefix, decimal(n).as_str());
    concat2(s.as_str(), suffix)
}

fn pipeline_reason_list(c: &RealtimeFullChainSummary) -> (r: Vec<String>)
    requires
        chain_sums_fit(c@),
    ensures
        strings_view(r@) == pipeline_reasons(c@),
{
    let mut r: Vec<String> = Vec::new();
    assert(strings_view(r@) =~= Seq::<Seq<char>>::empty());
    if let Some(e) = &c.last_error {
        push_reason(&mut r, concat2("链路错误: ", e.as_str()));
    }
    if c.sent_frames == 0 {
        push_reason(&mut r, String::from_str("未发送本地模拟音频帧"));
    }
    if c.vad_speech_frames == 0 {
        push_reason(&mut r, String::from_str("服务端 VAD 没有确认有效语音帧"));
    }
    if c.output_received_frames == 0 {
        push_reason(&mut r, String::from_str("未收到 FunSpeech 变声音频输出"));
    }
    if c.asr_committed_chars > 0 && c.tts_queued_chars < c.asr_committed_chars {
        let s = counted("TTS 入队文本少于 ASR 已提交文本: queued=", c.tts_queued_chars, " committed=");
        push_reason(&mut r, concat2(s.as_str(), decimal(c.asr_committed_chars).as_str()));
    }
    if c.tts_queued_chars > 0 && (c.tts_completed_chars > 0 || c.tts_dropped_chars > 0) && c.tts_completed_chars
        + c.tts_dropped_chars < c.tts_queued_chars {
        let s = counted("TTS 已完成文本少于入队文本: completed=", c.tts_completed_chars, " dropped=");
        let s = concat2(s.as_str(), decimal(c.tts_dropped_chars).as_str());
        let s = concat2(s.as_str(), " queued=");
        push_reason(&mut r, concat2(s.as_str(), decimal(c.tts_queued_chars).as_str()));
    }
    if c.tts_dropped_jobs > 0 {
        push_reason(&mut r, counted("服务端 TTS 丢弃任务 ", c.tts_dropped_jobs, " 个"));
    }
    r
}

/// The reasons of `chain_reasons`, built from the counters in `c`.
fn chain_reason_list(
    c: &RealtimeFullChainSummary,
    gap: Option<u64>,
    queue_ms: u64,
    monitor_error: Option<&str>,
    mode: &str,
) -> (r: Vec<String>)
    requires
        chain_sums_fit(c@),
    ensures
        strings_view(r@) == chain_reasons(c@, gap, queue_ms, opt_text(monitor_error), mode@),
{
    let mut r = pipeline_reason_list(c);
    if c.output_playable_frames == 0 && c.output_received_frames > 0 {
        push_reason(&mut r, String::from_str("收到输出但未进入连续保序播放窗口"));
    }
    if c.output_ack_mismatches > 0 {
        push_reason(&mut r, counted("输出元数据/ACK 匹配异常 ", c.output_ack_mismatches, " 次"));
    }
    let drop_count = c.output_gap_skips + c.output_late_drops + c.output_overflow_drops + c.output_duplicate_drops;
    if drop_count > 0 {
        push_reason(&mut r, counted("播放保序/背压丢弃 ", drop_count, " 次"));
    }
    if let Some(g) = gap {
        if g > 250 {
            push_reason(&mut r, counted("最大输出帧间隔 ", g, "ms，存在可感知卡顿风险"));
        }
    }
    if queue_ms > 2_500 {
        push_reason(&mut r, counted("最大播放预缓冲 ", queue_ms, "ms，实时监听延迟过高"));
    }
    if same_text(mode, "buffer_only") {
        push_reason(&mut r, String::from_str("未写入监听设备或虚拟麦克风，仅验证了输出保序缓冲与 ACK"));
    }
    if let Some(e) = monitor_error {
        push_reason(&mut r, concat2("监听输出启动失败: ", e));
    }
    r
}

/// Sums up a full-chain test from its timeline: the counters of the last
/// snapshot, the duration, the largest queue and frame gap, and a verdict with
/// its reasons (see `chain_summary`).
pub fn summarize_full_chain_timeline(
    timeline: &Vec<RealtimeFullChainTimelineSample>,
    monitor_start_error: Option<&str>,
    playback_output_mode: &str,
) -> (summary: RealtimeFullChainSummary)
    requires
        chain_sums_fit(chain_counts(last_snapshot(timeline_view(timeline@)))),
    ensures
        summary@ == chain_summary(timeline_view(timeline@), opt_text(monitor_start_error), playback_output_mode@),
{
    let ghost tv = timeline_view(timeline@);
    let n = timeline.len();
    let (queue_ms, gap) = timeline_maxima(timeline);
    let last = if n == 0 {
        None
    } else {
        Some(&timeline[n - 1].snapshot)
    };
    let mut summary = counts_of(last);
    let ghost c = summary@;
    assert(c == chain_counts(last_snapshot(tv)));
    let reasons = chain_reason_list(&summary, gap, queue_ms, monitor_start_error, playback_output_mode);
    let drop_count = summary.output_gap_skips + summary.output_late_drops + summary.output_overflow_drops
        + summary.output_duplicate_drops;
    let failed = summary.last_error.is_some() || summary.sent_frames == 0 || summary.output_received_frames == 0;
    let long_gap = match gap {
        Some(g) => g > 250,
        None => false,
    };
    let degraded = drop_count > 0 || summary.output_ack_mismatches > 0 || (summary.asr_committed_chars > 0
        && summary.tts_queued_chars < summary.asr_committed_chars) || (summary.tts_queued_chars > 0 && (
    summary.tts_completed_chars > 0 || summary.tts_dropped_chars > 0) && summary.tts_completed_chars
        + summary.tts_dropped_chars < summary.tts_queued_chars) || summary.tts_dropped_jobs > 0 || long_gap
        || queue_ms > 2_500 || same_text(playback_output_mode, "buffer_only") || monitor_start_error.is_some();
    summary.verdict =
        if failed {
            RealtimeFullChainVerdict::Fail
        } else if degraded {
            RealtimeFullChainVerdict::Degraded
        } else {
            RealtimeFullChainVerdict::Pass
        };
    summary.reasons = reasons;
    summary.duration_ms = if n == 0 {
        0
    } else {
        timeline[n - 1].elapsed_ms
    };
    summary.output_max_frame_gap_ms = gap;
    summary.max_playback_queue_ms = queue_ms;
    summary
}

/// Every verdict other than a pass comes with at least one reason.
pub proof fn lemma_verdict_is_explained(
    t: Seq<TimelineSampleView>,
    monitor_error: Option<Seq<char>>,
    mode: Seq<char>,
)
    ensures
        chain_summary(t, monitor_error, mode).verdict != RealtimeFullChainVerdict::Pass ==> chain_summary(
            t,
            monitor_error,
            mode,
        ).reasons.len() > 0,
{
    let c = chain_counts(last_snapshot(t));
    let gap = max_frame_gap(t);
    let q = max_queue_ms(t);
    let head = pipeline_reasons(c);
    lemma_pushes_grow(head, c, gap, q, monitor_error, mode);
}

/// The largest queue is the largest of the samples' queues, and 0 without samples.
pub proof fn lemma_max_queue_is_largest(t: Seq<TimelineSampleView>)
    ensures
        forall|i: int| 0 <= i < t.len() ==> (#[trigger] t[i]).snapshot.output_playback_queue_ms <= max_queue_ms(t),
        t.len() == 0 ==> max_queue_ms(t) == 0,
        t.len() > 0 ==> exists|i: int| 0 <= i < t.len() && (#[trigger] t[i]).snapshot.output_playback_queue_ms
            == max_queue_ms(t),
    decreases t.len(),
{
    if t.len() > 0 {
        let r = t.drop_last();
        lemma_max_queue_is_largest(r);
        assert forall|i: int| 0 <= i < t.len() implies (#[trigger] t[i]).snapshot.output_playback_queue_ms
            <= max_queue_ms(t) by {
            if i < r.len() {
                assert(t[i] == r[i]);
            }
        }
        if t.last().snapshot.output_playback_queue_ms > max_queue_ms(r) || r.len() == 0 {
            assert(t[t.len() - 1].snapshot.output_playback_queue_ms == max_queue_ms(t));
        } else {
            let k = choose|i: int| 0 <= i < r.len() && (#[trigger] r[i]).snapshot.output_playback_queue_ms
                == max_queue_ms(r);
            assert(t[k] == r[k]);
        }
    }
}

/// The summary's frame gap is the largest gap any sample reported: at least
/// every reported gap, equal to one of them, and absent only when no sample
/// reports one. A run that does not fail but has a sample with a gap over
/// 250 ms is degraded.
pub proof fn lemma_frame_gap_is_largest(t: Seq<TimelineSampleView>, monitor_error: Option<Seq<char>>, mode: Seq<char>)
    ensures
        ({
            let r = chain_summary(t, monitor_error, mode);
            &&& forall|i: int|
                0 <= i < t.len() && (#[trigger] t[i]).snapshot.output_max_frame_gap_ms is Some ==> (
                r.output_max_frame_gap_ms matches Some(m) && t[i].snapshot.output_max_frame_gap_ms->0 <= m)
            &&& (r.output_max_frame_gap_ms is None <==> forall|i: int|
                0 <= i < t.len() ==> (#[trigger] t[i]).snapshot.output_max_frame_gap_ms is None)
            &&& (r.output_max_frame_gap_ms matches Some(m) ==> exists|i: int|
                0 <= i < t.len() && (#[trigger] t[i]).snapshot.output_max_frame_gap_ms == Some(m))
            &&& ((r.verdict != RealtimeFullChainVerdict::Fail && exists|i: int|
                0 <= i < t.len() && (#[trigger] t[i]).snapshot.output_max_frame_gap_ms is Some && t[i].snapshot.output_max_frame_gap_ms->0 > 250)
                ==> r.verdict == RealtimeFullChainVerdict::Degraded)
        }),
{
    lemma_max_gap(t);
    let r = chain_summary(t, monitor_error, mode);
    if r.verdict != RealtimeFullChainVerdict::Fail && exists|i: int|
        0 <= i < t.len() && (#[trigger] t[i]).snapshot.output_max_frame_gap_ms is Some && t[i].snapshot.output_max_frame_gap_ms->0 > 250 {
        let i = choose|i: int|
            0 <= i < t.len() && (#[trigger] t[i]).snapshot.output_max_frame_gap_ms is Some && t[i].snapshot.output_max_frame_gap_ms->0 > 250;
        assert(t[i].snapshot.output_max_frame_gap_ms is Some);
        assert(frame_gap_too_long(max_frame_gap(t)));
    }
}

proof fn lemma_max_gap(t: Seq<TimelineSampleView>)
    ensures
        forall|i: int|
            0 <= i < t.len() && (#[trigger] t[i]).snapshot.output_max_frame_gap_ms is Some ==> (max_frame_gap(t) matches Some(
                m,
            ) && t[i].snapshot.output_max_frame_gap_ms->0 <= m),
        max_frame_gap(t) is None <==> forall|i: int|
            0 <= i < t.len() ==> (#[trigger] t[i]).snapshot.output_max_frame_gap_ms is None,
        max_frame_gap(t) matches Some(m) ==> exists|i: int|
            0 <= i < t.len() && (#[trigger] t[i]).snapshot.output_max_frame_gap_ms == Some(m),
    decreases t.len(),
{
    if t.len() > 0 {
        let r = t.drop_last();
        lemma_max_gap(r);
        let n = t.len() - 1;
        assert forall|i: int| 0 <= i < r.len() implies #[trigger] t[i] == r[i] by {}
        assert(t[n] == t.last());
        assert forall|i: int|
            0 <= i < t.len() && (#[trigger] t[i]).snapshot.output_max_frame_gap_ms is Some implies (max_frame_gap(
                t,
            ) matches Some(m) && t[i].snapshot.output_max_frame_gap_ms->0 <= m) by {
            if i < n {
                assert(r[i].snapshot.output_max_frame_gap_ms is Some);
            }
        }
        if max_frame_gap(t) is None {
            assert forall|i: int| 0 <= i < t.len() implies (#[trigger] t[i]).snapshot.output_max_frame_gap_ms is None by {
                if i < n {
                    assert(r[i] == t[i]);
                }
            }
        } else {
            if forall|i: int| 0 <= i < t.len() ==> (#[trigger] t[i]).snapshot.output_max_frame_gap_ms is None {
                assert(t[n].snapshot.output_max_frame_gap_ms is None);
                assert forall|i: int| 0 <= i < r.len() implies (#[trigger] r[i]).snapshot.output_max_frame_gap_ms is None by {
                    assert(t[i] == r[i]);
                }
            }
            let m = max_frame_gap(t)->0;
            if t.last().snapshot.output_max_frame_gap_ms == Some(m) {
                assert(t[n].snapshot.output_max_frame_gap_ms == Some(m));
            } else {
                let k = choose|i: int| 0 <= i < r.len() && (#[trigger] r[i]).snapshot.output_max_frame_gap_ms == Some(m);
                assert(t[k] == r[k]);
            }
        }
    }
}

/// A test fails exactly when there is no snapshot, the last one reports an
/// error, or no frame was sent or no converted audio came back; the duration
/// is the last sample's time (0 without samples); a test that does not fail
/// but saw more than 2500 ms of queued playback is degraded.
pub proof fn lemma_summary_verdict(t: Seq<TimelineSampleView>, monitor_error: Option<Seq<char>>, mode: Seq<char>)
    ensures
        ({
            let r = chain_summary(t, monitor_error, mode);
            &&& (r.verdict == RealtimeFullChainVerdict::Fail) <==> match last_snapshot(t) {
                None => true,
                Some(l) => l.last_error is Some || l.sent_frames == 0 || l.output_received_frames == 0,
            }
            &&& r.duration_ms == if t.len() == 0 { 0 } else { t.last().elapsed_ms }
            &&& r.max_playback_queue_ms == max_queue_ms(t)
            &&& (r.verdict != RealtimeFullChainVerdict::Fail && r.max_playback_queue_ms > 2500 ==> r.verdict
                == RealtimeFullChainVerdict::Degraded)
        }),
{
    lemma_max_queue_is_largest(t);
}

proof fn lemma_pushes_grow(
    r: Seq<Seq<char>>,
    c: SummaryView,
    gap: Option<u64>,
    queue_ms: u64,
    monitor_error: Option<Seq<char>>,
    mode: Seq<char>,
)
    ensures
        playback_reasons(r, c, gap, queue_ms, monitor_error, mode).len() >= r.len(),
        chain_degraded(c, gap, queue_ms, monitor_error, mode) && !tts_text_behind(c) && !tts_completion_behind(c)
            && c.tts_dropped_jobs == 0 ==> playback_reasons(r, c, gap, queue_ms, monitor_error, mode).len()
            > r.len(),
        chain_failed(c) || tts_text_behind(c) || tts_completion_behind(c) || c.tts_dropped_jobs > 0
            ==> pipeline_reasons(c).len() > 0,
{
}

/// Where the test's converted audio went, judged from the last snapshot and
/// the devices that were asked for.
pub open spec fn output_mode_spec(last: Option<SnapView>, virtual_mic_enabled: bool, monitor_requested: bool) -> Seq<
    char,
> {
    if last matches Some(s) && s.monitor_frames > 0 {
        "monitor"@
    } else if last matches Some(s) && s.virtual_mic_frames > 0 {
        "virtual_mic"@
    } else if virtual_mic_enabled {
        "virtual_mic_no_frames"@
    } else if monitor_requested {
        "monitor_no_frames"@
    } else {
        "buffer_only"@
    }
}

/// Whether the last snapshot's drop counters, and its completed and dropped
/// TTS text, add up within `u64` (see `chain_sums_fit`).
pub fn chain_sums_fit_for(timeline: &Vec<RealtimeFullChainTimelineSample>) -> (r: bool)
    ensures
        r == chain_sums_fit(chain_counts(last_snapshot(timeline_view(timeline@)))),
{
    let n = timeline.len();
    if n == 0 {
        return true;
    }
    let s = &timeline[n - 1].snapshot;
    assert(timeline_view(timeline@).last() == timeline@[n - 1]@);
    let drops = s.output_gap_skips as u128 + s.output_late_drops as u128 + s.output_overflow_drops as u128
        + s.output_duplicate_drops as u128;
    let text = s.tts_completed_chars as u128 + s.tts_dropped_chars as u128;
    let finishing = s.tts_queued_chars > 0 && (s.tts_completed_chars > 0 || s.tts_dropped_chars > 0);
    drops <= u64::MAX as u128 && (!finishing || text <= u64::MAX as u128)
}

/// See `output_mode_spec`.
pub fn playback_output_mode(
    timeline: &Vec<RealtimeFullChainTimelineSample>,
    virtual_mic_enabled: bool,
    monitor_requested: bool,
) -> (mode: String)
    ensures
        mode@ == output_mode_spec(last_snapshot(timeline_view(timeline@)), virtual_mic_enabled, monitor_requested),
{
    let n = timeline.len();
    let (monitor, virtual_mic) = if n == 0 {
        (false, false)
    } else {
        let s = &timeline[n - 1].snapshot;
        (s.monitor_frames > 0, s.virtual_mic_frames > 0)
    };
    if monitor {
        String::from_str("monitor")
    } else if virtual_mic {
        String::from_str("virtual_mic")
    } else if virtual_mic_enabled {
        String::from_str("virtual_mic_no_frames")
    } else if monitor_requested {
        String::from_str("monitor_no_frames")
    } else {
        String::from_str("buffer_only")
    }
}

/// A server address without surrounding whitespace and trailing slashes.
pub open spec fn trimmed_base_url(raw: Seq<char>) -> Seq<char> {
    trim_end_char(trim_seq(raw), '/')
}

/// A server address as an HTTP base URL: websocket schemes become their HTTP
/// counterparts, and an address without a scheme gets `http://`.
pub open spec fn normalized_base_url(raw: Seq<char>) -> Seq<char> {
    let t = trimmed_base_url(raw);
    if has_prefix(t, "ws://"@) {
        "http://"@ + t.subrange("ws://"@.len() as int, t.len() as int)
    } else if has_prefix(t, "wss://"@) {
        "https://"@ + t.subrange("wss://"@.len() as int, t.len() as int)
    } else if has_prefix(t, "http://"@) || has_prefix(t, "https://"@) {
        t
    } else {
        "http://"@ + t
    }
}

/// See `normalized_base_url`; an address that is empty once trimmed is an
/// invalid setting.
pub fn normalize_backend_base_url(raw: &str) -> (r: Result<String, AppError>)
    ensures
        match r {
            Ok(url) => trimmed_base_url(raw@).len() > 0 && url@ == normalized_base_url(raw@),
            Err(e) => trimmed_base_url(raw@).len() == 0 && (e matches AppError::InvalidSettings { message }
                && message@ == "backend realtime baseUrl is empty"@),
        },
{
    let t = trimmed(raw);
    let trimmed = without_trailing(t.as_str(), '/');
    if trimmed.unicode_len() == 0 {
        return Err(AppError::invalid_settings(String::from_str("backend realtime baseUrl is empty")));
    }
    if let Some(rest) = strip_prefix(trimmed.as_str(), "ws://") {
        return Ok(concat2("http://", rest.as_str()));
    }
    if let Some(rest) = strip_prefix(trimmed.as_str(), "wss://") {
        return Ok(concat2("https://", rest.as_str()));
    }
    if starts_with(trimmed.as_str(), "http://") || starts_with(trimmed.as_str(), "https://") {
        return Ok(trimmed);
    }
    Ok(concat2("http://", trimmed.as_str()))
}

/// The PCM format of realtime conversion: the configured sample rate and frame
/// length, 16-bit samples, the default channel count.
pub fn realtime_pcm_format(settings: &AppSettings) -> (format: PcmFormat)
    ensures
        format == (PcmFormat {
            sample_rate: settings.runtime.default_sample_rate,
            channels: 1,
            sample_format: SampleFormat::I16,
            frame_ms: settings.runtime.audio_frame_ms,
        }),
{
    let d = PcmFormat::default_format();
    PcmFormat {
        sample_rate: settings.runtime.default_sample_rate,
        frame_ms: settings.runtime.audio_frame_ms,
        sample_format: SampleFormat::I16,
        ..d
    }
}

/// The output progress of a snapshot: frames received, playable, written, and
/// delivered to a device.
pub open spec fn progress_key(s: SnapView) -> (u64, u64, u64, u64) {
    (
        s.output_received_frames,
        s.output_playable_frames,
        s.output_written_frames,
        (s.monitor_frames + s.virtual_mic_frames) as u64,
    )
}

/// The snapshot reports that a local test file has been fed in completely.
pub open spec fn file_input_done(s: SnapView) -> bool {
    &&& s.input_source == "local_file"@
    &&& s.input_state == "off"@
    &&& s.last_event == Some("file_input_completed"@)
}

/// The stream has failed.
pub open spec fn stream_errored(s: SnapView) -> bool {
    s.last_error is Some || s.websocket_state == "error"@
}

/// The polling of a full-chain test, between polls. Times are milliseconds
/// since the test started.
pub struct TimelineCollector {
    pub poll_ms: u64,
    pub max_duration_ms: u64,
    pub drain_grace_ms: u64,
    pub input_completed_at_ms: Option<u64>,
    pub last_output_progress_at_ms: u64,
    pub last_progress_key: Option<(u64, u64, u64, u64)>,
    pub timeline: Vec<RealtimeFullChainTimelineSample>,
}

pub struct CollectorView {
    pub poll_ms: u64,
    pub max_duration_ms: u64,
    pub drain_grace_ms: u64,
    pub input_completed_at_ms: Option<u64>,
    pub last_output_progress_at_ms: u64,
    pub last_progress_key: Option<(u64, u64, u64, u64)>,
    pub timeline: Seq<TimelineSampleView>,
}

impl View for TimelineCollector {
    type V = CollectorView;

    open spec fn view(&self) -> CollectorView {
        CollectorView {
            poll_ms: self.poll_ms,
            max_duration_ms: self.max_duration_ms,
            drain_grace_ms: self.drain_grace_ms,
            input_completed_at_ms: self.input_completed_at_ms,
            last_output_progress_at_ms: self.last_output_progress_at_ms,
            last_progress_key: self.last_progress_key,
            timeline: timeline_view(self.timeline@),
        }
    }
}

pub open spec fn max_u64(a: u64, b: u64) -> u64 {
    if a >= b {
        a
    } else {
        b
    }
}

/// The collector's state after seeing `s` at `now_ms`, and whether polling stops.
pub open spec fn collector_step(c: CollectorView, s: SnapView, now_ms: u64) -> (CollectorView, bool) {
    let key = progress_key(s);
    let (last_key, progress_at) = if c.last_progress_key == Some(key) {
        (c.last_progress_key, c.last_output_progress_at_ms)
    } else {
        (Some(key), now_ms)
    };
    let done_at = if file_input_done(s) && c.input_completed_at_ms is None {
        Some(now_ms)
    } else {
        c.input_completed_at_ms
    };
    let next = CollectorView {
        input_completed_at_ms: done_at,
        last_output_progress_at_ms: progress_at,
        last_progress_key: last_key,
        timeline: c.timeline.push(TimelineSampleView { elapsed_ms: now_ms, snapshot: s }),
        ..c
    };
    let stop = stream_errored(s) || now_ms >= c.max_duration_ms || (done_at matches Some(d) && now_ms - d
        >= c.drain_grace_ms && now_ms - progress_at >= c.drain_grace_ms);
    (next, stop)
}

/// The times recorded are not later than `now_ms`.
pub open spec fn collector_times_before(c: CollectorView, now_ms: u64) -> bool {
    &&& c.last_output_progress_at_ms <= now_ms
    &&& c.input_completed_at_ms matches Some(d) ==> d <= now_ms
}

impl TimelineCollector {
    /// Starts polling at time 0. The poll interval is at least 100 ms, and the
    /// time limit and the drain grace period are at least one poll interval.
    pub fn new(poll_interval_ms: u64, drain_grace_ms: u64, max_duration_ms: u64) -> (c: TimelineCollector)
        ensures
            c@.poll_ms == max_u64(poll_interval_ms, 100),
            c@.max_duration_ms == max_u64(max_duration_ms, max_u64(poll_interval_ms, 100)),
            c@.drain_grace_ms == max_u64(drain_grace_ms, max_u64(poll_interval_ms, 100)),
            c@.input_completed_at_ms is None,
            c@.last_output_progress_at_ms == 0,
            c@.last_progress_key is None,
            c@.timeline.len() == 0,
    {
        let poll = if poll_interval_ms >= 100 {
            poll_interval_ms
        } else {
            100
        };
        let timeline: Vec<RealtimeFullChainTimelineSample> = Vec::new();
        assert(timeline_view(timeline@) =~= Seq::<TimelineSampleView>::empty());
        TimelineCollector {
            poll_ms: poll,
            max_duration_ms: if max_duration_ms >= poll {
                max_duration_ms
            } else {
                poll
            },
            drain_grace_ms: if drain_grace_ms >= poll {
                drain_grace_ms
            } else {
                poll
            },
            input_completed_at_ms: None,
            last_output_progress_at_ms: 0,
            last_progress_key: None,
            timeline,
        }
    }

    /// Records the snapshot polled at `now_ms` and says whether to stop: on a
    /// stream error, at the time limit, or once the file input has completed
    /// and the output has made no progress for the drain grace period.
    pub fn observe(&mut self, snapshot: RealtimeStreamSnapshot, now_ms: u64) -> (stop: bool)
        requires
            collector_times_before(old(self)@, now_ms),
            snapshot.monitor_frames + snapshot.virtual_mic_frames <= u64::MAX,
        ensures
            (final(self)@, stop) == collector_step(old(self)@, snapshot@, now_ms),
    {
        let key = (
            snapshot.output_received_frames,
            snapshot.output_playable_frames,
            snapshot.output_written_frames,
            snapshot.monitor_frames + snapshot.virtual_mic_frames,
        );
        let same = match self.last_progress_key {
            Some(k) => k.0 == key.0 && k.1 == key.1 && k.2 == key.2 && k.3 == key.3,
            None => false,
        };
        if !same {
            self.last_progress_key = Some(key);
            self.last_output_progress_at_ms = now_ms;
        }
        let file_done = same_text(snapshot.input_source.as_str(), "local_file") && same_text(
            snapshot.input_state.as_str(),
            "off",
        ) && match &snapshot.last_event {
            Some(e) => same_text(e.as_str(), "file_input_completed"),
            None => false,
        };
        if file_done && self.input_completed_at_ms.is_none() {
            self.input_completed_at_ms = Some(now_ms);
        }
        let terminal_error = snapshot.last_error.is_some() || same_text(snapshot.websocket_state.as_str(), "error");
        let ghost old_timeline = timeline_view(self.timeline@);
        let ghost sv = snapshot@;
        self.timeline.push(RealtimeFullChainTimelineSample { elapsed_ms: now_ms, snapshot });
        assert(timeline_view(self.timeline@) =~= old_timeline.push(
            TimelineSampleView { elapsed_ms: now_ms, snapshot: sv },
        ));
        if terminal_error {
            return true;
        }
        if now_ms >= self.max_duration_ms {
            return true;
        }
        if let Some(done_at) = self.input_completed_at_ms {
            if now_ms - done_at >= self.drain_grace_ms && now_ms - self.last_output_progress_at_ms
                >= self.drain_grace_ms {
                return true;
            }
        }
        false
    }
}

} // verus!
