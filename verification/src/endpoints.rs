use vstd::prelude::*;

use crate::settings::{opt_str, BackendConfig, BackendConfigView, clone_opt_string};
use crate::text::{
    ascii_lower_seq, ascii_lowercase, concat2, has_prefix, same_text, strip_prefix, to_string, trim_end_char,
    trim_start_char, trim_seq, trimmed, without_leading, without_trailing,
};

verus! {

/// `base` with an `http(s)://` scheme turned into `ws(s)://`; other text is kept.
pub open spec fn websocket_base(base: Seq<char>) -> Seq<char> {
    if has_prefix(base, "https://"@) {
        "wss://"@ + base.skip("https://"@.len() as int)
    } else if has_prefix(base, "http://"@) {
        "ws://"@ + base.skip("http://"@.len() as int)
    } else {
        base
    }
}

/// `base` without trailing slashes, followed by `path`.
pub open spec fn rest_url_spec(base: Seq<char>, path: Seq<char>) -> Seq<char> {
    trim_end_char(base, '/') + path
}

/// The websocket URL for `path` on the backend at `base`.
pub open spec fn websocket_url_spec(base: Seq<char>, path: Seq<char>) -> Seq<char> {
    websocket_base(trim_end_char(base, '/')) + path
}

/// Turns `http://` into `ws://` and `https://` into `wss://`; any other text is kept.
pub fn websocket_base_url(base: &str) -> (url: String)
    ensures
        url@ == websocket_base(base@),
{
    match strip_prefix(base, "https://") {
        Some(rest) => concat2("wss://", rest.as_str()),
        None => match strip_prefix(base, "http://") {
            Some(rest) => concat2("ws://", rest.as_str()),
            None => to_string(base),
        },
    }
}

/// `base_url` without trailing slashes, followed by `path`.
pub fn rest_url(base_url: &str, path: &str) -> (url: String)
    ensures
        url@ == rest_url_spec(base_url@, path@),
{
    let base = without_trailing(base_url, '/');
    concat2(base.as_str(), path)
}

fn websocket_url(base_url: &str, path: &str) -> (url: String)
    ensures
        url@ == websocket_url_spec(base_url@, path@),
{
    let base = without_trailing(base_url, '/');
    let ws = websocket_base_url(base.as_str());
    concat2(ws.as_str(), path)
}

/// The FunSpeech realtime ASR websocket.
#[derive(Debug, Clone, PartialEq, Eq)]
pub struct RealtimeAsrEndpoint {
    pub websocket_url: String,
    pub timeout_ms: u64,
}

impl RealtimeAsrEndpoint {
    /// `<ws base>/ws/v1/asr` on the configured backend, with its timeout.
    pub fn from_backend_config(config: &BackendConfig) -> (e: RealtimeAsrEndpoint)
        ensures
            e.websocket_url@ == websocket_url_spec(config@.base_url, "/ws/v1/asr"@),
            e.timeout_ms == config.timeout_ms,
    {
        RealtimeAsrEndpoint {
            websocket_url: websocket_url(config.base_url.as_str(), "/ws/v1/asr"),
            timeout_ms: config.timeout_ms,
        }
    }
}

/// The FunSpeech realtime voice-conversion websocket.
#[derive(Debug, Clone, PartialEq, Eq)]
pub struct RealtimeEndpoint {
    pub websocket_url: String,
    pub timeout_ms: u64,
}

impl RealtimeEndpoint {
    /// `<ws base>/ws/v1/realtime/voice` on the configured backend, with its timeout.
    pub fn from_backend_config(config: &BackendConfig) -> (e: RealtimeEndpoint)
        ensures
            e.websocket_url@ == websocket_url_spec(config@.base_url, "/ws/v1/realtime/voice"@),
            e.timeout_ms == config.timeout_ms,
    {
        RealtimeEndpoint {
            websocket_url: websocket_url(config.base_url.as_str(), "/ws/v1/realtime/voice"),
            timeout_ms: config.timeout_ms,
        }
    }
}

/// The FunSpeech realtime TTS websocket.
#[derive(Debug, Clone, PartialEq, Eq)]
pub struct RealtimeTtsEndpoint {
    pub websocket_url: String,
    pub timeout_ms: u64,
}

impl RealtimeTtsEndpoint {
    /// `<ws base>/ws/v1/tts` on the configured backend, with its timeout.
    pub fn from_backend_config(config: &BackendConfig) -> (e: RealtimeTtsEndpoint)
        ensures
            e.websocket_url@ == websocket_url_spec(config@.base_url, "/ws/v1/tts"@),
            e.timeout_ms == config.timeout_ms,
    {
        RealtimeTtsEndpoint {
            websocket_url: websocket_url(config.base_url.as_str(), "/ws/v1/tts"),
            timeout_ms: config.timeout_ms,
        }
    }
}

/// Audio returned by an offline TTS request.
#[derive(Debug, Clone, PartialEq, Eq)]
pub struct OfflineTtsResult {
    pub audio_bytes: Vec<u8>,
    pub content_type: Option<String>,
}

/// The FunSpeech REST endpoints used by offline jobs.
#[derive(Debug, Clone, PartialEq, Eq)]
pub struct OfflineEndpoints {
    pub asr_url: String,
    pub async_asr_url: String,
    pub tts_url: String,
    pub openai_tts_url: String,
    pub timeout_ms: u64,
}

impl OfflineEndpoints {
    /// ASR paths on the ASR backend, TTS paths on the TTS backend, and the
    /// larger of the two timeouts.
    pub fn from_backend_configs(asr: &BackendConfig, tts: &BackendConfig) -> (e: OfflineEndpoints)
        ensures
            e.asr_url@ == rest_url_spec(asr@.base_url, "/stream/v1/asr"@),
            e.async_asr_url@ == rest_url_spec(asr@.base_url, "/rest/v1/asr/async"@),
            e.tts_url@ == rest_url_spec(tts@.base_url, "/stream/v1/tts"@),
            e.openai_tts_url@ == rest_url_spec(tts@.base_url, "/openai/v1/audio/speech"@),
            e.timeout_ms == if tts.timeout_ms >= asr.timeout_ms { tts.timeout_ms } else { asr.timeout_ms },
    {
        OfflineEndpoints {
            asr_url: rest_url(asr.base_url.as_str(), "/stream/v1/asr"),
            async_asr_url: rest_url(asr.base_url.as_str(), "/rest/v1/asr/async"),
            tts_url: rest_url(tts.base_url.as_str(), "/stream/v1/tts"),
            openai_tts_url: rest_url(tts.base_url.as_str(), "/openai/v1/audio/speech"),
            timeout_ms: if tts.timeout_ms >= asr.timeout_ms { tts.timeout_ms } else { asr.timeout_ms },
        }
    }
}

/// The FunSpeech voice-design endpoint.
#[derive(Debug, Clone, PartialEq, Eq)]
pub struct VoiceDesignEndpoint {
    pub provider_name: String,
    pub voice_design_url: String,
    pub timeout_ms: u64,
}

impl VoiceDesignEndpoint {
    /// `<base>/voices/v1/voice-design` with the configured provider and timeout.
    pub fn from_backend_config(config: &BackendConfig) -> (e: VoiceDesignEndpoint)
        ensures
            e.provider_name@ == config@.provider_name,
            e.voice_design_url@ == rest_url_spec(config@.base_url, "/voices/v1/voice-design"@),
            e.timeout_ms == config.timeout_ms,
    {
        VoiceDesignEndpoint {
            provider_name: config.provider_name.clone(),
            voice_design_url: rest_url(config.base_url.as_str(), "/voices/v1/voice-design"),
            timeout_ms: config.timeout_ms,
        }
    }
}

/// The local LLM text generation endpoint.
#[derive(Debug, Clone, PartialEq, Eq)]
pub struct LocalLlmEndpoint {
    pub provider_name: String,
    pub generate_url: String,
    pub model: Option<String>,
    pub timeout_ms: u64,
}

impl LocalLlmEndpoint {
    /// `<base>/api/generate` with the configured provider, model and timeout.
    pub fn from_backend_config(config: &BackendConfig) -> (e: LocalLlmEndpoint)
        ensures
            e.provider_name@ == config@.provider_name,
            e.generate_url@ == rest_url_spec(config@.base_url, "/api/generate"@),
            opt_str(e.model) == config@.model,
            e.timeout_ms == config.timeout_ms,
    {
        LocalLlmEndpoint {
            provider_name: config.provider_name.clone(),
            generate_url: rest_url(config.base_url.as_str(), "/api/generate"),
            model: clone_opt_string(&config.model),
            timeout_ms: config.timeout_ms,
        }
    }
}

/// The FunSpeech voice-manager endpoints used to keep the voice library in sync.
#[derive(Debug, Clone, PartialEq, Eq)]
pub struct VoiceSyncEndpointSet {
    pub sync_url: String,
    pub register_url: String,
    pub update_url: String,
    pub delete_url: String,
    pub refresh_url: String,
    pub timeout_ms: u64,
}

impl VoiceSyncEndpointSet {
    /// `<base>/voices/v1/{list,register,update,delete,refresh}` with the configured timeout.
    pub fn from_backend_config(config: &BackendConfig) -> (e: VoiceSyncEndpointSet)
        ensures
            e.sync_url@ == rest_url_spec(config@.base_url, "/voices/v1/list"@),
            e.register_url@ == rest_url_spec(config@.base_url, "/voices/v1/register"@),
            e.update_url@ == rest_url_spec(config@.base_url, "/voices/v1/update"@),
            e.delete_url@ == rest_url_spec(config@.base_url, "/voices/v1/delete"@),
            e.refresh_url@ == rest_url_spec(config@.base_url, "/voices/v1/refresh"@),
            e.timeout_ms == config.timeout_ms,
    {
        let base = config.base_url.as_str();
        VoiceSyncEndpointSet {
            sync_url: rest_url(base, "/voices/v1/list"),
            register_url: rest_url(base, "/voices/v1/register"),
            update_url: rest_url(base, "/voices/v1/update"),
            delete_url: rest_url(base, "/voices/v1/delete"),
            refresh_url: rest_url(base, "/voices/v1/refresh"),
            timeout_ms: config.timeout_ms,
        }
    }
}

/// The sample rate FunSpeech's preset voices are rendered at.
pub const FUNSPEECH_PRESET_SAMPLE_RATE: u32 = 22_050;

/// The shortest timeout an offline TTS request is given, in milliseconds.
pub const OFFLINE_TTS_TIMEOUT_FLOOR_MS: u64 = 300_000;

/// Distance between two sample rates.
pub open spec fn rate_distance(a: u32, b: u32) -> int {
    if a >= b { a - b } else { b - a }
}

/// The sample rate requested from FunSpeech TTS for a wanted rate: 22050 above
/// 24000, otherwise the nearest of 8000, 16000, 22050 and 24000 (the lower on a tie).
pub open spec fn tts_sample_rate_spec(rate: u32) -> u32 {
    if rate > 24_000 {
        22_050
    } else if rate_distance(8_000, rate) <= rate_distance(16_000, rate) && rate_distance(8_000, rate)
        <= rate_distance(22_050, rate) && rate_distance(8_000, rate) <= rate_distance(24_000, rate) {
        8_000
    } else if rate_distance(16_000, rate) <= rate_distance(22_050, rate) && rate_distance(16_000, rate)
        <= rate_distance(24_000, rate) {
        16_000
    } else if rate_distance(22_050, rate) <= rate_distance(24_000, rate) {
        22_050
    } else {
        24_000
    }
}

fn abs_diff(a: u32, b: u32) -> (d: u32)
    ensures
        d == rate_distance(a, b),
{
    if a >= b { a - b } else { b - a }
}

/// Picks the sample rate to request from FunSpeech TTS (see `tts_sample_rate_spec`).
pub fn funspeech_tts_sample_rate(sample_rate: u32) -> (rate: u32)
    ensures
        rate == tts_sample_rate_spec(sample_rate),
{
    if sample_rate > 24_000 {
        return FUNSPEECH_PRESET_SAMPLE_RATE;
    }
    let supported: [u32; 4] = [8_000, 16_000, 22_050, 24_000];
    let mut best = supported[0];
    let mut best_distance = abs_diff(supported[0], sample_rate);
    let mut i: usize = 1;
    while i < 4
        invariant
            1 <= i <= 4,
            supported@ == seq![8_000u32, 16_000u32, 22_050u32, 24_000u32],
            sample_rate <= 24_000,
            best_distance == rate_distance(best, sample_rate),
            i == 1 ==> best == 8_000,
            i == 2 ==> best == (if rate_distance(8_000, sample_rate) <= rate_distance(16_000, sample_rate) { 8_000u32 } else { 16_000u32 }),
            i >= 2 ==> best_distance <= rate_distance(8_000, sample_rate) && best_distance <= rate_distance(16_000, sample_rate),
            i >= 3 ==> best_distance <= rate_distance(22_050, sample_rate),
            i == 3 ==> best == (if rate_distance(8_000, sample_rate) <= rate_distance(16_000, sample_rate) && rate_distance(8_000, sample_rate) <= rate_distance(22_050, sample_rate) { 8_000u32 } else if rate_distance(16_000, sample_rate) <= rate_distance(22_050, sample_rate) { 16_000u32 } else { 22_050u32 }),
            i == 4 ==> best == tts_sample_rate_spec(sample_rate),
        decreases 4 - i,
    {
        let d = abs_diff(supported[i], sample_rate);
        if d < best_distance {
            best = supported[i];
            best_distance = d;
        }
        i += 1;
    }
    best
}

/// The bytes start like a WAV file (`RIFF....WAVE`).
pub open spec fn wav_header(bytes: Seq<u8>) -> bool {
    &&& bytes.len() >= 12
    &&& bytes[0] == 0x52 && bytes[1] == 0x49 && bytes[2] == 0x46 && bytes[3] == 0x46
    &&& bytes[8] == 0x57 && bytes[9] == 0x41 && bytes[10] == 0x56 && bytes[11] == 0x45
}

/// `RIFF....WAVE` at the start of `audio_bytes`.
pub fn is_wav_bytes(audio_bytes: &[u8]) -> (r: bool)
    ensures
        r == wav_header(audio_bytes@),
{
    audio_bytes.len() >= 12 && audio_bytes[0] == 0x52 && audio_bytes[1] == 0x49 && audio_bytes[2] == 0x46
        && audio_bytes[3] == 0x46 && audio_bytes[8] == 0x57 && audio_bytes[9] == 0x41 && audio_bytes[10]
        == 0x56 && audio_bytes[11] == 0x45
}

/// A WAV file shorter than 2048 bytes: what FunSpeech returns when a preset
/// voice renders nothing at a non-preset sample rate.
pub fn looks_like_tiny_wav(audio_bytes: &[u8]) -> (r: bool)
    ensures
        r == (wav_header(audio_bytes@) && audio_bytes@.len() < 2048),
{
    is_wav_bytes(audio_bytes) && audio_bytes.len() < 2048
}

/// The configured timeout, but at least `OFFLINE_TTS_TIMEOUT_FLOOR_MS`.
pub fn offline_tts_timeout_ms(config: &BackendConfig) -> (t: u64)
    ensures
        t == if config.timeout_ms >= OFFLINE_TTS_TIMEOUT_FLOOR_MS { config.timeout_ms } else { OFFLINE_TTS_TIMEOUT_FLOOR_MS },
{
    if config.timeout_ms >= OFFLINE_TTS_TIMEOUT_FLOOR_MS {
        config.timeout_ms
    } else {
        OFFLINE_TTS_TIMEOUT_FLOOR_MS
    }
}

/// Credentials sent with asynchronous ASR requests.
#[derive(Debug, Clone, PartialEq, Eq)]
pub struct AsyncAsrHeader {
    pub appkey: String,
    pub token: String,
}

/// The `appkey` extra option (default `voice-cloner`) and the API key
/// reference (default `voice-cloner-token`).
pub fn async_asr_header(config: &BackendConfig) -> (h: AsyncAsrHeader)
    ensures
        h.appkey@ == match crate::options::option_value(config@.extra_options, "appkey"@) {
            Some(v) => v,
            None => "voice-cloner"@,
        },
        h.token@ == match config@.api_key_ref {
            Some(v) => v,
            None => "voice-cloner-token"@,
        },
{
    let appkey = match config.extra_options.get("appkey") {
        Some(v) => v,
        None => to_string("voice-cloner"),
    };
    let token = match &config.api_key_ref {
        Some(v) => v.clone(),
        None => to_string("voice-cloner-token"),
    };
    AsyncAsrHeader { appkey, token }
}

/// The audio format name accepted for ASR uploads: `format` trimmed, without
/// leading dots, in lower case, when that is `wav`, `mp3` or `m4a`.
pub open spec fn audio_format_spec(format: Seq<char>) -> Seq<char> {
    ascii_lower_seq(trim_start_char(trim_seq(format), '.'))
}

/// Normalizes an ASR upload format; anything but wav, mp3 or m4a is refused.
pub fn normalize_audio_format(format: &str) -> (r: Result<String, String>)
    ensures
        match r {
            Ok(f) => f@ == audio_format_spec(format@) && (f@ == "wav"@ || f@ == "mp3"@ || f@ == "m4a"@),
            Err(e) => e@ == "audio input must be wav, mp3, or m4a"@ && !(audio_format_spec(format@) == "wav"@
                || audio_format_spec(format@) == "mp3"@ || audio_format_spec(format@) == "m4a"@),
        },
{
    let t = trimmed(format);
    let d = without_leading(t.as_str(), '.');
    let normalized = ascii_lowercase(d.as_str());
    if same_text(normalized.as_str(), "wav") || same_text(normalized.as_str(), "mp3") || same_text(
        normalized.as_str(),
        "m4a",
    ) {
        Ok(normalized)
    } else {
        Err(to_string("audio input must be wav, mp3, or m4a"))
    }
}


/// A speech synthesis request for an offline job.
#[derive(Debug, Clone, PartialEq, Eq)]
pub struct OfflineTtsRequest {
    pub text: String,
    pub voice_name: String,
    pub runtime_params: crate::session::RuntimeParams,
    pub output_format: String,
    pub sample_rate: u32,
}

/// What a synthesis request sends first: the trimmed text and the sample
/// rate to ask for; or why it cannot be sent.
pub fn tts_plan(config: &BackendConfig, request: &OfflineTtsRequest) -> (r: Result<(String, u32), crate::error::AppError>)
    ensures
        match r {
            Ok((text, rate)) => crate::settings::backend_config_error(config@, "backend.tts"@) is None && trim_seq(
                request.text@,
            ).len() > 0 && trim_seq(request.voice_name@).len() > 0 && text@ == trim_seq(request.text@) && rate
                == tts_sample_rate_spec(request.sample_rate),
            Err(e) => match crate::settings::backend_config_error(config@, "backend.tts"@) {
                Some(m) => e matches crate::error::AppError::InvalidSettings { message } && message@ == m,
                None => if trim_seq(request.text@).len() == 0 {
                    crate::offline::job_error(e, "text is required for FunSpeech TTS"@)
                } else {
                    trim_seq(request.voice_name@).len() == 0 && crate::offline::job_error(
                        e,
                        "voiceName is required for FunSpeech TTS"@,
                    )
                },
            },
        },
{
    match config.validate("backend.tts") {
        Ok(()) => {},
        Err(m) => return Err(crate::error::AppError::invalid_settings(m)),
    }
    let text = trimmed(request.text.as_str());
    if text.unicode_len() == 0 {
        return Err(crate::error::AppError::offline_job(to_string("text is required for FunSpeech TTS")));
    }
    let voice = trimmed(request.voice_name.as_str());
    if voice.unicode_len() == 0 {
        return Err(crate::error::AppError::offline_job(to_string("voiceName is required for FunSpeech TTS")));
    }
    Ok((text, funspeech_tts_sample_rate(request.sample_rate)))
}

/// A WAV answer at a non-preset sample rate that is nearly empty is asked
/// for again at the preset rate.
pub fn needs_preset_retry(output_format: &str, sample_rate: u32, audio_bytes: &[u8]) -> (r: bool)
    ensures
        r == (ascii_lower_seq(output_format@) == "wav"@ && sample_rate != FUNSPEECH_PRESET_SAMPLE_RATE && wav_header(
            audio_bytes@,
        ) && audio_bytes@.len() < 2048),
{
    same_text(ascii_lowercase(output_format).as_str(), "wav") && sample_rate != FUNSPEECH_PRESET_SAMPLE_RATE
        && looks_like_tiny_wav(audio_bytes)
}

/// A synthesis answer must carry audio.
pub fn check_tts_audio(audio_bytes: &[u8]) -> (r: Result<(), crate::error::AppError>)
    ensures
        match r {
            Ok(()) => audio_bytes@.len() > 0,
            Err(e) => audio_bytes@.len() == 0 && crate::offline::job_error(e, "FunSpeech TTS returned empty audio"@),
        },
{
    if audio_bytes.len() == 0 {
        Err(crate::error::AppError::offline_job(to_string("FunSpeech TTS returned empty audio")))
    } else {
        Ok(())
    }
}

} // verus!
