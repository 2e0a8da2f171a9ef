use vstd::prelude::*;

use crate::endpoints::{audio_format_spec, normalize_audio_format};
use crate::error::AppError;
use crate::offline::job_error;
use crate::settings::{backend_config_error, opt_str, BackendConfig};
use crate::text::{concat2, concat3, decimal, decimal_seq, is_blank, trim_seq, trimmed};
use crate::voice_stream::{signed_decimal, signed_decimal_text};

verus! {

/// Checks an ASR request before it is sent: a valid ASR backend, some audio,
/// and a wav, mp3 or m4a format; gives the normalized format. `missing_audio`
/// is the message for empty audio.
pub open spec fn asr_precheck_spec(config: crate::settings::BackendConfigView, audio_len: nat, format: Seq<char>, missing_audio: Seq<char>) -> Result<Seq<char>, (bool, Seq<char>)> {
    match backend_config_error(config, "backend.asr"@) {
        Some(m) => Err((true, m)),
        None => if audio_len == 0 {
            Err((false, missing_audio))
        } else if audio_format_spec(format) == "wav"@ || audio_format_spec(format) == "mp3"@ || audio_format_spec(format)
            == "m4a"@ {
            Ok(audio_format_spec(format))
        } else {
            Err((false, "audio input must be wav, mp3, or m4a"@))
        },
    }
}

/// An error as `asr_precheck_spec` describes it: an invalid setting (true) or
/// an offline-job error (false) with its message.
pub open spec fn is_precheck_error(e: AppError, d: (bool, Seq<char>)) -> bool {
    if d.0 {
        e matches AppError::InvalidSettings { message } && message@ == d.1
    } else {
        job_error(e, d.1)
    }
}

/// See `asr_precheck_spec`; `asynchronous` picks the message for empty audio.
pub fn asr_precheck(config: &BackendConfig, audio_len: usize, format: &str, asynchronous: bool) -> (r: Result<
    String,
    AppError,
>)
    ensures
        ({
            let missing = if asynchronous {
                "audio bytes are required for async ASR"@
            } else {
                "audio bytes are required for ASR"@
            };
            match r {
                Ok(f) => asr_precheck_spec(config@, audio_len as nat, format@, missing) == Ok::<
                    Seq<char>,
                    (bool, Seq<char>),
                >(f@),
                Err(e) => asr_precheck_spec(config@, audio_len as nat, format@, missing) matches Err(d)
                    && is_precheck_error(e, d),
            }
        }),
{
    match config.validate("backend.asr") {
        Ok(()) => {},
        Err(m) => return Err(AppError::invalid_settings(m)),
    }
    if audio_len == 0 {
        let m = if asynchronous {
            "audio bytes are required for async ASR"
        } else {
            "audio bytes are required for ASR"
        };
        return Err(AppError::offline_job(String::from_str(m)));
    }
    match normalize_audio_format(format) {
        Ok(f) => Ok(f),
        Err(m) => Err(AppError::offline_job(m)),
    }
}

pub open spec fn or_else_text(a: Option<Seq<char>>, b: Option<Seq<char>>) -> Option<Seq<char>> {
    match a {
        Some(x) => Some(x),
        None => b,
    }
}

/// The transcript of a synchronous ASR answer: its `text`, else its `result`,
/// trimmed; an empty transcript is an error carrying the answer's message.
pub fn transcription_text(text: Option<String>, result: Option<String>, message: Option<String>) -> (r: Result<
    String,
    AppError,
>)
    ensures
        ({
            let t = trim_seq(
                match or_else_text(opt_str(text), opt_str(result)) {
                    Some(x) => x,
                    None => Seq::empty(),
                },
            );
            match r {
                Ok(s) => t.len() > 0 && s@ == t,
                Err(e) => t.len() == 0 && job_error(
                    e,
                    match opt_str(message) {
                        Some(m) => m,
                        None => "FunSpeech ASR returned an empty transcription"@,
                    },
                ),
            }
        }),
{
    let chosen = match text {
        Some(t) => t,
        None => match result {
            Some(r) => r,
            None => String::new(),
        },
    };
    let t = trimmed(chosen.as_str());
    if t.unicode_len() == 0 {
        return Err(
            AppError::offline_job(
                match message {
                    Some(m) => m,
                    None => String::from_str("FunSpeech ASR returned an empty transcription"),
                },
            ),
        );
    }
    Ok(t)
}

/// The error of a failed asynchronous ASR answer.
pub fn async_asr_error(error_message: &str, error_code: i64) -> (e: AppError)
    ensures
        job_error(e, "FunSpeech async ASR failed: "@ + error_message@ + " ("@ + signed_decimal(error_code) + ")"@),
{
    let a = concat3("FunSpeech async ASR failed: ", error_message, " (");
    let b = concat2(a.as_str(), signed_decimal_text(error_code).as_str());
    AppError::offline_job(concat2(b.as_str(), ")"))
}

/// How many times an asynchronous ASR task is polled, a second apart: the
/// timeout in whole seconds, at least two minutes' worth.
pub fn poll_count(timeout_ms: u64) -> (n: u64)
    ensures
        n == (if timeout_ms >= 120_000 {
            timeout_ms
        } else {
            120_000
        }) / 1000,
{
    let t = if timeout_ms >= 120_000 {
        timeout_ms
    } else {
        120_000
    };
    t / 1000
}

/// What one poll of an asynchronous ASR task decided.
#[derive(Debug, Clone, PartialEq, Eq)]
pub enum PollStep {
    /// The transcript is ready.
    Done(String),
    /// The task still runs: poll again.
    Wait,
    /// The task failed.
    Failed(AppError),
}

/// One poll's answer: a non-blank result is the transcript; a task still
/// running (or an answer with the success code) is polled again; anything
/// else failed.
pub fn poll_step(result: Option<String>, error_code: i64, error_message: &str) -> (s: PollStep)
    ensures
        match s {
            PollStep::Done(t) => opt_str(result) matches Some(x) && trim_seq(x).len() > 0 && t@ == trim_seq(x),
            PollStep::Wait => !(opt_str(result) matches Some(x) && trim_seq(x).len() > 0) && (error_message@
                == "RUNNING"@ || error_code == 20000000),
            PollStep::Failed(e) => !(opt_str(result) matches Some(x) && trim_seq(x).len() > 0) && error_message@
                != "RUNNING"@ && error_code != 20000000 && job_error(
                e,
                "FunSpeech async ASR failed: "@ + error_message@ + " ("@ + signed_decimal(error_code) + ")"@,
            ),
        },
{
    if let Some(r) = &result {
        let t = trimmed(r.as_str());
        if t.unicode_len() > 0 {
            return PollStep::Done(t);
        }
    }
    if crate::text::same_text(error_message, "RUNNING") || error_code == 20000000 {
        PollStep::Wait
    } else {
        PollStep::Failed(async_asr_error(error_message, error_code))
    }
}

/// The error of a task that never finished.
pub fn poll_timeout_error(task_id: &str) -> (e: AppError)
    ensures
        job_error(e, "FunSpeech async ASR timed out waiting for task "@ + task_id@),
{
    AppError::offline_job(concat2("FunSpeech async ASR timed out waiting for task ", task_id))
}

} // verus!
