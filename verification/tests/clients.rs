use voice_cloner::asr::{asr_precheck, poll_count, poll_step, poll_timeout_error, transcription_text, PollStep};
use voice_cloner::endpoints::{check_tts_audio, needs_preset_retry, tts_plan, OfflineTtsRequest};
use voice_cloner::mic_buffer::VirtualMicSampleBuffer;
use voice_cloner::session::RuntimeParams;
use voice_cloner::settings::BackendConfig;
use voice_cloner::sidecar::{contains_text, find_demucs_stems, find_stem};

fn tts_request(text: &str, voice: &str, rate: u32) -> OfflineTtsRequest {
    OfflineTtsRequest {
        text: text.into(),
        voice_name: voice.into(),
        runtime_params: RuntimeParams::empty(),
        output_format: "wav".into(),
        sample_rate: rate,
    }
}

#[test]
fn tts_plan_trims_text_and_picks_supported_rate() {
    let config = BackendConfig::funspeech_default();
    let (text, rate) = tts_plan(&config, &tts_request("  hello ", "narrator", 48_000)).unwrap();
    assert_eq!(text, "hello");
    assert_eq!(rate, 22_050);
    assert_eq!(
        tts_plan(&config, &tts_request("  ", "narrator", 16_000)).unwrap_err().message(),
        "text is required for FunSpeech TTS"
    );
    assert_eq!(
        tts_plan(&config, &tts_request("hi", " ", 16_000)).unwrap_err().message(),
        "voiceName is required for FunSpeech TTS"
    );
    let mut bad = BackendConfig::funspeech_default();
    bad.base_url = "voice.local".into();
    assert_eq!(tts_plan(&bad, &tts_request("hi", "v", 16_000)).unwrap_err().code(), "invalid_settings");
}

#[test]
fn tiny_wav_at_custom_rate_is_retried_at_preset_rate() {
    let tiny = b"RIFFJ\0\0\0WAVEfmt ";
    assert!(needs_preset_retry("WAV", 16_000, tiny));
    assert!(!needs_preset_retry("wav", 22_050, tiny));
    assert!(!needs_preset_retry("mp3", 16_000, tiny));
    assert!(!needs_preset_retry("wav", 16_000, &vec![1u8; 4096]));
    assert_eq!(check_tts_audio(&[]).unwrap_err().message(), "FunSpeech TTS returned empty audio");
    assert!(check_tts_audio(&[1]).is_ok());
}

#[test]
fn asr_requests_are_checked_before_sending() {
    let config = BackendConfig::funspeech_default();
    assert_eq!(asr_precheck(&config, 10, ".WAV", false).unwrap(), "wav");
    assert_eq!(asr_precheck(&config, 0, "wav", false).unwrap_err().message(), "audio bytes are required for ASR");
    assert_eq!(
        asr_precheck(&config, 0, "wav", true).unwrap_err().message(),
        "audio bytes are required for async ASR"
    );
    assert_eq!(asr_precheck(&config, 3, "ogg", false).unwrap_err().message(), "audio input must be wav, mp3, or m4a");
}

#[test]
fn asr_answers_are_read_in_order() {
    assert_eq!(transcription_text(Some(" hi ".into()), Some("other".into()), None).unwrap(), "hi");
    assert_eq!(transcription_text(None, Some("result".into()), None).unwrap(), "result");
    assert_eq!(
        transcription_text(Some("  ".into()), None, Some("busy".into())).unwrap_err().message(),
        "busy"
    );
    assert_eq!(
        transcription_text(None, None, None).unwrap_err().message(),
        "FunSpeech ASR returned an empty transcription"
    );
}

#[test]
fn async_asr_polling_decisions() {
    assert_eq!(poll_count(30_000), 120);
    assert_eq!(poll_count(300_500), 300);
    assert_eq!(poll_step(Some(" done ".into()), 0, "x"), PollStep::Done("done".into()));
    assert_eq!(poll_step(None, 1, "RUNNING"), PollStep::Wait);
    assert_eq!(poll_step(Some(" ".into()), 20000000, "SUCCESS"), PollStep::Wait);
    match poll_step(None, -41, "FAILED") {
        PollStep::Failed(e) => assert_eq!(e.message(), "FunSpeech async ASR failed: FAILED (-41)"),
        other => panic!("unexpected {other:?}"),
    }
    assert_eq!(poll_timeout_error("t1").message(), "FunSpeech async ASR timed out waiting for task t1");
}

#[test]
fn virtual_mic_buffer_keeps_newest_samples_in_order() {
    let mut buffer: VirtualMicSampleBuffer<i16> = VirtualMicSampleBuffer::new();
    buffer.extend_bounded(&[1, 2, 3], 4);
    buffer.extend_bounded(&[4, 5], 4);
    assert_eq!(buffer.available(), 4);
    assert_eq!(buffer.next_or_zero(0), 2);
    assert_eq!(buffer.next_or_zero(0), 3);
    buffer.extend_bounded(&[6, 7, 8, 9, 10], 3);
    assert_eq!(buffer.available(), 3);
    assert_eq!(buffer.next_or_zero(0), 8);
    assert_eq!(buffer.next_or_zero(0), 9);
    assert_eq!(buffer.next_or_zero(0), 10);
    assert_eq!(buffer.next_or_zero(0), 0);
    assert_eq!(buffer.available(), 0);
}

#[test]
fn demucs_stems_are_found_by_file_stem() {
    assert!(contains_text("song.vocals", ".vocals"));
    assert!(!contains_text("vocal", "vocals"));
    let wavs = vec![
        "/out/htdemucs/song/Vocals.wav".to_string(),
        "/out/htdemucs/song/song.drums.wav".to_string(),
        "/out/htdemucs/song/bass.wav".to_string(),
        "/out/htdemucs/song/other.wav".to_string(),
    ];
    let found = find_demucs_stems(&wavs).unwrap();
    assert_eq!(found.vocals, "/out/htdemucs/song/Vocals.wav");
    assert_eq!(found.drums, "/out/htdemucs/song/song.drums.wav");
    assert_eq!(
        find_stem(&wavs[..2].to_vec(), "bass").unwrap_err().message(),
        "demucs-rs did not produce required bass.wav stem"
    );
}
