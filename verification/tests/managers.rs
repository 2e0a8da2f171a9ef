use voice_cloner::domain::VoiceSeparationStem;
use voice_cloner::frame::PcmFormat;
use voice_cloner::json::JsonField;
use voice_cloner::mcp::parse_stem;
use voice_cloner::naming::AssetCache;
use voice_cloner::session::{RealtimeSessionStatus, RuntimeParams};
use voice_cloner::sessions::{
    AudioEngine, CreateRealtimeSessionRequest, SessionManager, SwitchRealtimeVoiceRequest, UpdateRealtimeParamsRequest,
};
use voice_cloner::settings::{
    AppSettings, AppSettingsPatch, BackendSettingsPatch, DeviceSettingsPatch, RuntimeSettingsPatch,
};
use voice_cloner::storage::SettingsManager;

const NOW: i64 = 1_730_000_000_000;

fn narrator_request() -> CreateRealtimeSessionRequest {
    CreateRealtimeSessionRequest { voice_name: "narrator".into(), runtime_params: RuntimeParams::empty() }
}

#[test]
fn audio_engine_tracks_active_realtime_sessions() {
    let mut engine = AudioEngine::new(PcmFormat::default_format());

    let started = engine.start_realtime_session("session-1").unwrap();
    assert_eq!(started.active_session_ids, vec!["session-1"]);

    let stopped = engine.stop_realtime_session("session-1");
    assert!(stopped.active_session_ids.is_empty());
}

#[test]
fn audio_engine_refuses_invalid_format() {
    let mut engine = AudioEngine::new(PcmFormat { sample_rate: 0, ..PcmFormat::default_format() });
    let error = engine.start_realtime_session("session-1").unwrap_err();
    assert_eq!(error.code(), "audio_error");
    assert!(engine.snapshot().active_session_ids.is_empty());
}

#[test]
fn session_manager_creates_starts_updates_switches_and_stops_session() {
    let mut manager = SessionManager::new();
    let mut audio = AudioEngine::new(PcmFormat::default_format());
    let settings = AppSettings::default();
    let created = manager
        .create_realtime_session("session-1".into(), "trace-1".into(), narrator_request(), &settings, NOW)
        .unwrap();

    assert_eq!(created.status, RealtimeSessionStatus::Idle);
    assert!(created.websocket_url.ends_with("/ws/v1/realtime/voice"));

    let running = manager.start_realtime_session(&created.session_id, &mut audio, NOW + 1).unwrap();
    assert_eq!(running.status, RealtimeSessionStatus::Running);
    assert_eq!(audio.snapshot().active_session_ids, vec![created.session_id.clone()]);

    let mut params = RuntimeParams::empty();
    params.values.push(("pitch".into(), JsonField::Other("1.2".into())));
    let updated = manager
        .update_realtime_params(&created.session_id, UpdateRealtimeParamsRequest { runtime_params: params }, NOW + 2)
        .unwrap();
    assert_eq!(
        updated.runtime_params.values.iter().find(|(k, _)| k == "pitch").map(|(_, v)| v.clone()),
        Some(JsonField::Other("1.2".into()))
    );

    let switched = manager
        .switch_realtime_voice(&created.session_id, SwitchRealtimeVoiceRequest { voice_name: "robot".into() }, NOW + 3)
        .unwrap();
    assert_eq!(switched.voice_name, "robot");

    let stopped = manager.stop_realtime_session(&created.session_id, &mut audio, NOW + 4).unwrap();
    assert_eq!(stopped.status, RealtimeSessionStatus::Stopped);
    assert!(audio.snapshot().active_session_ids.is_empty());
}

#[test]
fn session_manager_marks_failed_sessions_and_clears_audio_state() {
    let mut manager = SessionManager::new();
    let mut audio = AudioEngine::new(PcmFormat::default_format());
    let settings = AppSettings::default();
    let created = manager
        .create_realtime_session("session-1".into(), "trace-1".into(), narrator_request(), &settings, NOW)
        .unwrap();
    manager.start_realtime_session(&created.session_id, &mut audio, NOW).unwrap();

    let failed = manager
        .mark_realtime_session_failed(&created.session_id, "websocket disconnected".into(), &mut audio, NOW)
        .unwrap();

    assert_eq!(failed.status, RealtimeSessionStatus::Failed);
    assert_eq!(failed.error_summary.as_deref(), Some("websocket disconnected"));
    assert!(audio.snapshot().active_session_ids.is_empty());
}

#[test]
fn session_manager_rejects_empty_voice_name() {
    let error = SessionManager::new()
        .create_realtime_session(
            "session-1".into(),
            "trace-1".into(),
            CreateRealtimeSessionRequest { voice_name: " ".into(), runtime_params: RuntimeParams::empty() },
            &AppSettings::default(),
            NOW,
        )
        .unwrap_err();

    assert!(error.to_text().contains("voiceName"));
}

#[test]
fn session_manager_reports_unknown_sessions() {
    let mut manager = SessionManager::new();
    let mut audio = AudioEngine::new(PcmFormat::default_format());
    let error = manager.start_realtime_session("missing", &mut audio, NOW).unwrap_err();
    assert_eq!(error.message(), "session not found: missing");
    assert!(manager.get_realtime_session("missing").is_err());
}

#[test]
fn asset_cache_builds_safe_offline_export_paths() {
    let cache = AssetCache::new("/cache/offline".into(), "/cache/voice-design".into());
    let artifact = cache.offline_artifact_path("job-123", "WAV").unwrap();

    assert!(artifact.path.ends_with("job-123.wav"));
}

#[test]
fn asset_cache_refuses_unsafe_names() {
    let cache = AssetCache::new("/cache/offline".into(), "/cache/voice-design".into());
    let error = cache.offline_artifact_path("../..", "wav").unwrap_err();
    assert_eq!(error.message(), "job id is required for offline artifact path");
    let error = cache.voice_design_artifact_path("draft-1", "...").unwrap_err();
    assert_eq!(error.message(), "output format is required for voice design artifact path");
    let artifact = cache.voice_design_artifact_path("Draft 1", ".WAV").unwrap();
    assert!(artifact.path.ends_with("draft1.wav"));
}

#[test]
fn parse_stem_accepts_controlled_values_only() {
    assert_eq!(parse_stem("vocals").unwrap(), VoiceSeparationStem::Vocals);
    assert!(parse_stem("../secret").is_err());
}

#[test]
fn settings_manager_creates_updates_and_resets_settings() {
    let mut manager = SettingsManager::new("/settings/settings.json".into());

    let defaults = manager.get();
    assert_eq!(defaults.backend.realtime.provider_name, "funspeech");

    let updated = manager
        .update(AppSettingsPatch {
            device: Some(DeviceSettingsPatch { input_device_id: Some(Some("mic-1".into())), ..Default::default() }),
            runtime: Some(RuntimeSettingsPatch { default_output_format: Some("mp3".into()), ..Default::default() }),
            ..Default::default()
        })
        .unwrap();
    assert_eq!(updated.device.input_device_id.as_deref(), Some("mic-1"));
    assert_eq!(updated.runtime.default_output_format, "mp3");

    let reset = manager.reset();
    assert_eq!(reset.device.input_device_id, None);
    assert_eq!(reset.runtime.default_output_format, "wav");
}

#[test]
fn settings_manager_normalizes_hidden_provider_fields_before_saving() {
    let mut manager = SettingsManager::new("/settings/settings.json".into());
    let mut llm = AppSettings::default().backend.llm;
    llm.provider_name = " ".into();
    let mut realtime = AppSettings::default().backend.realtime;
    realtime.provider_name = "custom-provider-from-old-ui".into();
    realtime.model = Some("stale-funspeech-model".into());

    let saved = manager
        .update(AppSettingsPatch {
            backend: Some(BackendSettingsPatch { llm: Some(llm), realtime: Some(realtime), ..Default::default() }),
            ..Default::default()
        })
        .unwrap();

    assert_eq!(saved.backend.llm.provider_name, "local-llm");
    assert_eq!(saved.backend.realtime.provider_name, "funspeech");
    assert_eq!(saved.backend.realtime.model, None);
}

#[test]
fn settings_manager_rejects_invalid_update_and_keeps_settings() {
    let mut manager = SettingsManager::new("/settings/settings.json".into());
    let mut realtime = AppSettings::default().backend.realtime;
    realtime.base_url = "localhost:8000".into();
    let error = manager
        .update(AppSettingsPatch {
            backend: Some(BackendSettingsPatch { realtime: Some(realtime), ..Default::default() }),
            ..Default::default()
        })
        .unwrap_err();
    assert_eq!(error.code(), "invalid_settings");
    assert!(manager.get().same_as(&AppSettings::default()));
}

#[test]
fn settings_manager_reports_when_loaded_settings_were_normalized() {
    let mut manager = SettingsManager::new("/settings/settings.json".into());
    assert_eq!(manager.accept_loaded(AppSettings::default()).unwrap(), false);
    let mut loaded = AppSettings::default();
    loaded.backend.tts.model = Some("old".into());
    assert_eq!(manager.accept_loaded(loaded).unwrap(), true);
    assert_eq!(manager.get().backend.tts.model, None);
}

#[test]
fn default_audio_engine_uses_default_format_and_keeps_ids_in_order() {
    let mut engine = voice_cloner::sessions::AudioEngine::default();
    let snapshot = engine.snapshot();
    assert!(snapshot.active_session_ids.is_empty());
    assert_eq!(snapshot.format, voice_cloner::frame::PcmFormat::default_format());
    engine.start_realtime_session("s-2").unwrap();
    engine.start_realtime_session("s-1").unwrap();
    engine.start_realtime_session("s-2").unwrap();
    engine.stop_realtime_session("s-3");
    assert_eq!(engine.snapshot().active_session_ids, vec!["s-1".to_string(), "s-2".to_string()]);
    engine.stop_realtime_session("s-1");
    assert_eq!(engine.snapshot().active_session_ids, vec!["s-2".to_string()]);
    assert!(engine.stop_all().active_session_ids.is_empty());
}
