use voice_cloner::settings::{
    AppSettings, AppSettingsPatch, BackendConfig, BackendSettingsPatch, DeviceSettingsPatch, RuntimeSettingsPatch,
};

#[test]
fn default_settings_match_mvp_boundaries() {
    let settings = AppSettings::default();

    assert_eq!(settings.backend.llm.provider_name, "local-llm");
    assert_eq!(settings.backend.asr.provider_name, "funspeech");
    assert_eq!(settings.backend.tts.provider_name, "funspeech");
    assert_eq!(settings.backend.realtime.provider_name, "funspeech");
    assert_eq!(settings.runtime.default_output_format, "wav");
    assert_eq!(settings.runtime.audio_frame_ms, 20);
    assert!(settings.validate().is_ok());
}

#[test]
fn settings_patch_updates_nested_fields_without_losing_defaults() {
    let patch = AppSettingsPatch {
        device: Some(DeviceSettingsPatch {
            input_device_id: Some(Some("mic-1".into())),
            virtual_mic_enabled: Some(true),
            virtual_mic_device_id: Some(Some("virtual-mic-1".into())),
            ..Default::default()
        }),
        runtime: Some(RuntimeSettingsPatch {
            default_voice_name: Some(Some("narrator".into())),
            ..Default::default()
        }),
        ..Default::default()
    };

    let settings = patch.apply_to(AppSettings::default());

    assert_eq!(settings.device.input_device_id.as_deref(), Some("mic-1"));
    assert_eq!(settings.runtime.default_voice_name.as_deref(), Some("narrator"));
    assert_eq!(settings.backend.tts.provider_name, "funspeech");
    assert!(settings.device.virtual_mic_enabled);
    assert_eq!(settings.device.virtual_mic_device_id.as_deref(), Some("virtual-mic-1"));
}

#[test]
fn settings_validation_rejects_invalid_backend_url() {
    let mut settings = AppSettings::default();
    settings.backend.realtime.base_url = "localhost:8000".into();

    assert!(settings.validate().unwrap_err().contains("baseUrl"));
}

#[test]
fn empty_patch_leaves_settings_unchanged() {
    let settings = AppSettingsPatch::default().apply_to(AppSettings::default());
    assert!(settings.same_as(&AppSettings::default()));
}

#[test]
fn backend_patch_replaces_whole_service_config() {
    let mut tts = BackendConfig::funspeech_default();
    tts.base_url = "http://10.0.0.2:8000".into();
    let patch = AppSettingsPatch {
        backend: Some(BackendSettingsPatch { tts: Some(tts), ..Default::default() }),
        ..Default::default()
    };
    let settings = patch.apply_to(AppSettings::default());
    assert_eq!(settings.backend.tts.base_url, "http://10.0.0.2:8000");
    assert_eq!(settings.backend.asr.base_url, AppSettings::default().backend.asr.base_url);
}

#[test]
fn settings_validation_rejects_bad_runtime_values() {
    let mut settings = AppSettings::default();
    settings.runtime.audio_frame_ms = 0;
    assert_eq!(settings.validate().unwrap_err(), "runtime.audioFrameMs must be greater than 0");

    let mut settings = AppSettings::default();
    settings.backend.asr.timeout_ms = 0;
    assert_eq!(settings.validate().unwrap_err(), "backend.asr.timeoutMs must be greater than 0");
}

#[test]
fn normalizing_for_local_save_keeps_valid_settings_valid() {
    let mut settings = AppSettings::default();
    settings.normalize_for_local_save();
    assert!(settings.validate().is_ok());
    let mut again = settings.duplicate();
    again.normalize_for_local_save();
    assert!(again.same_as(&settings));
}
