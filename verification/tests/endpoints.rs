use voice_cloner::endpoints::{
    async_asr_header, funspeech_tts_sample_rate, is_wav_bytes, looks_like_tiny_wav, normalize_audio_format,
    offline_tts_timeout_ms, rest_url, websocket_base_url, LocalLlmEndpoint, OfflineEndpoints, RealtimeAsrEndpoint,
    RealtimeEndpoint, RealtimeTtsEndpoint, VoiceDesignEndpoint, VoiceSyncEndpointSet,
};
use voice_cloner::settings::BackendConfig;

fn funspeech_at(base_url: &str) -> BackendConfig {
    let mut config = BackendConfig::funspeech_default();
    config.base_url = base_url.into();
    config
}

#[test]
fn realtime_asr_endpoint_maps_http_base_to_ws_path() {
    let config = funspeech_at("https://voice.example.com/");

    let endpoint = RealtimeAsrEndpoint::from_backend_config(&config);

    assert_eq!(endpoint.websocket_url, "wss://voice.example.com/ws/v1/asr");
}

#[test]
fn offline_endpoints_map_funspeech_rest_paths() {
    let config = funspeech_at("https://voice.example.com/");

    let endpoints = OfflineEndpoints::from_backend_configs(&config, &config);

    assert_eq!(endpoints.asr_url, "https://voice.example.com/stream/v1/asr");
    assert_eq!(endpoints.async_asr_url, "https://voice.example.com/rest/v1/asr/async");
    assert_eq!(endpoints.tts_url, "https://voice.example.com/stream/v1/tts");
    assert_eq!(
        endpoints.openai_tts_url,
        "https://voice.example.com/openai/v1/audio/speech"
    );
}

#[test]
fn async_asr_header_uses_optional_appkey_and_token_settings() {
    let mut config = BackendConfig::funspeech_default();
    config.api_key_ref = Some("0123456789".into());
    config.extra_options.insert("appkey".into(), "desktop".into());

    let header = async_asr_header(&config);

    assert_eq!(header.appkey, "desktop");
    assert_eq!(header.token, "0123456789");
}

#[test]
fn async_asr_header_falls_back_to_defaults() {
    let config = BackendConfig::funspeech_default();

    let header = async_asr_header(&config);

    assert_eq!(header.appkey, "voice-cloner");
    assert_eq!(header.token, "voice-cloner-token");
}

#[test]
fn realtime_endpoint_maps_http_base_to_ws_path() {
    let config = funspeech_at("https://voice.example.com/");

    let endpoint = RealtimeEndpoint::from_backend_config(&config);

    assert_eq!(endpoint.websocket_url, "wss://voice.example.com/ws/v1/realtime/voice");
}

#[test]
fn realtime_tts_endpoint_maps_http_base_to_ws_path() {
    let config = funspeech_at("https://voice.example.com/");

    let endpoint = RealtimeTtsEndpoint::from_backend_config(&config);

    assert_eq!(endpoint.websocket_url, "wss://voice.example.com/ws/v1/tts");
}

#[test]
fn websocket_base_maps_plain_http_and_keeps_other_schemes() {
    assert_eq!(websocket_base_url("http://127.0.0.1:8000/"), "ws://127.0.0.1:8000/");
    assert_eq!(websocket_base_url("ws://host"), "ws://host");
    assert_eq!(rest_url("http://host/", "/a/b"), "http://host/a/b");
}

#[test]
fn funspeech_tts_sample_rate_uses_supported_nearest_rate() {
    assert_eq!(funspeech_tts_sample_rate(48_000), 22_050);
    assert_eq!(funspeech_tts_sample_rate(24_000), 24_000);
    assert_eq!(funspeech_tts_sample_rate(16_000), 16_000);
}

#[test]
fn tiny_wav_detection_catches_empty_builtin_voice_outputs() {
    let tiny_wav = b"RIFFJ\0\0\0WAVEfmt ";

    assert!(looks_like_tiny_wav(tiny_wav));
    assert!(!looks_like_tiny_wav(&vec![1; 4096]));
}

#[test]
fn wav_magic_detection() {
    assert!(is_wav_bytes(b"RIFF\0\0\0\0WAVEfmt "));
    assert!(!is_wav_bytes(b"RIFF\0\0\0\0WAV"));
    assert!(!is_wav_bytes(b"ID3\0\0\0\0\0\0\0\0\0"));
}

#[test]
fn offline_tts_timeout_uses_long_running_floor() {
    let mut config = BackendConfig::funspeech_default();
    config.timeout_ms = 30_000;

    assert_eq!(offline_tts_timeout_ms(&config), 300_000);

    config.timeout_ms = 600_000;
    assert_eq!(offline_tts_timeout_ms(&config), 600_000);
}

#[test]
fn voice_design_endpoint_maps_funspeech_voice_design_path() {
    let config = funspeech_at("https://voice.example.com/");

    let endpoint = VoiceDesignEndpoint::from_backend_config(&config);

    assert_eq!(
        endpoint.voice_design_url,
        "https://voice.example.com/voices/v1/voice-design"
    );
    assert_eq!(endpoint.provider_name, "funspeech");
}

#[test]
fn voice_manager_endpoints_map_funspeech_voice_manager_paths() {
    let config = funspeech_at("https://voice.example.com/");

    let endpoints = VoiceSyncEndpointSet::from_backend_config(&config);

    assert_eq!(endpoints.sync_url, "https://voice.example.com/voices/v1/list");
    assert_eq!(endpoints.register_url, "https://voice.example.com/voices/v1/register");
    assert_eq!(endpoints.update_url, "https://voice.example.com/voices/v1/update");
    assert_eq!(endpoints.delete_url, "https://voice.example.com/voices/v1/delete");
    assert_eq!(endpoints.refresh_url, "https://voice.example.com/voices/v1/refresh");
}

#[test]
fn local_llm_endpoint_maps_generate_path() {
    let mut config = BackendConfig::local_llm_default();
    config.base_url = "http://127.0.0.1:11434/".into();
    config.model = Some("qwen".into());

    let endpoint = LocalLlmEndpoint::from_backend_config(&config);

    assert_eq!(endpoint.generate_url, "http://127.0.0.1:11434/api/generate");
    assert_eq!(endpoint.model.as_deref(), Some("qwen"));
}

#[test]
fn audio_format_normalization() {
    assert_eq!(normalize_audio_format(" WAV ").unwrap(), "wav");
    assert!(normalize_audio_format("  ").is_err());
}

#[test]
fn extra_options_keep_one_value_per_key_in_key_order() {
    let mut options = voice_cloner::options::ExtraOptions::new();
    options.insert("region".into(), "cn".into());
    options.insert("appkey".into(), "first".into());
    options.insert("appkey".into(), "second".into());
    assert_eq!(options.get("appkey"), Some("second".to_string()));
    assert_eq!(options.get("missing"), None);
    assert_eq!(
        options.entries(),
        vec![("appkey".to_string(), "second".to_string()), ("region".to_string(), "cn".to_string())]
    );
    let mut other = voice_cloner::options::ExtraOptions::new();
    other.insert("appkey".into(), "second".into());
    other.insert("region".into(), "cn".into());
    assert!(options.same_as(&other));
}
