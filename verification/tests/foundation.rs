use voice_cloner::frame::{PcmFormat, SampleFormat};
use voice_cloner::runtime::{app_summary, new_entity_id, stable_device_id, AudioDeviceKind, IdSequence, TraceId};

fn stamp() -> String {
    chrono::Utc::now().format("%Y%m%d%H%M%S%3f").to_string()
}
use voice_cloner::storage::AppPaths;

#[test]
fn trace_ids_include_scope_and_are_unique() {
    let mut ids = IdSequence::new();
    let first = ids.trace_id("settings", &stamp());
    let second = ids.trace_id("settings", &stamp());

    assert!(first.as_str().starts_with("settings-"));
    assert_ne!(first, second);
}

#[test]
fn entity_ids_include_prefix_and_are_unique() {
    let mut ids = IdSequence::new();
    let first = ids.entity_id("session", &stamp());
    let second = ids.entity_id("session", &stamp());

    assert!(first.starts_with("session-"));
    assert_ne!(first, second);
}

#[test]
fn trace_id_text_is_scope_timestamp_and_sequence() {
    let id = TraceId::from_parts("offline", "20250102030405006", 42);
    assert_eq!(id.as_str(), "offline-20250102030405006-42");
    assert_eq!(id.into_string(), "offline-20250102030405006-42");
}

#[test]
fn stable_device_id_normalizes_names_for_ipc_storage() {
    assert_eq!(
        stable_device_id(AudioDeviceKind::Input, 2, "USB Mic (Main)"),
        "input-2-usb-mic--main"
    );
}

#[test]
fn stable_device_id_of_output_and_unnamed_devices() {
    assert_eq!(stable_device_id(AudioDeviceKind::Output, 0, "Speakers"), "output-0-speakers");
    assert_eq!(stable_device_id(AudioDeviceKind::Output, 3, "  ---  "), "output-3-");
}

#[test]
fn pcm_format_calculates_frame_size() {
    let format = PcmFormat {
        sample_rate: 48_000,
        channels: 2,
        frame_ms: 20,
        ..PcmFormat::default_format()
    };

    assert_eq!(format.samples_per_frame(), 1_920);
    assert!(format.validate().is_ok());
}

#[test]
fn pcm_format_rejects_zero_fields() {
    let base = PcmFormat::default_format();
    assert_eq!(base.sample_format, SampleFormat::F32);
    let zero_rate = PcmFormat { sample_rate: 0, ..base };
    assert_eq!(zero_rate.validate().unwrap_err(), "sampleRate must be greater than 0");
    let zero_channels = PcmFormat { channels: 0, ..base };
    assert_eq!(zero_channels.validate().unwrap_err(), "channels must be greater than 0");
    let zero_frame = PcmFormat { frame_ms: 0, ..base };
    assert_eq!(zero_frame.validate().unwrap_err(), "frameMs must be greater than 0");
    assert_eq!(PcmFormat { sample_rate: 16_000, channels: 1, ..base }.samples_per_frame(), 320);
}

#[test]
fn app_summary_exposes_runtime_foundation_status() {
    let summary = app_summary();

    assert_eq!(summary.name, "voice-cloner");
    assert_eq!(summary.status, "ready");
    assert!(summary.message.contains("runtime foundation"));
}

#[test]
fn app_paths_follow_architecture_layout() {
    let root = std::path::Path::new("vc-root");
    let paths = AppPaths::layout("vc-root");
    let joined = |rest: &str| root.join(rest).to_string_lossy().into_owned();
    assert_eq!(std::path::Path::new(&paths.settings_file()), root.join("settings/app-settings.json"));
    assert_eq!(std::path::Path::new(&paths.preset_preview_dir()), root.join("cache/preset-preview"));
    assert_eq!(std::path::Path::new(&paths.offline_inputs_dir()), root.join("cache/offline-inputs"));
    assert_eq!(std::path::Path::new(&paths.voice_design_artifacts_dir()), root.join("cache/voice-design-artifacts"));
    assert_eq!(std::path::Path::new(&paths.voice_separation_jobs_dir()), root.join("cache/voice-separation-jobs"));
    assert_eq!(std::path::Path::new(&paths.offline_exports_dir()), root.join("cache/offline-exports"));
    assert_eq!(std::path::Path::new(&paths.custom_voices_dir()), root.join("library/custom-voices"));
    assert_eq!(std::path::Path::new(&paths.offline_jobs_file()), root.join("library/offline-jobs.json"));
    assert_eq!(std::path::Path::new(&paths.sync_state_file()), root.join("library/sync-state.json"));
    assert_eq!(paths.root(), "vc-root");
    assert_eq!(paths.directories().len(), 9);
    assert!(paths.directories().contains(&joined("library")));
    assert!(!paths.directories().contains(&joined("cache")));
}

#[test]
fn id_sequence_counts_from_one_and_stamps_each_id() {
    let mut ids = IdSequence::new();
    assert_eq!(ids.trace_id("settings", "20250101120000000").as_str(), "settings-20250101120000000-1");
    assert_eq!(ids.trace_id("settings", "20250101120000001").as_str(), "settings-20250101120000001-2");
    assert_eq!(ids.entity_id("job", "20250101120000001"), "job-20250101120000001-3");
    assert_ne!(new_entity_id("job", "20250101120000001", 12), new_entity_id("job", "20250101120000011", 2));
}
