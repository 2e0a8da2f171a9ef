use voice_cloner::naming::AssetCache;
use voice_cloner::offline::{
    chunk_len, chunk_progress, chunk_stage, chunk_step, offline_step, ChunkPhase, OfflineStep, ensure_wav_audio, is_short_audio, merged_layout, CreateOfflineTextJobRequest,
    FailOfflineJobRequest, OfflineJobManager, OfflineJobStatus,
};
use voice_cloner::session::RuntimeParams;
use voice_cloner::settings::AppSettings;

const NOW: i64 = 1_730_000_000_000;

fn text_request(text: &str, output_format: Option<&str>) -> CreateOfflineTextJobRequest {
    CreateOfflineTextJobRequest {
        text: text.into(),
        voice_name: "narrator".into(),
        runtime_params: RuntimeParams::empty(),
        output_format: output_format.map(|f| f.to_string()),
    }
}

fn cache() -> AssetCache {
    AssetCache::new("/cache/offline-exports".into(), "/cache/voice-design".into())
}

#[test]
fn offline_manager_creates_audio_and_text_jobs_with_funspeech_endpoint_hints() {
    let mut manager = OfflineJobManager::new();
    let settings = AppSettings::default();

    let audio = manager
        .create_audio_job(
            "offline-1".into(),
            "trace-1".into(),
            "C:/recordings/input.wav".into(),
            Some("input.wav".into()),
            "narrator".into(),
            RuntimeParams::empty(),
            Some("WAV".into()),
            &settings,
            NOW,
        )
        .unwrap();
    let text = manager
        .create_text_job("offline-2".into(), "trace-2".into(), text_request("hello", None), &settings, NOW + 1)
        .unwrap();

    assert_eq!(audio.status, OfflineJobStatus::Created);
    assert_eq!(audio.stage, "created");
    assert!(audio.artifact_url.unwrap().ends_with("/stream/v1/asr"));
    assert_eq!(audio.output_format, "wav");
    assert!(text.artifact_url.unwrap().ends_with("/stream/v1/tts"));
    assert_eq!(manager.list_jobs().len(), 2);
}

#[test]
fn offline_manager_clears_records_and_audio_files() {
    let mut manager = OfflineJobManager::new();
    let settings = AppSettings::default();
    let created = manager
        .create_text_job("offline-1".into(), "trace-1".into(), text_request("hello", Some("wav")), &settings, NOW)
        .unwrap();
    let artifact = cache().offline_artifact_path(&created.job_id, "wav").unwrap();
    manager.complete_job(&created.job_id, None, &artifact.path, NOW + 1).unwrap();

    let removed = manager.clear_jobs();

    assert_eq!(removed.len(), 1);
    assert_eq!(removed[0].local_artifact_path.as_deref(), Some(artifact.path.as_str()));
    assert!(manager.list_jobs().is_empty());
}

#[test]
fn offline_manager_deletes_one_record_and_audio_files() {
    let mut manager = OfflineJobManager::new();
    let settings = AppSettings::default();
    let audio = manager
        .create_audio_job(
            "offline-1".into(),
            "trace-1".into(),
            "/cache/offline-inputs/input.wav".into(),
            Some("input.wav".into()),
            "narrator".into(),
            RuntimeParams::empty(),
            Some("wav".into()),
            &settings,
            NOW,
        )
        .unwrap();
    let kept = manager
        .create_text_job("offline-2".into(), "trace-2".into(), text_request("keep me", Some("wav")), &settings, NOW)
        .unwrap();
    let artifact = cache().offline_artifact_path(&audio.job_id, "wav").unwrap();
    let completed = manager.complete_job(&audio.job_id, None, &artifact.path, NOW + 1).unwrap();
    assert_eq!(completed.local_artifact_path.as_deref(), Some(artifact.path.as_str()));

    let removed = manager.remove_job(&audio.job_id).unwrap();

    assert_eq!(removed.job_id, audio.job_id);
    assert_eq!(removed.input_ref, "/cache/offline-inputs/input.wav");
    assert!(manager.get_job(&audio.job_id).is_err());
    assert!(manager.get_job(&kept.job_id).is_ok());
}

#[test]
fn offline_manager_runs_fails_retries_and_completes_jobs() {
    let mut manager = OfflineJobManager::new();
    let settings = AppSettings::default();
    let created = manager
        .create_audio_job(
            "offline-1".into(),
            "trace-1".into(),
            "C:/recordings/input.wav".into(),
            None,
            "narrator".into(),
            RuntimeParams::empty(),
            Some("wav".into()),
            &settings,
            NOW,
        )
        .unwrap();

    let failed = manager
        .fail_job(&created.job_id, FailOfflineJobRequest { message: "backend failed".into() }, NOW + 1)
        .unwrap();
    assert_eq!(failed.status, OfflineJobStatus::Failed);
    assert_eq!(failed.stage, "failed");
    assert_eq!(failed.error_summary.as_deref(), Some("backend failed"));

    manager.retry_check(&created.job_id).unwrap();
    let retried = manager.reset_job(&created.job_id, NOW + 2).unwrap();
    assert_eq!(retried.status, OfflineJobStatus::Created);
    assert!(retried.error_summary.is_none());

    let artifact = cache().offline_artifact_path(&created.job_id, &created.output_format).unwrap();
    let completed = manager
        .complete_job(&created.job_id, Some("https://voice.example.com/out.mp3".into()), &artifact.path, NOW + 3)
        .unwrap();
    assert_eq!(completed.status, OfflineJobStatus::Completed);
    assert_eq!(completed.progress, 100);
    assert!(completed.local_artifact_path.unwrap().ends_with(".wav"));
}

#[test]
fn retry_completed_job_reuses_record_and_removes_previous_artifact() {
    let mut manager = OfflineJobManager::new();
    let settings = AppSettings::default();
    let created = manager
        .create_text_job("offline-1".into(), "trace-1".into(), text_request("hello", Some("wav")), &settings, NOW)
        .unwrap();
    let artifact = cache().offline_artifact_path(&created.job_id, "wav").unwrap();
    manager.complete_job(&created.job_id, None, &artifact.path, NOW + 1).unwrap();

    let stale = manager.retry_check(&created.job_id).unwrap();
    assert_eq!(stale.local_artifact_path.as_deref(), Some(artifact.path.as_str()));
    let retried = manager.reset_job(&created.job_id, NOW + 2).unwrap();

    assert_eq!(retried.job_id, created.job_id);
    assert_eq!(retried.status, OfflineJobStatus::Created);
    assert!(retried.local_artifact_path.is_none());
    assert_eq!(manager.list_jobs().len(), 1);
}

#[test]
fn running_job_cannot_be_retried() {
    let mut manager = OfflineJobManager::new();
    let settings = AppSettings::default();
    let created = manager
        .create_text_job("offline-1".into(), "trace-1".into(), text_request("hello", None), &settings, NOW)
        .unwrap();
    manager.begin_job(&created.job_id, NOW + 1).unwrap();
    let error = manager.retry_check(&created.job_id).unwrap_err();
    assert_eq!(error.message(), "cannot retry offline job from Running");
}

#[test]
fn ensure_wav_audio_rejects_non_wav_tts_bytes() {
    let error = ensure_wav_audio("wav", b"not-a-riff-file", Some("audio/mpeg")).unwrap_err();

    assert!(error.to_text().contains("non-WAV audio"));
}

#[test]
fn offline_manager_rejects_empty_text_jobs() {
    let error = OfflineJobManager::new()
        .create_text_job("offline-1".into(), "trace-1".into(), text_request(" ", None), &AppSettings::default(), NOW)
        .unwrap_err();

    assert!(error.to_text().contains("text is required"));
}

#[test]
fn newest_jobs_are_listed_first() {
    let mut manager = OfflineJobManager::new();
    let settings = AppSettings::default();
    manager.create_text_job("a".into(), "t".into(), text_request("one", None), &settings, NOW).unwrap();
    manager.create_text_job("b".into(), "t".into(), text_request("two", None), &settings, NOW + 5).unwrap();
    let listed = manager.list_jobs();
    assert_eq!(listed[0].job_id, "b");
    assert_eq!(listed[1].job_id, "a");
}

#[test]
fn chunk_progress_and_stage_follow_the_chunk_schedule() {
    assert_eq!(chunk_progress(0, 2, 0), 12);
    assert_eq!(chunk_progress(0, 2, 1), 30);
    assert_eq!(chunk_progress(1, 2, 1), 67);
    assert_eq!(chunk_progress(0, 0, 0), 12);
    assert_eq!(chunk_stage("transcribingChunk", 0, 3), "transcribingChunk:1/3");
}

#[test]
fn short_audio_threshold_and_chunk_size() {
    assert_eq!(is_short_audio(160_000, 16_000).unwrap(), true);
    assert_eq!(is_short_audio(160_001, 16_000).unwrap(), false);
    assert!(is_short_audio(1, 0).is_err());
    assert_eq!(chunk_len(16_000, 60, 2).unwrap(), 1_920_000);
    assert_eq!(chunk_len(16_000, 0, 1).unwrap(), 16_000);
    assert_eq!(chunk_len(0, 60, 1).unwrap_err().message(), "wav input sample rate must be greater than 0");
}

#[test]
fn merged_layout_requires_matching_chunks() {
    assert_eq!(merged_layout(&vec![(0, 16_000), (1, 16_000)]).unwrap(), (1, 16_000));
    assert_eq!(
        merged_layout(&vec![(1, 16_000), (2, 16_000)]).unwrap_err().message(),
        "generated wav chunks have different channel counts"
    );
    assert_eq!(
        merged_layout(&vec![(1, 16_000), (1, 22_050)]).unwrap_err().message(),
        "generated wav chunks have different sample rates"
    );
    assert_eq!(merged_layout(&vec![]).unwrap_err().message(), "no wav chunks to merge");
}

#[test]
fn reloaded_jobs_keep_the_last_record_of_each_id_newest_first() {
    let mut manager = OfflineJobManager::new();
    let settings = AppSettings::default();
    let first = manager
        .create_text_job("offline-1".into(), "trace-1".into(), text_request("hello", None), &settings, NOW)
        .unwrap();
    let second = manager
        .create_text_job("offline-2".into(), "trace-2".into(), text_request("again", None), &settings, NOW + 5)
        .unwrap();
    let mut renamed = first.duplicate();
    renamed.stage = "reloaded".into();

    let reloaded = OfflineJobManager::from_jobs(vec![first, second, renamed]);
    let jobs = reloaded.list_jobs();

    assert_eq!(jobs.len(), 2);
    assert_eq!(jobs[0].job_id, "offline-2");
    assert_eq!(jobs[1].job_id, "offline-1");
    assert_eq!(jobs[1].stage, "reloaded");
}

#[test]
fn offline_steps_have_fixed_stages_and_progress() {
    assert_eq!(offline_step(OfflineStep::SplittingAudio), ("splittingAudio", 10));
    assert_eq!(offline_step(OfflineStep::Transcribing), ("transcribing", 20));
    assert_eq!(offline_step(OfflineStep::SynthesizingTranscript), ("synthesizing", 60));
    assert_eq!(offline_step(OfflineStep::SynthesizingText), ("synthesizing", 45));
    assert_eq!(offline_step(OfflineStep::MergingChunks), ("mergingChunks", 88));
    assert_eq!(offline_step(OfflineStep::NormalizingAudio), ("normalizingAudio", 89));
    assert_eq!(offline_step(OfflineStep::WritingArtifact), ("writingArtifact", 90));
    assert_eq!(chunk_step(ChunkPhase::Transcribing, 0, 2), ("transcribingChunk:1/2".to_string(), 12));
    assert_eq!(chunk_step(ChunkPhase::Synthesizing, 1, 2), ("synthesizingChunk:2/2".to_string(), 67));
}
