use voice_cloner::separation::source_type_of_extension;
use voice_cloner::separation::{first_separation_stage, separation_recovery, SeparationRecovery};
use voice_cloner::design::{
    CompleteVoiceDesignAsrRequest, CompleteVoiceDesignPreviewRequest, CompleteVoiceInstructionRequest,
    CreateVoiceDesignDraftRequest, FailVoiceDesignDraftRequest, SaveVoiceDesignDraftRequest, VoiceDesignFailureStage,
    VoiceDesignInputType, VoiceDesignManager, VoiceDesignStatus,
};
use voice_cloner::domain::{
    delete_outcome, full_sync_message, parse_incremental_operation, sync_outcome, SyncStatus, VoiceSeparationModel,
    VoiceSeparationSourceType, VoiceSeparationStatus, VoiceSeparationStem, VoiceSeparationStems, VoiceSyncOperation,
    VoiceSyncState, sync_report,
};
use voice_cloner::endpoints::VoiceSyncEndpointSet;
use voice_cloner::library::{
    check_wav_upload, edit_fields, keep_stored_audio, mark_sync_status, merge_remote_voice, prepare_for_save,
    profile_path, require_wav_file_name, sort_by_name, stale_audio_to_remove, CustomVoiceProfile, RemoteVoiceInfo,
};
use voice_cloner::mcp::{
    check_offline_resource, offline_resource_decision, offline_resources, parse_resource_uri, separation_resources, ResourceRef,
};
use voice_cloner::naming::{sanitize_path_segment, sanitize_voice_name, AssetCache};
use voice_cloner::offline::{OfflineJobManager, OfflineJobStatus};
use voice_cloner::separation::{
    detect_source_type, fallback_failure, new_job, JobPaths, SaveSeparatedVocalsRequest, SeparationStage,
    VoiceSeparationManager,
};
use voice_cloner::session::RuntimeParams;
use voice_cloner::settings::{AppSettings, BackendConfig};

const NOW: i64 = 1_730_000_000_000;

fn profile(name: &str, audio: &str) -> CustomVoiceProfile {
    CustomVoiceProfile {
        voice_name: name.into(),
        source_prompt_text: Some("warm narrator".into()),
        asr_text: None,
        voice_instruction: "warm, calm".into(),
        reference_audio_path: audio.into(),
        reference_text: "hello".into(),
        sync_status: SyncStatus::LocalOnly,
        last_synced_at: None,
        created_at: 0,
    }
}

fn separation_with_job(id: &str, now: i64) -> VoiceSeparationManager {
    let mut manager = VoiceSeparationManager::new();
    manager.insert_job(new_job(id.into(), "trace".into(), "/music/input.wav", None, now).unwrap());
    manager
}

#[test]
fn voice_separation_manager_reloads_persisted_jobs_and_skips_corrupt_snapshots() {
    let older = new_job("voice-separation-1".into(), "t1".into(), "/music/input.wav", None, NOW).unwrap();
    let newer = new_job("voice-separation-2".into(), "t2".into(), "/music/input.wav", None, NOW + 1).unwrap();
    let blank = new_job("  ".into(), "t3".into(), "/music/input.wav", None, NOW + 2).unwrap();
    let mut manager = VoiceSeparationManager::from_snapshots(vec![older.clone(), newer.clone(), blank]);
    manager.advance(&older.job_id, SeparationStage::Ready, NOW + 10).unwrap();

    let jobs = manager.list_jobs();

    assert_eq!(jobs.len(), 2);
    assert_eq!(jobs[0].job_id, older.job_id);
    assert!(jobs.iter().any(|job| job.job_id == newer.job_id));
}

#[test]
fn voice_separation_vocals_stem_path_prefers_post_processed_audio() {
    let mut manager = separation_with_job("voice-separation-1", NOW);
    manager
        .record_raw_stems(
            "voice-separation-1",
            VoiceSeparationStems {
                vocals: Some("/jobs/raw-vocals.wav".into()),
                no_vocals: None,
                drums: None,
                bass: None,
                other: None,
            },
            NOW,
        )
        .unwrap();
    manager
        .record_processed_vocals("voice-separation-1", "/jobs/processed-vocals.wav".into(), "{}".into(), NOW)
        .unwrap();

    assert_eq!(
        manager.stem_path("voice-separation-1", VoiceSeparationStem::Vocals).unwrap(),
        "/jobs/processed-vocals.wav"
    );
    assert_eq!(
        manager.stem_path("voice-separation-1", VoiceSeparationStem::Drums).unwrap_err().message(),
        "requested voice separation stem is unavailable"
    );
}

#[test]
fn separation_job_follows_stages_and_start_rules() {
    let mut manager = separation_with_job("sep-1", NOW);
    let started = manager.start_job("sep-1", NOW + 1).unwrap();
    assert_eq!(started.status, VoiceSeparationStatus::Decoding);
    assert_eq!(started.progress_permille, 50);
    assert_eq!(started.current_stage_message, "准备源材料");
    assert_eq!(
        manager.start_job("sep-1", NOW + 2).unwrap_err().message(),
        "voice separation job is already running or completed"
    );
    let error = manager.report_failure("sep-1", "demucs crashed".into(), NOW + 3);
    assert_eq!(error.message(), "voice separation job failed: demucs crashed");
    let failed = manager.get_job("sep-1").unwrap();
    assert_eq!(failed.status, VoiceSeparationStatus::Failed);
    assert_eq!(failed.progress_permille, 1000);
    assert_eq!(failed.error_message.as_deref(), Some("demucs crashed"));
    let restarted = manager.start_job("sep-1", NOW + 4).unwrap();
    assert!(restarted.error_message.is_none());
    let cancelled = manager.cancel_job("sep-1", NOW + 5).unwrap();
    assert_eq!(cancelled.status, VoiceSeparationStatus::Cancelled);
    assert_eq!(
        manager.get_job("missing").unwrap_err().message(),
        "voice separation job not found: missing"
    );
    let deleted = manager.delete_job("sep-1").unwrap();
    assert_eq!(deleted.message, "人声分离任务已删除");
    assert!(manager.list_jobs().is_empty());
}

#[test]
fn separation_source_types_come_from_extensions() {
    assert_eq!(detect_source_type("/v/clip.MP4").unwrap(), VoiceSeparationSourceType::Video);
    assert_eq!(detect_source_type("/a/song.flac").unwrap(), VoiceSeparationSourceType::Audio);
    assert_eq!(
        detect_source_type("/a/notes.txt").unwrap_err().message(),
        "unsupported source file extension: txt"
    );
    let job = new_job("j".into(), "t".into(), "/a/song.mp3", Some(VoiceSeparationModel::HtDemucsFt), NOW).unwrap();
    assert_eq!(job.source_file_name, "song.mp3");
    assert_eq!(job.model, VoiceSeparationModel::HtDemucsFt);
    assert_eq!(job.current_stage_message, "等待开始人声分离");
    assert_eq!(
        fallback_failure("bad", "worse").message(),
        "demucs-rs failed after ffmpeg fallback: bad; first error: worse"
    );
}

#[test]
fn separation_job_paths_follow_layout() {
    let paths = JobPaths::for_job("/jobs", "Voice-Separation_1!");
    assert!(paths.root.ends_with("voice-separation_1"));
    assert!(paths.processed_vocals.ends_with("processed/vocals.wav"));
    assert!(paths.post_process_report.ends_with("reports/post-process-report.json"));
    assert_eq!(paths.directories().len(), 6);
    assert!(paths.raw_stems().no_vocals.is_none());
}

#[test]
fn separated_vocals_become_a_custom_voice() {
    let mut manager = separation_with_job("sep-1", NOW);
    let request = SaveSeparatedVocalsRequest {
        voice_name: " singer ".into(),
        reference_text: "la la".into(),
        voice_instruction: None,
    };
    assert_eq!(
        manager.begin_saving_voice("sep-1", request.clone(), NOW).unwrap_err().message(),
        "voice separation job has no processed vocals"
    );
    manager.record_processed_vocals("sep-1", "/jobs/vocals.wav".into(), "{}".into(), NOW).unwrap();
    let profile = manager.begin_saving_voice("sep-1", request, NOW + 1).unwrap();
    assert_eq!(profile.voice_name, "singer");
    assert_eq!(profile.reference_audio_path, "/jobs/vocals.wav");
    assert_eq!(profile.source_prompt_text.as_deref(), Some("voiceSeparation"));
    assert_eq!(manager.get_job("sep-1").unwrap().status, VoiceSeparationStatus::SavingVoice);
    let saved = manager.finish_saving_voice("sep-1", "singer".into(), "la la".into(), NOW + 2).unwrap();
    assert_eq!(saved.status, VoiceSeparationStatus::Saved);
    assert_eq!(saved.voice_name.as_deref(), Some("singer"));
}

#[test]
fn mcp_resource_uris_are_parsed_strictly() {
    assert_eq!(
        parse_resource_uri("voice-cloner://offline-jobs/job-1/artifact").unwrap(),
        ResourceRef::OfflineArtifact("job-1".into())
    );
    assert_eq!(
        parse_resource_uri("voice-cloner://voice-separation/sep-1/stems/noVocals").unwrap(),
        ResourceRef::SeparationStem("sep-1".into(), VoiceSeparationStem::NoVocals)
    );
    assert_eq!(
        parse_resource_uri("voice-cloner://voice-separation/sep-1/stems").unwrap_err().message(),
        "voice separation stem is required"
    );
    assert_eq!(
        parse_resource_uri("voice-cloner://voice-separation/ /stems/vocals").unwrap_err().message(),
        "voice separation job id is required"
    );
    assert_eq!(
        parse_resource_uri("voice-cloner://voice-separation/sep-1/stems/vocals/x").unwrap_err().message(),
        "unsupported voice separation resource URI"
    );
    assert_eq!(
        parse_resource_uri("voice-cloner://voice-separation/sep-1/stems/../secret").unwrap_err().message(),
        "unsupported voice separation resource URI"
    );
    assert_eq!(
        parse_resource_uri("voice-cloner://offline-jobs/job-1").unwrap_err().message(),
        "unsupported offline resource URI"
    );
    assert_eq!(parse_resource_uri("file:///etc/passwd").unwrap_err().message(), "unsupported voice-cloner resource URI");
}

#[test]
fn mcp_lists_only_completed_offline_artifacts_and_existing_stems() {
    let mut offline = OfflineJobManager::new();
    let settings = AppSettings::default();
    let request = voice_cloner::offline::CreateOfflineTextJobRequest {
        text: "hello".into(),
        voice_name: "narrator".into(),
        runtime_params: RuntimeParams::empty(),
        output_format: None,
    };
    offline.create_text_job("job-1".into(), "t".into(), request.clone(), &settings, NOW).unwrap();
    offline.create_text_job("job-2".into(), "t".into(), request, &settings, NOW + 1).unwrap();
    let cache = AssetCache::new("/cache/offline".into(), "/cache/design".into());
    let artifact = cache.offline_artifact_path("job-1", "wav").unwrap();
    let done = offline.complete_job("job-1", None, &artifact.path, NOW + 2).unwrap();
    assert_eq!(done.status, OfflineJobStatus::Completed);

    let listed = offline_resources(&offline.list_jobs());
    assert_eq!(listed.len(), 1);
    assert_eq!(listed[0].uri, "voice-cloner://offline-jobs/job-1/artifact");
    assert_eq!(listed[0].name, "Offline voice artifact job-1");

    assert_eq!(check_offline_resource(&done, &artifact.path).unwrap(), artifact.path);
    assert_eq!(
        check_offline_resource(&done, "/elsewhere/job-1.wav").unwrap_err().message(),
        "offline resource is outside the controlled artifact cache"
    );
    let pending = offline.get_job("job-2").unwrap();
    assert_eq!(
        check_offline_resource(&pending, &artifact.path).unwrap_err().message(),
        "offline resource is not completed"
    );

    let mut separation = separation_with_job("sep-1", NOW);
    separation
        .record_raw_stems(
            "sep-1",
            VoiceSeparationStems {
                vocals: Some("/v.wav".into()),
                no_vocals: None,
                drums: Some("/d.wav".into()),
                bass: None,
                other: None,
            },
            NOW,
        )
        .unwrap();
    let stems = separation_resources(&separation.list_jobs());
    assert_eq!(stems.len(), 2);
    assert_eq!(stems[0].uri, "voice-cloner://voice-separation/sep-1/stems/vocals");
    assert_eq!(stems[1].name, "Voice separation drums sep-1");
}

#[test]
fn voice_library_validates_names_and_audio() {
    assert_eq!(sanitize_voice_name("My Voice"), "myvoice");
    assert_eq!(sanitize_voice_name("声音"), "_x58f0_x97f3");
    assert!(profile_path("/voices", "My Voice").unwrap().ends_with("myvoice.json"));
    assert_eq!(
        profile_path("/voices", "   ").unwrap_err().message(),
        "voiceName must contain a safe file name segment"
    );
    assert!(require_wav_file_name("take.WAV").is_ok());
    assert_eq!(require_wav_file_name("take.mp3").unwrap_err().message(), "reference audio must be a .wav file");
    assert_eq!(check_wav_upload("take.wav", 0).unwrap_err().message(), "referenceAudioBytes is required");
    assert!(stale_audio_to_remove("/voices/old.wav", Some("/voices/new.wav")));
    assert!(!stale_audio_to_remove("/voices/new.wav", Some("/voices/new.wav")));
    assert!(!stale_audio_to_remove("  ", None));
}

#[test]
fn voice_library_marks_sync_status_and_deletes_profiles() {
    let saved = prepare_for_save(profile(" My Voice ", "/voices/voice-1.wav"), NOW).unwrap();
    assert_eq!(saved.voice_name, "My Voice");
    assert_eq!(saved.sync_status, SyncStatus::PendingSync);
    assert_eq!(saved.created_at, NOW);

    let synced = mark_sync_status(saved.clone(), SyncStatus::Synced, NOW + 5);
    assert_eq!(synced.sync_status, SyncStatus::Synced);
    assert_eq!(synced.last_synced_at, Some(NOW + 5));
    let failed = mark_sync_status(synced, SyncStatus::Failed, NOW + 9);
    assert_eq!(failed.sync_status, SyncStatus::Failed);
    assert_eq!(failed.last_synced_at, Some(NOW + 5));
}

#[test]
fn voice_library_updates_text_fields_without_requiring_frontend_audio_path() {
    let stored = profile("My Voice", "/voices/voice-1.wav");
    let edited = edit_fields(Some(stored), "My Voice".into(), "bright".into(), "new text".into(), NOW);
    let kept = keep_stored_audio(edited).unwrap();
    assert_eq!(kept.voice_instruction, "bright");
    assert_eq!(kept.reference_text, "new text");
    assert_eq!(kept.reference_audio_path, "/voices/voice-1.wav");
    assert_eq!(kept.sync_status, SyncStatus::PendingSync);

    let fresh = edit_fields(None, "New".into(), "calm".into(), "text".into(), NOW);
    assert_eq!(
        keep_stored_audio(fresh).unwrap_err().message(),
        "referenceAudioBytes is required when no existing reference audio is stored"
    );
}

#[test]
fn remote_voices_fill_blank_local_fields() {
    let remote = RemoteVoiceInfo {
        voice_name: " remote ".into(),
        voice_instruction: "remote instruction".into(),
        reference_audio: "remote.wav".into(),
        reference_text: "remote text".into(),
    };
    let created = merge_remote_voice(None, &remote, NOW).unwrap();
    assert_eq!(created.voice_name, "remote");
    assert_eq!(created.source_prompt_text.as_deref(), Some("funspeechRemote"));
    assert_eq!(created.reference_audio_path, "remote.wav");
    let mut local = profile("remote", "");
    local.voice_instruction = "mine".into();
    let merged = merge_remote_voice(Some(local), &remote, NOW).unwrap();
    assert_eq!(merged.voice_instruction, "mine");
    assert_eq!(merged.reference_audio_path, "remote.wav");
    assert_eq!(merged.sync_status, SyncStatus::Synced);
    assert_eq!(merged.last_synced_at, Some(NOW));
}

#[test]
fn listed_profiles_are_ordered_by_name() {
    let sorted = sort_by_name(vec![profile("b", "x"), profile("a", "y"), profile("c", "z")]);
    let names: Vec<&str> = sorted.iter().map(|p| p.voice_name.as_str()).collect();
    assert_eq!(names, vec!["a", "b", "c"]);
}

fn text_draft(manager: &mut VoiceDesignManager) -> String {
    manager
        .create_draft(
            "voice-design-1".into(),
            "trace-1".into(),
            CreateVoiceDesignDraftRequest {
                input_type: VoiceDesignInputType::Text,
                source_prompt_text: Some("warm narrator".into()),
                source_audio_path: None,
            },
            &AppSettings::default(),
            NOW,
        )
        .unwrap()
        .draft_id
}

#[test]
fn voice_design_manager_completes_text_prompt_flow_and_saves_profile() {
    let mut manager = VoiceDesignManager::new();
    let cache = AssetCache::new("/cache/offline".into(), "/cache/voice-design".into());
    let draft_id = text_draft(&mut manager);
    let draft = manager.get_draft(&draft_id).unwrap();

    assert_eq!(draft.status, VoiceDesignStatus::Draft);
    assert!(draft.llm_endpoint.ends_with("/api/generate"));
    assert!(draft.voice_design_endpoint.ends_with("/voices/v1/voice-design"));

    let llm = manager.start_llm(&draft_id, NOW + 1).unwrap();
    assert_eq!(llm.status, VoiceDesignStatus::LlmRunning);
    manager
        .complete_instruction(
            &draft_id,
            CompleteVoiceInstructionRequest {
                voice_instruction: "warm, close, calm".into(),
                reference_text: "Hello from the studio.".into(),
            },
            NOW + 2,
        )
        .unwrap();
    manager.start_voice_design(&draft_id, NOW + 3).unwrap();
    let preview = manager
        .complete_preview(
            &draft_id,
            &CompleteVoiceDesignPreviewRequest { reference_audio_path: None, output_format: Some("wav".into()) },
            &cache,
            NOW + 4,
        )
        .unwrap();
    assert_eq!(preview.status, VoiceDesignStatus::PreviewReady);
    assert!(preview.reference_audio_path.unwrap().ends_with(".wav"));

    let profile = manager
        .begin_saving(&draft_id, SaveVoiceDesignDraftRequest { voice_name: "warm-narrator".into() }, NOW + 5)
        .unwrap();
    assert_eq!(profile.voice_name, "warm-narrator");
    assert_eq!(profile.sync_status, SyncStatus::PendingSync);
    manager.finish_saving(&draft_id, profile.voice_name.clone(), NOW + 6).unwrap();
    assert_eq!(manager.get_draft(&draft_id).unwrap().status, VoiceDesignStatus::Saved);
}

#[test]
fn voice_design_manager_supports_audio_asr_stage() {
    let mut manager = VoiceDesignManager::new();
    let draft = manager
        .create_draft(
            "voice-design-2".into(),
            "trace-2".into(),
            CreateVoiceDesignDraftRequest {
                input_type: VoiceDesignInputType::Audio,
                source_prompt_text: None,
                source_audio_path: Some("C:/recordings/voice.wav".into()),
            },
            &AppSettings::default(),
            NOW,
        )
        .unwrap();

    assert_eq!(manager.start_asr(&draft.draft_id, NOW + 1).unwrap().status, VoiceDesignStatus::AsrRunning);
    let asr = manager
        .complete_asr(
            &draft.draft_id,
            CompleteVoiceDesignAsrRequest { asr_text: "make a bright voice".into() },
            NOW + 2,
        )
        .unwrap();

    assert_eq!(asr.status, VoiceDesignStatus::AsrCompleted);
    assert_eq!(asr.asr_text.as_deref(), Some("make a bright voice"));
}

#[test]
fn voice_design_manager_marks_failed_stage() {
    let mut manager = VoiceDesignManager::new();
    let draft_id = text_draft(&mut manager);
    let failed = manager
        .fail_draft(
            &draft_id,
            FailVoiceDesignDraftRequest { stage: VoiceDesignFailureStage::Llm, message: "local model unavailable".into() },
            NOW + 1,
        )
        .unwrap();

    assert_eq!(failed.status, VoiceDesignStatus::Failed);
    assert_eq!(failed.failure_stage, Some(VoiceDesignFailureStage::Llm));
    assert_eq!(failed.error_summary.as_deref(), Some("local model unavailable"));
}

#[test]
fn voice_design_refuses_out_of_order_steps() {
    let mut manager = VoiceDesignManager::new();
    let draft_id = text_draft(&mut manager);
    assert_eq!(
        manager.start_asr(&draft_id, NOW).unwrap_err().message(),
        "ASR can only start for audio voice design drafts"
    );
    assert_eq!(
        manager.start_voice_design(&draft_id, NOW).unwrap_err().message(),
        "voiceInstruction is required before reference audio generation"
    );
    let error = manager
        .begin_saving(&draft_id, SaveVoiceDesignDraftRequest { voice_name: "x".into() }, NOW)
        .unwrap_err();
    assert_eq!(error.message(), "voiceInstruction is required before saving custom voice");
    assert_eq!(manager.get_draft(&draft_id).unwrap().status, VoiceDesignStatus::Saving);
    let missing = manager
        .create_draft(
            "d".into(),
            "t".into(),
            CreateVoiceDesignDraftRequest {
                input_type: VoiceDesignInputType::Audio,
                source_prompt_text: Some("x".into()),
                source_audio_path: None,
            },
            &AppSettings::default(),
            NOW,
        )
        .unwrap_err();
    assert_eq!(missing.message(), "sourceAudioPath is required");
}

fn endpoints() -> VoiceSyncEndpointSet {
    let mut config = BackendConfig::funspeech_default();
    config.base_url = "https://voice.example.com".into();
    VoiceSyncEndpointSet::from_backend_config(&config)
}

#[test]
fn voice_sync_manager_marks_register_update_and_refresh_reports() {
    let endpoints = endpoints();
    let mut state = VoiceSyncState::empty();
    let (status, message) =
        sync_outcome(Ok(()), Some(SyncStatus::Synced), "synced custom voice to FunSpeech voice_manager");
    state.push_report(sync_report(
        VoiceSyncOperation::Register,
        "trace-1".into(),
        &endpoints,
        Some("sync-me".into()),
        1,
        status,
        message,
        NOW,
    ));
    let (status, message) = sync_outcome(Ok(()), None, "FunSpeech voice runtime refreshed");
    state.push_report(sync_report(
        VoiceSyncOperation::Refresh,
        "trace-2".into(),
        &endpoints,
        None,
        1,
        status,
        message,
        NOW,
    ));

    assert_eq!(state.reports.len(), 2);
    assert_eq!(state.reports[0].endpoint_url, "https://voice.example.com/voices/v1/register");
    assert_eq!(state.reports[0].sync_status, Some(SyncStatus::Synced));
    assert_eq!(state.reports[1].endpoint_url, "https://voice.example.com/voices/v1/refresh");
    assert_eq!(state.reports[1].sync_status, None);
}

#[test]
fn voice_sync_manager_marks_failure_and_delete() {
    let (status, message) = sync_outcome(Err("backend down".into()), Some(SyncStatus::Synced), "ignored");
    assert_eq!(status, Some(SyncStatus::Failed));
    assert_eq!(message, "backend down");
    let (status, message) = delete_outcome(Err("404".into()));
    assert_eq!(status, SyncStatus::Failed);
    assert_eq!(message, "deleted locally; FunSpeech delete failed: 404");
    let (status, message) = delete_outcome(Ok(()));
    assert_eq!(status, SyncStatus::Synced);
    assert_eq!(message, "deleted locally and synced to FunSpeech");
    assert_eq!(parse_incremental_operation("update").unwrap(), VoiceSyncOperation::Update);
    assert_eq!(
        parse_incremental_operation("fullSync").unwrap_err().message(),
        "unsupported voice sync operation for failure report: fullSync"
    );
    assert_eq!(
        full_sync_message(3, 5),
        "synced 3 FunSpeech voices into custom_voices; 5 local voices available"
    );
}

#[test]
fn sanitized_segment_is_clean_and_stable() {
    let once = sanitize_path_segment("../Job 1/..\\X_y-Z");
    assert_eq!(once, "job1x_y-z");
    assert_eq!(sanitize_path_segment(&once), once);
}

#[test]
fn offline_artifact_paths_are_compared_as_paths() {
    let mut offline = OfflineJobManager::new();
    let settings = AppSettings::default();
    let request = voice_cloner::offline::CreateOfflineTextJobRequest {
        text: "hello".into(),
        voice_name: "narrator".into(),
        runtime_params: RuntimeParams::empty(),
        output_format: None,
    };
    offline.create_text_job("job-1".into(), "t".into(), request, &settings, NOW).unwrap();
    let done = offline.complete_job("job-1", None, "/cache/offline//job-1.wav", NOW + 1).unwrap();
    assert_eq!(check_offline_resource(&done, "/cache/offline/job-1.wav").unwrap(), "/cache/offline/job-1.wav");
    assert_eq!(
        check_offline_resource(&done, "/cache/other/job-1.wav").unwrap_err().message(),
        "offline resource is outside the controlled artifact cache"
    );
    assert!(!stale_audio_to_remove("/voices//a.wav", Some("/voices/a.wav")));
    assert!(stale_audio_to_remove("/voices/old.wav", Some("/voices/a.wav")));
    assert!(!voice_cloner::library::stale_audio_decision("  ", false));
    assert!(voice_cloner::library::stale_audio_decision("/voices/old.wav", false));
    assert!(!voice_cloner::library::stale_audio_decision("/voices/old.wav", true));
    assert_eq!(offline_resource_decision(&done, "/x/job-1.wav", true).unwrap(), "/x/job-1.wav");
    assert_eq!(
        offline_resource_decision(&done, "/x/job-1.wav", false).unwrap_err().message(),
        "offline resource is outside the controlled artifact cache"
    );
}

#[test]
fn logic_after_path_and_text_decoding_runs_on_chosen_values() {
    assert_eq!(source_type_of_extension("MOV").unwrap(), VoiceSeparationSourceType::Video);
    assert_eq!(source_type_of_extension("flac").unwrap(), VoiceSeparationSourceType::Audio);
    assert_eq!(
        source_type_of_extension("TXT").unwrap_err().message(),
        "unsupported source file extension: txt"
    );
    assert_eq!(source_type_of_extension("").unwrap_err().message(), "unsupported source file extension: ");

    assert!(voice_cloner::offline::check_wav_format("WAV").is_ok());
    assert_eq!(voice_cloner::offline::check_wav_format("mp3").unwrap_err().message(), "audio input must be wav");

    assert!(voice_cloner::sidecar::names_stem("Vocals", "vocals"));
    assert!(voice_cloner::sidecar::names_stem("song.vocals", "vocals"));
    assert!(!voice_cloner::sidecar::names_stem("no_vocals", "vocals"));

    let head = voice_cloner::mcp::parse_request_text("POST /mcp HTTP/1.1\r\nContent-Length: 12\r\n").unwrap();
    assert_eq!(head.method, "POST");
    assert_eq!(head.path, "/mcp");
    assert_eq!(head.content_length, 12);
    assert_eq!(
        voice_cloner::mcp::parse_request_text("").unwrap_err().message(),
        "MCP HTTP request line is missing"
    );
}

#[test]
fn separation_runs_retry_audio_sources_once_on_transcoded_wav() {
    assert_eq!(first_separation_stage(VoiceSeparationSourceType::Video), SeparationStage::ExtractingAudio);
    assert_eq!(first_separation_stage(VoiceSeparationSourceType::Audio), SeparationStage::SeparatingSource);
    assert!(matches!(
        separation_recovery(VoiceSeparationSourceType::Audio, None, "bad input"),
        SeparationRecovery::RetryWithDecodedAudio
    ));
    assert!(matches!(
        separation_recovery(VoiceSeparationSourceType::Video, None, "bad input"),
        SeparationRecovery::Propagate
    ));
    match separation_recovery(VoiceSeparationSourceType::Audio, Some("first"), "second") {
        SeparationRecovery::FailAfterRetry(e) => {
            assert_eq!(e.message(), "demucs-rs failed after ffmpeg fallback: second; first error: first")
        }
        other => panic!("unexpected {other:?}"),
    }
}
