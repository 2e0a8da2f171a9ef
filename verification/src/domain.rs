use vstd::prelude::*;

use crate::endpoints::VoiceSyncEndpointSet;
use crate::error::AppError;
use crate::settings::opt_str;
use crate::text::{concat2, concat3, decimal, decimal_seq};

verus! {

/// Where the audio of a separation job comes from.
#[derive(Debug, Clone, Copy, PartialEq, Eq, Structural)]
pub enum VoiceSeparationSourceType {
    Video,
    Audio,
}

/// Lifecycle of a voice separation job.
#[derive(Debug, Clone, Copy, PartialEq, Eq, Structural)]
pub enum VoiceSeparationStatus {
    Queued,
    ExtractingAudio,
    Decoding,
    Separating,
    MixingNoVocals,
    PostProcessing,
    Ready,
    SavingVoice,
    Saved,
    Failed,
    Cancelled,
}

/// The Demucs model a separation runs.
#[derive(Debug, Clone, Copy, PartialEq, Eq, Structural)]
pub enum VoiceSeparationModel {
    HtDemucs,
    HtDemucsFt,
}

impl VoiceSeparationModel {
    /// The model's name on the Demucs command line.
    pub fn as_demucs_model(&self) -> (m: &'static str)
        ensures
            m@ == match self {
                VoiceSeparationModel::HtDemucs => "htdemucs"@,
                VoiceSeparationModel::HtDemucsFt => "htdemucs_ft"@,
            },
    {
        match self {
            VoiceSeparationModel::HtDemucs => "htdemucs",
            VoiceSeparationModel::HtDemucsFt => "htdemucs_ft",
        }
    }
}

/// One output track of a separation.
#[derive(Debug, Clone, Copy, PartialEq, Eq, Structural)]
pub enum VoiceSeparationStem {
    Vocals,
    NoVocals,
    Drums,
    Bass,
    Other,
}

/// `{:?}` of a stem.
pub open spec fn stem_name(s: VoiceSeparationStem) -> Seq<char> {
    match s {
        VoiceSeparationStem::Vocals => "Vocals"@,
        VoiceSeparationStem::NoVocals => "NoVocals"@,
        VoiceSeparationStem::Drums => "Drums"@,
        VoiceSeparationStem::Bass => "Bass"@,
        VoiceSeparationStem::Other => "Other"@,
    }
}

/// See `stem_name`.
pub fn stem_text(s: VoiceSeparationStem) -> (t: &'static str)
    ensures
        t@ == stem_name(s),
{
    match s {
        VoiceSeparationStem::Vocals => "Vocals",
        VoiceSeparationStem::NoVocals => "NoVocals",
        VoiceSeparationStem::Drums => "Drums",
        VoiceSeparationStem::Bass => "Bass",
        VoiceSeparationStem::Other => "Other",
    }
}

/// The files of a separation's tracks.
#[derive(Debug, Clone, PartialEq, Eq)]
pub struct VoiceSeparationStems {
    pub vocals: Option<String>,
    pub no_vocals: Option<String>,
    pub drums: Option<String>,
    pub bass: Option<String>,
    pub other: Option<String>,
}

/// The file of `stem` in `stems`, if any.
pub open spec fn stem_path(stems: VoiceSeparationStems, stem: VoiceSeparationStem) -> Option<Seq<char>> {
    opt_str(
        match stem {
            VoiceSeparationStem::Vocals => stems.vocals,
            VoiceSeparationStem::NoVocals => stems.no_vocals,
            VoiceSeparationStem::Drums => stems.drums,
            VoiceSeparationStem::Bass => stems.bass,
            VoiceSeparationStem::Other => stems.other,
        },
    )
}

impl VoiceSeparationStems {
    /// The file of `stem`, if the separation produced one.
    pub fn path_for(&self, stem: VoiceSeparationStem) -> (p: Option<&str>)
        ensures
            stem_path(*self, stem) == match p {
                Some(s) => Some(s@),
                None => None,
            },
    {
        let field = match stem {
            VoiceSeparationStem::Vocals => &self.vocals,
            VoiceSeparationStem::NoVocals => &self.no_vocals,
            VoiceSeparationStem::Drums => &self.drums,
            VoiceSeparationStem::Bass => &self.bass,
            VoiceSeparationStem::Other => &self.other,
        };
        match field {
            Some(s) => Some(s.as_str()),
            None => None,
        }
    }
}

/// How strongly post-processing removes noise.
#[derive(Debug, Clone, Copy, PartialEq, Eq, Structural)]
pub enum DenoiseMode {
    Off,
    Standard,
    Strong,
}

/// The channel layout post-processing writes.
#[derive(Debug, Clone, Copy, PartialEq, Eq, Structural)]
pub enum AudioChannelMode {
    Mono,
    Stereo,
}

/// The number of channels of a layout.
pub open spec fn channels_of(channels: AudioChannelMode) -> u16 {
    match channels {
        AudioChannelMode::Mono => 1u16,
        AudioChannelMode::Stereo => 2u16,
    }
}

/// See `channels_of`.
pub fn channel_count(channels: AudioChannelMode) -> (n: u16)
    ensures
        n == channels_of(channels),
{
    match channels {
        AudioChannelMode::Mono => 1,
        AudioChannelMode::Stereo => 2,
    }
}

/// Where a custom voice stands with the FunSpeech voice manager.
#[derive(Debug, Clone, Copy, PartialEq, Eq, Structural)]
pub enum SyncStatus {
    LocalOnly,
    PendingSync,
    Synced,
    Failed,
    Conflict,
}

/// A voice synchronisation with FunSpeech.
#[derive(Debug, Clone, Copy, PartialEq, Eq, Structural)]
pub enum VoiceSyncOperation {
    FullSync,
    Register,
    Update,
    Delete,
    Refresh,
}

/// The endpoint an operation talks to.
pub fn endpoint_for_operation(endpoints: &VoiceSyncEndpointSet, operation: VoiceSyncOperation) -> (url: String)
    ensures
        url@ == match operation {
            VoiceSyncOperation::FullSync => endpoints.sync_url@,
            VoiceSyncOperation::Register => endpoints.register_url@,
            VoiceSyncOperation::Update => endpoints.update_url@,
            VoiceSyncOperation::Delete => endpoints.delete_url@,
            VoiceSyncOperation::Refresh => endpoints.refresh_url@,
        },
{
    match operation {
        VoiceSyncOperation::FullSync => endpoints.sync_url.clone(),
        VoiceSyncOperation::Register => endpoints.register_url.clone(),
        VoiceSyncOperation::Update => endpoints.update_url.clone(),
        VoiceSyncOperation::Delete => endpoints.delete_url.clone(),
        VoiceSyncOperation::Refresh => endpoints.refresh_url.clone(),
    }
}

/// The operation a failure report names: `register`, `update` or `delete`.
pub fn parse_incremental_operation(value: &str) -> (r: Result<VoiceSyncOperation, AppError>)
    ensures
        match r {
            Ok(op) => (value@ == "register"@ && op == VoiceSyncOperation::Register) || (value@ == "update"@ && op
                == VoiceSyncOperation::Update) || (value@ == "delete"@ && op == VoiceSyncOperation::Delete),
            Err(e) => value@ != "register"@ && value@ != "update"@ && value@ != "delete"@ && (e matches AppError::OfflineJob {
                message,
            } && message@ == "unsupported voice sync operation for failure report: "@ + value@),
        },
{
    if crate::text::same_text(value, "register") {
        Ok(VoiceSyncOperation::Register)
    } else if crate::text::same_text(value, "update") {
        Ok(VoiceSyncOperation::Update)
    } else if crate::text::same_text(value, "delete") {
        Ok(VoiceSyncOperation::Delete)
    } else {
        Err(AppError::offline_job(concat2("unsupported voice sync operation for failure report: ", value)))
    }
}

/// What one synchronisation did. `created_at` is milliseconds since the Unix epoch.
#[derive(Debug, Clone, PartialEq, Eq)]
pub struct VoiceSyncReport {
    pub operation: VoiceSyncOperation,
    pub trace_id: String,
    pub endpoint_url: String,
    pub voice_name: Option<String>,
    pub local_voice_count: usize,
    pub sync_status: Option<SyncStatus>,
    pub message: String,
    pub created_at: i64,
}

/// Every synchronisation report, oldest first.
#[derive(Debug, Clone, PartialEq, Eq)]
pub struct VoiceSyncState {
    pub reports: Vec<VoiceSyncReport>,
}

impl VoiceSyncState {
    /// No reports yet.
    pub fn empty() -> (s: VoiceSyncState)
        ensures
            s.reports@.len() == 0,
    {
        VoiceSyncState { reports: Vec::new() }
    }

    /// Appends a report.
    pub fn push_report(&mut self, report: VoiceSyncReport)
        ensures
            final(self).reports@ == old(self).reports@.push(report),
    {
        self.reports.push(report);
    }
}

/// The status and message a synchronisation reports, from how the remote
/// call went: `success` on success, else `Failed` with the remote error.
pub fn sync_outcome(remote: Result<(), String>, success: Option<SyncStatus>, success_message: &str) -> (r: (
    Option<SyncStatus>,
    String,
))
    ensures
        match remote {
            Ok(()) => r.0 == success && r.1@ == success_message@,
            Err(e) => r.0 == Some(SyncStatus::Failed) && r.1@ == e@,
        },
{
    match remote {
        Ok(()) => (success, String::from_str(success_message)),
        Err(e) => (Some(SyncStatus::Failed), e),
    }
}


/// The message of a full synchronisation that brought in `remote_count`
/// voices, leaving `local_count` local voices.
pub open spec fn full_sync_message_spec(remote_count: usize, local_count: usize) -> Seq<char> {
    "synced "@ + decimal_seq(remote_count as nat) + " FunSpeech voices into custom_voices; "@ + decimal_seq(
        local_count as nat,
    ) + " local voices available"@
}

/// See `full_sync_message_spec`.
pub fn full_sync_message(remote_count: usize, local_count: usize) -> (m: String)
    ensures
        m@ == full_sync_message_spec(remote_count, local_count),
{
    let a = concat3("synced ", decimal(remote_count as u64).as_str(), " FunSpeech voices into custom_voices; ");
    concat3(a.as_str(), decimal(local_count as u64).as_str(), " local voices available")
}

/// The status and message of deleting a voice, from how the remote delete went.
pub fn delete_outcome(remote: Result<(), String>) -> (r: (SyncStatus, String))
    ensures
        match remote {
            Ok(()) => r.0 == SyncStatus::Synced && r.1@ == "deleted locally and synced to FunSpeech"@,
            Err(e) => r.0 == SyncStatus::Failed && r.1@ == "deleted locally; FunSpeech delete failed: "@ + e@,
        },
{
    match remote {
        Ok(()) => (SyncStatus::Synced, String::from_str("deleted locally and synced to FunSpeech")),
        Err(e) => (SyncStatus::Failed, concat2("deleted locally; FunSpeech delete failed: ", e.as_str())),
    }
}

/// The report of `operation`, sent to its endpoint.
pub fn sync_report(
    operation: VoiceSyncOperation,
    trace_id: String,
    endpoints: &VoiceSyncEndpointSet,
    voice_name: Option<String>,
    local_voice_count: usize,
    sync_status: Option<SyncStatus>,
    message: String,
    now: i64,
) -> (r: VoiceSyncReport)
    ensures
        r.operation == operation,
        r.trace_id == trace_id,
        r.endpoint_url@ == match operation {
            VoiceSyncOperation::FullSync => endpoints.sync_url@,
            VoiceSyncOperation::Register => endpoints.register_url@,
            VoiceSyncOperation::Update => endpoints.update_url@,
            VoiceSyncOperation::Delete => endpoints.delete_url@,
            VoiceSyncOperation::Refresh => endpoints.refresh_url@,
        },
        r.voice_name == voice_name,
        r.local_voice_count == local_voice_count,
        r.sync_status == sync_status,
        r.message == message,
        r.created_at == now,
{
    VoiceSyncReport {
        endpoint_url: endpoint_for_operation(endpoints, operation),
        operation,
        trace_id,
        voice_name,
        local_voice_count,
        sync_status,
        message,
        created_at: now,
    }
}

} // verus!
