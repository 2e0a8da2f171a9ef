use vstd::prelude::*;

use crate::domain::{
    stem_path, VoiceSeparationModel, VoiceSeparationSourceType, VoiceSeparationStatus, VoiceSeparationStem,
    VoiceSeparationStems,
};
use crate::domain::SyncStatus;
use crate::error::AppError;
use crate::library::{CustomVoiceProfile, CustomVoiceProfileView};
use crate::offline::{extension_of, file_name_of, job_error, path_extension, path_file_name, require_non_empty};
use crate::order::{lemma_text_less_irreflexive, lemma_text_less_total, lemma_text_less_transitive, text_less, text_lt};
use crate::sessions::{is_key_place, keys_sorted, lemma_insert_keeps_sorted, lemma_remove_keeps_sorted, lemma_sorted_keys_distinct};
use crate::settings::{clone_opt_string, opt_str};
use crate::naming::{sanitize_path_segment, segment_seq};
use crate::storage::{join_path, path_join};
use crate::text::{trim_seq, ascii_lower_seq, ascii_lowercase, concat2, concat3, is_blank, is_blank_str, same_text};

verus! {

/// The files of a separation's tracks, as text.
pub struct StemsView {
    pub vocals: Option<Seq<char>>,
    pub no_vocals: Option<Seq<char>>,
    pub drums: Option<Seq<char>>,
    pub bass: Option<Seq<char>>,
    pub other: Option<Seq<char>>,
}

pub open spec fn stems_view(s: VoiceSeparationStems) -> StemsView {
    StemsView {
        vocals: opt_str(s.vocals),
        no_vocals: opt_str(s.no_vocals),
        drums: opt_str(s.drums),
        bass: opt_str(s.bass),
        other: opt_str(s.other),
    }
}

pub open spec fn opt_stems_view(s: Option<VoiceSeparationStems>) -> Option<StemsView> {
    match s {
        Some(x) => Some(stems_view(x)),
        None => None,
    }
}

/// The file of `stem` in a stems view.
pub open spec fn stem_file(s: StemsView, stem: VoiceSeparationStem) -> Option<Seq<char>> {
    match stem {
        VoiceSeparationStem::Vocals => s.vocals,
        VoiceSeparationStem::NoVocals => s.no_vocals,
        VoiceSeparationStem::Drums => s.drums,
        VoiceSeparationStem::Bass => s.bass,
        VoiceSeparationStem::Other => s.other,
    }
}

fn clone_stems(s: &VoiceSeparationStems) -> (r: VoiceSeparationStems)
    ensures
        stems_view(r) == stems_view(*s),
{
    VoiceSeparationStems {
        vocals: clone_opt_string(&s.vocals),
        no_vocals: clone_opt_string(&s.no_vocals),
        drums: clone_opt_string(&s.drums),
        bass: clone_opt_string(&s.bass),
        other: clone_opt_string(&s.other),
    }
}

/// A local voice separation: a source file split into vocals and
/// accompaniment tracks. Progress is kept in thousandths (0 to 1000); the
/// post-processing report is kept as the JSON text it is stored as.
#[derive(Debug, Clone, PartialEq, Eq)]
pub struct VoiceSeparationJob {
    pub job_id: String,
    pub trace_id: String,
    pub source_type: VoiceSeparationSourceType,
    pub source_path: String,
    pub source_file_name: String,
    pub model: VoiceSeparationModel,
    pub status: VoiceSeparationStatus,
    pub progress_permille: u16,
    pub current_stage_message: String,
    pub decoded_audio_path: Option<String>,
    pub stems: Option<VoiceSeparationStems>,
    pub post_processed_vocals_path: Option<String>,
    pub post_process_report: Option<String>,
    pub reference_text: Option<String>,
    pub voice_name: Option<String>,
    pub error_message: Option<String>,
    pub created_at: i64,
    pub updated_at: i64,
}

pub struct VoiceSeparationJobView {
    pub job_id: Seq<char>,
    pub trace_id: Seq<char>,
    pub source_type: VoiceSeparationSourceType,
    pub source_path: Seq<char>,
    pub source_file_name: Seq<char>,
    pub model: VoiceSeparationModel,
    pub status: VoiceSeparationStatus,
    pub progress_permille: u16,
    pub current_stage_message: Seq<char>,
    pub decoded_audio_path: Option<Seq<char>>,
    pub stems: Option<StemsView>,
    pub post_processed_vocals_path: Option<Seq<char>>,
    pub post_process_report: Option<Seq<char>>,
    pub reference_text: Option<Seq<char>>,
    pub voice_name: Option<Seq<char>>,
    pub error_message: Option<Seq<char>>,
    pub created_at: i64,
    pub updated_at: i64,
}

impl View for VoiceSeparationJob {
    type V = VoiceSeparationJobView;

    open spec fn view(&self) -> VoiceSeparationJobView {
        VoiceSeparationJobView {
            job_id: self.job_id@,
            trace_id: self.trace_id@,
            source_type: self.source_type,
            source_path: self.source_path@,
            source_file_name: self.source_file_name@,
            model: self.model,
            status: self.status,
            progress_permille: self.progress_permille,
            current_stage_message: self.current_stage_message@,
            decoded_audio_path: opt_str(self.decoded_audio_path),
            stems: opt_stems_view(self.stems),
            post_processed_vocals_path: opt_str(self.post_processed_vocals_path),
            post_process_report: opt_str(self.post_process_report),
            reference_text: opt_str(self.reference_text),
            voice_name: opt_str(self.voice_name),
            error_message: opt_str(self.error_message),
            created_at: self.created_at,
            updated_at: self.updated_at,
        }
    }
}

impl VoiceSeparationJob {
    /// A copy of this job.
    pub fn duplicate(&self) -> (r: VoiceSeparationJob)
        ensures
            r@ == self@,
    {
        VoiceSeparationJob {
            job_id: self.job_id.clone(),
            trace_id: self.trace_id.clone(),
            source_type: self.source_type,
            source_path: self.source_path.clone(),
            source_file_name: self.source_file_name.clone(),
            model: self.model,
            status: self.status,
            progress_permille: self.progress_permille,
            current_stage_message: self.current_stage_message.clone(),
            decoded_audio_path: clone_opt_string(&self.decoded_audio_path),
            stems: match &self.stems {
                Some(s) => Some(clone_stems(s)),
                None => None,
            },
            post_processed_vocals_path: clone_opt_string(&self.post_processed_vocals_path),
            post_process_report: clone_opt_string(&self.post_process_report),
            reference_text: clone_opt_string(&self.reference_text),
            voice_name: clone_opt_string(&self.voice_name),
            error_message: clone_opt_string(&self.error_message),
            created_at: self.created_at,
            updated_at: self.updated_at,
        }
    }
}

/// The steps a separation goes through, each with its status, progress and
/// message.
#[derive(Debug, Clone, Copy, PartialEq, Eq, Structural)]
pub enum SeparationStage {
    Preparing,
    ExtractingAudio,
    SeparatingExtracted,
    SeparatingSource,
    RetryDecoding,
    SeparatingTranscoded,
    MixingNoVocals,
    PostProcessing,
    Ready,
    SavingVoice,
    Saved,
    Cancelled,
}

/// The status, progress (in thousandths) and message of a stage.
pub open spec fn stage_spec(stage: SeparationStage) -> (VoiceSeparationStatus, u16, Seq<char>) {
    match stage {
        SeparationStage::Preparing => (VoiceSeparationStatus::Decoding, 50, "准备源材料"@),
        SeparationStage::ExtractingAudio => (VoiceSeparationStatus::ExtractingAudio, 100, "正在从视频提取音轨"@),
        SeparationStage::SeparatingExtracted => (VoiceSeparationStatus::Separating, 300, "正在本地分离人声"@),
        SeparationStage::SeparatingSource => (VoiceSeparationStatus::Separating, 200, "正在本地分离人声"@),
        SeparationStage::RetryDecoding => (
            VoiceSeparationStatus::Decoding,
            250,
            "源音频解码失败，正在转码为 WAV 后重试"@,
        ),
        SeparationStage::SeparatingTranscoded => (
            VoiceSeparationStatus::Separating,
            350,
            "正在用转码后的 WAV 分离人声"@,
        ),
        SeparationStage::MixingNoVocals => (VoiceSeparationStatus::MixingNoVocals, 650, "正在合成伴奏音轨"@),
        SeparationStage::PostProcessing => (VoiceSeparationStatus::PostProcessing, 800, "正在后处理分离人声"@),
        SeparationStage::Ready => (VoiceSeparationStatus::Ready, 1000, "人声分离完成"@),
        SeparationStage::SavingVoice => (VoiceSeparationStatus::SavingVoice, 950, "正在保存自定义音色"@),
        SeparationStage::Saved => (VoiceSeparationStatus::Saved, 1000, "已保存为自定义音色"@),
        SeparationStage::Cancelled => (VoiceSeparationStatus::Cancelled, 1000, "人声分离已取消"@),
    }
}

/// See `stage_spec`.
pub fn stage_of(stage: SeparationStage) -> (r: (VoiceSeparationStatus, u16, &'static str))
    ensures
        (r.0, r.1, r.2@) == stage_spec(stage),
{
    match stage {
        SeparationStage::Preparing => (VoiceSeparationStatus::Decoding, 50, "准备源材料"),
        SeparationStage::ExtractingAudio => (VoiceSeparationStatus::ExtractingAudio, 100, "正在从视频提取音轨"),
        SeparationStage::SeparatingExtracted => (VoiceSeparationStatus::Separating, 300, "正在本地分离人声"),
        SeparationStage::SeparatingSource => (VoiceSeparationStatus::Separating, 200, "正在本地分离人声"),
        SeparationStage::RetryDecoding => (VoiceSeparationStatus::Decoding, 250, "源音频解码失败，正在转码为 WAV 后重试"),
        SeparationStage::SeparatingTranscoded => (
            VoiceSeparationStatus::Separating,
            350,
            "正在用转码后的 WAV 分离人声",
        ),
        SeparationStage::MixingNoVocals => (VoiceSeparationStatus::MixingNoVocals, 650, "正在合成伴奏音轨"),
        SeparationStage::PostProcessing => (VoiceSeparationStatus::PostProcessing, 800, "正在后处理分离人声"),
        SeparationStage::Ready => (VoiceSeparationStatus::Ready, 1000, "人声分离完成"),
        SeparationStage::SavingVoice => (VoiceSeparationStatus::SavingVoice, 950, "正在保存自定义音色"),
        SeparationStage::Saved => (VoiceSeparationStatus::Saved, 1000, "已保存为自定义音色"),
        SeparationStage::Cancelled => (VoiceSeparationStatus::Cancelled, 1000, "人声分离已取消"),
    }
}

/// The job moved to `stage` at time `now`.
pub open spec fn staged(j: VoiceSeparationJobView, stage: SeparationStage, now: i64) -> VoiceSeparationJobView {
    let (status, progress, message) = stage_spec(stage);
    VoiceSeparationJobView { status, progress_permille: progress, current_stage_message: message, updated_at: now, ..j }
}

/// The job failed with `message` at time `now`.
pub open spec fn failed(j: VoiceSeparationJobView, message: Seq<char>, now: i64) -> VoiceSeparationJobView {
    VoiceSeparationJobView {
        status: VoiceSeparationStatus::Failed,
        progress_permille: 1000,
        current_stage_message: "人声分离失败"@,
        error_message: Some(message),
        updated_at: now,
        ..j
    }
}

fn stage_job(job: &mut VoiceSeparationJob, stage: SeparationStage, now: i64)
    ensures
        final(job)@ == staged(old(job)@, stage, now),
{
    let (status, progress, message) = stage_of(stage);
    job.status = status;
    job.progress_permille = progress;
    job.current_stage_message = String::from_str(message);
    job.updated_at = now;
}

/// A job may start when it is queued or has failed.
pub open spec fn startable(s: VoiceSeparationStatus) -> bool {
    s == VoiceSeparationStatus::Queued || s == VoiceSeparationStatus::Failed
}

/// The source kinds by file extension (compared in lower case).
pub open spec fn source_type_spec(ext: Seq<char>) -> Option<VoiceSeparationSourceType> {
    if ext == "mp4"@ || ext == "mov"@ || ext == "mkv"@ || ext == "webm"@ || ext == "avi"@ {
        Some(VoiceSeparationSourceType::Video)
    } else if ext == "wav"@ || ext == "mp3"@ || ext == "m4a"@ || ext == "aac"@ || ext == "flac"@ || ext == "ogg"@
        || ext == "aiff"@ || ext == "aif"@ {
        Some(VoiceSeparationSourceType::Audio)
    } else {
        None
    }
}

/// The lower-case extension of a path (empty when it has none).
pub open spec fn lower_extension(path: Seq<char>) -> Seq<char> {
    ascii_lower_seq(
        match path_extension(path) {
            Some(e) => e,
            None => Seq::empty(),
        },
    )
}

/// Tells video from audio sources by their extension.
pub fn detect_source_type(path: &str) -> (r: Result<VoiceSeparationSourceType, AppError>)
    ensures
        match r {
            Ok(t) => source_type_spec(lower_extension(path@)) == Some(t),
            Err(e) => source_type_spec(lower_extension(path@)) is None && job_error(
                e,
                "unsupported source file extension: "@ + lower_extension(path@),
            ),
        },
{
    let raw = match extension_of(path) {
        Some(e) => e,
        None => String::new(),
    };
    proof {
        if path_extension(path@) is None {
            assert(raw@ =~= Seq::<char>::empty());
        }
    }
    source_type_of_extension(raw.as_str())
}

/// Tells video from audio sources by their extension (without the dot, in any
/// case): see `source_type_spec`.
pub fn source_type_of_extension(extension: &str) -> (r: Result<VoiceSeparationSourceType, AppError>)
    ensures
        match r {
            Ok(t) => source_type_spec(ascii_lower_seq(extension@)) == Some(t),
            Err(e) => source_type_spec(ascii_lower_seq(extension@)) is None && job_error(
                e,
                "unsupported source file extension: "@ + ascii_lower_seq(extension@),
            ),
        },
{
    let ext = ascii_lowercase(extension);
    let e = ext.as_str();
    if same_text(e, "mp4") || same_text(e, "mov") || same_text(e, "mkv") || same_text(e, "webm") || same_text(e, "avi") {
        return Ok(VoiceSeparationSourceType::Video);
    }
    if same_text(e, "wav") || same_text(e, "mp3") || same_text(e, "m4a") || same_text(e, "aac") || same_text(e, "flac")
        || same_text(e, "ogg") || same_text(e, "aiff") || same_text(e, "aif") {
        return Ok(VoiceSeparationSourceType::Audio);
    }
    Err(AppError::offline_job(concat2("unsupported source file extension: ", e)))
}

/// The name shown for a source: its file name, or `source`.
pub open spec fn source_name_spec(path: Seq<char>) -> Seq<char> {
    match path_file_name(path) {
        Some(n) => n,
        None => "source"@,
    }
}

/// A new queued job for a checked source file.
pub open spec fn new_job_view(
    job_id: Seq<char>,
    trace_id: Seq<char>,
    source_type: VoiceSeparationSourceType,
    source_path: Seq<char>,
    model: Option<VoiceSeparationModel>,
    now: i64,
) -> VoiceSeparationJobView {
    VoiceSeparationJobView {
        job_id,
        trace_id,
        source_type,
        source_path,
        source_file_name: source_name_spec(source_path),
        model: match model {
            Some(m) => m,
            None => VoiceSeparationModel::HtDemucs,
        },
        status: VoiceSeparationStatus::Queued,
        progress_permille: 0,
        current_stage_message: "等待开始人声分离"@,
        decoded_audio_path: None,
        stems: None,
        post_processed_vocals_path: None,
        post_process_report: None,
        reference_text: None,
        voice_name: None,
        error_message: None,
        created_at: now,
        updated_at: now,
    }
}

/// Builds the queued job for `source_path` (already trimmed and found on
/// disk): its kind comes from the extension, the model defaults to HT Demucs.
pub fn new_job(
    job_id: String,
    trace_id: String,
    source_path: &str,
    model: Option<VoiceSeparationModel>,
    now: i64,
) -> (r: Result<VoiceSeparationJob, AppError>)
    ensures
        match r {
            Ok(j) => source_type_spec(lower_extension(source_path@)) matches Some(t) && j@ == new_job_view(
                job_id@,
                trace_id@,
                t,
                source_path@,
                model,
                now,
            ),
            Err(e) => source_type_spec(lower_extension(source_path@)) is None && job_error(
                e,
                "unsupported source file extension: "@ + lower_extension(source_path@),
            ),
        },
{
    let source_type = match detect_source_type(source_path) {
        Ok(t) => t,
        Err(e) => return Err(e),
    };
    let source_file_name = match file_name_of(source_path) {
        Some(n) => n,
        None => String::from_str("source"),
    };
    Ok(
        VoiceSeparationJob {
            job_id,
            trace_id,
            source_type,
            source_path: String::from_str(source_path),
            source_file_name,
            model: match model {
                Some(m) => m,
                None => VoiceSeparationModel::HtDemucs,
            },
            status: VoiceSeparationStatus::Queued,
            progress_permille: 0,
            current_stage_message: String::from_str("等待开始人声分离"),
            decoded_audio_path: None,
            stems: None,
            post_processed_vocals_path: None,
            post_process_report: None,
            reference_text: None,
            voice_name: None,
            error_message: None,
            created_at: now,
            updated_at: now,
        },
    )
}


pub open spec fn jobs_view(v: Seq<VoiceSeparationJob>) -> Seq<VoiceSeparationJobView> {
    v.map_values(|j: VoiceSeparationJob| j@)
}

pub open spec fn job_keys(js: Seq<VoiceSeparationJobView>) -> Seq<Seq<char>> {
    js.map_values(|j: VoiceSeparationJobView| j.job_id)
}

/// Some job has id `id`.
pub open spec fn has_job(js: Seq<VoiceSeparationJobView>, id: Seq<char>) -> bool {
    job_keys(js).contains(id)
}

/// Where the job with id `id` is.
pub open spec fn job_index(js: Seq<VoiceSeparationJobView>, id: Seq<char>) -> int {
    choose|i: int| 0 <= i < js.len() && #[trigger] js[i].job_id == id
}

pub open spec fn job_place(js: Seq<VoiceSeparationJobView>, id: Seq<char>) -> int {
    choose|p: int| is_key_place(job_keys(js), id, p)
}

/// `js` with `j` in place of any job with its id, else in order of ids.
pub open spec fn with_job(js: Seq<VoiceSeparationJobView>, j: VoiceSeparationJobView) -> Seq<VoiceSeparationJobView> {
    if has_job(js, j.job_id) {
        js.update(job_index(js, j.job_id), j)
    } else {
        js.insert(job_place(js, j.job_id), j)
    }
}

/// The message of a job that is not there.
pub open spec fn not_found_message(id: Seq<char>) -> Seq<char> {
    "voice separation job not found: "@ + id
}

/// The outcome of changing job `id` into `f`.
pub open spec fn changed(
    old_js: Seq<VoiceSeparationJobView>,
    new_js: Seq<VoiceSeparationJobView>,
    id: Seq<char>,
    r: Result<VoiceSeparationJob, AppError>,
    f: VoiceSeparationJobView,
) -> bool {
    match r {
        Ok(j) => has_job(old_js, id) && j@ == f && new_js == old_js.update(job_index(old_js, id), f),
        Err(e) => !has_job(old_js, id) && job_error(e, not_found_message(id)) && new_js == old_js,
    }
}

/// `a` is listed before `b`: more recently updated first, then more recently
/// created, then by id.
pub open spec fn listed_before(a: VoiceSeparationJobView, b: VoiceSeparationJobView) -> bool {
    ||| a.updated_at > b.updated_at
    ||| a.updated_at == b.updated_at && a.created_at > b.created_at
    ||| a.updated_at == b.updated_at && a.created_at == b.created_at && text_less(a.job_id, b.job_id)
}

/// The listing order holds throughout `js`.
pub open spec fn listing_sorted(js: Seq<VoiceSeparationJobView>) -> bool {
    forall|i: int, j: int| 0 <= i < j < js.len() ==> listed_before(#[trigger] js[i], #[trigger] js[j])
}

proof fn lemma_listed_before_order(a: VoiceSeparationJobView, b: VoiceSeparationJobView, c: VoiceSeparationJobView)
    ensures
        !listed_before(a, a),
        a.job_id != b.job_id ==> listed_before(a, b) || listed_before(b, a),
        listed_before(a, b) && listed_before(b, c) ==> listed_before(a, c),
{
    lemma_text_less_irreflexive(a.job_id);
    lemma_text_less_total(a.job_id, b.job_id);
    if text_less(a.job_id, b.job_id) && text_less(b.job_id, c.job_id) {
        lemma_text_less_transitive(a.job_id, b.job_id, c.job_id);
    }
}

fn listed_before_exec(a: &VoiceSeparationJob, b: &VoiceSeparationJob) -> (r: bool)
    ensures
        r == listed_before(a@, b@),
{
    if a.updated_at != b.updated_at {
        a.updated_at > b.updated_at
    } else if a.created_at != b.created_at {
        a.created_at > b.created_at
    } else {
        text_lt(a.job_id.as_str(), b.job_id.as_str())
    }
}

/// Local separation jobs, at most one per id, kept in order of their ids.
#[derive(Debug)]
pub struct VoiceSeparationManager {
    jobs: Vec<VoiceSeparationJob>,
}

impl View for VoiceSeparationManager {
    type V = Seq<VoiceSeparationJobView>;

    closed spec fn view(&self) -> Seq<VoiceSeparationJobView> {
        jobs_view(self.jobs@)
    }
}

/// Job ids strictly increase, so each id occurs once.
pub open spec fn well_kept(js: Seq<VoiceSeparationJobView>) -> bool {
    keys_sorted(job_keys(js))
}

proof fn lemma_key_place_unique(ks: Seq<Seq<char>>, k: Seq<char>, p: int, q: int)
    requires
        is_key_place(ks, k, p),
        is_key_place(ks, k, q),
    ensures
        p == q,
{
    lemma_text_less_irreflexive(k);
    if p < q {
        assert(text_less(ks[p], k));
        assert(text_less(k, ks[p]));
        lemma_text_less_total(ks[p], k);
    } else if q < p {
        assert(text_less(ks[q], k));
        assert(text_less(k, ks[q]));
        lemma_text_less_total(ks[q], k);
    }
}

impl VoiceSeparationManager {
    /// Jobs are kept in increasing id order, each id once.
    #[verifier::type_invariant]
    spec fn ids_in_order(&self) -> bool {
        well_kept(jobs_view(self.jobs@))
    }

    /// No jobs.
    pub fn new() -> (m: VoiceSeparationManager)
        ensures
            m@.len() == 0,
            well_kept(m@),
    {
        let jobs: Vec<VoiceSeparationJob> = Vec::new();
        assert(jobs_view(jobs@) =~= Seq::<VoiceSeparationJobView>::empty());
        assert(job_keys(jobs_view(jobs@)) =~= Seq::<Seq<char>>::empty());
        VoiceSeparationManager { jobs }
    }

    fn locate(&self, id: &str) -> (r: (usize, bool))
        requires
            well_kept(self@),
        ensures
            ({
                let ks = job_keys(self@);
                if r.1 {
                    r.0 < ks.len() && ks[r.0 as int] == id@ && has_job(self@, id@) && job_index(self@, id@) == r.0
                } else {
                    is_key_place(ks, id@, r.0 as int) && !has_job(self@, id@)
                }
            }),
    {
        let ghost ks = job_keys(self@);
        let mut i: usize = 0;
        while i < self.jobs.len() && text_lt(self.jobs[i].job_id.as_str(), id)
            invariant
                i <= self.jobs.len(),
                ks == job_keys(self@),
                keys_sorted(ks),
                forall|j: int| 0 <= j < i ==> text_less(#[trigger] ks[j], id@),
            decreases self.jobs.len() - i,
        {
            assert(ks[i as int] == self.jobs@[i as int]@.job_id);
            i += 1;
        }
        if i < self.jobs.len() && same_text(self.jobs[i].job_id.as_str(), id) {
            assert(ks[i as int] == self.jobs@[i as int]@.job_id);
            proof {
                assert(self@[i as int].job_id == id@);
                assert(ks.contains(id@));
                let k = job_index(self@, id@);
                assert(0 <= k < self@.len() && self@[k].job_id == id@);
                if k != i as int {
                    assert(ks[k] == id@);
                    lemma_sorted_keys_distinct(ks, k, i as int);
                }
            }
            return (i, true);
        }
        proof {
            if i < self.jobs.len() {
                assert(ks[i as int] == self.jobs@[i as int]@.job_id);
                lemma_text_less_total(ks[i as int], id@);
                assert forall|j: int| i <= j < ks.len() implies text_less(id@, #[trigger] ks[j]) by {
                    if j > i {
                        lemma_text_less_transitive(id@, ks[i as int], ks[j]);
                    }
                }
            }
            assert(!ks.contains(id@)) by {
                if ks.contains(id@) {
                    let j = choose|j: int| 0 <= j < ks.len() && ks[j] == id@;
                    lemma_text_less_irreflexive(id@);
                    if j < i {
                        assert(text_less(ks[j], id@));
                    } else {
                        assert(text_less(id@, ks[j]));
                    }
                }
            }
        }
        (i, false)
    }

    fn not_found(id: &str) -> (e: AppError)
        ensures
            job_error(e, not_found_message(id@)),
    {
        AppError::offline_job(concat2("voice separation job not found: ", id))
    }

    fn patch_at(&mut self, i: usize, j: VoiceSeparationJob)
        requires
            well_kept(old(self)@),
            i < old(self)@.len(),
            j@.job_id == old(self)@[i as int].job_id,
        ensures
            final(self)@ == old(self)@.update(i as int, j@),
            well_kept(final(self)@),
    {
        let ghost before = self@;
        let ghost jv = j@;
        let mut jobs: Vec<VoiceSeparationJob> = Vec::new();
        std::mem::swap(&mut jobs, &mut self.jobs);
        jobs.set(i, j);
        assert(jobs_view(jobs@) =~= before.update(i as int, jv));
        assert(job_keys(jobs_view(jobs@)) =~= job_keys(before));
        self.jobs = jobs;
    }

    /// Puts `job` in, replacing any job with its id.
    pub fn insert_job(&mut self, job: VoiceSeparationJob)
        ensures
            final(self)@ == with_job(old(self)@, job@),
            forall|k: int| 0 <= k < final(self)@.len() ==> #[trigger] final(self)@[k] == job@ || old(self)@.contains(
                final(self)@[k],
            ),
    {
        proof {
            use_type_invariant(&*self);
        }
        let ghost before = self@;
        let ghost jv = job@;
        let (p, found) = self.locate(job.job_id.as_str());
        if found {
            self.patch_at(p, job);
            assert forall|k: int| 0 <= k < self@.len() implies #[trigger] self@[k] == jv || before.contains(self@[k]) by {
                if k != p {
                    assert(self@[k] == before[k]);
                }
            }
        } else {
            proof {
                lemma_key_place_unique(job_keys(before), jv.job_id, p as int, job_place(before, jv.job_id));
            }
            let mut jobs: Vec<VoiceSeparationJob> = Vec::new();
            std::mem::swap(&mut jobs, &mut self.jobs);
            jobs.insert(p, job);
            assert(jobs_view(jobs@) =~= before.insert(p as int, jv));
            assert(job_keys(jobs_view(jobs@)) =~= job_keys(before).insert(p as int, jv.job_id));
            proof {
                lemma_insert_keeps_sorted(job_keys(before), jv.job_id, p as int);
            }
            self.jobs = jobs;
            proof {
                assert forall|k: int| 0 <= k < self@.len() implies #[trigger] self@[k] == jv || before.contains(
                    self@[k],
                ) by {
                    if k < p {
                        assert(self@[k] == before[k]);
                    } else if k > p {
                        assert(self@[k] == before[k - 1]);
                    }
                }
            }
        }
    }

    /// The job with id `job_id`.
    pub fn get_job(&self, job_id: &str) -> (r: Result<VoiceSeparationJob, AppError>)
        ensures
            match r {
                Ok(j) => has_job(self@, job_id@) && j@ == self@[job_index(self@, job_id@)],
                Err(e) => !has_job(self@, job_id@) && job_error(e, not_found_message(job_id@)),
            },
    {
        proof {
            use_type_invariant(&*self);
        }
        let (i, found) = self.locate(job_id);
        if found {
            assert(self@[i as int] == self.jobs@[i as int]@);
            Ok(self.jobs[i].duplicate())
        } else {
            Err(Self::not_found(job_id))
        }
    }

    /// Every job: most recently updated first, then most recently created,
    /// then by id.
    pub fn list_jobs(&self) -> (r: Vec<VoiceSeparationJob>)
        ensures
            listing_sorted(jobs_view(r@)),
            jobs_view(r@).to_multiset() == self@.to_multiset(),
    {
        proof {
            use_type_invariant(&*self);
        }
        broadcast use vstd::seq_lib::group_to_multiset_ensures;

        let ghost all = self@;
        let mut out: Vec<VoiceSeparationJob> = Vec::new();
        let mut i: usize = 0;
        assert(all.take(0) =~= Seq::<VoiceSeparationJobView>::empty());
        assert(jobs_view(out@) =~= Seq::<VoiceSeparationJobView>::empty());
        while i < self.jobs.len()
            invariant
                i <= self.jobs.len(),
                all == self@,
                well_kept(all),
                listing_sorted(jobs_view(out@)),
                jobs_view(out@).to_multiset() == all.take(i as int).to_multiset(),
            decreases self.jobs.len() - i,
        {
            let ghost ov = jobs_view(out@);
            let x = self.jobs[i].duplicate();
            let ghost xv = x@;
            assert(xv == all[i as int]);
            // x's id differs from every id already listed
            assert forall|k: int| 0 <= k < ov.len() implies #[trigger] ov[k].job_id != xv.job_id by {
                assert(ov.contains(ov[k]));
                ov.to_multiset_ensures();
                all.take(i as int).to_multiset_ensures();
                assert(ov.to_multiset().count(ov[k]) > 0);
                assert(all.take(i as int).to_multiset().count(ov[k]) > 0);
                assert(all.take(i as int).contains(ov[k]));
                let q = choose|q: int| 0 <= q < i && all.take(i as int)[q] == ov[k];
                assert(all[q] == ov[k]);
                assert(job_keys(all)[q] == ov[k].job_id);
                assert(job_keys(all)[i as int] == xv.job_id);
                lemma_sorted_keys_distinct(job_keys(all), q, i as int);
            }
            let mut p: usize = 0;
            while p < out.len() && listed_before_exec(&out[p], &x)
                invariant
                    p <= out.len(),
                    ov == jobs_view(out@),
                    xv == x@,
                    forall|k: int| 0 <= k < p ==> listed_before(#[trigger] ov[k], xv),
                decreases out.len() - p,
            {
                assert(ov[p as int] == out@[p as int]@);
                p += 1;
            }
            proof {
                assert forall|k: int| p <= k < ov.len() implies listed_before(xv, #[trigger] ov[k]) by {
                    assert(ov[p as int] == out@[p as int]@);
                    lemma_listed_before_order(ov[p as int], xv, ov[k]);
                    lemma_listed_before_order(xv, ov[p as int], ov[k]);
                    if k > p {
                        assert(listed_before(ov[p as int], ov[k]));
                    }
                }
            }
            out.insert(p, x);
            proof {
                let nv = jobs_view(out@);
                assert(nv =~= ov.insert(p as int, xv));
                assert forall|a: int, b: int| 0 <= a < b < nv.len() implies listed_before(#[trigger] nv[a], #[trigger] nv[b]) by {
                    if b < p {
                        assert(nv[a] == ov[a] && nv[b] == ov[b]);
                    } else if b == p {
                        assert(nv[a] == ov[a]);
                    } else if a < p {
                        assert(nv[a] == ov[a] && nv[b] == ov[b - 1]);
                        lemma_listed_before_order(ov[a], xv, ov[b - 1]);
                    } else if a == p {
                        assert(nv[b] == ov[b - 1]);
                    } else {
                        assert(nv[a] == ov[a - 1] && nv[b] == ov[b - 1]);
                    }
                }
                assert(all.take(i as int + 1) =~= all.take(i as int).push(xv));
                vstd::seq_lib::to_multiset_insert(ov, p as int, xv);
                all.take(i as int).to_multiset_ensures();
                assert(nv.to_multiset() == ov.to_multiset().insert(xv));
                assert(all.take(i as int).push(xv).to_multiset() == all.take(i as int).to_multiset().insert(xv));
            }
            i += 1;
        }
        assert(all.take(self.jobs.len() as int) =~= all);
        out
    }

    /// Takes the job with id `job_id` out.
    pub fn delete_job(&mut self, job_id: &str) -> (r: Result<VoiceSeparationMutationResult, AppError>)
        ensures
            match r {
                Ok(m) => has_job(old(self)@, job_id@) && final(self)@ == old(self)@.remove(job_index(old(self)@, job_id@))
                    && m.job_id@ == job_id@ && m.message@ == "人声分离任务已删除"@,
                Err(e) => !has_job(old(self)@, job_id@) && job_error(e, not_found_message(job_id@)) && final(self)@
                    == old(self)@,
            },
    {
        proof {
            use_type_invariant(&*self);
        }
        let ghost before = self@;
        let (i, found) = self.locate(job_id);
        if !found {
            return Err(Self::not_found(job_id));
        }
        let mut jobs: Vec<VoiceSeparationJob> = Vec::new();
        std::mem::swap(&mut jobs, &mut self.jobs);
        jobs.remove(i);
        assert(jobs_view(jobs@) =~= before.remove(i as int));
        assert(job_keys(jobs_view(jobs@)) =~= job_keys(before).remove(i as int));
        proof {
            lemma_remove_keeps_sorted(job_keys(before), i as int);
        }
        self.jobs = jobs;
        Ok(
            VoiceSeparationMutationResult {
                job_id: String::from_str(job_id),
                message: String::from_str("人声分离任务已删除"),
            },
        )
    }
}

/// What deleting a job answers.
#[derive(Debug, Clone, PartialEq, Eq)]
pub struct VoiceSeparationMutationResult {
    pub job_id: String,
    pub message: String,
}


/// The job with its decoded audio recorded, moved to `stage`.
pub open spec fn with_decoded(j: VoiceSeparationJobView, path: Seq<char>, stage: SeparationStage, now: i64) -> VoiceSeparationJobView {
    staged(VoiceSeparationJobView { decoded_audio_path: Some(path), ..j }, stage, now)
}

/// The stems with the accompaniment track recorded.
pub open spec fn with_no_vocals(s: Option<StemsView>, path: Seq<char>) -> Option<StemsView> {
    match s {
        Some(x) => Some(StemsView { no_vocals: Some(path), ..x }),
        None => None,
    }
}

/// Where `stem_path` finds a track: the post-processed vocals for the vocals
/// when there are any, else the separated file; or the reason there is none.
pub open spec fn stem_path_spec(j: VoiceSeparationJobView, stem: VoiceSeparationStem) -> Result<Seq<char>, Seq<char>> {
    if stem == VoiceSeparationStem::Vocals && j.post_processed_vocals_path is Some {
        Ok(j.post_processed_vocals_path->0)
    } else {
        match j.stems {
            None => Err("voice separation job has no stems"@),
            Some(s) => match stem_file(s, stem) {
                Some(p) => Ok(p),
                None => Err("requested voice separation stem is unavailable"@),
            },
        }
    }
}

/// The jobs kept from stored snapshots: those with a non-blank id, a later
/// snapshot replacing an earlier one with the same id.
pub open spec fn loaded(snapshots: Seq<VoiceSeparationJobView>) -> Seq<VoiceSeparationJobView>
    decreases snapshots.len(),
{
    if snapshots.len() == 0 {
        Seq::empty()
    } else {
        let prev = loaded(snapshots.drop_last());
        if is_blank(snapshots.last().job_id) {
            prev
        } else {
            with_job(prev, snapshots.last())
        }
    }
}

impl VoiceSeparationManager {
    fn fetch(&self, job_id: &str) -> (r: Result<(usize, VoiceSeparationJob), AppError>)
        requires
            well_kept(self@),
        ensures
            match r {
                Ok((i, j)) => has_job(self@, job_id@) && i == job_index(self@, job_id@) && i < self@.len() && j@
                    == self@[i as int] && j@.job_id == job_id@,
                Err(e) => !has_job(self@, job_id@) && job_error(e, not_found_message(job_id@)),
            },
    {
        let (i, found) = self.locate(job_id);
        if found {
            assert(self@[i as int] == self.jobs@[i as int]@);
            Ok((i, self.jobs[i].duplicate()))
        } else {
            Err(Self::not_found(job_id))
        }
    }

    fn store(&mut self, i: usize, j: VoiceSeparationJob) -> (r: VoiceSeparationJob)
        requires
            well_kept(old(self)@),
            i < old(self)@.len(),
            j@.job_id == old(self)@[i as int].job_id,
        ensures
            final(self)@ == old(self)@.update(i as int, j@),
            well_kept(final(self)@),
            r@ == j@,
    {
        let out = j.duplicate();
        self.patch_at(i, j);
        out
    }

    /// The jobs of the stored snapshots (see `loaded`).
    pub fn from_snapshots(snapshots: Vec<VoiceSeparationJob>) -> (m: VoiceSeparationManager)
        ensures
            well_kept(m@),
            m@ == loaded(jobs_view(snapshots@)),
            forall|k: int| 0 <= k < m@.len() ==> !is_blank(#[trigger] m@[k].job_id),
    {
        let mut m = VoiceSeparationManager::new();
        let ghost all = jobs_view(snapshots@);
        let mut i: usize = 0;
        assert(all.take(0) =~= Seq::<VoiceSeparationJobView>::empty());
        while i < snapshots.len()
            invariant
                i <= snapshots.len(),
                all == jobs_view(snapshots@),
                well_kept(m@),
                m@ == loaded(all.take(i as int)),
                forall|k: int| 0 <= k < m@.len() ==> !is_blank(#[trigger] m@[k].job_id),
            decreases snapshots.len() - i,
        {
            assert(all.take(i as int + 1).drop_last() =~= all.take(i as int));
            assert(all.take(i as int + 1).last() == snapshots@[i as int]@);
            if !is_blank_str(snapshots[i].job_id.as_str()) {
                let ghost before = m@;
                m.insert_job(snapshots[i].duplicate());
                proof {
                    use_type_invariant(&m);
                }
                assert forall|k: int| 0 <= k < m@.len() implies !is_blank(#[trigger] m@[k].job_id) by {
                    if m@[k] != snapshots@[i as int]@ {
                        assert(before.contains(m@[k]));
                        let q = choose|q: int| 0 <= q < before.len() && before[q] == m@[k];
                        assert(!is_blank(before[q].job_id));
                    }
                }
            }
            i += 1;
        }
        assert(all.take(snapshots.len() as int) =~= all);
        m
    }

    /// Starts a queued or failed job: its error is cleared and it is prepared.
    pub fn start_job(&mut self, job_id: &str, now: i64) -> (r: Result<VoiceSeparationJob, AppError>)
        ensures
            match r {
                Ok(j) => has_job(old(self)@, job_id@) && startable(old(self)@[job_index(old(self)@, job_id@)].status)
                    && j@ == staged(
                    VoiceSeparationJobView { error_message: None, ..old(self)@[job_index(old(self)@, job_id@)] },
                    SeparationStage::Preparing,
                    now,
                ) && final(self)@ == old(self)@.update(job_index(old(self)@, job_id@), j@),
                Err(e) => final(self)@ == old(self)@ && if has_job(old(self)@, job_id@) {
                    !startable(old(self)@[job_index(old(self)@, job_id@)].status) && job_error(
                        e,
                        "voice separation job is already running or completed"@,
                    )
                } else {
                    job_error(e, not_found_message(job_id@))
                },
            },
    {
        proof {
            use_type_invariant(&*self);
        }
        let (i, mut job) = match self.fetch(job_id) {
            Ok(x) => x,
            Err(e) => return Err(e),
        };
        if !(job.status == VoiceSeparationStatus::Queued || job.status == VoiceSeparationStatus::Failed) {
            return Err(AppError::offline_job(String::from_str("voice separation job is already running or completed")));
        }
        job.error_message = None;
        stage_job(&mut job, SeparationStage::Preparing, now);
        Ok(self.store(i, job))
    }

    /// Moves a job to `stage`.
    pub fn advance(&mut self, job_id: &str, stage: SeparationStage, now: i64) -> (r: Result<VoiceSeparationJob, AppError>)
        ensures
            changed(old(self)@, final(self)@, job_id@, r, staged(old(self)@[job_index(old(self)@, job_id@)], stage, now)),
    {
        proof {
            use_type_invariant(&*self);
        }
        let (i, mut job) = match self.fetch(job_id) {
            Ok(x) => x,
            Err(e) => return Err(e),
        };
        stage_job(&mut job, stage, now);
        Ok(self.store(i, job))
    }

    /// Cancels a job.
    pub fn cancel_job(&mut self, job_id: &str, now: i64) -> (r: Result<VoiceSeparationJob, AppError>)
        ensures
            changed(
                old(self)@,
                final(self)@,
                job_id@,
                r,
                staged(old(self)@[job_index(old(self)@, job_id@)], SeparationStage::Cancelled, now),
            ),
    {
        proof {
            use_type_invariant(&*self);
        }
        self.advance(job_id, SeparationStage::Cancelled, now)
    }

    /// Records the decoded audio a separation runs on: the track extracted
    /// from a video, or the source transcoded to WAV after a failed attempt.
    pub fn record_decoded_audio(&mut self, job_id: &str, path: String, transcoded: bool, now: i64) -> (r: Result<
        VoiceSeparationJob,
        AppError,
    >)
        ensures
            changed(
                old(self)@,
                final(self)@,
                job_id@,
                r,
                with_decoded(
                    old(self)@[job_index(old(self)@, job_id@)],
                    path@,
                    if transcoded {
                        SeparationStage::SeparatingTranscoded
                    } else {
                        SeparationStage::SeparatingExtracted
                    },
                    now,
                ),
            ),
    {
        proof {
            use_type_invariant(&*self);
        }
        let (i, mut job) = match self.fetch(job_id) {
            Ok(x) => x,
            Err(e) => return Err(e),
        };
        job.decoded_audio_path = Some(path);
        let stage = if transcoded {
            SeparationStage::SeparatingTranscoded
        } else {
            SeparationStage::SeparatingExtracted
        };
        stage_job(&mut job, stage, now);
        Ok(self.store(i, job))
    }

    /// Records the separated tracks (without the accompaniment, mixed next).
    pub fn record_raw_stems(&mut self, job_id: &str, stems: VoiceSeparationStems, now: i64) -> (r: Result<
        VoiceSeparationJob,
        AppError,
    >)
        ensures
            changed(
                old(self)@,
                final(self)@,
                job_id@,
                r,
                staged(
                    VoiceSeparationJobView { stems: Some(stems_view(stems)), ..old(self)@[job_index(old(self)@, job_id@)] },
                    SeparationStage::MixingNoVocals,
                    now,
                ),
            ),
    {
        proof {
            use_type_invariant(&*self);
        }
        let (i, mut job) = match self.fetch(job_id) {
            Ok(x) => x,
            Err(e) => return Err(e),
        };
        job.stems = Some(stems);
        stage_job(&mut job, SeparationStage::MixingNoVocals, now);
        Ok(self.store(i, job))
    }

    /// Records the mixed accompaniment track; post-processing comes next.
    pub fn record_no_vocals(&mut self, job_id: &str, path: String, now: i64) -> (r: Result<VoiceSeparationJob, AppError>)
        ensures
            changed(
                old(self)@,
                final(self)@,
                job_id@,
                r,
                staged(
                    VoiceSeparationJobView {
                        stems: with_no_vocals(old(self)@[job_index(old(self)@, job_id@)].stems, path@),
                        ..old(self)@[job_index(old(self)@, job_id@)]
                    },
                    SeparationStage::PostProcessing,
                    now,
                ),
            ),
    {
        proof {
            use_type_invariant(&*self);
        }
        let (i, mut job) = match self.fetch(job_id) {
            Ok(x) => x,
            Err(e) => return Err(e),
        };
        job.stems = match job.stems {
            Some(st) => Some(VoiceSeparationStems { no_vocals: Some(path), ..st }),
            None => None,
        };
        stage_job(&mut job, SeparationStage::PostProcessing, now);
        Ok(self.store(i, job))
    }

    /// Records the post-processed vocals and their report: the job is ready.
    pub fn record_processed_vocals(&mut self, job_id: &str, path: String, report_json: String, now: i64) -> (r:
        Result<VoiceSeparationJob, AppError>)
        ensures
            changed(
                old(self)@,
                final(self)@,
                job_id@,
                r,
                staged(
                    VoiceSeparationJobView {
                        post_processed_vocals_path: Some(path@),
                        post_process_report: Some(report_json@),
                        ..old(self)@[job_index(old(self)@, job_id@)]
                    },
                    SeparationStage::Ready,
                    now,
                ),
            ),
    {
        proof {
            use_type_invariant(&*self);
        }
        let (i, mut job) = match self.fetch(job_id) {
            Ok(x) => x,
            Err(e) => return Err(e),
        };
        job.post_processed_vocals_path = Some(path);
        job.post_process_report = Some(report_json);
        stage_job(&mut job, SeparationStage::Ready, now);
        Ok(self.store(i, job))
    }

    /// Marks a job failed with `message`.
    pub fn fail_job(&mut self, job_id: &str, message: String, now: i64) -> (r: Result<VoiceSeparationJob, AppError>)
        ensures
            changed(old(self)@, final(self)@, job_id@, r, failed(old(self)@[job_index(old(self)@, job_id@)], message@, now)),
    {
        proof {
            use_type_invariant(&*self);
        }
        let (i, mut job) = match self.fetch(job_id) {
            Ok(x) => x,
            Err(e) => return Err(e),
        };
        job.status = VoiceSeparationStatus::Failed;
        job.progress_permille = 1000;
        job.current_stage_message = String::from_str("人声分离失败");
        job.error_message = Some(message);
        job.updated_at = now;
        Ok(self.store(i, job))
    }

    /// Marks a started job failed and gives the error `start_job` reports:
    /// `voice separation job failed: <message>`.
    pub fn report_failure(&mut self, job_id: &str, message: String, now: i64) -> (e: AppError)
        ensures
            if has_job(old(self)@, job_id@) {
                final(self)@ == old(self)@.update(
                    job_index(old(self)@, job_id@),
                    failed(old(self)@[job_index(old(self)@, job_id@)], message@, now),
                ) && job_error(e, "voice separation job failed: "@ + message@)
            } else {
                final(self)@ == old(self)@ && job_error(e, not_found_message(job_id@))
            },
    {
        proof {
            use_type_invariant(&*self);
        }
        let text = message.clone();
        match self.fail_job(job_id, message, now) {
            Ok(_) => AppError::offline_job(concat2("voice separation job failed: ", text.as_str())),
            Err(e) => e,
        }
    }

    /// Records the transcript a job's vocals say.
    pub fn mark_reference_text(&mut self, job_id: &str, reference_text: String, now: i64) -> (r: Result<
        VoiceSeparationJob,
        AppError,
    >)
        ensures
            changed(
                old(self)@,
                final(self)@,
                job_id@,
                r,
                VoiceSeparationJobView {
                    reference_text: Some(reference_text@),
                    updated_at: now,
                    ..old(self)@[job_index(old(self)@, job_id@)]
                },
            ),
    {
        proof {
            use_type_invariant(&*self);
        }
        let (i, mut job) = match self.fetch(job_id) {
            Ok(x) => x,
            Err(e) => return Err(e),
        };
        job.reference_text = Some(reference_text);
        job.updated_at = now;
        Ok(self.store(i, job))
    }

    /// Records the custom voice a job's vocals were saved as.
    pub fn finish_saving_voice(&mut self, job_id: &str, voice_name: String, reference_text: String, now: i64) -> (r:
        Result<VoiceSeparationJob, AppError>)
        ensures
            changed(
                old(self)@,
                final(self)@,
                job_id@,
                r,
                staged(
                    VoiceSeparationJobView {
                        voice_name: Some(voice_name@),
                        reference_text: Some(reference_text@),
                        ..old(self)@[job_index(old(self)@, job_id@)]
                    },
                    SeparationStage::Saved,
                    now,
                ),
            ),
    {
        proof {
            use_type_invariant(&*self);
        }
        let (i, mut job) = match self.fetch(job_id) {
            Ok(x) => x,
            Err(e) => return Err(e),
        };
        job.voice_name = Some(voice_name);
        job.reference_text = Some(reference_text);
        stage_job(&mut job, SeparationStage::Saved, now);
        Ok(self.store(i, job))
    }

    /// The file of a job's track (see `stem_path_spec`).
    pub fn stem_path(&self, job_id: &str, stem: VoiceSeparationStem) -> (r: Result<String, AppError>)
        ensures
            match r {
                Ok(p) => has_job(self@, job_id@) && stem_path_spec(self@[job_index(self@, job_id@)], stem) == Ok::<
                    Seq<char>,
                    Seq<char>,
                >(p@),
                Err(e) => if has_job(self@, job_id@) {
                    stem_path_spec(self@[job_index(self@, job_id@)], stem) matches Err(m) && job_error(e, m)
                } else {
                    job_error(e, not_found_message(job_id@))
                },
            },
    {
        proof {
            use_type_invariant(&*self);
        }
        let (_i, job) = match self.fetch(job_id) {
            Ok(x) => x,
            Err(e) => return Err(e),
        };
        if stem == VoiceSeparationStem::Vocals {
            if let Some(p) = job.post_processed_vocals_path {
                return Ok(p);
            }
        }
        match &job.stems {
            None => Err(AppError::offline_job(String::from_str("voice separation job has no stems"))),
            Some(st) => match st.path_for(stem) {
                Some(p) => Ok(String::from_str(p)),
                None => Err(AppError::offline_job(String::from_str("requested voice separation stem is unavailable"))),
            },
        }
    }

    /// The post-processed vocals of a job.
    pub fn processed_vocals_path(&self, job_id: &str) -> (r: Result<String, AppError>)
        ensures
            match r {
                Ok(p) => has_job(self@, job_id@) && self@[job_index(self@, job_id@)].post_processed_vocals_path == Some(
                    p@,
                ),
                Err(e) => if has_job(self@, job_id@) {
                    self@[job_index(self@, job_id@)].post_processed_vocals_path is None && job_error(
                        e,
                        "voice separation job has no processed vocals"@,
                    )
                } else {
                    job_error(e, not_found_message(job_id@))
                },
            },
    {
        proof {
            use_type_invariant(&*self);
        }
        let (_i, job) = match self.fetch(job_id) {
            Ok(x) => x,
            Err(e) => return Err(e),
        };
        match job.post_processed_vocals_path {
            Some(p) => Ok(p),
            None => Err(AppError::offline_job(String::from_str("voice separation job has no processed vocals"))),
        }
    }
}

/// The error of a separation that failed again after the source was
/// transcoded to WAV.
pub fn fallback_failure(retry_error: &str, first_error: &str) -> (e: AppError)
    ensures
        job_error(e, "demucs-rs failed after ffmpeg fallback: "@ + retry_error@ + "; first error: "@ + first_error@),
{
    let a = concat3("demucs-rs failed after ffmpeg fallback: ", retry_error, "; first error: ");
    AppError::offline_job(concat2(a.as_str(), first_error))
}

/// The stage a separation run enters first: video sources have their audio
/// extracted, audio sources go straight to separation.
pub fn first_separation_stage(source_type: VoiceSeparationSourceType) -> (s: SeparationStage)
    ensures
        s == (match source_type {
            VoiceSeparationSourceType::Video => SeparationStage::ExtractingAudio,
            VoiceSeparationSourceType::Audio => SeparationStage::SeparatingSource,
        }),
{
    match source_type {
        VoiceSeparationSourceType::Video => SeparationStage::ExtractingAudio,
        VoiceSeparationSourceType::Audio => SeparationStage::SeparatingSource,
    }
}

/// What a run does when Demucs fails.
#[derive(Debug)]
pub enum SeparationRecovery {
    /// Transcode the audio source to WAV and separate again.
    RetryWithDecodedAudio,
    /// Give up with the error Demucs reported.
    Propagate,
    /// Give up after the retry, with this error.
    FailAfterRetry(AppError),
}

/// Decides what follows a Demucs failure with message `error`: the first
/// failure (`first_error` is `None`) of an audio source is retried on a
/// transcoded WAV; that of a video source is passed on; a failure of the retry
/// ends the run with `fallback_failure(error, first)`.
pub fn separation_recovery(source_type: VoiceSeparationSourceType, first_error: Option<&str>, error: &str) -> (r:
    SeparationRecovery)
    ensures
        match first_error {
            None => match source_type {
                VoiceSeparationSourceType::Audio => r is RetryWithDecodedAudio,
                VoiceSeparationSourceType::Video => r is Propagate,
            },
            Some(first) => r matches SeparationRecovery::FailAfterRetry(e) && job_error(
                e,
                "demucs-rs failed after ffmpeg fallback: "@ + error@ + "; first error: "@ + first@,
            ),
        },
{
    match first_error {
        None => match source_type {
            VoiceSeparationSourceType::Audio => SeparationRecovery::RetryWithDecodedAudio,
            VoiceSeparationSourceType::Video => SeparationRecovery::Propagate,
        },
        Some(first) => SeparationRecovery::FailAfterRetry(fallback_failure(error, first)),
    }
}

/// The files of one separation job under its directory.
#[derive(Debug, Clone, PartialEq, Eq)]
pub struct JobPaths {
    pub root: String,
    pub source_dir: String,
    pub raw_stems_dir: String,
    pub stems_dir: String,
    pub processed_dir: String,
    pub reports_dir: String,
    pub decoded_audio: String,
    pub vocals_raw: String,
    pub drums_raw: String,
    pub bass_raw: String,
    pub other_raw: String,
    pub no_vocals: String,
    pub processed_vocals: String,
    pub ffmpeg_decode_log: String,
    pub demucs_stdout_log: String,
    pub demucs_stderr_log: String,
    pub ffmpeg_mix_log: String,
    pub ffmpeg_post_process_log: String,
    pub post_process_report: String,
}

/// The directory of job `job_id`: its id reduced to file-name characters, under `jobs_dir`.
pub open spec fn job_dir_spec(jobs_dir: Seq<char>, job_id: Seq<char>) -> Seq<char> {
    path_join(jobs_dir, segment_seq(job_id))
}

/// The layout of a job's files under its directory `root`.
pub open spec fn job_paths_spec(root: Seq<char>, p: JobPaths) -> bool {
    let source = path_join(root, "source"@);
    let stems = path_join(root, "stems"@);
    let processed = path_join(root, "processed"@);
    let reports = path_join(root, "reports"@);
    &&& p.root@ == root
    &&& p.source_dir@ == source
    &&& p.raw_stems_dir@ == path_join(root, "demucs-output"@)
    &&& p.stems_dir@ == stems
    &&& p.processed_dir@ == processed
    &&& p.reports_dir@ == reports
    &&& p.decoded_audio@ == path_join(source, "input.decoded.wav"@)
    &&& p.vocals_raw@ == path_join(stems, "vocals.raw.wav"@)
    &&& p.drums_raw@ == path_join(stems, "drums.raw.wav"@)
    &&& p.bass_raw@ == path_join(stems, "bass.raw.wav"@)
    &&& p.other_raw@ == path_join(stems, "other.raw.wav"@)
    &&& p.no_vocals@ == path_join(stems, "no_vocals.wav"@)
    &&& p.processed_vocals@ == path_join(processed, "vocals.wav"@)
    &&& p.ffmpeg_decode_log@ == path_join(reports, "ffmpeg-decode.log"@)
    &&& p.demucs_stdout_log@ == path_join(reports, "demucs-rs.stdout.log"@)
    &&& p.demucs_stderr_log@ == path_join(reports, "demucs-rs.stderr.log"@)
    &&& p.ffmpeg_mix_log@ == path_join(reports, "ffmpeg-mix-no-vocals.log"@)
    &&& p.ffmpeg_post_process_log@ == path_join(reports, "ffmpeg-post-process.log"@)
    &&& p.post_process_report@ == path_join(reports, "post-process-report.json"@)
}

impl JobPaths {
    /// The files of job `job_id` under the jobs directory.
    pub fn for_job(jobs_dir: &str, job_id: &str) -> (p: JobPaths)
        ensures
            job_paths_spec(job_dir_spec(jobs_dir@, job_id@), p),
    {
        let segment = sanitize_path_segment(job_id);
        let root = join_path(jobs_dir, segment.as_str());
        let source_dir = join_path(root.as_str(), "source");
        let raw_stems_dir = join_path(root.as_str(), "demucs-output");
        let stems_dir = join_path(root.as_str(), "stems");
        let processed_dir = join_path(root.as_str(), "processed");
        let reports_dir = join_path(root.as_str(), "reports");
        JobPaths {
            decoded_audio: join_path(source_dir.as_str(), "input.decoded.wav"),
            vocals_raw: join_path(stems_dir.as_str(), "vocals.raw.wav"),
            drums_raw: join_path(stems_dir.as_str(), "drums.raw.wav"),
            bass_raw: join_path(stems_dir.as_str(), "bass.raw.wav"),
            other_raw: join_path(stems_dir.as_str(), "other.raw.wav"),
            no_vocals: join_path(stems_dir.as_str(), "no_vocals.wav"),
            processed_vocals: join_path(processed_dir.as_str(), "vocals.wav"),
            ffmpeg_decode_log: join_path(reports_dir.as_str(), "ffmpeg-decode.log"),
            demucs_stdout_log: join_path(reports_dir.as_str(), "demucs-rs.stdout.log"),
            demucs_stderr_log: join_path(reports_dir.as_str(), "demucs-rs.stderr.log"),
            ffmpeg_mix_log: join_path(reports_dir.as_str(), "ffmpeg-mix-no-vocals.log"),
            ffmpeg_post_process_log: join_path(reports_dir.as_str(), "ffmpeg-post-process.log"),
            post_process_report: join_path(reports_dir.as_str(), "post-process-report.json"),
            root,
            source_dir,
            raw_stems_dir,
            stems_dir,
            processed_dir,
            reports_dir,
        }
    }

    /// The directories a job needs, in the order they are created.
    pub fn directories(&self) -> (d: Vec<String>)
        ensures
            d@.map_values(|s: String| s@) == seq![
                self.root@,
                self.source_dir@,
                self.raw_stems_dir@,
                self.stems_dir@,
                self.processed_dir@,
                self.reports_dir@,
            ],
    {
        let d = vec![
            self.root.clone(),
            self.source_dir.clone(),
            self.raw_stems_dir.clone(),
            self.stems_dir.clone(),
            self.processed_dir.clone(),
            self.reports_dir.clone(),
        ];
        assert(d@.map_values(|s: String| s@) =~= seq![
            self.root@,
            self.source_dir@,
            self.raw_stems_dir@,
            self.stems_dir@,
            self.processed_dir@,
            self.reports_dir@,
        ]);
        d
    }

    /// The separated tracks as first recorded: all but the accompaniment,
    /// which is mixed afterwards.
    pub fn raw_stems(&self) -> (s: VoiceSeparationStems)
        ensures
            stems_view(s) == (StemsView {
                vocals: Some(self.vocals_raw@),
                no_vocals: None,
                drums: Some(self.drums_raw@),
                bass: Some(self.bass_raw@),
                other: Some(self.other_raw@),
            }),
    {
        VoiceSeparationStems {
            vocals: Some(self.vocals_raw.clone()),
            no_vocals: None,
            drums: Some(self.drums_raw.clone()),
            bass: Some(self.bass_raw.clone()),
            other: Some(self.other_raw.clone()),
        }
    }
}


/// A request to keep a job's separated vocals as a custom voice.
#[derive(Debug, Clone, PartialEq, Eq)]
pub struct SaveSeparatedVocalsRequest {
    pub voice_name: String,
    pub reference_text: String,
    pub voice_instruction: Option<String>,
}

/// The custom voice made from separated vocals.
pub open spec fn separated_voice_profile(
    voice_name: Seq<char>,
    reference_text: Seq<char>,
    voice_instruction: Option<Seq<char>>,
    vocals_path: Seq<char>,
    now: i64,
) -> CustomVoiceProfileView {
    CustomVoiceProfileView {
        voice_name,
        source_prompt_text: Some("voiceSeparation"@),
        asr_text: None,
        voice_instruction: match voice_instruction {
            Some(v) => v,
            None => Seq::empty(),
        },
        reference_audio_path: vocals_path,
        reference_text,
        sync_status: SyncStatus::PendingSync,
        last_synced_at: None,
        created_at: now,
    }
}

impl VoiceSeparationManager {
    /// Starts keeping a job's post-processed vocals as a custom voice: the
    /// name and transcript are required (trimmed), the job must have processed
    /// vocals, and it moves to saving. Gives the profile to store.
    pub fn begin_saving_voice(&mut self, job_id: &str, request: SaveSeparatedVocalsRequest, now: i64) -> (r: Result<
        CustomVoiceProfile,
        AppError,
    >)
        ensures
            match r {
                Ok(p) => {
                    &&& trim_seq(request.voice_name@).len() > 0
                    &&& trim_seq(request.reference_text@).len() > 0
                    &&& has_job(old(self)@, job_id@)
                    &&& old(self)@[job_index(old(self)@, job_id@)].post_processed_vocals_path matches Some(v)
                    &&& p@ == separated_voice_profile(
                        trim_seq(request.voice_name@),
                        trim_seq(request.reference_text@),
                        opt_str(request.voice_instruction),
                        v,
                        now,
                    )
                    &&& final(self)@ == old(self)@.update(
                        job_index(old(self)@, job_id@),
                        staged(old(self)@[job_index(old(self)@, job_id@)], SeparationStage::SavingVoice, now),
                    )
                },
                Err(e) => final(self)@ == old(self)@ && if trim_seq(request.voice_name@).len() == 0 {
                    job_error(e, "voiceName is required"@)
                } else if trim_seq(request.reference_text@).len() == 0 {
                    job_error(e, "referenceText is required"@)
                } else if !has_job(old(self)@, job_id@) {
                    job_error(e, not_found_message(job_id@))
                } else {
                    old(self)@[job_index(old(self)@, job_id@)].post_processed_vocals_path is None && job_error(
                        e,
                        "voice separation job has no processed vocals"@,
                    )
                },
            },
    {
        proof {
            use_type_invariant(&*self);
        }
        let voice_name = match crate::library::require_voice_name(request.voice_name.as_str()) {
            Ok(v) => v,
            Err(e) => return Err(e),
        };
        let reference_text = match require_non_empty("referenceText", request.reference_text) {
            Ok(v) => v,
            Err(e) => {
                proof {
                    reveal_strlit("referenceText");
                    reveal_strlit(" is required");
                    reveal_strlit("referenceText is required");
                    assert("referenceText"@ + " is required"@ =~= "referenceText is required"@);
                }
                return Err(e);
            },
        };
        let vocals_path = match self.processed_vocals_path(job_id) {
            Ok(p) => p,
            Err(e) => return Err(e),
        };
        let (i, mut job) = match self.fetch(job_id) {
            Ok(x) => x,
            Err(e) => return Err(e),
        };
        stage_job(&mut job, SeparationStage::SavingVoice, now);
        self.store(i, job);
        Ok(
            CustomVoiceProfile {
                voice_name,
                source_prompt_text: Some(String::from_str("voiceSeparation")),
                asr_text: None,
                voice_instruction: match request.voice_instruction {
                    Some(v) => v,
                    None => String::new(),
                },
                reference_audio_path: vocals_path,
                reference_text,
                sync_status: SyncStatus::PendingSync,
                last_synced_at: None,
                created_at: now,
            },
        )
    }
}


/// A failed job may be started again, and a started job may not be started
/// twice.
pub proof fn lemma_failed_job_restarts(j: VoiceSeparationJobView, message: Seq<char>, now: i64, later: i64)
    ensures
        startable(failed(j, message, now).status),
        !startable(staged(VoiceSeparationJobView { error_message: None, ..failed(j, message, now) }, SeparationStage::Preparing, later).status),
{
}

/// The post-processed vocals win over the raw vocals track; every other
/// track is served from the job's tracks, when the job has it.
pub proof fn lemma_processed_vocals_win(j: VoiceSeparationJobView, stem: VoiceSeparationStem)
    ensures
        stem == VoiceSeparationStem::Vocals && j.post_processed_vocals_path is Some ==> stem_path_spec(j, stem)
            == Ok::<Seq<char>, Seq<char>>(j.post_processed_vocals_path->0),
        (stem != VoiceSeparationStem::Vocals || j.post_processed_vocals_path is None) ==> match j.stems {
            Some(st) => match stem_file(st, stem) {
                Some(q) => stem_path_spec(j, stem) == Ok::<Seq<char>, Seq<char>>(q),
                None => stem_path_spec(j, stem) is Err,
            },
            None => stem_path_spec(j, stem) is Err,
        },
{
}

} // verus!
