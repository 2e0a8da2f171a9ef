use vstd::prelude::*;

use crate::endpoints::{is_wav_bytes, rest_url_spec, wav_header, OfflineEndpoints};
use crate::error::AppError;
use crate::session::RuntimeParams;
use crate::json::JsonFieldView;
use crate::settings::{opt_str, settings_error, AppSettings};
use crate::text::{
    ascii_lower_seq, ascii_lowercase, concat2, concat3, decimal, decimal_seq, trim_seq, trim_start_char, trimmed,
    without_leading,
};

verus! {

/// What an offline job converts.
#[derive(Debug, Clone, Copy, PartialEq, Eq, Structural)]
pub enum OfflineJobInputType {
    Audio,
    Text,
}

/// Lifecycle of an offline job.
#[derive(Debug, Clone, Copy, PartialEq, Eq, Structural)]
pub enum OfflineJobStatus {
    Created,
    Running,
    Completed,
    Failed,
    Cancelled,
}

/// `{:?}` of a status.
pub open spec fn status_name(s: OfflineJobStatus) -> Seq<char> {
    match s {
        OfflineJobStatus::Created => "Created"@,
        OfflineJobStatus::Running => "Running"@,
        OfflineJobStatus::Completed => "Completed"@,
        OfflineJobStatus::Failed => "Failed"@,
        OfflineJobStatus::Cancelled => "Cancelled"@,
    }
}

/// See `status_name`.
pub fn status_text(s: OfflineJobStatus) -> (t: &'static str)
    ensures
        t@ == status_name(s),
{
    match s {
        OfflineJobStatus::Created => "Created",
        OfflineJobStatus::Running => "Running",
        OfflineJobStatus::Completed => "Completed",
        OfflineJobStatus::Failed => "Failed",
        OfflineJobStatus::Cancelled => "Cancelled",
    }
}

/// `e` is an offline-job error with message `m`.
pub open spec fn job_error(e: AppError, m: Seq<char>) -> bool {
    e matches AppError::OfflineJob { message } && message@ == m
}

/// A required text field: its value trimmed, or `<field> is required` when
/// nothing is left.
pub fn require_non_empty(field: &str, value: String) -> (r: Result<String, AppError>)
    ensures
        match r {
            Ok(v) => trim_seq(value@).len() > 0 && v@ == trim_seq(value@),
            Err(e) => trim_seq(value@).len() == 0 && job_error(e, field@ + " is required"@),
        },
{
    let t = trimmed(value.as_str());
    if t.unicode_len() == 0 {
        Err(AppError::offline_job(concat2(field, " is required")))
    } else {
        Ok(t)
    }
}

/// The requested output format, trimmed, without leading dots, in lower case.
pub open spec fn cleaned_format(format: Option<Seq<char>>) -> Seq<char> {
    let value = match format {
        Some(f) => f,
        None => "wav"@,
    };
    ascii_lower_seq(trim_start_char(trim_seq(value), '.'))
}

/// The error for an output format other than wav, if any.
pub open spec fn output_format_error(format: Option<Seq<char>>) -> Option<Seq<char>> {
    let n = cleaned_format(format);
    if n == "wav"@ {
        None
    } else if n == "mp3"@ {
        Some("outputFormat currently only supports wav"@)
    } else if n.len() == 0 {
        Some("outputFormat is required"@)
    } else {
        Some("outputFormat must be wav"@)
    }
}

/// Offline jobs write wav only; no format means wav.
pub fn normalize_output_format(format: Option<String>) -> (r: Result<String, AppError>)
    ensures
        match r {
            Ok(f) => output_format_error(opt_str(format)) is None && f@ == "wav"@,
            Err(e) => output_format_error(opt_str(format)) matches Some(m) && job_error(e, m),
        },
{
    let value = match format {
        Some(f) => f,
        None => String::from_str("wav"),
    };
    let t = trimmed(value.as_str());
    let stripped = without_leading(t.as_str(), '.');
    let normalized = ascii_lowercase(stripped.as_str());
    proof {
        reveal_strlit("wav");
        reveal_strlit("mp3");
    }
    if crate::text::same_text(normalized.as_str(), "wav") {
        Ok(normalized)
    } else if crate::text::same_text(normalized.as_str(), "mp3") {
        Err(AppError::offline_job(String::from_str("outputFormat currently only supports wav")))
    } else if normalized.unicode_len() == 0 {
        Err(AppError::offline_job(String::from_str("outputFormat is required")))
    } else {
        Err(AppError::offline_job(String::from_str("outputFormat must be wav")))
    }
}

/// TTS audio for a wav job must be wav; `content_type` is what the server
/// said it sent.
pub fn ensure_wav_audio(output_format: &str, audio_bytes: &[u8], content_type: Option<&str>) -> (r: Result<
    (),
    AppError,
>)
    ensures
        match r {
            Ok(()) => output_format@ != "wav"@ || wav_header(audio_bytes@),
            Err(e) => output_format@ == "wav"@ && !wav_header(audio_bytes@) && job_error(
                e,
                "FunSpeech TTS returned non-WAV audio for wav output (content-type: "@ + match content_type {
                    Some(c) => c@,
                    None => "unknown"@,
                } + ")"@,
            ),
        },
{
    if !crate::text::same_text(output_format, "wav") || is_wav_bytes(audio_bytes) {
        return Ok(());
    }
    let c = match content_type {
        Some(c) => c,
        None => "unknown",
    };
    Err(
        AppError::offline_job(
            concat3("FunSpeech TTS returned non-WAV audio for wav output (content-type: ", c, ")"),
        ),
    )
}

/// Audio jobs are submitted to ASR, text jobs to TTS.
pub fn default_submission_endpoint(endpoints: &OfflineEndpoints, input_type: OfflineJobInputType) -> (url: String)
    ensures
        url@ == match input_type {
            OfflineJobInputType::Audio => endpoints.asr_url@,
            OfflineJobInputType::Text => endpoints.tts_url@,
        },
{
    match input_type {
        OfflineJobInputType::Audio => endpoints.asr_url.clone(),
        OfflineJobInputType::Text => endpoints.tts_url.clone(),
    }
}

pub open spec fn sat_mul(a: int, b: int) -> int {
    if a * b > usize::MAX {
        usize::MAX as int
    } else {
        a * b
    }
}

pub open spec fn sat_add_usize(a: int, b: int) -> int {
    if a + b > usize::MAX {
        usize::MAX as int
    } else {
        a + b
    }
}

/// The step of a chunked job scaled to 74 percentage points: chunk `index`,
/// `phase` 0 (transcribing) or 1 (synthesizing), out of `total_chunks`, with
/// saturating arithmetic.
pub open spec fn chunk_scaled(index: int, total_chunks: int, phase: int) -> int {
    let total_steps = if sat_mul(total_chunks, 2) >= 1 {
        sat_mul(total_chunks, 2)
    } else {
        1
    };
    let step = sat_add_usize(sat_mul(index, 2), phase);
    sat_mul(step, 74) / total_steps
}

/// Progress of a chunked job: 12 percent plus the scaled step (taken modulo
/// 256 as a byte), at most 86.
pub open spec fn chunk_progress_spec(index: int, total_chunks: int, phase: int) -> int {
    let p = 12 + chunk_scaled(index, total_chunks, phase) % 256;
    if p <= 86 {
        p
    } else {
        86
    }
}

/// `a * b`, or `usize::MAX` when that overflows.
pub fn saturating_mul_usize(a: usize, b: usize) -> (r: usize)
    ensures
        r == sat_mul(a as int, b as int),
{
    match a.checked_mul(b) {
        Some(p) => p,
        None => usize::MAX,
    }
}

/// See `chunk_progress_spec`; the byte sum must not overflow.
pub fn chunk_progress(index: usize, total_chunks: usize, phase: usize) -> (p: u8)
    requires
        chunk_scaled(index as int, total_chunks as int, phase as int) % 256 + 12 <= 255,
    ensures
        p == chunk_progress_spec(index as int, total_chunks as int, phase as int),
{
    let doubled = saturating_mul_usize(total_chunks, 2);
    let total_steps = if doubled >= 1 {
        doubled
    } else {
        1
    };
    let step = saturating_mul_usize(index, 2).saturating_add(phase);
    let scaled = saturating_mul_usize(step, 74) / total_steps;
    let low = (scaled % 256) as u8;
    let sum = 12 + low;
    if sum <= 86 {
        sum
    } else {
        86
    }
}

/// A queued offline conversion. Times are milliseconds since the Unix epoch.
#[derive(Debug, Clone, PartialEq, Eq)]
pub struct OfflineJob {
    pub job_id: String,
    pub trace_id: String,
    pub input_type: OfflineJobInputType,
    /// The input audio file, or the text to speak.
    pub input_ref: String,
    pub input_file_name: Option<String>,
    pub voice_name: String,
    pub runtime_params: RuntimeParams,
    pub output_format: String,
    pub status: OfflineJobStatus,
    pub stage: String,
    pub progress: u8,
    pub artifact_url: Option<String>,
    pub local_artifact_path: Option<String>,
    pub error_summary: Option<String>,
    pub created_at: i64,
    pub updated_at: i64,
}

pub struct OfflineJobView {
    pub job_id: Seq<char>,
    pub trace_id: Seq<char>,
    pub input_type: OfflineJobInputType,
    pub input_ref: Seq<char>,
    pub input_file_name: Option<Seq<char>>,
    pub voice_name: Seq<char>,
    pub runtime_params: Seq<(Seq<char>, JsonFieldView)>,
    pub output_format: Seq<char>,
    pub status: OfflineJobStatus,
    pub stage: Seq<char>,
    pub progress: u8,
    pub artifact_url: Option<Seq<char>>,
    pub local_artifact_path: Option<Seq<char>>,
    pub error_summary: Option<Seq<char>>,
    pub created_at: i64,
    pub updated_at: i64,
}

impl View for OfflineJob {
    type V = OfflineJobView;

    open spec fn view(&self) -> OfflineJobView {
        OfflineJobView {
            job_id: self.job_id@,
            trace_id: self.trace_id@,
            input_type: self.input_type,
            input_ref: self.input_ref@,
            input_file_name: opt_str(self.input_file_name),
            voice_name: self.voice_name@,
            runtime_params: self.runtime_params@,
            output_format: self.output_format@,
            status: self.status,
            stage: self.stage@,
            progress: self.progress,
            artifact_url: opt_str(self.artifact_url),
            local_artifact_path: opt_str(self.local_artifact_path),
            error_summary: opt_str(self.error_summary),
            created_at: self.created_at,
            updated_at: self.updated_at,
        }
    }
}

impl OfflineJob {
    /// A copy of this job.
    pub fn duplicate(&self) -> (r: OfflineJob)
        ensures
            r@ == self@,
    {
        OfflineJob {
            job_id: self.job_id.clone(),
            trace_id: self.trace_id.clone(),
            input_type: self.input_type,
            input_ref: self.input_ref.clone(),
            input_file_name: crate::settings::clone_opt_string(&self.input_file_name),
            voice_name: self.voice_name.clone(),
            runtime_params: self.runtime_params.duplicate(),
            output_format: self.output_format.clone(),
            status: self.status,
            stage: self.stage.clone(),
            progress: self.progress,
            artifact_url: crate::settings::clone_opt_string(&self.artifact_url),
            local_artifact_path: crate::settings::clone_opt_string(&self.local_artifact_path),
            error_summary: crate::settings::clone_opt_string(&self.error_summary),
            created_at: self.created_at,
            updated_at: self.updated_at,
        }
    }
}

/// The job once a runner picked it up.
pub open spec fn job_begun(j: OfflineJobView, now: i64) -> OfflineJobView {
    OfflineJobView {
        status: OfflineJobStatus::Running,
        stage: "preparing"@,
        progress: 5,
        error_summary: None,
        updated_at: now,
        ..j
    }
}

/// The job at a new stage of its run.
pub open spec fn job_staged(j: OfflineJobView, stage: Seq<char>, progress: u8, now: i64) -> OfflineJobView {
    OfflineJobView { stage, progress, updated_at: now, ..j }
}

/// The job completed with its artifact at `path` (and, if given, a new artifact URL).
pub open spec fn job_completed(j: OfflineJobView, artifact_url: Option<Seq<char>>, path: Seq<char>, now: i64) -> OfflineJobView {
    OfflineJobView {
        artifact_url: match artifact_url {
            Some(u) => Some(u),
            None => j.artifact_url,
        },
        local_artifact_path: Some(path),
        error_summary: None,
        status: OfflineJobStatus::Completed,
        stage: "completed"@,
        progress: 100,
        updated_at: now,
        ..j
    }
}

/// The job failed with `message`.
pub open spec fn job_failed(j: OfflineJobView, message: Seq<char>, now: i64) -> OfflineJobView {
    OfflineJobView {
        error_summary: Some(message),
        status: OfflineJobStatus::Failed,
        stage: "failed"@,
        updated_at: now,
        ..j
    }
}

/// The job was cancelled.
pub open spec fn job_cancelled(j: OfflineJobView, now: i64) -> OfflineJobView {
    OfflineJobView { status: OfflineJobStatus::Cancelled, stage: "cancelled"@, updated_at: now, ..j }
}

/// The job back at its start for another run, without artifact or error.
pub open spec fn job_reset(j: OfflineJobView, now: i64) -> OfflineJobView {
    OfflineJobView {
        error_summary: None,
        local_artifact_path: None,
        status: OfflineJobStatus::Created,
        stage: "created"@,
        progress: 0,
        updated_at: now,
        ..j
    }
}

/// A job in these states may run again.
pub open spec fn retryable(s: OfflineJobStatus) -> bool {
    s == OfflineJobStatus::Failed || s == OfflineJobStatus::Cancelled || s == OfflineJobStatus::Completed
}

pub open spec fn jobs_view(v: Seq<OfflineJob>) -> Seq<OfflineJobView> {
    v.map_values(|j: OfflineJob| j@)
}

/// Some job in `js` has id `id`.
pub open spec fn has_job(js: Seq<OfflineJobView>, id: Seq<char>) -> bool {
    exists|i: int| 0 <= i < js.len() && #[trigger] js[i].job_id == id
}

/// Where the job with id `id` is in `js`.
pub open spec fn job_index(js: Seq<OfflineJobView>, id: Seq<char>) -> int {
    choose|i: int| 0 <= i < js.len() && #[trigger] js[i].job_id == id
}

/// No two jobs share an id, and newer jobs come first.
pub open spec fn well_kept(js: Seq<OfflineJobView>) -> bool {
    &&& forall|i: int, j: int| 0 <= i < j < js.len() ==> #[trigger] js[i].job_id != #[trigger] js[j].job_id
    &&& forall|i: int, j: int| 0 <= i < j < js.len() ==> #[trigger] js[i].created_at >= #[trigger] js[j].created_at
}

/// `p` is where a job created at `t` goes in `js`: after every job created at
/// `t` or later, before every older one.
pub open spec fn is_place_for(js: Seq<OfflineJobView>, t: i64, p: int) -> bool {
    &&& 0 <= p <= js.len()
    &&& forall|k: int| 0 <= k < p ==> #[trigger] js[k].created_at >= t
    &&& forall|k: int| p <= k < js.len() ==> #[trigger] js[k].created_at < t
}

pub open spec fn place_for(js: Seq<OfflineJobView>, t: i64) -> int {
    choose|p: int| is_place_for(js, t, p)
}

/// `js` without the job with id `id`.
pub open spec fn without_job(js: Seq<OfflineJobView>, id: Seq<char>) -> Seq<OfflineJobView> {
    if has_job(js, id) {
        js.remove(job_index(js, id))
    } else {
        js
    }
}

/// `js` with `j` in place of any job with its id.
pub open spec fn with_job(js: Seq<OfflineJobView>, j: OfflineJobView) -> Seq<OfflineJobView> {
    let rest = without_job(js, j.job_id);
    rest.insert(place_for(rest, j.created_at), j)
}

/// The outcome of changing the job with id `id` by `f_job`, the changed job.
pub open spec fn patched(
    old_jobs: Seq<OfflineJobView>,
    new_jobs: Seq<OfflineJobView>,
    id: Seq<char>,
    r: Result<OfflineJob, AppError>,
    f_job: OfflineJobView,
) -> bool {
    match r {
        Ok(j) => has_job(old_jobs, id) && j@ == f_job && new_jobs == old_jobs.update(job_index(old_jobs, id), f_job),
        Err(e) => !has_job(old_jobs, id) && job_error(e, "offline job not found: "@ + id) && new_jobs == old_jobs,
    }
}

/// Cancelling succeeds exactly for a job that is there; the job handed back
/// and the record stored in its place are the same job with status cancelled
/// and stage `cancelled` (so runners stop and the job may be retried), with
/// every other record kept; a missing job leaves the records as they were.
pub proof fn lemma_cancel_marks_cancelled(
    jobs: Seq<OfflineJobView>,
    after: Seq<OfflineJobView>,
    id: Seq<char>,
    r: Result<OfflineJob, AppError>,
    now: i64,
)
    requires
        patched(jobs, after, id, r, job_cancelled(jobs[job_index(jobs, id)], now)),
    ensures
        r is Ok <==> has_job(jobs, id),
        r matches Ok(k) ==> {
            let i = job_index(jobs, id);
            &&& k@.status == OfflineJobStatus::Cancelled
            &&& k@.stage == "cancelled"@
            &&& k@.job_id == jobs[i].job_id
            &&& k@.updated_at == now
            &&& after.len() == jobs.len()
            &&& after[i] == k@
            &&& forall|q: int| 0 <= q < jobs.len() && q != i ==> after[q] == jobs[q]
        },
        r is Err ==> after == jobs,
{
}

/// Retrying goes through `retry_check` and then `reset_job`: it succeeds
/// exactly for a failed, cancelled or completed job, and then gives back the
/// same record started over (status created, stage `created`, progress 0, no
/// error and no artifact) in the same place, with no record added or lost;
/// otherwise the records stay as they were.
pub proof fn lemma_retry_restarts_job(
    jobs: Seq<OfflineJobView>,
    checked: Result<OfflineJob, AppError>,
    reset: Result<OfflineJob, AppError>,
    after: Seq<OfflineJobView>,
    id: Seq<char>,
    now: i64,
)
    requires
        well_kept(jobs),
        checked is Ok ==> has_job(jobs, id) && checked->Ok_0@ == jobs[job_index(jobs, id)] && retryable(
            checked->Ok_0.status,
        ),
        checked is Err ==> !(has_job(jobs, id) && retryable(jobs[job_index(jobs, id)].status)),
        checked is Ok ==> patched(jobs, after, id, reset, job_reset(jobs[job_index(jobs, id)], now)),
    ensures
        checked is Ok <==> has_job(jobs, id) && retryable(jobs[job_index(jobs, id)].status),
        checked is Ok ==> ({
            let k = reset->Ok_0;
            &&& reset is Ok
            &&& k@.job_id == id
            &&& k@.status == OfflineJobStatus::Created
            &&& k@.stage == "created"@
            &&& k@.progress == 0
            &&& k@.error_summary is None
            &&& k@.local_artifact_path is None
            &&& after.len() == jobs.len()
            &&& after[job_index(jobs, id)] == k@
        }),
{
    if checked is Ok {
        let i = job_index(jobs, id);
        assert(jobs[i].job_id == id);
    }
}

proof fn lemma_index_unique(js: Seq<OfflineJobView>, id: Seq<char>, i: int)
    requires
        well_kept(js),
        0 <= i < js.len(),
        js[i].job_id == id,
    ensures
        has_job(js, id),
        job_index(js, id) == i,
{
    assert(has_job(js, id));
    let k = job_index(js, id);
    if k != i {
        if k < i {
            assert(js[k].job_id != js[i].job_id);
        } else {
            assert(js[i].job_id != js[k].job_id);
        }
    }
}

proof fn lemma_place_unique(js: Seq<OfflineJobView>, t: i64, p: int)
    requires
        is_place_for(js, t, p),
    ensures
        place_for(js, t) == p,
{
    let q = place_for(js, t);
    assert(is_place_for(js, t, q));
    if q < p {
        assert(js[q].created_at >= t);
    } else if q > p {
        assert(js[p].created_at >= t);
    }
}

/// The offline jobs, newest first, at most one per id.
#[derive(Debug)]
pub struct OfflineJobManager {
    jobs: Vec<OfflineJob>,
}

impl View for OfflineJobManager {
    type V = Seq<OfflineJobView>;

    closed spec fn view(&self) -> Seq<OfflineJobView> {
        jobs_view(self.jobs@)
    }
}

impl OfflineJobManager {
    /// Each id once, newest first.
    #[verifier::type_invariant]
    spec fn kept_in_order(&self) -> bool {
        well_kept(jobs_view(self.jobs@))
    }

    /// No jobs.
    pub fn new() -> (m: OfflineJobManager)
        ensures
            m@.len() == 0,
            well_kept(m@),
    {
        let jobs: Vec<OfflineJob> = Vec::new();
        assert(jobs_view(jobs@) =~= Seq::<OfflineJobView>::empty());
        OfflineJobManager { jobs }
    }

    fn position_of(&self, job_id: &str) -> (r: Option<usize>)
        requires
            well_kept(self@),
        ensures
            match r {
                Some(i) => i < self@.len() && self@[i as int].job_id == job_id@ && has_job(self@, job_id@)
                    && job_index(self@, job_id@) == i,
                None => !has_job(self@, job_id@),
            },
    {
        let mut i: usize = 0;
        while i < self.jobs.len()
            invariant
                i <= self.jobs.len(),
                well_kept(self@),
                forall|k: int| 0 <= k < i ==> #[trigger] self@[k].job_id != job_id@,
            decreases self.jobs.len() - i,
        {
            assert(self@[i as int] == self.jobs@[i as int]@);
            if crate::text::same_text(self.jobs[i].job_id.as_str(), job_id) {
                proof {
                    lemma_index_unique(self@, job_id@, i as int);
                }
                return Some(i);
            }
            i += 1;
        }
        None
    }

    fn not_found(job_id: &str) -> (e: AppError)
        ensures
            job_error(e, "offline job not found: "@ + job_id@),
    {
        AppError::offline_job(concat2("offline job not found: ", job_id))
    }

    /// The job with id `job_id`.
    pub fn get_job(&self, job_id: &str) -> (r: Result<OfflineJob, AppError>)
        ensures
            match r {
                Ok(j) => has_job(self@, job_id@) && j@ == self@[job_index(self@, job_id@)],
                Err(e) => !has_job(self@, job_id@) && job_error(e, "offline job not found: "@ + job_id@),
            },
    {
        proof {
            use_type_invariant(&*self);
        }
        match self.position_of(job_id) {
            Some(i) => {
                assert(self@[i as int] == self.jobs@[i as int]@);
                Ok(self.jobs[i].duplicate())
            },
            None => Err(Self::not_found(job_id)),
        }
    }

    /// Every job, newest first.
    pub fn list_jobs(&self) -> (r: Vec<OfflineJob>)
        ensures
            jobs_view(r@) == self@,
    {
        proof {
            use_type_invariant(&*self);
        }
        let mut r: Vec<OfflineJob> = Vec::new();
        let mut i: usize = 0;
        while i < self.jobs.len()
            invariant
                i <= self.jobs.len(),
                jobs_view(r@) == self@.take(i as int),
            decreases self.jobs.len() - i,
        {
            let ghost before = r@;
            r.push(self.jobs[i].duplicate());
            assert(jobs_view(r@) =~= jobs_view(before).push(self.jobs@[i as int]@));
            assert(self@.take(i as int + 1) =~= self@.take(i as int).push(self@[i as int]));
            i += 1;
        }
        assert(self@.take(self.jobs.len() as int) =~= self@);
        r
    }

    /// Puts `job` in at most once per id and in creation order (newest first),
    /// replacing any job with its id.
    pub fn insert_job(&mut self, job: OfflineJob)
        ensures
            final(self)@ == with_job(old(self)@, job@),
    {
        proof {
            use_type_invariant(&*self);
        }
        let ghost jv = job@;
        let found = self.position_of(job.job_id.as_str());
        let mut jobs: Vec<OfflineJob> = Vec::new();
        std::mem::swap(&mut jobs, &mut self.jobs);
        match found {
            Some(i) => {
                let ghost before = jobs_view(jobs@);
                jobs.remove(i);
                assert(jobs_view(jobs@) =~= before.remove(i as int));
            },
            None => {},
        }
        let ghost rest = jobs_view(jobs@);
        assert(rest == without_job(old(self)@, jv.job_id));
        assert(well_kept(rest)) by {
            if has_job(old(self)@, jv.job_id) {
                let k = job_index(old(self)@, jv.job_id);
                assert forall|i: int, j: int| 0 <= i < j < rest.len() implies #[trigger] rest[i].job_id
                    != #[trigger] rest[j].job_id && rest[i].created_at >= rest[j].created_at by {
                    let oi = if i < k { i } else { i + 1 };
                    let oj = if j < k { j } else { j + 1 };
                    assert(rest[i] == old(self)@[oi]);
                    assert(rest[j] == old(self)@[oj]);
                }
            }
        }
        let mut p: usize = 0;
        while p < jobs.len() && jobs[p].created_at >= job.created_at
            invariant
                p <= jobs.len(),
                jobs_view(jobs@) == rest,
                jv == job@,
                forall|k: int| 0 <= k < p ==> #[trigger] rest[k].created_at >= jv.created_at,
            decreases jobs.len() - p,
        {
            assert(rest[p as int] == jobs@[p as int]@);
            p += 1;
        }
        proof {
            assert forall|k: int| p <= k < rest.len() implies #[trigger] rest[k].created_at < jv.created_at by {
                assert(rest[p as int] == jobs@[p as int]@);
                assert(rest[p as int].created_at < jv.created_at);
                if k > p {
                    assert(rest[p as int].created_at >= rest[k].created_at);
                }
            }
            lemma_place_unique(rest, jv.created_at, p as int);
        }
        jobs.insert(p, job);
        assert(jobs_view(jobs@) =~= rest.insert(p as int, jv));
        assert(well_kept(jobs_view(jobs@))) by {
            let s = jobs_view(jobs@);
            assert forall|i: int, j: int| 0 <= i < j < s.len() implies #[trigger] s[i].job_id != #[trigger] s[j].job_id
                && s[i].created_at >= s[j].created_at by {
                if i < p && j < p {
                    assert(s[i] == rest[i] && s[j] == rest[j]);
                } else if i < p && j == p {
                    assert(s[i] == rest[i]);
                    assert(rest[i].job_id != jv.job_id) by {
                        if rest[i].job_id == jv.job_id {
                            assert(has_job(rest, jv.job_id));
                        }
                    }
                } else if i < p && j > p {
                    assert(s[i] == rest[i] && s[j] == rest[j - 1]);
                } else if i == p {
                    assert(s[j] == rest[j - 1]);
                    assert(rest[j - 1].job_id != jv.job_id) by {
                        if rest[j - 1].job_id == jv.job_id {
                            assert(has_job(rest, jv.job_id));
                        }
                    }
                } else {
                    assert(s[i] == rest[i - 1] && s[j] == rest[j - 1]);
                }
            }
        }
        self.jobs = jobs;
        proof {
            if has_job(old(self)@, jv.job_id) {
                let k = job_index(old(self)@, jv.job_id);
                assert(!has_job(rest, jv.job_id)) by {
                    if has_job(rest, jv.job_id) {
                        let q = choose|q: int| 0 <= q < rest.len() && #[trigger] rest[q].job_id == jv.job_id;
                        let oq = if q < k { q } else { q + 1 };
                        assert(rest[q] == old(self)@[oq]);
                        if oq < k {
                            assert(old(self)@[oq].job_id != old(self)@[k].job_id);
                        } else {
                            assert(old(self)@[k].job_id != old(self)@[oq].job_id);
                        }
                    }
                }
            } else {
                assert(!has_job(rest, jv.job_id));
            }
        }
    }
}

/// What completing a job externally may say: where its artifact lives.
#[derive(Debug, Clone, PartialEq, Eq)]
pub struct CompleteOfflineJobRequest {
    pub artifact_url: Option<String>,
    pub local_artifact_path: Option<String>,
}

/// Why a job failed.
#[derive(Debug, Clone, PartialEq, Eq)]
pub struct FailOfflineJobRequest {
    pub message: String,
}

/// A request for a text-to-speech job.
#[derive(Debug, Clone, PartialEq, Eq)]
pub struct CreateOfflineTextJobRequest {
    pub text: String,
    pub voice_name: String,
    pub runtime_params: RuntimeParams,
    pub output_format: Option<String>,
}

/// The job with id `id` exists and was cancelled.
pub open spec fn was_cancelled(js: Seq<OfflineJobView>, id: Seq<char>) -> bool {
    has_job(js, id) && js[job_index(js, id)].status == OfflineJobStatus::Cancelled
}

/// A new job as created from its request.
pub open spec fn new_job_view(
    job_id: Seq<char>,
    trace_id: Seq<char>,
    input_type: OfflineJobInputType,
    input_ref: Seq<char>,
    input_file_name: Option<Seq<char>>,
    voice_name: Seq<char>,
    runtime_params: Seq<(Seq<char>, JsonFieldView)>,
    artifact_url: Seq<char>,
    now: i64,
) -> OfflineJobView {
    OfflineJobView {
        job_id,
        trace_id,
        input_type,
        input_ref,
        input_file_name,
        voice_name,
        runtime_params,
        output_format: "wav"@,
        status: OfflineJobStatus::Created,
        stage: "created"@,
        progress: 0,
        artifact_url: Some(artifact_url),
        local_artifact_path: None,
        error_summary: None,
        created_at: now,
        updated_at: now,
    }
}

impl OfflineJobManager {
    fn patch_at(&mut self, i: usize, job: OfflineJob)
        requires
            well_kept(old(self)@),
            i < old(self)@.len(),
            job@.job_id == old(self)@[i as int].job_id,
            job@.created_at == old(self)@[i as int].created_at,
        ensures
            final(self)@ == old(self)@.update(i as int, job@),
            well_kept(final(self)@),
    {
        let ghost before = self@;
        let ghost jv = job@;
        let mut jobs: Vec<OfflineJob> = Vec::new();
        std::mem::swap(&mut jobs, &mut self.jobs);
        jobs.set(i, job);
        assert(jobs_view(jobs@) =~= before.update(i as int, jv));
        assert(well_kept(jobs_view(jobs@))) by {
            let s = jobs_view(jobs@);
            assert forall|a: int, b: int| 0 <= a < b < s.len() implies #[trigger] s[a].job_id != #[trigger] s[b].job_id
                && s[a].created_at >= s[b].created_at by {
                assert(s[a].job_id == before[a].job_id && s[a].created_at == before[a].created_at);
                assert(s[b].job_id == before[b].job_id && s[b].created_at == before[b].created_at);
            }
        }
        self.jobs = jobs;
    }

    /// Marks a job as running: stage `preparing`, 5 percent, no error.
    pub fn begin_job(&mut self, job_id: &str, now: i64) -> (r: Result<OfflineJob, AppError>)
        ensures
            patched(old(self)@, final(self)@, job_id@, r, job_begun(old(self)@[job_index(old(self)@, job_id@)], now)),
    {
        proof {
            use_type_invariant(&*self);
        }
        match self.position_of(job_id) {
            None => Err(Self::not_found(job_id)),
            Some(i) => {
                assert(self@[i as int] == self.jobs@[i as int]@);
                let mut j = self.jobs[i].duplicate();
                j.status = OfflineJobStatus::Running;
                j.stage = String::from_str("preparing");
                j.progress = 5;
                j.error_summary = None;
                j.updated_at = now;
                let out = j.duplicate();
                self.patch_at(i, j);
                Ok(out)
            },
        }
    }

    /// Moves a running job to `stage` at `progress` percent.
    pub fn stage_job(&mut self, job_id: &str, stage: &str, progress: u8, now: i64) -> (r: Result<OfflineJob, AppError>)
        ensures
            patched(
                old(self)@,
                final(self)@,
                job_id@,
                r,
                job_staged(old(self)@[job_index(old(self)@, job_id@)], stage@, progress, now),
            ),
    {
        proof {
            use_type_invariant(&*self);
        }
        match self.position_of(job_id) {
            None => Err(Self::not_found(job_id)),
            Some(i) => {
                assert(self@[i as int] == self.jobs@[i as int]@);
                let mut j = self.jobs[i].duplicate();
                j.stage = String::from_str(stage);
                j.progress = progress;
                j.updated_at = now;
                let out = j.duplicate();
                self.patch_at(i, j);
                Ok(out)
            },
        }
    }

    /// Completes a job with its artifact at `artifact_path`, taking the
    /// artifact URL when one is given.
    pub fn complete_job(
        &mut self,
        job_id: &str,
        artifact_url: Option<String>,
        artifact_path: &str,
        now: i64,
    ) -> (r: Result<OfflineJob, AppError>)
        ensures
            patched(
                old(self)@,
                final(self)@,
                job_id@,
                r,
                job_completed(old(self)@[job_index(old(self)@, job_id@)], opt_str(artifact_url), artifact_path@, now),
            ),
    {
        proof {
            use_type_invariant(&*self);
        }
        match self.position_of(job_id) {
            None => Err(Self::not_found(job_id)),
            Some(i) => {
                assert(self@[i as int] == self.jobs@[i as int]@);
                let mut j = self.jobs[i].duplicate();
                if let Some(u) = artifact_url {
                    j.artifact_url = Some(u);
                }
                j.local_artifact_path = Some(String::from_str(artifact_path));
                j.error_summary = None;
                j.status = OfflineJobStatus::Completed;
                j.stage = String::from_str("completed");
                j.progress = 100;
                j.updated_at = now;
                let out = j.duplicate();
                self.patch_at(i, j);
                Ok(out)
            },
        }
    }

    /// Cancels a job; a runner stops at its next step.
    pub fn cancel_job(&mut self, job_id: &str, now: i64) -> (r: Result<OfflineJob, AppError>)
        ensures
            patched(old(self)@, final(self)@, job_id@, r, job_cancelled(old(self)@[job_index(old(self)@, job_id@)], now)),
    {
        proof {
            use_type_invariant(&*self);
        }
        match self.position_of(job_id) {
            None => Err(Self::not_found(job_id)),
            Some(i) => {
                assert(self@[i as int] == self.jobs@[i as int]@);
                let mut j = self.jobs[i].duplicate();
                j.status = OfflineJobStatus::Cancelled;
                j.stage = String::from_str("cancelled");
                j.updated_at = now;
                let out = j.duplicate();
                self.patch_at(i, j);
                Ok(out)
            },
        }
    }

    /// Puts a job back at its start (after its old artifact was removed).
    pub fn reset_job(&mut self, job_id: &str, now: i64) -> (r: Result<OfflineJob, AppError>)
        ensures
            patched(old(self)@, final(self)@, job_id@, r, job_reset(old(self)@[job_index(old(self)@, job_id@)], now)),
    {
        proof {
            use_type_invariant(&*self);
        }
        match self.position_of(job_id) {
            None => Err(Self::not_found(job_id)),
            Some(i) => {
                assert(self@[i as int] == self.jobs@[i as int]@);
                let mut j = self.jobs[i].duplicate();
                j.error_summary = None;
                j.local_artifact_path = None;
                j.status = OfflineJobStatus::Created;
                j.stage = String::from_str("created");
                j.progress = 0;
                j.updated_at = now;
                let out = j.duplicate();
                self.patch_at(i, j);
                Ok(out)
            },
        }
    }

    /// The job, when it has been cancelled.
    pub fn cancelled_job(&self, job_id: &str) -> (r: Result<Option<OfflineJob>, AppError>)
        ensures
            match r {
                Ok(Some(j)) => has_job(self@, job_id@) && j@ == self@[job_index(self@, job_id@)]
                    && j.status == OfflineJobStatus::Cancelled,
                Ok(None) => has_job(self@, job_id@) && self@[job_index(self@, job_id@)].status
                    != OfflineJobStatus::Cancelled,
                Err(e) => !has_job(self@, job_id@) && job_error(e, "offline job not found: "@ + job_id@),
            },
    {
        proof {
            use_type_invariant(&*self);
        }
        let job = match self.get_job(job_id) {
            Ok(j) => j,
            Err(e) => return Err(e),
        };
        if job.status == OfflineJobStatus::Cancelled {
            Ok(Some(job))
        } else {
            Ok(None)
        }
    }

    /// Fails a job with `message`, unless it was cancelled meanwhile: then it
    /// stays as it is.
    pub fn fail_running_job(&mut self, job_id: &str, message: String, now: i64) -> (r: Result<OfflineJob, AppError>)
        ensures
            if was_cancelled(old(self)@, job_id@) {
                (r matches Ok(j) && j@ == old(self)@[job_index(old(self)@, job_id@)]) && final(self)@ == old(self)@
            } else {
                patched(
                    old(self)@,
                    final(self)@,
                    job_id@,
                    r,
                    job_failed(old(self)@[job_index(old(self)@, job_id@)], message@, now),
                )
            },
    {
        proof {
            use_type_invariant(&*self);
        }
        match self.cancelled_job(job_id) {
            Err(e) => return Err(e),
            Ok(Some(j)) => return Ok(j),
            Ok(None) => {},
        }
        match self.position_of(job_id) {
            None => Err(Self::not_found(job_id)),
            Some(i) => {
                assert(self@[i as int] == self.jobs@[i as int]@);
                let mut j = self.jobs[i].duplicate();
                j.error_summary = Some(message);
                j.status = OfflineJobStatus::Failed;
                j.stage = String::from_str("failed");
                j.updated_at = now;
                let out = j.duplicate();
                self.patch_at(i, j);
                Ok(out)
            },
        }
    }

    /// Fails a job on request; the message is required (and trimmed).
    pub fn fail_job(&mut self, job_id: &str, request: FailOfflineJobRequest, now: i64) -> (r: Result<OfflineJob, AppError>)
        ensures
            if trim_seq(request.message@).len() == 0 {
                (r matches Err(e) && job_error(e, "message"@ + " is required"@)) && final(self)@ == old(self)@
            } else if was_cancelled(old(self)@, job_id@) {
                (r matches Ok(j) && j@ == old(self)@[job_index(old(self)@, job_id@)]) && final(self)@ == old(self)@
            } else {
                patched(
                    old(self)@,
                    final(self)@,
                    job_id@,
                    r,
                    job_failed(old(self)@[job_index(old(self)@, job_id@)], trim_seq(request.message@), now),
                )
            },
    {
        proof {
            use_type_invariant(&*self);
        }
        match require_non_empty("message", request.message) {
            Ok(message) => self.fail_running_job(job_id, message, now),
            Err(e) => Err(e),
        }
    }

    /// The job, if it may be retried: only failed, cancelled and completed
    /// jobs may.
    pub fn retry_check(&self, job_id: &str) -> (r: Result<OfflineJob, AppError>)
        ensures
            match r {
                Ok(j) => has_job(self@, job_id@) && j@ == self@[job_index(self@, job_id@)] && retryable(j.status),
                Err(e) => if has_job(self@, job_id@) {
                    !retryable(self@[job_index(self@, job_id@)].status) && job_error(
                        e,
                        "cannot retry offline job from "@ + status_name(self@[job_index(self@, job_id@)].status),
                    )
                } else {
                    job_error(e, "offline job not found: "@ + job_id@)
                },
            },
    {
        proof {
            use_type_invariant(&*self);
        }
        let current = match self.get_job(job_id) {
            Ok(j) => j,
            Err(e) => return Err(e),
        };
        match current.status {
            OfflineJobStatus::Failed | OfflineJobStatus::Cancelled | OfflineJobStatus::Completed => Ok(current),
            _ => Err(AppError::offline_job(concat2("cannot retry offline job from ", status_text(current.status)))),
        }
    }

    /// Takes a job out, handing it back.
    pub fn remove_job(&mut self, job_id: &str) -> (r: Result<OfflineJob, AppError>)
        ensures
            match r {
                Ok(j) => has_job(old(self)@, job_id@) && j@ == old(self)@[job_index(old(self)@, job_id@)]
                    && final(self)@ == old(self)@.remove(job_index(old(self)@, job_id@)),
                Err(e) => !has_job(old(self)@, job_id@) && job_error(e, "offline job not found: "@ + job_id@)
                    && final(self)@ == old(self)@,
            },
    {
        proof {
            use_type_invariant(&*self);
        }
        match self.position_of(job_id) {
            None => Err(Self::not_found(job_id)),
            Some(i) => {
                let ghost before = self@;
                let mut jobs: Vec<OfflineJob> = Vec::new();
                std::mem::swap(&mut jobs, &mut self.jobs);
                let j = jobs.remove(i);
                assert(jobs_view(jobs@) =~= before.remove(i as int));
                assert(well_kept(jobs_view(jobs@))) by {
                    let s = jobs_view(jobs@);
                    assert forall|a: int, b: int| 0 <= a < b < s.len() implies #[trigger] s[a].job_id
                        != #[trigger] s[b].job_id && s[a].created_at >= s[b].created_at by {
                        let oa = if a < i { a } else { a + 1 };
                        let ob = if b < i { b } else { b + 1 };
                        assert(s[a] == before[oa] && s[b] == before[ob]);
                    }
                }
                self.jobs = jobs;
                Ok(j)
            },
        }
    }

    /// Takes every job out, handing them back newest first.
    pub fn clear_jobs(&mut self) -> (r: Vec<OfflineJob>)
        ensures
            jobs_view(r@) == old(self)@,
            final(self)@.len() == 0,
    {
        proof {
            use_type_invariant(&*self);
        }
        let mut r: Vec<OfflineJob> = Vec::new();
        std::mem::swap(&mut r, &mut self.jobs);
        assert(self@ =~= Seq::<OfflineJobView>::empty());
        r
    }

    /// Records a new job: the voice name is required (and trimmed), the output
    /// format must be wav, and the job is to be submitted to ASR (audio) or TTS
    /// (text). A job with the same id is replaced.
    pub fn create_job(
        &mut self,
        job_id: String,
        trace_id: String,
        input_type: OfflineJobInputType,
        input_ref: String,
        input_file_name: Option<String>,
        voice_name: String,
        runtime_params: RuntimeParams,
        output_format: Option<String>,
        endpoints: &OfflineEndpoints,
        now: i64,
    ) -> (r: Result<OfflineJob, AppError>)
        ensures
            match r {
                Ok(j) => {
                    &&& trim_seq(voice_name@).len() > 0
                    &&& output_format_error(opt_str(output_format)) is None
                    &&& j@ == new_job_view(
                        job_id@,
                        trace_id@,
                        input_type,
                        input_ref@,
                        opt_str(input_file_name),
                        trim_seq(voice_name@),
                        runtime_params@,
                        match input_type {
                            OfflineJobInputType::Audio => endpoints.asr_url@,
                            OfflineJobInputType::Text => endpoints.tts_url@,
                        },
                        now,
                    )
                    &&& final(self)@ == with_job(old(self)@, j@)
                },
                Err(e) => {
                    &&& final(self)@ == old(self)@
                    &&& if trim_seq(voice_name@).len() == 0 {
                        job_error(e, "voiceName"@ + " is required"@)
                    } else {
                        output_format_error(opt_str(output_format)) matches Some(m) && job_error(e, m)
                    }
                },
            },
    {
        proof {
            use_type_invariant(&*self);
        }
        let voice_name = match require_non_empty("voiceName", voice_name) {
            Ok(v) => v,
            Err(e) => return Err(e),
        };
        let output_format = match normalize_output_format(output_format) {
            Ok(f) => f,
            Err(e) => return Err(e),
        };
        let job = OfflineJob {
            job_id,
            trace_id,
            input_type,
            input_ref,
            input_file_name,
            voice_name,
            runtime_params,
            output_format,
            status: OfflineJobStatus::Created,
            stage: String::from_str("created"),
            progress: 0,
            artifact_url: Some(default_submission_endpoint(endpoints, input_type)),
            local_artifact_path: None,
            error_summary: None,
            created_at: now,
            updated_at: now,
        };
        let out = job.duplicate();
        self.insert_job(job);
        Ok(out)
    }
}

/// The records after loading `js` in order into an empty manager: each job
/// takes the place of an earlier one with its id.
pub open spec fn loaded_jobs(js: Seq<OfflineJobView>) -> Seq<OfflineJobView>
    decreases js.len(),
{
    if js.len() == 0 {
        Seq::empty()
    } else {
        with_job(loaded_jobs(js.drop_last()), js.last())
    }
}

impl OfflineJobManager {
    /// The jobs read back from storage; of jobs sharing an id the last one is kept.
    pub fn from_jobs(jobs: Vec<OfflineJob>) -> (m: OfflineJobManager)
        ensures
            well_kept(m@),
            m@ == loaded_jobs(jobs_view(jobs@)),
    {
        let mut m = OfflineJobManager::new();
        let mut i: usize = 0;
        assert(jobs_view(jobs@).take(0) =~= Seq::<OfflineJobView>::empty());
        while i < jobs.len()
            invariant
                i <= jobs.len(),
                well_kept(m@),
                m@ == loaded_jobs(jobs_view(jobs@).take(i as int)),
            decreases jobs.len() - i,
        {
            assert(jobs_view(jobs@).take(i as int + 1).drop_last() =~= jobs_view(jobs@).take(i as int));
            m.insert_job(jobs[i].duplicate());
            proof {
                use_type_invariant(&m);
            }
            i += 1;
        }
        assert(jobs_view(jobs@).take(jobs.len() as int) =~= jobs_view(jobs@));
        m
    }

    /// Records a text-to-speech job for the request's text (required, trimmed)
    /// once the settings are valid (see `create_job`).
    pub fn create_text_job(
        &mut self,
        job_id: String,
        trace_id: String,
        request: CreateOfflineTextJobRequest,
        settings: &AppSettings,
        now: i64,
    ) -> (r: Result<OfflineJob, AppError>)
        ensures
            trim_seq(request.text@).len() == 0 ==> (r matches Err(e) && job_error(e, "text"@ + " is required"@))
                && final(self)@ == old(self)@,
            trim_seq(request.text@).len() > 0 && settings_error(settings@) is Some ==> (r matches Err(
                AppError::InvalidSettings { message },
            ) && Some(message@) == settings_error(settings@)) && final(self)@ == old(self)@,
            r is Ok ==> trim_seq(request.text@).len() > 0 && settings_error(settings@) is None,
            match r {
                Ok(j) => {
                    &&& trim_seq(request.voice_name@).len() > 0
                    &&& output_format_error(opt_str(request.output_format)) is None
                    &&& j@ == new_job_view(
                        job_id@,
                        trace_id@,
                        OfflineJobInputType::Text,
                        trim_seq(request.text@),
                        None,
                        trim_seq(request.voice_name@),
                        request.runtime_params@,
                        rest_url_spec(settings@.backend.tts.base_url, "/stream/v1/tts"@),
                        now,
                    )
                    &&& final(self)@ == with_job(old(self)@, j@)
                },
                Err(e) => final(self)@ == old(self)@ && (trim_seq(request.text@).len() > 0 && settings_error(
                    settings@,
                ) is None ==> if trim_seq(request.voice_name@).len() == 0 {
                    job_error(e, "voiceName"@ + " is required"@)
                } else {
                    output_format_error(opt_str(request.output_format)) matches Some(m) && job_error(e, m)
                }),
            },
    {
        proof {
            use_type_invariant(&*self);
        }
        let text = match require_non_empty("text", request.text) {
            Ok(t) => t,
            Err(e) => return Err(e),
        };
        match settings.validate() {
            Ok(()) => {},
            Err(m) => return Err(AppError::invalid_settings(m)),
        }
        let endpoints = OfflineEndpoints::from_backend_configs(&settings.backend.asr, &settings.backend.tts);
        self.create_job(
            job_id,
            trace_id,
            OfflineJobInputType::Text,
            text,
            None,
            request.voice_name,
            request.runtime_params,
            request.output_format,
            &endpoints,
            now,
        )
    }

    /// Records an audio job for the stored input `input_ref` once the settings
    /// are valid (see `create_job`).
    pub fn create_audio_job(
        &mut self,
        job_id: String,
        trace_id: String,
        input_ref: String,
        input_file_name: Option<String>,
        voice_name: String,
        runtime_params: RuntimeParams,
        output_format: Option<String>,
        settings: &AppSettings,
        now: i64,
    ) -> (r: Result<OfflineJob, AppError>)
        ensures
            settings_error(settings@) is Some ==> (r matches Err(AppError::InvalidSettings { message }) && Some(
                message@,
            ) == settings_error(settings@)) && final(self)@ == old(self)@,
            match r {
                Ok(j) => {
                    &&& settings_error(settings@) is None
                    &&& trim_seq(voice_name@).len() > 0
                    &&& output_format_error(opt_str(output_format)) is None
                    &&& j@ == new_job_view(
                        job_id@,
                        trace_id@,
                        OfflineJobInputType::Audio,
                        input_ref@,
                        opt_str(input_file_name),
                        trim_seq(voice_name@),
                        runtime_params@,
                        rest_url_spec(settings@.backend.asr.base_url, "/stream/v1/asr"@),
                        now,
                    )
                    &&& final(self)@ == with_job(old(self)@, j@)
                },
                Err(e) => final(self)@ == old(self)@ && (settings_error(settings@) is None ==> if trim_seq(
                    voice_name@,
                ).len() == 0 {
                    job_error(e, "voiceName"@ + " is required"@)
                } else {
                    output_format_error(opt_str(output_format)) matches Some(m) && job_error(e, m)
                }),
            },
    {
        proof {
            use_type_invariant(&*self);
        }
        match settings.validate() {
            Ok(()) => {},
            Err(m) => return Err(AppError::invalid_settings(m)),
        }
        let endpoints = OfflineEndpoints::from_backend_configs(&settings.backend.asr, &settings.backend.tts);
        self.create_job(
            job_id,
            trace_id,
            OfflineJobInputType::Audio,
            input_ref,
            input_file_name,
            voice_name,
            runtime_params,
            output_format,
            &endpoints,
            now,
        )
    }
}

/// The stage name of a step on chunk `index` (counted from 0) of `total`:
/// `<kind>:<index + 1>/<total>`.
pub fn chunk_stage(kind: &str, index: usize, total: usize) -> (s: String)
    requires
        index < usize::MAX,
    ensures
        s@ == kind@ + ":"@ + decimal_seq((index + 1) as nat) + "/"@ + decimal_seq(total as nat),
{
    let a = concat3(kind, ":", decimal((index + 1) as u64).as_str());
    concat3(a.as_str(), "/", decimal(total as u64).as_str())
}

/// A step of running an offline job that has a fixed stage and progress.
#[derive(Debug, Clone, Copy, PartialEq, Eq, Structural)]
pub enum OfflineStep {
    /// A long input is being cut into chunks.
    SplittingAudio,
    /// A short input is being transcribed in one request.
    Transcribing,
    /// The transcript of a short input is being synthesized.
    SynthesizingTranscript,
    /// The text of a text job is being synthesized.
    SynthesizingText,
    /// The synthesized chunks are being merged.
    MergingChunks,
    /// The output is being normalized.
    NormalizingAudio,
    /// The output is being written to the cache.
    WritingArtifact,
}

/// The stage name and progress percent of `step`.
pub open spec fn step_stage(step: OfflineStep) -> (Seq<char>, u8) {
    match step {
        OfflineStep::SplittingAudio => ("splittingAudio"@, 10),
        OfflineStep::Transcribing => ("transcribing"@, 20),
        OfflineStep::SynthesizingTranscript => ("synthesizing"@, 60),
        OfflineStep::SynthesizingText => ("synthesizing"@, 45),
        OfflineStep::MergingChunks => ("mergingChunks"@, 88),
        OfflineStep::NormalizingAudio => ("normalizingAudio"@, 89),
        OfflineStep::WritingArtifact => ("writingArtifact"@, 90),
    }
}

/// See `step_stage`.
pub fn offline_step(step: OfflineStep) -> (r: (&'static str, u8))
    ensures
        (r.0@, r.1) == step_stage(step),
{
    match step {
        OfflineStep::SplittingAudio => ("splittingAudio", 10),
        OfflineStep::Transcribing => ("transcribing", 20),
        OfflineStep::SynthesizingTranscript => ("synthesizing", 60),
        OfflineStep::SynthesizingText => ("synthesizing", 45),
        OfflineStep::MergingChunks => ("mergingChunks", 88),
        OfflineStep::NormalizingAudio => ("normalizingAudio", 89),
        OfflineStep::WritingArtifact => ("writingArtifact", 90),
    }
}

/// What is done to one chunk of a long input.
#[derive(Debug, Clone, Copy, PartialEq, Eq, Structural)]
pub enum ChunkPhase {
    Transcribing,
    Synthesizing,
}

pub open spec fn chunk_phase_kind(phase: ChunkPhase) -> (Seq<char>, int) {
    match phase {
        ChunkPhase::Transcribing => ("transcribingChunk"@, 0),
        ChunkPhase::Synthesizing => ("synthesizingChunk"@, 1),
    }
}

/// For a chunk that exists the scaled step stays below 74.
proof fn lemma_chunk_scaled_small(index: int, total: int, phase: int)
    requires
        0 <= index < total <= usize::MAX,
        0 <= phase <= 1,
    ensures
        0 <= chunk_scaled(index, total, phase) < 74,
{
    let m = usize::MAX as int;
    let total_steps = if sat_mul(total, 2) >= 1 { sat_mul(total, 2) } else { 1 };
    let step = sat_add_usize(sat_mul(index, 2), phase);
    let scaled = sat_mul(step, 74);
    assert(total * 2 >= 2) by (nonlinear_arith)
        requires
            total >= 1,
    ;
    assert(index * 2 >= 0) by (nonlinear_arith)
        requires
            index >= 0,
    ;
    assert(step >= 0 && step * 74 >= 0) by (nonlinear_arith)
        requires
            step == sat_add_usize(sat_mul(index, 2), phase),
            index * 2 >= 0,
            phase >= 0,
            sat_mul(index, 2) >= 0,
    ;
    assert(0 <= scaled <= m);
    assert(total_steps >= 1);
    if total * 2 <= m {
        assert(total_steps == total * 2);
        assert(step <= 2 * index + 1);
        assert(step < total_steps);
        if step * 74 <= m {
            assert(scaled / total_steps < 74) by (nonlinear_arith)
                requires
                    scaled == step * 74,
                    0 <= step < total_steps,
            ;
        } else {
            assert(scaled / total_steps < 74) by (nonlinear_arith)
                requires
                    scaled == m,
                    step * 74 > m,
                    0 <= step < total_steps,
            ;
        }
    } else {
        assert(total_steps == m);
        assert(scaled / total_steps <= 1) by (nonlinear_arith)
            requires
                0 <= scaled <= total_steps,
                total_steps >= 1,
        ;
    }
    assert(scaled / total_steps >= 0) by (nonlinear_arith)
        requires
            scaled >= 0,
            total_steps >= 1,
    ;
}

/// The stage name and progress of `phase` on chunk `index` (counted from
/// 0) of `total` (see `chunk_stage` and `chunk_progress`).
pub fn chunk_step(phase: ChunkPhase, index: usize, total: usize) -> (r: (String, u8))
    requires
        index < total,
    ensures
        r.0@ == chunk_phase_kind(phase).0 + ":"@ + decimal_seq((index + 1) as nat) + "/"@ + decimal_seq(
            total as nat,
        ),
        r.1 == chunk_progress_spec(index as int, total as int, chunk_phase_kind(phase).1),
        12 <= r.1 <= 85,
{
    let (kind, n): (&str, usize) = match phase {
        ChunkPhase::Transcribing => ("transcribingChunk", 0),
        ChunkPhase::Synthesizing => ("synthesizingChunk", 1),
    };
    proof {
        lemma_chunk_scaled_small(index as int, total as int, n as int);
    }
    (chunk_stage(kind, index, total), chunk_progress(index, total, n))
}

/// Inputs this long or shorter are transcribed in one request.
pub const SHORT_AUDIO_SECONDS: u32 = 10;

/// Whether `frames` frames at `sample_rate` last at most `SHORT_AUDIO_SECONDS`;
/// a zero sample rate is an error.
pub fn is_short_audio(frames: u32, sample_rate: u32) -> (r: Result<bool, AppError>)
    ensures
        match r {
            Ok(short) => sample_rate > 0 && short == (frames <= SHORT_AUDIO_SECONDS as int * sample_rate),
            Err(e) => sample_rate == 0 && job_error(e, "wav input sample rate must be greater than 0"@),
        },
{
    if sample_rate == 0 {
        return Err(AppError::offline_job(String::from_str("wav input sample rate must be greater than 0")));
    }
    Ok(frames as u64 <= SHORT_AUDIO_SECONDS as u64 * sample_rate as u64)
}

/// Wav output is loudness-normalized before it is written.
pub fn needs_normalization(output_format: &str) -> (r: bool)
    ensures
        r == (ascii_lower_seq(output_format@) == "wav"@),
{
    crate::text::same_text(ascii_lowercase(output_format).as_str(), "wav")
}

/// What `std::path::Path::extension` gives for a path, as text.
pub uninterp spec fn path_extension(path: Seq<char>) -> Option<Seq<char>>;

/// What `std::path::Path::file_name` gives for a path, as text.
pub uninterp spec fn path_file_name(path: Seq<char>) -> Option<Seq<char>>;

/// `std::path::Path::new(path).extension()` as text; the contract only names
/// the result (it is a function of the path alone).
#[verifier::external_body]
pub(crate) fn extension_of(path: &str) -> (r: Option<String>)
    ensures
        match r {
            Some(e) => path_extension(path@) == Some(e@),
            None => path_extension(path@) is None,
        },
{
    std::path::Path::new(path).extension().and_then(|e| e.to_str()).map(|e| e.to_string())
}

/// `std::path::Path::new(path).file_name()` as text; the contract only names
/// the result (it is a function of the path alone).
#[verifier::external_body]
pub(crate) fn file_name_of(path: &str) -> (r: Option<String>)
    ensures
        match r {
            Some(n) => path_file_name(path@) == Some(n@),
            None => path_file_name(path@) is None,
        },
{
    std::path::Path::new(path).file_name().and_then(|n| n.to_str()).map(|n| n.to_string())
}

/// The format an input path names: its extension, or else the whole value,
/// in lower case.
pub open spec fn input_format(value: Seq<char>) -> Seq<char> {
    ascii_lower_seq(
        match path_extension(value) {
            Some(e) => e,
            None => value,
        },
    )
}

/// Audio inputs must be wav files.
pub fn validate_input_format(value: &str) -> (r: Result<(), AppError>)
    ensures
        match r {
            Ok(()) => input_format(value@) == "wav"@,
            Err(e) => input_format(value@) != "wav"@ && job_error(e, "audio input must be wav"@),
        },
{
    match extension_of(value) {
        Some(e) => check_wav_format(e.as_str()),
        None => check_wav_format(value),
    }
}

/// An audio input's format (its extension, or the whole value when it has
/// none) must be `wav` in any case.
pub fn check_wav_format(format: &str) -> (r: Result<(), AppError>)
    ensures
        match r {
            Ok(()) => ascii_lower_seq(format@) == "wav"@,
            Err(e) => ascii_lower_seq(format@) != "wav"@ && job_error(e, "audio input must be wav"@),
        },
{
    let lower = ascii_lowercase(format);
    if crate::text::same_text(lower.as_str(), "wav") {
        Ok(())
    } else {
        Err(AppError::offline_job(String::from_str("audio input must be wav")))
    }
}

/// Checks an uploaded audio input before it is stored: it must not be empty,
/// and its file name (`input.wav` when none is given; required, trimmed) must
/// name a wav file. Gives the file name.
pub fn check_audio_upload(file_name: Option<String>, input_len: usize) -> (r: Result<String, AppError>)
    ensures
        ({
            let name = trim_seq(
                match file_name {
                    Some(n) => n@,
                    None => "input.wav"@,
                },
            );
            match r {
                Ok(n) => input_len > 0 && name.len() > 0 && input_format(name) == "wav"@ && n@ == name,
                Err(e) => if input_len == 0 {
                    job_error(e, "inputBytes is required for audio jobs"@)
                } else if name.len() == 0 {
                    job_error(e, "fileName"@ + " is required"@)
                } else {
                    input_format(name) != "wav"@ && job_error(e, "audio input must be wav"@)
                },
            }
        }),
{
    if input_len == 0 {
        return Err(AppError::offline_job(String::from_str("inputBytes is required for audio jobs")));
    }
    let raw = match file_name {
        Some(n) => n,
        None => String::from_str("input.wav"),
    };
    let name = match require_non_empty("fileName", raw) {
        Ok(n) => n,
        Err(e) => return Err(e),
    };
    match validate_input_format(name.as_str()) {
        Ok(()) => Ok(name),
        Err(e) => Err(e),
    }
}

/// Checks a referenced audio input: the reference is required (trimmed) and
/// must name a wav file. Gives it with its file name.
pub fn check_audio_reference(input_ref: Option<String>) -> (r: Result<(String, Option<String>), AppError>)
    ensures
        ({
            let v = trim_seq(
                match input_ref {
                    Some(x) => x@,
                    None => Seq::empty(),
                },
            );
            match r {
                Ok((p, n)) => v.len() > 0 && input_format(v) == "wav"@ && p@ == v && opt_str(n) == path_file_name(v),
                Err(e) => if v.len() == 0 {
                    job_error(e, "inputRef"@ + " is required"@)
                } else {
                    input_format(v) != "wav"@ && job_error(e, "audio input must be wav"@)
                },
            }
        }),
{
    let raw = match input_ref {
        Some(x) => x,
        None => String::new(),
    };
    let path = match require_non_empty("inputRef", raw) {
        Ok(p) => p,
        Err(e) => return Err(e),
    };
    match validate_input_format(path.as_str()) {
        Ok(()) => {},
        Err(e) => return Err(e),
    }
    let name = file_name_of(path.as_str());
    Ok((path, name))
}


/// Seconds of input audio per transcription chunk.
pub const OFFLINE_AUDIO_CHUNK_SECONDS: usize = 60;

/// A channel count as WAV handling reads it: at least one.
pub open spec fn at_least_one(c: u16) -> u16 {
    if c == 0 {
        1
    } else {
        c
    }
}

/// Interleaved samples per chunk of `chunk_seconds` (at least one second):
/// saturating, and never fewer than one frame.
pub open spec fn chunk_len_spec(sample_rate: usize, chunk_seconds: usize, channels: usize) -> int {
    let secs = if chunk_seconds == 0 {
        1
    } else {
        chunk_seconds as int
    };
    let n = sat_mul(sat_mul(sample_rate as int, secs), channels as int);
    if n < channels {
        channels as int
    } else {
        n
    }
}

/// See `chunk_len_spec`; a zero sample rate is an error.
pub fn chunk_len(sample_rate: usize, chunk_seconds: usize, channels: usize) -> (r: Result<usize, AppError>)
    ensures
        match r {
            Ok(n) => sample_rate > 0 && n == chunk_len_spec(sample_rate, chunk_seconds, channels),
            Err(e) => sample_rate == 0 && job_error(e, "wav input sample rate must be greater than 0"@),
        },
{
    if sample_rate == 0 {
        return Err(AppError::offline_job(String::from_str("wav input sample rate must be greater than 0")));
    }
    let secs = if chunk_seconds == 0 {
        1
    } else {
        chunk_seconds
    };
    let n = saturating_mul_usize(saturating_mul_usize(sample_rate, secs), channels);
    Ok(if n < channels {
        channels
    } else {
        n
    })
}

/// Why generated chunks cannot be merged, if they cannot: every chunk must
/// have the channel count and sample rate of the first.
pub open spec fn layout_error(ls: Seq<(u16, u32)>) -> Option<Seq<char>>
    decreases ls.len(),
{
    if ls.len() <= 1 {
        None
    } else {
        match layout_error(ls.drop_last()) {
            Some(m) => Some(m),
            None => if at_least_one(ls.last().0) != at_least_one(ls[0].0) {
                Some("generated wav chunks have different channel counts"@)
            } else if ls.last().1 != ls[0].1 {
                Some("generated wav chunks have different sample rates"@)
            } else {
                None
            },
        }
    }
}

/// The channel count and sample rate of the merged audio, from the
/// (channels, sample rate) of each generated chunk in order.
pub fn merged_layout(layouts: &Vec<(u16, u32)>) -> (r: Result<(u16, u32), AppError>)
    ensures
        match r {
            Ok((c, rate)) => layouts@.len() > 0 && layout_error(layouts@) is None && c == at_least_one(layouts@[0].0)
                && rate == layouts@[0].1,
            Err(e) => if layouts@.len() == 0 {
                job_error(e, "no wav chunks to merge"@)
            } else {
                layout_error(layouts@) matches Some(m) && job_error(e, m)
            },
        },
{
    if layouts.len() == 0 {
        return Err(AppError::offline_job(String::from_str("no wav chunks to merge")));
    }
    let channels = if layouts[0].0 == 0 {
        1
    } else {
        layouts[0].0
    };
    let rate = layouts[0].1;
    let mut i: usize = 1;
    assert(layouts@.take(1).len() == 1);
    while i < layouts.len()
        invariant
            1 <= i <= layouts.len(),
            channels == at_least_one(layouts@[0].0),
            rate == layouts@[0].1,
            layout_error(layouts@.take(i as int)) is None,
        decreases layouts.len() - i,
    {
        let ghost t = layouts@.take(i as int + 1);
        assert(t.drop_last() =~= layouts@.take(i as int));
        assert(t[0] == layouts@[0]);
        let c = if layouts[i].0 == 0 {
            1
        } else {
            layouts[i].0
        };
        if c != channels {
            proof {
                lemma_layout_error_prefix(layouts@, i as int + 1);
            }
            return Err(AppError::offline_job(String::from_str("generated wav chunks have different channel counts")));
        }
        if layouts[i].1 != rate {
            proof {
                lemma_layout_error_prefix(layouts@, i as int + 1);
            }
            return Err(AppError::offline_job(String::from_str("generated wav chunks have different sample rates")));
        }
        i += 1;
    }
    assert(layouts@.take(layouts.len() as int) =~= layouts@);
    Ok((channels, rate))
}

/// An error in a prefix is the error of the whole.
proof fn lemma_layout_error_prefix(ls: Seq<(u16, u32)>, k: int)
    requires
        1 <= k <= ls.len(),
        layout_error(ls.take(k)) is Some,
    ensures
        layout_error(ls) == layout_error(ls.take(k)),
    decreases ls.len() - k,
{
    if k < ls.len() {
        let t = ls.take(k + 1);
        assert(t.drop_last() =~= ls.take(k));
        assert(layout_error(t) == layout_error(ls.take(k)));
        lemma_layout_error_prefix(ls, k + 1);
    } else {
        assert(ls.take(k) =~= ls);
    }
}

} // verus!
