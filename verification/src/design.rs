use vstd::prelude::*;

use crate::domain::SyncStatus;
use crate::endpoints::{rest_url_spec, LocalLlmEndpoint, OfflineEndpoints, VoiceDesignEndpoint};
use crate::error::AppError;
use crate::library::{CustomVoiceProfile, CustomVoiceProfileView};
use crate::naming::{artifact_file, segment_seq, AssetCache};
use crate::offline::{job_error, require_non_empty};
use crate::order::{lemma_text_less_irreflexive, lemma_text_less_total, lemma_text_less_transitive, text_less, text_lt};
use crate::sessions::{is_key_place, keys_sorted, lemma_insert_keeps_sorted, lemma_sorted_keys_distinct};
use crate::settings::{clone_opt_string, opt_str, settings_error, AppSettings};
use crate::storage::path_join;
use crate::text::{concat2, is_blank, is_blank_str, trim_seq, trim_start_char, trimmed};

verus! {

/// What a voice design starts from.
#[derive(Debug, Clone, Copy, PartialEq, Eq, Structural)]
pub enum VoiceDesignInputType {
    Text,
    Audio,
}

/// Lifecycle of a voice design draft.
#[derive(Debug, Clone, Copy, PartialEq, Eq, Structural)]
pub enum VoiceDesignStatus {
    Draft,
    AsrRunning,
    AsrCompleted,
    LlmRunning,
    InstructionReady,
    VoiceDesignRunning,
    PreviewReady,
    Saving,
    Saved,
    Failed,
}

/// The step of a voice design that failed.
#[derive(Debug, Clone, Copy, PartialEq, Eq, Structural)]
pub enum VoiceDesignFailureStage {
    Input,
    Asr,
    Llm,
    VoiceDesign,
    Save,
}

/// A custom voice being designed: from a text prompt or a recording, through
/// transcription, an LLM-written voice instruction and a generated preview,
/// to a saved custom voice. Times are in milliseconds.
#[derive(Debug, Clone, PartialEq, Eq)]
pub struct VoiceDesignDraft {
    pub draft_id: String,
    pub trace_id: String,
    pub input_type: VoiceDesignInputType,
    pub source_prompt_text: Option<String>,
    pub source_audio_path: Option<String>,
    pub asr_text: Option<String>,
    pub voice_instruction: Option<String>,
    pub reference_text: Option<String>,
    pub reference_audio_path: Option<String>,
    pub voice_name: Option<String>,
    pub status: VoiceDesignStatus,
    pub failure_stage: Option<VoiceDesignFailureStage>,
    pub error_summary: Option<String>,
    pub asr_endpoint: Option<String>,
    pub llm_endpoint: String,
    pub voice_design_endpoint: String,
    pub created_at: i64,
    pub updated_at: i64,
}

pub struct VoiceDesignDraftView {
    pub draft_id: Seq<char>,
    pub trace_id: Seq<char>,
    pub input_type: VoiceDesignInputType,
    pub source_prompt_text: Option<Seq<char>>,
    pub source_audio_path: Option<Seq<char>>,
    pub asr_text: Option<Seq<char>>,
    pub voice_instruction: Option<Seq<char>>,
    pub reference_text: Option<Seq<char>>,
    pub reference_audio_path: Option<Seq<char>>,
    pub voice_name: Option<Seq<char>>,
    pub status: VoiceDesignStatus,
    pub failure_stage: Option<VoiceDesignFailureStage>,
    pub error_summary: Option<Seq<char>>,
    pub asr_endpoint: Option<Seq<char>>,
    pub llm_endpoint: Seq<char>,
    pub voice_design_endpoint: Seq<char>,
    pub created_at: i64,
    pub updated_at: i64,
}

impl View for VoiceDesignDraft {
    type V = VoiceDesignDraftView;

    open spec fn view(&self) -> VoiceDesignDraftView {
        VoiceDesignDraftView {
            draft_id: self.draft_id@,
            trace_id: self.trace_id@,
            input_type: self.input_type,
            source_prompt_text: opt_str(self.source_prompt_text),
            source_audio_path: opt_str(self.source_audio_path),
            asr_text: opt_str(self.asr_text),
            voice_instruction: opt_str(self.voice_instruction),
            reference_text: opt_str(self.reference_text),
            reference_audio_path: opt_str(self.reference_audio_path),
            voice_name: opt_str(self.voice_name),
            status: self.status,
            failure_stage: self.failure_stage,
            error_summary: opt_str(self.error_summary),
            asr_endpoint: opt_str(self.asr_endpoint),
            llm_endpoint: self.llm_endpoint@,
            voice_design_endpoint: self.voice_design_endpoint@,
            created_at: self.created_at,
            updated_at: self.updated_at,
        }
    }
}

impl VoiceDesignDraft {
    /// A copy of this draft.
    pub fn duplicate(&self) -> (r: VoiceDesignDraft)
        ensures
            r@ == self@,
    {
        VoiceDesignDraft {
            draft_id: self.draft_id.clone(),
            trace_id: self.trace_id.clone(),
            input_type: self.input_type,
            source_prompt_text: clone_opt_string(&self.source_prompt_text),
            source_audio_path: clone_opt_string(&self.source_audio_path),
            asr_text: clone_opt_string(&self.asr_text),
            voice_instruction: clone_opt_string(&self.voice_instruction),
            reference_text: clone_opt_string(&self.reference_text),
            reference_audio_path: clone_opt_string(&self.reference_audio_path),
            voice_name: clone_opt_string(&self.voice_name),
            status: self.status,
            failure_stage: self.failure_stage,
            error_summary: clone_opt_string(&self.error_summary),
            asr_endpoint: clone_opt_string(&self.asr_endpoint),
            llm_endpoint: self.llm_endpoint.clone(),
            voice_design_endpoint: self.voice_design_endpoint.clone(),
            created_at: self.created_at,
            updated_at: self.updated_at,
        }
    }
}

/// A request to start a voice design.
#[derive(Debug, Clone, PartialEq, Eq)]
pub struct CreateVoiceDesignDraftRequest {
    pub input_type: VoiceDesignInputType,
    pub source_prompt_text: Option<String>,
    pub source_audio_path: Option<String>,
}

/// The transcript of a draft's recording.
#[derive(Debug, Clone, PartialEq, Eq)]
pub struct CompleteVoiceDesignAsrRequest {
    pub asr_text: String,
}

/// The voice instruction and reference text the LLM wrote.
#[derive(Debug, Clone, PartialEq, Eq)]
pub struct CompleteVoiceInstructionRequest {
    pub voice_instruction: String,
    pub reference_text: String,
}

/// A generated preview: an existing file to bring into the cache, if any,
/// and its format (`wav` when not given).
#[derive(Debug, Clone, PartialEq, Eq)]
pub struct CompleteVoiceDesignPreviewRequest {
    pub reference_audio_path: Option<String>,
    pub output_format: Option<String>,
}

/// The name to save a draft under.
#[derive(Debug, Clone, PartialEq, Eq)]
pub struct SaveVoiceDesignDraftRequest {
    pub voice_name: String,
}

/// A failed step and why.
#[derive(Debug, Clone, PartialEq, Eq)]
pub struct FailVoiceDesignDraftRequest {
    pub stage: VoiceDesignFailureStage,
    pub message: String,
}

/// `d` in status `s` at `now`.
pub open spec fn moved(d: VoiceDesignDraftView, s: VoiceDesignStatus, now: i64) -> VoiceDesignDraftView {
    VoiceDesignDraftView { status: s, updated_at: now, ..d }
}

/// `d` with its last failure cleared, in status `s` at `now`.
pub open spec fn retried(d: VoiceDesignDraftView, s: VoiceDesignStatus, now: i64) -> VoiceDesignDraftView {
    moved(VoiceDesignDraftView { failure_stage: None, error_summary: None, ..d }, s, now)
}

pub open spec fn opt_trim(o: Option<Seq<char>>) -> Option<Seq<char>> {
    match o {
        Some(s) => Some(trim_seq(s)),
        None => None,
    }
}

pub open spec fn or_empty(o: Option<Seq<char>>) -> Seq<char> {
    match o {
        Some(s) => s,
        None => Seq::empty(),
    }
}

/// Why a draft request is refused, if it is: the prompt text a text design
/// needs, or the recording an audio design needs.
pub open spec fn input_error(r: CreateVoiceDesignDraftRequest) -> Option<Seq<char>> {
    match r.input_type {
        VoiceDesignInputType::Text => if trim_seq(or_empty(opt_str(r.source_prompt_text))).len() == 0 {
            Some("sourcePromptText is required"@)
        } else {
            None
        },
        VoiceDesignInputType::Audio => if trim_seq(or_empty(opt_str(r.source_audio_path))).len() == 0 {
            Some("sourceAudioPath is required"@)
        } else {
            None
        },
    }
}

/// A new draft for an accepted request.
pub open spec fn new_draft_view(
    draft_id: Seq<char>,
    trace_id: Seq<char>,
    r: CreateVoiceDesignDraftRequest,
    settings: crate::settings::AppSettingsView,
    now: i64,
) -> VoiceDesignDraftView {
    VoiceDesignDraftView {
        draft_id,
        trace_id,
        input_type: r.input_type,
        source_prompt_text: opt_trim(opt_str(r.source_prompt_text)),
        source_audio_path: opt_trim(opt_str(r.source_audio_path)),
        asr_text: None,
        voice_instruction: None,
        reference_text: None,
        reference_audio_path: None,
        voice_name: None,
        status: VoiceDesignStatus::Draft,
        failure_stage: None,
        error_summary: None,
        asr_endpoint: Some(rest_url_spec(settings.backend.asr.base_url, "/stream/v1/asr"@)),
        llm_endpoint: rest_url_spec(settings.backend.llm.base_url, "/api/generate"@),
        voice_design_endpoint: rest_url_spec(settings.backend.tts.base_url, "/voices/v1/voice-design"@),
        created_at: now,
        updated_at: now,
    }
}

fn trim_opt(o: &Option<String>) -> (r: Option<String>)
    ensures
        opt_str(r) == opt_trim(opt_str(*o)),
{
    match o {
        Some(s) => Some(trimmed(s.as_str())),
        None => None,
    }
}

fn blank_or_missing(o: &Option<String>) -> (r: bool)
    ensures
        r == (opt_str(*o) is None || is_blank(opt_str(*o)->0)),
{
    match o {
        Some(s) => is_blank_str(s.as_str()),
        None => true,
    }
}

pub open spec fn drafts_view(v: Seq<VoiceDesignDraft>) -> Seq<VoiceDesignDraftView> {
    v.map_values(|d: VoiceDesignDraft| d@)
}

pub open spec fn draft_keys(ds: Seq<VoiceDesignDraftView>) -> Seq<Seq<char>> {
    ds.map_values(|d: VoiceDesignDraftView| d.draft_id)
}

/// Some draft has id `id`.
pub open spec fn has_draft(ds: Seq<VoiceDesignDraftView>, id: Seq<char>) -> bool {
    draft_keys(ds).contains(id)
}

/// Where the draft with id `id` is.
pub open spec fn draft_index(ds: Seq<VoiceDesignDraftView>, id: Seq<char>) -> int {
    choose|i: int| 0 <= i < ds.len() && #[trigger] ds[i].draft_id == id
}

pub open spec fn draft_place(ds: Seq<VoiceDesignDraftView>, id: Seq<char>) -> int {
    choose|p: int| is_key_place(draft_keys(ds), id, p)
}

/// `ds` with `d` in place of any draft with its id, else in order of ids.
pub open spec fn with_draft(ds: Seq<VoiceDesignDraftView>, d: VoiceDesignDraftView) -> Seq<VoiceDesignDraftView> {
    if has_draft(ds, d.draft_id) {
        ds.update(draft_index(ds, d.draft_id), d)
    } else {
        ds.insert(draft_place(ds, d.draft_id), d)
    }
}

pub open spec fn not_found_message(id: Seq<char>) -> Seq<char> {
    "voice design draft not found: "@ + id
}

/// The draft at id `id` in `old_ds`.
pub open spec fn draft_at(ds: Seq<VoiceDesignDraftView>, id: Seq<char>) -> VoiceDesignDraftView {
    ds[draft_index(ds, id)]
}

/// The outcome of changing draft `id` into `f` (when `ok` allows it, else
/// refusing with `refusal`).
pub open spec fn draft_changed(
    old_ds: Seq<VoiceDesignDraftView>,
    new_ds: Seq<VoiceDesignDraftView>,
    id: Seq<char>,
    r: Result<VoiceDesignDraft, AppError>,
    ok: bool,
    refusal: Seq<char>,
    f: VoiceDesignDraftView,
) -> bool {
    match r {
        Ok(d) => has_draft(old_ds, id) && ok && d@ == f && new_ds == old_ds.update(draft_index(old_ds, id), f),
        Err(e) => new_ds == old_ds && if has_draft(old_ds, id) {
            !ok && job_error(e, refusal)
        } else {
            job_error(e, not_found_message(id))
        },
    }
}

/// Drafts, at most one per id, kept in order of their ids.
#[derive(Debug)]
pub struct VoiceDesignManager {
    drafts: Vec<VoiceDesignDraft>,
}

impl View for VoiceDesignManager {
    type V = Seq<VoiceDesignDraftView>;

    closed spec fn view(&self) -> Seq<VoiceDesignDraftView> {
        drafts_view(self.drafts@)
    }
}

/// Draft ids strictly increase.
pub open spec fn well_kept(ds: Seq<VoiceDesignDraftView>) -> bool {
    keys_sorted(draft_keys(ds))
}

proof fn lemma_key_place_unique(ks: Seq<Seq<char>>, k: Seq<char>, p: int, q: int)
    requires
        is_key_place(ks, k, p),
        is_key_place(ks, k, q),
    ensures
        p == q,
{
    lemma_text_less_irreflexive(k);
    if p < q {
        assert(text_less(ks[p], k));
        assert(text_less(k, ks[p]));
        lemma_text_less_total(ks[p], k);
    } else if q < p {
        assert(text_less(ks[q], k));
        assert(text_less(k, ks[q]));
        lemma_text_less_total(ks[q], k);
    }
}

impl VoiceDesignManager {
    /// Drafts are kept in increasing id order, each id once.
    #[verifier::type_invariant]
    spec fn ids_in_order(&self) -> bool {
        well_kept(drafts_view(self.drafts@))
    }

    /// No drafts.
    pub fn new() -> (m: VoiceDesignManager)
        ensures
            m@.len() == 0,
            well_kept(m@),
    {
        let drafts: Vec<VoiceDesignDraft> = Vec::new();
        assert(drafts_view(drafts@) =~= Seq::<VoiceDesignDraftView>::empty());
        assert(draft_keys(drafts_view(drafts@)) =~= Seq::<Seq<char>>::empty());
        VoiceDesignManager { drafts }
    }

    fn locate(&self, id: &str) -> (r: (usize, bool))
        requires
            well_kept(self@),
        ensures
            ({
                let ks = draft_keys(self@);
                if r.1 {
                    r.0 < ks.len() && ks[r.0 as int] == id@ && has_draft(self@, id@) && draft_index(self@, id@) == r.0
                } else {
                    is_key_place(ks, id@, r.0 as int) && !has_draft(self@, id@)
                }
            }),
    {
        let ghost ks = draft_keys(self@);
        let mut i: usize = 0;
        while i < self.drafts.len() && text_lt(self.drafts[i].draft_id.as_str(), id)
            invariant
                i <= self.drafts.len(),
                ks == draft_keys(self@),
                keys_sorted(ks),
                forall|j: int| 0 <= j < i ==> text_less(#[trigger] ks[j], id@),
            decreases self.drafts.len() - i,
        {
            assert(ks[i as int] == self.drafts@[i as int]@.draft_id);
            i += 1;
        }
        if i < self.drafts.len() && crate::text::same_text(self.drafts[i].draft_id.as_str(), id) {
            assert(ks[i as int] == self.drafts@[i as int]@.draft_id);
            proof {
                assert(self@[i as int].draft_id == id@);
                assert(ks.contains(id@));
                let k = draft_index(self@, id@);
                assert(0 <= k < self@.len() && self@[k].draft_id == id@);
                if k != i as int {
                    assert(ks[k] == id@);
                    lemma_sorted_keys_distinct(ks, k, i as int);
                }
            }
            return (i, true);
        }
        proof {
            if i < self.drafts.len() {
                assert(ks[i as int] == self.drafts@[i as int]@.draft_id);
                lemma_text_less_total(ks[i as int], id@);
                assert forall|j: int| i <= j < ks.len() implies text_less(id@, #[trigger] ks[j]) by {
                    if j > i {
                        lemma_text_less_transitive(id@, ks[i as int], ks[j]);
                    }
                }
            }
            assert(!ks.contains(id@)) by {
                if ks.contains(id@) {
                    let j = choose|j: int| 0 <= j < ks.len() && ks[j] == id@;
                    lemma_text_less_irreflexive(id@);
                    if j < i {
                        assert(text_less(ks[j], id@));
                    } else {
                        assert(text_less(id@, ks[j]));
                    }
                }
            }
        }
        (i, false)
    }

    fn not_found(id: &str) -> (e: AppError)
        ensures
            job_error(e, not_found_message(id@)),
    {
        AppError::offline_job(concat2("voice design draft not found: ", id))
    }

    fn fetch(&self, draft_id: &str) -> (r: Result<(usize, VoiceDesignDraft), AppError>)
        requires
            well_kept(self@),
        ensures
            match r {
                Ok((i, d)) => has_draft(self@, draft_id@) && i == draft_index(self@, draft_id@) && i < self@.len() && d@
                    == self@[i as int] && d@.draft_id == draft_id@,
                Err(e) => !has_draft(self@, draft_id@) && job_error(e, not_found_message(draft_id@)),
            },
    {
        let (i, found) = self.locate(draft_id);
        if found {
            assert(self@[i as int] == self.drafts@[i as int]@);
            Ok((i, self.drafts[i].duplicate()))
        } else {
            Err(Self::not_found(draft_id))
        }
    }

    fn store(&mut self, i: usize, d: VoiceDesignDraft) -> (r: VoiceDesignDraft)
        requires
            well_kept(old(self)@),
            i < old(self)@.len(),
            d@.draft_id == old(self)@[i as int].draft_id,
        ensures
            final(self)@ == old(self)@.update(i as int, d@),
            well_kept(final(self)@),
            r@ == d@,
    {
        let out = d.duplicate();
        let ghost before = self@;
        let ghost dv = d@;
        let mut drafts: Vec<VoiceDesignDraft> = Vec::new();
        std::mem::swap(&mut drafts, &mut self.drafts);
        drafts.set(i, d);
        assert(drafts_view(drafts@) =~= before.update(i as int, dv));
        assert(draft_keys(drafts_view(drafts@)) =~= draft_keys(before));
        self.drafts = drafts;
        out
    }

    fn insert_draft(&mut self, d: VoiceDesignDraft)
        requires
            well_kept(old(self)@),
        ensures
            well_kept(final(self)@),
            final(self)@ == with_draft(old(self)@, d@),
    {
        let ghost before = self@;
        let ghost dv = d@;
        let (p, found) = self.locate(d.draft_id.as_str());
        if found {
            self.store(p, d);
        } else {
            proof {
                lemma_key_place_unique(draft_keys(before), dv.draft_id, p as int, draft_place(before, dv.draft_id));
            }
            let mut drafts: Vec<VoiceDesignDraft> = Vec::new();
            std::mem::swap(&mut drafts, &mut self.drafts);
            drafts.insert(p, d);
            assert(drafts_view(drafts@) =~= before.insert(p as int, dv));
            assert(draft_keys(drafts_view(drafts@)) =~= draft_keys(before).insert(p as int, dv.draft_id));
            proof {
                lemma_insert_keeps_sorted(draft_keys(before), dv.draft_id, p as int);
            }
            self.drafts = drafts;
        }
    }

    /// Opens a draft once the settings are valid and the request has its
    /// input (prompt text or recording, trimmed); the draft records the ASR,
    /// LLM and voice-design endpoints it will use.
    pub fn create_draft(
        &mut self,
        draft_id: String,
        trace_id: String,
        request: CreateVoiceDesignDraftRequest,
        settings: &AppSettings,
        now: i64,
    ) -> (r: Result<VoiceDesignDraft, AppError>)
        ensures
            match r {
                Ok(d) => settings_error(settings@) is None && input_error(request) is None && d@ == new_draft_view(
                    draft_id@,
                    trace_id@,
                    request,
                    settings@,
                    now,
                ) && final(self)@ == with_draft(old(self)@, d@),
                Err(e) => final(self)@ == old(self)@ && match settings_error(settings@) {
                    Some(m) => e matches AppError::InvalidSettings { message } && message@ == m,
                    None => input_error(request) matches Some(m) && job_error(e, m),
                },
            },
    {
        proof {
            use_type_invariant(&*self);
        }
        match settings.validate() {
            Ok(()) => {},
            Err(m) => return Err(AppError::invalid_settings(m)),
        }
        match request.input_type {
            VoiceDesignInputType::Text => {
                let v = match &request.source_prompt_text {
                    Some(s) => s.clone(),
                    None => String::new(),
                };
                match require_non_empty("sourcePromptText", v) {
                    Ok(_) => {},
                    Err(e) => {
                        proof {
                            reveal_strlit("sourcePromptText");
                            reveal_strlit(" is required");
                            reveal_strlit("sourcePromptText is required");
                            assert("sourcePromptText"@ + " is required"@ =~= "sourcePromptText is required"@);
                        }
                        return Err(e);
                    },
                }
            },
            VoiceDesignInputType::Audio => {
                let v = match &request.source_audio_path {
                    Some(s) => s.clone(),
                    None => String::new(),
                };
                match require_non_empty("sourceAudioPath", v) {
                    Ok(_) => {},
                    Err(e) => {
                        proof {
                            reveal_strlit("sourceAudioPath");
                            reveal_strlit(" is required");
                            reveal_strlit("sourceAudioPath is required");
                            assert("sourceAudioPath"@ + " is required"@ =~= "sourceAudioPath is required"@);
                        }
                        return Err(e);
                    },
                }
            },
        }
        let offline = OfflineEndpoints::from_backend_configs(&settings.backend.asr, &settings.backend.tts);
        let llm = LocalLlmEndpoint::from_backend_config(&settings.backend.llm);
        let design = VoiceDesignEndpoint::from_backend_config(&settings.backend.tts);
        let draft = VoiceDesignDraft {
            draft_id,
            trace_id,
            input_type: request.input_type,
            source_prompt_text: trim_opt(&request.source_prompt_text),
            source_audio_path: trim_opt(&request.source_audio_path),
            asr_text: None,
            voice_instruction: None,
            reference_text: None,
            reference_audio_path: None,
            voice_name: None,
            status: VoiceDesignStatus::Draft,
            failure_stage: None,
            error_summary: None,
            asr_endpoint: Some(offline.asr_url),
            llm_endpoint: llm.generate_url,
            voice_design_endpoint: design.voice_design_url,
            created_at: now,
            updated_at: now,
        };
        let out = draft.duplicate();
        self.insert_draft(draft);
        Ok(out)
    }

    /// Starts transcribing the recording of an audio draft.
    pub fn start_asr(&mut self, draft_id: &str, now: i64) -> (r: Result<VoiceDesignDraft, AppError>)
        ensures
            draft_changed(
                old(self)@,
                final(self)@,
                draft_id@,
                r,
                draft_at(old(self)@, draft_id@).input_type == VoiceDesignInputType::Audio,
                "ASR can only start for audio voice design drafts"@,
                retried(draft_at(old(self)@, draft_id@), VoiceDesignStatus::AsrRunning, now),
            ),
    {
        proof {
            use_type_invariant(&*self);
        }
        let (i, mut d) = match self.fetch(draft_id) {
            Ok(x) => x,
            Err(e) => return Err(e),
        };
        if d.input_type != VoiceDesignInputType::Audio {
            return Err(AppError::offline_job(String::from_str("ASR can only start for audio voice design drafts")));
        }
        d.failure_stage = None;
        d.error_summary = None;
        d.status = VoiceDesignStatus::AsrRunning;
        d.updated_at = now;
        Ok(self.store(i, d))
    }

    /// Records the transcript (required, trimmed) of a draft's recording.
    pub fn complete_asr(&mut self, draft_id: &str, request: CompleteVoiceDesignAsrRequest, now: i64) -> (r: Result<
        VoiceDesignDraft,
        AppError,
    >)
        ensures
            if trim_seq(request.asr_text@).len() == 0 {
                final(self)@ == old(self)@ && (r matches Err(e) && job_error(e, "asrText is required"@))
            } else {
                draft_changed(
                    old(self)@,
                    final(self)@,
                    draft_id@,
                    r,
                    true,
                    Seq::empty(),
                    moved(
                        VoiceDesignDraftView { asr_text: Some(trim_seq(request.asr_text@)), ..draft_at(old(self)@, draft_id@) },
                        VoiceDesignStatus::AsrCompleted,
                        now,
                    ),
                )
            },
    {
        proof {
            use_type_invariant(&*self);
        }
        let text = match require_non_empty("asrText", request.asr_text) {
            Ok(t) => t,
            Err(e) => {
                proof {
                    reveal_strlit("asrText");
                    reveal_strlit(" is required");
                    reveal_strlit("asrText is required");
                    assert("asrText"@ + " is required"@ =~= "asrText is required"@);
                }
                return Err(e);
            },
        };
        let (i, mut d) = match self.fetch(draft_id) {
            Ok(x) => x,
            Err(e) => return Err(e),
        };
        d.asr_text = Some(text);
        d.status = VoiceDesignStatus::AsrCompleted;
        d.updated_at = now;
        Ok(self.store(i, d))
    }

    /// Starts writing a voice instruction from the transcript, or else the
    /// prompt text, which must not be blank.
    pub fn start_llm(&mut self, draft_id: &str, now: i64) -> (r: Result<VoiceDesignDraft, AppError>)
        ensures
            draft_changed(
                old(self)@,
                final(self)@,
                draft_id@,
                r,
                ({
                    let d = draft_at(old(self)@, draft_id@);
                    let prompt = if d.asr_text is Some {
                        d.asr_text
                    } else {
                        d.source_prompt_text
                    };
                    prompt matches Some(p) && !is_blank(p)
                }),
                "voice design prompt text is required before LLM generation"@,
                retried(draft_at(old(self)@, draft_id@), VoiceDesignStatus::LlmRunning, now),
            ),
    {
        proof {
            use_type_invariant(&*self);
        }
        let (i, mut d) = match self.fetch(draft_id) {
            Ok(x) => x,
            Err(e) => return Err(e),
        };
        let missing = if d.asr_text.is_some() {
            blank_or_missing(&d.asr_text)
        } else {
            blank_or_missing(&d.source_prompt_text)
        };
        if missing {
            return Err(
                AppError::offline_job(String::from_str("voice design prompt text is required before LLM generation")),
            );
        }
        d.failure_stage = None;
        d.error_summary = None;
        d.status = VoiceDesignStatus::LlmRunning;
        d.updated_at = now;
        Ok(self.store(i, d))
    }

    /// Records the voice instruction and reference text (both required, trimmed).
    pub fn complete_instruction(
        &mut self,
        draft_id: &str,
        request: CompleteVoiceInstructionRequest,
        now: i64,
    ) -> (r: Result<VoiceDesignDraft, AppError>)
        ensures
            if trim_seq(request.voice_instruction@).len() == 0 {
                final(self)@ == old(self)@ && (r matches Err(e) && job_error(e, "voiceInstruction is required"@))
            } else if trim_seq(request.reference_text@).len() == 0 {
                final(self)@ == old(self)@ && (r matches Err(e) && job_error(e, "referenceText is required"@))
            } else {
                draft_changed(
                    old(self)@,
                    final(self)@,
                    draft_id@,
                    r,
                    true,
                    Seq::empty(),
                    moved(
                        VoiceDesignDraftView {
                            voice_instruction: Some(trim_seq(request.voice_instruction@)),
                            reference_text: Some(trim_seq(request.reference_text@)),
                            ..draft_at(old(self)@, draft_id@)
                        },
                        VoiceDesignStatus::InstructionReady,
                        now,
                    ),
                )
            },
    {
        proof {
            use_type_invariant(&*self);
        }
        let instruction = match require_non_empty("voiceInstruction", request.voice_instruction) {
            Ok(t) => t,
            Err(e) => {
                proof {
                    reveal_strlit("voiceInstruction");
                    reveal_strlit(" is required");
                    reveal_strlit("voiceInstruction is required");
                    assert("voiceInstruction"@ + " is required"@ =~= "voiceInstruction is required"@);
                }
                return Err(e);
            },
        };
        let text = match require_non_empty("referenceText", request.reference_text) {
            Ok(t) => t,
            Err(e) => {
                proof {
                    reveal_strlit("referenceText");
                    reveal_strlit(" is required");
                    reveal_strlit("referenceText is required");
                    assert("referenceText"@ + " is required"@ =~= "referenceText is required"@);
                }
                return Err(e);
            },
        };
        let (i, mut d) = match self.fetch(draft_id) {
            Ok(x) => x,
            Err(e) => return Err(e),
        };
        d.voice_instruction = Some(instruction);
        d.reference_text = Some(text);
        d.status = VoiceDesignStatus::InstructionReady;
        d.updated_at = now;
        Ok(self.store(i, d))
    }

    /// Starts generating the reference audio; the draft needs a voice
    /// instruction and a reference text first.
    pub fn start_voice_design(&mut self, draft_id: &str, now: i64) -> (r: Result<VoiceDesignDraft, AppError>)
        ensures
            ({
                let d = draft_at(old(self)@, draft_id@);
                let no_instruction = !(d.voice_instruction matches Some(v) && !is_blank(v));
                let no_text = !(d.reference_text matches Some(v) && !is_blank(v));
                draft_changed(
                    old(self)@,
                    final(self)@,
                    draft_id@,
                    r,
                    !no_instruction && !no_text,
                    if no_instruction {
                        "voiceInstruction is required before reference audio generation"@
                    } else {
                        "referenceText is required before reference audio generation"@
                    },
                    retried(d, VoiceDesignStatus::VoiceDesignRunning, now),
                )
            }),
    {
        proof {
            use_type_invariant(&*self);
        }
        let (i, mut d) = match self.fetch(draft_id) {
            Ok(x) => x,
            Err(e) => return Err(e),
        };
        if blank_or_missing(&d.voice_instruction) {
            return Err(
                AppError::offline_job(
                    String::from_str("voiceInstruction is required before reference audio generation"),
                ),
            );
        }
        if blank_or_missing(&d.reference_text) {
            return Err(
                AppError::offline_job(String::from_str("referenceText is required before reference audio generation")),
            );
        }
        d.failure_stage = None;
        d.error_summary = None;
        d.status = VoiceDesignStatus::VoiceDesignRunning;
        d.updated_at = now;
        Ok(self.store(i, d))
    }

    /// Records the generated preview at its place in the cache (format `wav`
    /// unless the request names one); bringing an existing file there is the
    /// caller's part.
    pub fn complete_preview(
        &mut self,
        draft_id: &str,
        request: &CompleteVoiceDesignPreviewRequest,
        cache: &AssetCache,
        now: i64,
    ) -> (r: Result<VoiceDesignDraft, AppError>)
        ensures
            ({
                let format = match opt_str(request.output_format) {
                    Some(f) => f,
                    None => "wav"@,
                };
                let ok = segment_seq(draft_id@).len() > 0 && segment_seq(trim_start_char(format, '.')).len() > 0;
                match r {
                    Ok(d) => has_draft(old(self)@, draft_id@) && ok && d@ == moved(
                        VoiceDesignDraftView {
                            reference_audio_path: Some(
                                path_join(cache.voice_design_artifacts_dir@, artifact_file(draft_id@, format)),
                            ),
                            ..draft_at(old(self)@, draft_id@)
                        },
                        VoiceDesignStatus::PreviewReady,
                        now,
                    ) && final(self)@ == old(self)@.update(draft_index(old(self)@, draft_id@), d@),
                    Err(e) => final(self)@ == old(self)@ && if has_draft(old(self)@, draft_id@) {
                        !ok && e is InvalidSettings
                    } else {
                        job_error(e, not_found_message(draft_id@))
                    },
                }
            }),
    {
        proof {
            use_type_invariant(&*self);
        }
        let (i, mut d) = match self.fetch(draft_id) {
            Ok(x) => x,
            Err(e) => return Err(e),
        };
        let format = match &request.output_format {
            Some(f) => f.as_str(),
            None => "wav",
        };
        let artifact = match cache.voice_design_artifact_path(draft_id, format) {
            Ok(a) => a,
            Err(e) => return Err(e),
        };
        d.reference_audio_path = Some(artifact.path);
        d.status = VoiceDesignStatus::PreviewReady;
        d.updated_at = now;
        Ok(self.store(i, d))
    }

    /// Records a failed step (the message is required, trimmed).
    pub fn fail_draft(&mut self, draft_id: &str, request: FailVoiceDesignDraftRequest, now: i64) -> (r: Result<
        VoiceDesignDraft,
        AppError,
    >)
        ensures
            if trim_seq(request.message@).len() == 0 {
                final(self)@ == old(self)@ && (r matches Err(e) && job_error(e, "message is required"@))
            } else {
                draft_changed(
                    old(self)@,
                    final(self)@,
                    draft_id@,
                    r,
                    true,
                    Seq::empty(),
                    moved(
                        VoiceDesignDraftView {
                            failure_stage: Some(request.stage),
                            error_summary: Some(trim_seq(request.message@)),
                            ..draft_at(old(self)@, draft_id@)
                        },
                        VoiceDesignStatus::Failed,
                        now,
                    ),
                )
            },
    {
        proof {
            use_type_invariant(&*self);
        }
        let message = match require_non_empty("message", request.message) {
            Ok(t) => t,
            Err(e) => {
                proof {
                    reveal_strlit("message");
                    reveal_strlit(" is required");
                    reveal_strlit("message is required");
                    assert("message"@ + " is required"@ =~= "message is required"@);
                }
                return Err(e);
            },
        };
        let (i, mut d) = match self.fetch(draft_id) {
            Ok(x) => x,
            Err(e) => return Err(e),
        };
        d.failure_stage = Some(request.stage);
        d.error_summary = Some(message);
        d.status = VoiceDesignStatus::Failed;
        d.updated_at = now;
        Ok(self.store(i, d))
    }

    /// The draft with id `draft_id`.
    pub fn get_draft(&self, draft_id: &str) -> (r: Result<VoiceDesignDraft, AppError>)
        ensures
            match r {
                Ok(d) => has_draft(self@, draft_id@) && d@ == draft_at(self@, draft_id@),
                Err(e) => !has_draft(self@, draft_id@) && job_error(e, not_found_message(draft_id@)),
            },
    {
        proof {
            use_type_invariant(&*self);
        }
        match self.fetch(draft_id) {
            Ok((_, d)) => Ok(d),
            Err(e) => Err(e),
        }
    }

    /// Every draft, in order of their ids.
    pub fn list_drafts(&self) -> (r: Vec<VoiceDesignDraft>)
        ensures
            drafts_view(r@) == self@,
    {
        proof {
            use_type_invariant(&*self);
        }
        let mut r: Vec<VoiceDesignDraft> = Vec::new();
        let mut i: usize = 0;
        while i < self.drafts.len()
            invariant
                i <= self.drafts.len(),
                drafts_view(r@) == self@.take(i as int),
            decreases self.drafts.len() - i,
        {
            let ghost before = r@;
            r.push(self.drafts[i].duplicate());
            assert(drafts_view(r@) =~= drafts_view(before).push(self.drafts@[i as int]@));
            assert(self@.take(i as int + 1) =~= self@.take(i as int).push(self@[i as int]));
            i += 1;
        }
        assert(self@.take(self.drafts.len() as int) =~= self@);
        r
    }
}


/// Why a draft that reached saving cannot be saved, if it cannot.
pub open spec fn save_error(d: VoiceDesignDraftView) -> Option<Seq<char>> {
    if d.voice_instruction is None {
        Some("voiceInstruction is required before saving custom voice"@)
    } else if d.reference_audio_path is None {
        Some("referenceAudioPath is required before saving custom voice"@)
    } else if d.reference_text is None {
        Some("referenceText is required before saving custom voice"@)
    } else {
        None
    }
}

/// The custom voice a finished draft becomes.
pub open spec fn designed_profile(d: VoiceDesignDraftView, voice_name: Seq<char>, now: i64) -> CustomVoiceProfileView {
    CustomVoiceProfileView {
        voice_name,
        source_prompt_text: d.source_prompt_text,
        asr_text: d.asr_text,
        voice_instruction: d.voice_instruction->0,
        reference_audio_path: d.reference_audio_path->0,
        reference_text: d.reference_text->0,
        sync_status: SyncStatus::PendingSync,
        last_synced_at: None,
        created_at: now,
    }
}

impl VoiceDesignManager {
    /// Starts saving a draft as a custom voice named `voice_name` (required,
    /// trimmed): the draft moves to saving, and it must have a voice
    /// instruction, a reference recording and a reference text; gives the
    /// profile to store. The move to saving stays when a field is missing.
    pub fn begin_saving(&mut self, draft_id: &str, request: SaveVoiceDesignDraftRequest, now: i64) -> (r: Result<
        CustomVoiceProfile,
        AppError,
    >)
        ensures
            if trim_seq(request.voice_name@).len() == 0 {
                final(self)@ == old(self)@ && (r matches Err(e) && job_error(e, "voiceName is required"@))
            } else if !has_draft(old(self)@, draft_id@) {
                final(self)@ == old(self)@ && (r matches Err(e) && job_error(e, not_found_message(draft_id@)))
            } else {
                let d = moved(draft_at(old(self)@, draft_id@), VoiceDesignStatus::Saving, now);
                &&& final(self)@ == old(self)@.update(draft_index(old(self)@, draft_id@), d)
                &&& match r {
                    Ok(p) => save_error(d) is None && p@ == designed_profile(d, trim_seq(request.voice_name@), now),
                    Err(e) => save_error(d) matches Some(m) && job_error(e, m),
                }
            },
    {
        proof {
            use_type_invariant(&*self);
        }
        let voice_name = match crate::library::require_voice_name(request.voice_name.as_str()) {
            Ok(v) => v,
            Err(e) => return Err(e),
        };
        let (i, mut d) = match self.fetch(draft_id) {
            Ok(x) => x,
            Err(e) => return Err(e),
        };
        d.status = VoiceDesignStatus::Saving;
        d.updated_at = now;
        let d = self.store(i, d);
        let voice_instruction = match d.voice_instruction {
            Some(v) => v,
            None => {
                return Err(
                    AppError::offline_job(String::from_str("voiceInstruction is required before saving custom voice")),
                )
            },
        };
        let reference_audio_path = match d.reference_audio_path {
            Some(v) => v,
            None => {
                return Err(
                    AppError::offline_job(String::from_str("referenceAudioPath is required before saving custom voice")),
                )
            },
        };
        let reference_text = match d.reference_text {
            Some(v) => v,
            None => {
                return Err(
                    AppError::offline_job(String::from_str("referenceText is required before saving custom voice")),
                )
            },
        };
        Ok(
            CustomVoiceProfile {
                voice_name,
                source_prompt_text: d.source_prompt_text,
                asr_text: d.asr_text,
                voice_instruction,
                reference_audio_path,
                reference_text,
                sync_status: SyncStatus::PendingSync,
                last_synced_at: None,
                created_at: now,
            },
        )
    }

    /// Records the custom voice a draft was saved as.
    pub fn finish_saving(&mut self, draft_id: &str, voice_name: String, now: i64) -> (r: Result<VoiceDesignDraft, AppError>)
        ensures
            draft_changed(
                old(self)@,
                final(self)@,
                draft_id@,
                r,
                true,
                Seq::empty(),
                moved(
                    VoiceDesignDraftView { voice_name: Some(voice_name@), ..draft_at(old(self)@, draft_id@) },
                    VoiceDesignStatus::Saved,
                    now,
                ),
            ),
    {
        proof {
            use_type_invariant(&*self);
        }
        let (i, mut d) = match self.fetch(draft_id) {
            Ok(x) => x,
            Err(e) => return Err(e),
        };
        d.voice_name = Some(voice_name);
        d.status = VoiceDesignStatus::Saved;
        d.updated_at = now;
        Ok(self.store(i, d))
    }
}

} // verus!
