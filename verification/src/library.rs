use vstd::prelude::*;

use crate::domain::SyncStatus;
use crate::error::AppError;
use crate::naming::{sanitize_voice_name, voice_file_seq};
use crate::offline::{extension_of, job_error, path_extension, require_non_empty};
use crate::order::{lemma_text_less_irreflexive, lemma_text_less_total, lemma_text_less_transitive, text_less, text_lt};
use crate::settings::{clone_opt_string, opt_str};
use crate::storage::{join_path, path_join};
use crate::text::{ascii_lower_seq, ascii_lowercase, concat2, concat3, is_blank, is_blank_str, same_text, trim_seq};
use crate::voice_stream::{signed_decimal, signed_decimal_text};

verus! {

/// A custom voice: its name, how it should sound, and the reference audio
/// and transcript it is cloned from. Times are in milliseconds.
#[derive(Debug, Clone, PartialEq, Eq)]
pub struct CustomVoiceProfile {
    pub voice_name: String,
    pub source_prompt_text: Option<String>,
    pub asr_text: Option<String>,
    pub voice_instruction: String,
    pub reference_audio_path: String,
    pub reference_text: String,
    pub sync_status: SyncStatus,
    pub last_synced_at: Option<i64>,
    pub created_at: i64,
}

pub struct CustomVoiceProfileView {
    pub voice_name: Seq<char>,
    pub source_prompt_text: Option<Seq<char>>,
    pub asr_text: Option<Seq<char>>,
    pub voice_instruction: Seq<char>,
    pub reference_audio_path: Seq<char>,
    pub reference_text: Seq<char>,
    pub sync_status: SyncStatus,
    pub last_synced_at: Option<i64>,
    pub created_at: i64,
}

impl View for CustomVoiceProfile {
    type V = CustomVoiceProfileView;

    open spec fn view(&self) -> CustomVoiceProfileView {
        CustomVoiceProfileView {
            voice_name: self.voice_name@,
            source_prompt_text: opt_str(self.source_prompt_text),
            asr_text: opt_str(self.asr_text),
            voice_instruction: self.voice_instruction@,
            reference_audio_path: self.reference_audio_path@,
            reference_text: self.reference_text@,
            sync_status: self.sync_status,
            last_synced_at: self.last_synced_at,
            created_at: self.created_at,
        }
    }
}

impl CustomVoiceProfile {
    /// A copy of this profile.
    pub fn duplicate(&self) -> (r: CustomVoiceProfile)
        ensures
            r@ == self@,
    {
        CustomVoiceProfile {
            voice_name: self.voice_name.clone(),
            source_prompt_text: clone_opt_string(&self.source_prompt_text),
            asr_text: clone_opt_string(&self.asr_text),
            voice_instruction: self.voice_instruction.clone(),
            reference_audio_path: self.reference_audio_path.clone(),
            reference_text: self.reference_text.clone(),
            sync_status: self.sync_status,
            last_synced_at: self.last_synced_at,
            created_at: self.created_at,
        }
    }
}

/// A voice the FunSpeech voice manager knows.
#[derive(Debug, Clone, PartialEq, Eq)]
pub struct RemoteVoiceInfo {
    pub voice_name: String,
    pub voice_instruction: String,
    pub reference_audio: String,
    pub reference_text: String,
}

/// A voice name: trimmed, and not empty.
pub fn require_voice_name(value: &str) -> (r: Result<String, AppError>)
    ensures
        match r {
            Ok(v) => trim_seq(value@).len() > 0 && v@ == trim_seq(value@),
            Err(e) => trim_seq(value@).len() == 0 && job_error(e, "voiceName is required"@),
        },
{
    let r = require_non_empty("voiceName", crate::text::to_string(value));
    proof {
        reveal_strlit("voiceName");
        reveal_strlit(" is required");
        reveal_strlit("voiceName is required");
        assert("voiceName"@ + " is required"@ =~= "voiceName is required"@);
    }
    r
}

/// A file name whose extension is `wav` in any case.
pub open spec fn is_wav_name(value: Seq<char>) -> bool {
    match path_extension(value) {
        Some(e) => ascii_lower_seq(e) == "wav"@,
        None => false,
    }
}

/// Reference audio must be a `.wav` file.
pub fn require_wav_file_name(value: &str) -> (r: Result<(), AppError>)
    ensures
        match r {
            Ok(()) => is_wav_name(value@),
            Err(e) => !is_wav_name(value@) && job_error(e, "reference audio must be a .wav file"@),
        },
{
    match extension_of(value) {
        Some(e) => {
            let lower = ascii_lowercase(e.as_str());
            if same_text(lower.as_str(), "wav") {
                Ok(())
            } else {
                Err(AppError::offline_job(String::from_str("reference audio must be a .wav file")))
            }
        },
        None => Err(AppError::offline_job(String::from_str("reference audio must be a .wav file"))),
    }
}

/// An uploaded reference recording must be a non-empty `.wav` file.
pub fn check_wav_upload(file_name: &str, byte_len: usize) -> (r: Result<(), AppError>)
    ensures
        match r {
            Ok(()) => is_wav_name(file_name@) && byte_len > 0,
            Err(e) => if !is_wav_name(file_name@) {
                job_error(e, "reference audio must be a .wav file"@)
            } else {
                byte_len == 0 && job_error(e, "referenceAudioBytes is required"@)
            },
        },
{
    match require_wav_file_name(file_name) {
        Err(e) => Err(e),
        Ok(()) => if byte_len == 0 {
            Err(AppError::offline_job(String::from_str("referenceAudioBytes is required")))
        } else {
            Ok(())
        },
    }
}

/// The file a profile is stored in: its safe name with `.json`, under the
/// custom voices directory.
pub open spec fn profile_path_spec(dir: Seq<char>, voice_name: Seq<char>) -> Seq<char> {
    path_join(dir, voice_file_seq(voice_name) + ".json"@)
}

/// Where the profile of `voice_name` is stored; a name with nothing safe for
/// a file name is refused.
pub fn profile_path(dir: &str, voice_name: &str) -> (r: Result<String, AppError>)
    ensures
        match r {
            Ok(p) => voice_file_seq(voice_name@).len() > 0 && p@ == profile_path_spec(dir@, voice_name@),
            Err(e) => voice_file_seq(voice_name@).len() == 0 && job_error(
                e,
                "voiceName must contain a safe file name segment"@,
            ),
        },
{
    let safe = sanitize_voice_name(voice_name);
    if safe.unicode_len() == 0 {
        return Err(AppError::offline_job(String::from_str("voiceName must contain a safe file name segment")));
    }
    let file = concat2(safe.as_str(), ".json");
    Ok(join_path(dir, file.as_str()))
}

/// The file a new reference recording is written to: `voice-<millis>.wav`
/// under the custom voices directory.
pub fn generated_audio_path(dir: &str, now_ms: i64) -> (p: String)
    ensures
        p@ == path_join(dir@, "voice-"@ + signed_decimal(now_ms) + ".wav"@),
{
    let file = concat3("voice-", signed_decimal_text(now_ms).as_str(), ".wav");
    join_path(dir, file.as_str())
}

/// A profile as it is saved: the name trimmed, waiting for sync, and dated
/// `now` when it had no creation time.
pub open spec fn prepared(p: CustomVoiceProfileView, now: i64) -> CustomVoiceProfileView {
    CustomVoiceProfileView {
        voice_name: trim_seq(p.voice_name),
        sync_status: SyncStatus::PendingSync,
        created_at: if p.created_at == 0 {
            now
        } else {
            p.created_at
        },
        ..p
    }
}

/// Readies a profile for saving (see `prepared`); a blank name is refused.
pub fn prepare_for_save(profile: CustomVoiceProfile, now: i64) -> (r: Result<CustomVoiceProfile, AppError>)
    ensures
        match r {
            Ok(p) => trim_seq(profile@.voice_name).len() > 0 && p@ == prepared(profile@, now),
            Err(e) => trim_seq(profile@.voice_name).len() == 0 && job_error(e, "voiceName is required"@),
        },
{
    let name = match require_voice_name(profile.voice_name.as_str()) {
        Ok(n) => n,
        Err(e) => return Err(e),
    };
    let mut p = profile;
    p.voice_name = name;
    p.sync_status = SyncStatus::PendingSync;
    if p.created_at == 0 {
        p.created_at = now;
    }
    Ok(p)
}

/// A fresh local profile for `voice_name`.
pub open spec fn fresh_profile(voice_name: Seq<char>, now: i64) -> CustomVoiceProfileView {
    CustomVoiceProfileView {
        voice_name,
        source_prompt_text: None,
        asr_text: None,
        voice_instruction: Seq::empty(),
        reference_audio_path: Seq::empty(),
        reference_text: Seq::empty(),
        sync_status: SyncStatus::LocalOnly,
        last_synced_at: None,
        created_at: now,
    }
}

/// The stored profile (or a fresh one) with the edited text fields.
pub open spec fn with_fields(
    existing: Option<CustomVoiceProfileView>,
    voice_name: Seq<char>,
    voice_instruction: Seq<char>,
    reference_text: Seq<char>,
    now: i64,
) -> CustomVoiceProfileView {
    let base = match existing {
        Some(p) => p,
        None => fresh_profile(voice_name, now),
    };
    CustomVoiceProfileView { voice_name, voice_instruction, reference_text, ..base }
}

pub open spec fn opt_profile_view(p: Option<CustomVoiceProfile>) -> Option<CustomVoiceProfileView> {
    match p {
        Some(x) => Some(x@),
        None => None,
    }
}

/// Applies edited text fields to the stored profile of `voice_name` (or a
/// fresh one); `voice_name` has been checked.
pub fn edit_fields(
    existing: Option<CustomVoiceProfile>,
    voice_name: String,
    voice_instruction: String,
    reference_text: String,
    now: i64,
) -> (p: CustomVoiceProfile)
    ensures
        p@ == with_fields(opt_profile_view(existing), voice_name@, voice_instruction@, reference_text@, now),
{
    let mut p = match existing {
        Some(p) => p,
        None => CustomVoiceProfile {
            voice_name: voice_name.clone(),
            source_prompt_text: None,
            asr_text: None,
            voice_instruction: String::new(),
            reference_audio_path: String::new(),
            reference_text: String::new(),
            sync_status: SyncStatus::LocalOnly,
            last_synced_at: None,
            created_at: now,
        },
    };
    p.voice_name = voice_name;
    p.voice_instruction = voice_instruction;
    p.reference_text = reference_text;
    p
}

/// Keeps the stored reference audio of an edited profile when no new
/// recording comes: without stored audio the edit is refused, else the
/// profile waits for sync.
pub fn keep_stored_audio(profile: CustomVoiceProfile) -> (r: Result<CustomVoiceProfile, AppError>)
    ensures
        match r {
            Ok(p) => !is_blank(profile@.reference_audio_path) && p@ == (CustomVoiceProfileView {
                sync_status: SyncStatus::PendingSync,
                ..profile@
            }),
            Err(e) => is_blank(profile@.reference_audio_path) && job_error(
                e,
                "referenceAudioBytes is required when no existing reference audio is stored"@,
            ),
        },
{
    if is_blank_str(profile.reference_audio_path.as_str()) {
        return Err(
            AppError::offline_job(
                String::from_str("referenceAudioBytes is required when no existing reference audio is stored"),
            ),
        );
    }
    let mut p = profile;
    p.sync_status = SyncStatus::PendingSync;
    Ok(p)
}

/// The profile with a new sync status; a successful sync is dated `now`.
pub open spec fn with_sync(p: CustomVoiceProfileView, status: SyncStatus, now: i64) -> CustomVoiceProfileView {
    CustomVoiceProfileView {
        sync_status: status,
        last_synced_at: if status == SyncStatus::Synced {
            Some(now)
        } else {
            p.last_synced_at
        },
        ..p
    }
}

/// See `with_sync`.
pub fn mark_sync_status(profile: CustomVoiceProfile, status: SyncStatus, now: i64) -> (p: CustomVoiceProfile)
    ensures
        p@ == with_sync(profile@, status, now),
{
    let mut p = profile;
    p.sync_status = status;
    if status == SyncStatus::Synced {
        p.last_synced_at = Some(now);
    }
    p
}

/// `value` unless it is blank, else `fallback`.
pub open spec fn unless_blank(value: Seq<char>, fallback: Seq<char>) -> Seq<char> {
    if is_blank(value) {
        fallback
    } else {
        value
    }
}

/// A profile brought in from the voice manager: the stored profile (or a new
/// remote one) with its blank fields filled from the remote voice, synced now.
pub open spec fn merged_remote(
    existing: Option<CustomVoiceProfileView>,
    voice_name: Seq<char>,
    remote: RemoteVoiceInfo,
    now: i64,
) -> CustomVoiceProfileView {
    let base = match existing {
        Some(p) => p,
        None => CustomVoiceProfileView {
            voice_name,
            source_prompt_text: Some("funspeechRemote"@),
            asr_text: None,
            voice_instruction: Seq::empty(),
            reference_audio_path: Seq::empty(),
            reference_text: Seq::empty(),
            sync_status: SyncStatus::Synced,
            last_synced_at: Some(now),
            created_at: now,
        },
    };
    CustomVoiceProfileView {
        voice_instruction: unless_blank(base.voice_instruction, remote.voice_instruction@),
        reference_audio_path: unless_blank(base.reference_audio_path, remote.reference_audio@),
        reference_text: unless_blank(base.reference_text, remote.reference_text@),
        sync_status: SyncStatus::Synced,
        last_synced_at: Some(now),
        ..base
    }
}

/// Bringing in a remote voice keeps every non-blank text of the stored
/// profile and fills each blank (or, without a stored profile, each) text from
/// the remote voice: the instruction, the reference audio and the reference
/// text. A new profile takes the remote voice's name and is created now; the
/// result is synced now.
pub proof fn lemma_merge_fills_blank_fields(
    existing: Option<CustomVoiceProfileView>,
    voice_name: Seq<char>,
    remote: RemoteVoiceInfo,
    now: i64,
)
    ensures
        ({
            let m = merged_remote(existing, voice_name, remote, now);
            &&& m.sync_status == SyncStatus::Synced
            &&& m.last_synced_at == Some(now)
            &&& match existing {
                None => {
                    &&& m.voice_name == voice_name
                    &&& m.created_at == now
                    &&& m.voice_instruction == remote.voice_instruction@
                    &&& m.reference_audio_path == remote.reference_audio@
                    &&& m.reference_text == remote.reference_text@
                },
                Some(p) => {
                    &&& m.voice_name == p.voice_name
                    &&& m.created_at == p.created_at
                    &&& m.voice_instruction == (if is_blank(p.voice_instruction) {
                        remote.voice_instruction@
                    } else {
                        p.voice_instruction
                    })
                    &&& m.reference_audio_path == (if is_blank(p.reference_audio_path) {
                        remote.reference_audio@
                    } else {
                        p.reference_audio_path
                    })
                    &&& m.reference_text == (if is_blank(p.reference_text) {
                        remote.reference_text@
                    } else {
                        p.reference_text
                    })
                },
            }
        }),
{
    assert(is_blank(Seq::<char>::empty()));
}

/// See `merged_remote`; `existing` is the stored profile of the remote
/// voice's (trimmed) name, and a blank remote name is refused.
pub fn merge_remote_voice(existing: Option<CustomVoiceProfile>, remote: &RemoteVoiceInfo, now: i64) -> (r: Result<
    CustomVoiceProfile,
    AppError,
>)
    ensures
        match r {
            Ok(p) => trim_seq(remote.voice_name@).len() > 0 && p@ == merged_remote(
                opt_profile_view(existing),
                trim_seq(remote.voice_name@),
                *remote,
                now,
            ),
            Err(e) => trim_seq(remote.voice_name@).len() == 0 && job_error(e, "voiceName is required"@),
        },
{
    let name = match require_voice_name(remote.voice_name.as_str()) {
        Ok(n) => n,
        Err(e) => return Err(e),
    };
    let mut p = match existing {
        Some(p) => p,
        None => CustomVoiceProfile {
            voice_name: name,
            source_prompt_text: Some(String::from_str("funspeechRemote")),
            asr_text: None,
            voice_instruction: String::new(),
            reference_audio_path: String::new(),
            reference_text: String::new(),
            sync_status: SyncStatus::Synced,
            last_synced_at: Some(now),
            created_at: now,
        },
    };
    if is_blank_str(p.voice_instruction.as_str()) {
        p.voice_instruction = remote.voice_instruction.clone();
    }
    if is_blank_str(p.reference_audio_path.as_str()) {
        p.reference_audio_path = remote.reference_audio.clone();
    }
    if is_blank_str(p.reference_text.as_str()) {
        p.reference_text = remote.reference_text.clone();
    }
    p.sync_status = SyncStatus::Synced;
    p.last_synced_at = Some(now);
    Ok(p)
}

/// The reference audio of a profile, which must have one.
pub fn reference_audio_of(profile: &CustomVoiceProfile) -> (r: Result<String, AppError>)
    ensures
        match r {
            Ok(p) => !is_blank(profile@.reference_audio_path) && p@ == profile@.reference_audio_path,
            Err(e) => is_blank(profile@.reference_audio_path) && job_error(
                e,
                "custom voice has no reference audio: "@ + profile@.voice_name,
            ),
        },
{
    if is_blank_str(profile.reference_audio_path.as_str()) {
        Err(AppError::offline_job(concat2("custom voice has no reference audio: ", profile.voice_name.as_str())))
    } else {
        Ok(profile.reference_audio_path.clone())
    }
}

/// A stale reference recording is deleted unless the path is blank or is the
/// file just written (compared as paths, see `path_eq`).
pub fn stale_audio_to_remove(path: &str, keep: Option<&str>) -> (r: bool)
    ensures
        r == (!is_blank(path@) && match keep {
            Some(k) => !crate::storage::path_eq(k@, path@),
            None => true,
        }),
{
    let same = match keep {
        Some(k) => crate::storage::same_path(k, path),
        None => false,
    };
    stale_audio_decision(path, same)
}

/// Whether a stale reference recording at `path` is deleted, given whether it
/// is the file just written: only a non-blank path that is not that file.
pub fn stale_audio_decision(path: &str, same_as_kept: bool) -> (r: bool)
    ensures
        r == (!is_blank(path@) && !same_as_kept),
{
    !is_blank_str(path) && !same_as_kept
}

pub open spec fn profiles_view(v: Seq<CustomVoiceProfile>) -> Seq<CustomVoiceProfileView> {
    v.map_values(|p: CustomVoiceProfile| p@)
}

/// Names never decrease along `ps`.
pub open spec fn sorted_by_name(ps: Seq<CustomVoiceProfileView>) -> bool {
    forall|i: int, j: int| 0 <= i < j < ps.len() ==> !text_less(#[trigger] ps[j].voice_name, #[trigger] ps[i].voice_name)
}

/// The listed profiles: the same profiles, ordered by name.
pub fn sort_by_name(profiles: Vec<CustomVoiceProfile>) -> (r: Vec<CustomVoiceProfile>)
    ensures
        sorted_by_name(profiles_view(r@)),
        profiles_view(r@).to_multiset() == profiles_view(profiles@).to_multiset(),
{
    let ghost all = profiles_view(profiles@);
    let mut out: Vec<CustomVoiceProfile> = Vec::new();
    let mut i: usize = 0;
    assert(all.take(0) =~= Seq::<CustomVoiceProfileView>::empty());
    assert(profiles_view(out@) =~= Seq::<CustomVoiceProfileView>::empty());
    while i < profiles.len()
        invariant
            i <= profiles.len(),
            all == profiles_view(profiles@),
            sorted_by_name(profiles_view(out@)),
            profiles_view(out@).to_multiset() == all.take(i as int).to_multiset(),
        decreases profiles.len() - i,
    {
        let ghost ov = profiles_view(out@);
        let x = profiles[i].duplicate();
        let ghost xv = x@;
        let mut p: usize = 0;
        while p < out.len() && !text_lt(x.voice_name.as_str(), out[p].voice_name.as_str())
            invariant
                p <= out.len(),
                ov == profiles_view(out@),
                xv == x@,
                forall|k: int| 0 <= k < p ==> !text_less(xv.voice_name, #[trigger] ov[k].voice_name),
            decreases out.len() - p,
        {
            assert(ov[p as int] == out@[p as int]@);
            p += 1;
        }
        proof {
            assert forall|k: int| p <= k < ov.len() implies !text_less(#[trigger] ov[k].voice_name, xv.voice_name) by {
                assert(ov[p as int] == out@[p as int]@);
                assert(text_less(xv.voice_name, ov[p as int].voice_name));
                lemma_text_less_total(xv.voice_name, ov[k].voice_name);
                if k > p {
                    assert(!text_less(ov[k].voice_name, ov[p as int].voice_name));
                    lemma_text_less_total(ov[k].voice_name, ov[p as int].voice_name);
                    if ov[k].voice_name != ov[p as int].voice_name {
                        lemma_text_less_transitive(xv.voice_name, ov[p as int].voice_name, ov[k].voice_name);
                    }
                }
            }
        }
        out.insert(p, x);
        proof {
            let nv = profiles_view(out@);
            assert(nv =~= ov.insert(p as int, xv));
            assert forall|a: int, b: int| 0 <= a < b < nv.len() implies !text_less(
                #[trigger] nv[b].voice_name,
                #[trigger] nv[a].voice_name,
            ) by {
                if b < p {
                    assert(nv[a] == ov[a] && nv[b] == ov[b]);
                } else if b == p {
                    assert(nv[a] == ov[a]);
                } else if a < p {
                    assert(nv[a] == ov[a] && nv[b] == ov[b - 1]);
                    if text_less(ov[b - 1].voice_name, ov[a].voice_name) {
                        lemma_text_less_total(ov[b - 1].voice_name, xv.voice_name);
                        lemma_text_less_total(xv.voice_name, ov[a].voice_name);
                        if ov[b - 1].voice_name == xv.voice_name {
                        } else if xv.voice_name == ov[a].voice_name {
                        } else {
                            lemma_text_less_transitive(ov[b - 1].voice_name, xv.voice_name, ov[a].voice_name);
                        }
                    }
                } else if a == p {
                    assert(nv[b] == ov[b - 1]);
                } else {
                    assert(nv[a] == ov[a - 1] && nv[b] == ov[b - 1]);
                }
            }
            assert(all.take(i as int + 1) =~= all.take(i as int).push(xv));
            vstd::seq_lib::to_multiset_insert(ov, p as int, xv);
            all.take(i as int).to_multiset_ensures();
            assert(nv.to_multiset() == ov.to_multiset().insert(xv));
            assert(all.take(i as int).push(xv).to_multiset() == all.take(i as int).to_multiset().insert(xv));
        }
        i += 1;
    }
    assert(all.take(profiles.len() as int) =~= all);
    out
}

} // verus!
