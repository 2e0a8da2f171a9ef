use vstd::prelude::*;

use crate::endpoints::{websocket_url_spec, RealtimeEndpoint};
use crate::error::AppError;
use crate::frame::{pcm_format_error, PcmFormat, SampleFormat};
use crate::json::JsonFieldView;
use crate::order::{lemma_text_less_irreflexive, lemma_text_less_total, lemma_text_less_transitive, text_less, text_lt};
use crate::session::{RealtimeSession, RealtimeSessionStatus, RealtimeSessionView, RuntimeParams};
use crate::settings::{opt_str, settings_error, AppSettings};
use crate::text::{concat2, same_text, trim_seq, trimmed};

verus! {

/// The keys strictly increase.
pub open spec fn keys_sorted(ks: Seq<Seq<char>>) -> bool {
    forall|i: int, j: int| 0 <= i < j < ks.len() ==> text_less(#[trigger] ks[i], #[trigger] ks[j])
}

/// `p` is where key `k` belongs in `ks`: after every smaller key, before every larger one.
pub open spec fn is_key_place(ks: Seq<Seq<char>>, k: Seq<char>, p: int) -> bool {
    &&& 0 <= p <= ks.len()
    &&& forall|i: int| 0 <= i < p ==> text_less(#[trigger] ks[i], k)
    &&& forall|i: int| p <= i < ks.len() ==> text_less(k, #[trigger] ks[i])
}

/// A sorted key sequence with a new key put in its place stays sorted.
pub proof fn lemma_insert_keeps_sorted(ks: Seq<Seq<char>>, k: Seq<char>, p: int)
    requires
        keys_sorted(ks),
        is_key_place(ks, k, p),
    ensures
        keys_sorted(ks.insert(p, k)),
{
    let t = ks.insert(p, k);
    assert forall|i: int, j: int| 0 <= i < j < t.len() implies text_less(#[trigger] t[i], #[trigger] t[j]) by {
        if j < p {
            assert(t[i] == ks[i] && t[j] == ks[j]);
        } else if j == p {
            assert(t[i] == ks[i]);
        } else if i < p {
            assert(t[i] == ks[i] && t[j] == ks[j - 1]);
        } else if i == p {
            assert(t[j] == ks[j - 1]);
        } else {
            assert(t[i] == ks[i - 1] && t[j] == ks[j - 1]);
        }
    }
}

/// A sorted key sequence stays sorted when a key is taken out.
pub proof fn lemma_remove_keeps_sorted(ks: Seq<Seq<char>>, p: int)
    requires
        keys_sorted(ks),
        0 <= p < ks.len(),
    ensures
        keys_sorted(ks.remove(p)),
{
    let t = ks.remove(p);
    assert forall|i: int, j: int| 0 <= i < j < t.len() implies text_less(#[trigger] t[i], #[trigger] t[j]) by {
        let oi = if i < p { i } else { i + 1 };
        let oj = if j < p { j } else { j + 1 };
        assert(t[i] == ks[oi] && t[j] == ks[oj]);
    }
}

/// In a sorted key sequence a key occurs at most once.
pub proof fn lemma_sorted_keys_distinct(ks: Seq<Seq<char>>, i: int, j: int)
    requires
        keys_sorted(ks),
        0 <= i < ks.len(),
        0 <= j < ks.len(),
        i != j,
    ensures
        ks[i] != ks[j],
{
    if i < j {
        assert(text_less(ks[i], ks[j]));
    } else {
        assert(text_less(ks[j], ks[i]));
    }
    lemma_text_less_irreflexive(ks[i]);
}

/// Finds where `key` is or belongs in the sorted `keys`.
pub(crate) fn locate(keys: &Vec<String>, key: &str) -> (r: (usize, bool))
    requires
        keys_sorted(keys@.map_values(|s: String| s@)),
    ensures
        ({
            let ks = keys@.map_values(|s: String| s@);
            if r.1 {
                r.0 < ks.len() && ks[r.0 as int] == key@
            } else {
                is_key_place(ks, key@, r.0 as int) && !ks.contains(key@)
            }
        }),
{
    let ghost ks = keys@.map_values(|s: String| s@);
    let mut i: usize = 0;
    while i < keys.len() && text_lt(keys[i].as_str(), key)
        invariant
            i <= keys.len(),
            ks == keys@.map_values(|s: String| s@),
            keys_sorted(ks),
            forall|j: int| 0 <= j < i ==> text_less(#[trigger] ks[j], key@),
        decreases keys.len() - i,
    {
        assert(ks[i as int] == keys@[i as int]@);
        i += 1;
    }
    if i < keys.len() && same_text(keys[i].as_str(), key) {
        assert(ks[i as int] == keys@[i as int]@);
        return (i, true);
    }
    proof {
        if i < keys.len() {
            assert(ks[i as int] == keys@[i as int]@);
            assert(!text_less(ks[i as int], key@));
            lemma_text_less_total(ks[i as int], key@);
            assert(text_less(key@, ks[i as int]));
            assert forall|j: int| i <= j < ks.len() implies text_less(key@, #[trigger] ks[j]) by {
                if j > i {
                    lemma_text_less_transitive(key@, ks[i as int], ks[j]);
                }
            }
        }
        assert(!ks.contains(key@)) by {
            if ks.contains(key@) {
                let j = choose|j: int| 0 <= j < ks.len() && ks[j] == key@;
                lemma_text_less_irreflexive(key@);
                if j < i {
                    assert(text_less(ks[j], key@));
                } else {
                    assert(text_less(key@, ks[j]));
                }
            }
        }
    }
    (i, false)
}

/// The format and active sessions of the audio engine.
#[derive(Debug, Clone, PartialEq, Eq)]
pub struct AudioEngineSnapshot {
    pub active_session_ids: Vec<String>,
    pub format: PcmFormat,
}

/// Tracks which realtime sessions hold the audio engine.
#[derive(Debug)]
pub struct AudioEngine {
    active_session_ids: Vec<String>,
    format: PcmFormat,
}

pub struct AudioEngineView {
    /// The active session ids, in order.
    pub ids: Seq<Seq<char>>,
    pub format: PcmFormat,
}

pub open spec fn strings_view(v: Seq<String>) -> Seq<Seq<char>> {
    v.map_values(|s: String| s@)
}

impl View for AudioEngine {
    type V = AudioEngineView;

    closed spec fn view(&self) -> AudioEngineView {
        AudioEngineView { ids: strings_view(self.active_session_ids@), format: self.format }
    }
}

/// A call on the audio engine.
pub enum EngineCall {
    Start(Seq<char>),
    Stop(Seq<char>),
    StopAll,
}

/// The active ids after `calls`, starting from `ids`; starts take effect only
/// when the format is valid.
pub open spec fn engine_ids_after(ids: Set<Seq<char>>, format_ok: bool, calls: Seq<EngineCall>) -> Set<Seq<char>>
    decreases calls.len(),
{
    if calls.len() == 0 {
        ids
    } else {
        let before = engine_ids_after(ids, format_ok, calls.drop_last());
        match calls.last() {
            EngineCall::Start(id) => if format_ok {
                before.insert(id)
            } else {
                before
            },
            EngineCall::Stop(id) => before.remove(id),
            EngineCall::StopAll => Set::empty(),
        }
    }
}

/// What one call does to the engine: the format stays, the ids stay sorted
/// and their set changes as the call says.
pub open spec fn engine_step(before: AudioEngineView, call: EngineCall, after: AudioEngineView) -> bool {
    &&& after.format == before.format
    &&& keys_sorted(after.ids)
    &&& after.ids.to_set() == match call {
        EngineCall::Start(id) => if pcm_format_error(before.format) is None {
            before.ids.to_set().insert(id)
        } else {
            before.ids.to_set()
        },
        EngineCall::Stop(id) => before.ids.to_set().remove(id),
        EngineCall::StopAll => Set::<Seq<char>>::empty(),
    }
}

/// An engine made for `format` and then driven by `calls` keeps `format`,
/// keeps its ids sorted, and holds exactly the ids that the calls leave
/// active: those started (with a valid format) and not stopped since.
pub proof fn lemma_engine_calls(format: PcmFormat, calls: Seq<EngineCall>, states: Seq<AudioEngineView>)
    requires
        states.len() == calls.len() + 1,
        states[0].ids.len() == 0,
        states[0].format == format,
        forall|i: int| 0 <= i < calls.len() ==> engine_step(#[trigger] states[i], calls[i], states[i + 1]),
    ensures
        states.last().format == format,
        keys_sorted(states.last().ids),
        states.last().ids.to_set() == engine_ids_after(Set::empty(), pcm_format_error(format) is None, calls),
    decreases calls.len(),
{
    if calls.len() == 0 {
        assert(states[0].ids.to_set() =~= Set::<Seq<char>>::empty());
    } else {
        let n = calls.len() - 1;
        let cs = calls.drop_last();
        let ss = states.drop_last();
        assert forall|i: int| 0 <= i < cs.len() implies engine_step(#[trigger] ss[i], cs[i], ss[i + 1]) by {
            assert(engine_step(states[i], calls[i], states[i + 1]));
        }
        lemma_engine_calls(format, cs, ss);
        assert(ss.last() == states[n]);
        assert(engine_step(states[n], calls[n], states[n + 1]));
        assert(calls.last() == calls[n]);
    }
}

impl AudioEngine {
    /// The active ids are kept in increasing order, each once.
    #[verifier::type_invariant]
    spec fn ids_in_order(&self) -> bool {
        keys_sorted(strings_view(self.active_session_ids@))
    }

    /// An engine for `format` with no active session.
    pub fn new(format: PcmFormat) -> (e: AudioEngine)
        ensures
            e@.ids.len() == 0,
            e@.format == format,
            keys_sorted(e@.ids),
    {
        let ids: Vec<String> = Vec::new();
        assert(strings_view(ids@) =~= Seq::<Seq<char>>::empty());
        AudioEngine { active_session_ids: ids, format }
    }

    /// The active sessions, in order of their ids, and the format.
    pub fn snapshot(&self) -> (s: AudioEngineSnapshot)
        ensures
            strings_view(s.active_session_ids@) == self@.ids,
            s.format == self@.format,
    {
        let mut ids: Vec<String> = Vec::new();
        let mut i: usize = 0;
        while i < self.active_session_ids.len()
            invariant
                i <= self.active_session_ids.len(),
                strings_view(ids@) == strings_view(self.active_session_ids@).take(i as int),
            decreases self.active_session_ids.len() - i,
        {
            let ghost before = ids@;
            ids.push(self.active_session_ids[i].clone());
            assert(strings_view(ids@) =~= strings_view(before).push(self.active_session_ids@[i as int]@));
            assert(strings_view(self.active_session_ids@).take(i as int + 1) =~= strings_view(
                self.active_session_ids@,
            ).take(i as int).push(self.active_session_ids@[i as int]@));
            i += 1;
        }
        assert(strings_view(self.active_session_ids@).take(self.active_session_ids.len() as int) =~= strings_view(
            self.active_session_ids@,
        ));
        AudioEngineSnapshot { active_session_ids: ids, format: self.format }
    }

    /// Activates a session once the format is valid (else an audio error with
    /// the format's problem); an active session stays active once.
    pub fn start_realtime_session(&mut self, session_id: &str) -> (r: Result<AudioEngineSnapshot, AppError>)
        ensures
            engine_step(old(self)@, EngineCall::Start(session_id@), final(self)@),
            keys_sorted(final(self)@.ids),
            final(self)@.format == old(self)@.format,
            match r {
                Ok(s) => pcm_format_error(old(self)@.format) is None && final(self)@.ids.to_set()
                    == old(self)@.ids.to_set().insert(session_id@) && strings_view(s.active_session_ids@)
                    == final(self)@.ids && s.format == final(self)@.format,
                Err(e) => (pcm_format_error(old(self)@.format) matches Some(m) && e matches AppError::Audio {
                    message,
                } && message@ == m) && final(self)@ == old(self)@,
            },
    {
        proof {
            use_type_invariant(&*self);
        }
        match self.format.validate() {
            Ok(()) => {},
            Err(m) => return Err(AppError::audio(m)),
        }
        let ghost before = self@.ids;
        let (p, found) = locate(&self.active_session_ids, session_id);
        if !found {
            let mut ids: Vec<String> = Vec::new();
            std::mem::swap(&mut ids, &mut self.active_session_ids);
            ids.insert(p, String::from_str(session_id));
            assert(strings_view(ids@) =~= before.insert(p as int, session_id@));
            proof {
                lemma_insert_keeps_sorted(before, session_id@, p as int);
            }
            self.active_session_ids = ids;
            proof {
                let after = self@.ids;
                assert forall|x: Seq<char>| #[trigger] after.to_set().contains(x) == before.to_set().insert(
                    session_id@,
                ).contains(x) by {
                    if after.contains(x) {
                        let j = choose|j: int| 0 <= j < after.len() && after[j] == x;
                        if j < p {
                            assert(before[j] == x);
                        } else if j > p {
                            assert(before[j - 1] == x);
                        }
                    }
                    if before.contains(x) {
                        let j = choose|j: int| 0 <= j < before.len() && before[j] == x;
                        if j < p {
                            assert(after[j] == x);
                        } else {
                            assert(after[j + 1] == x);
                        }
                    }
                    if x == session_id@ {
                        assert(after[p as int] == x);
                    }
                }
                assert(after.to_set() =~= before.to_set().insert(session_id@));
            }
        } else {
            assert(before.to_set().insert(session_id@) =~= before.to_set());
        }
        proof {
            use_type_invariant(&*self);
        }
        Ok(self.snapshot())
    }

    /// Deactivates a session.
    pub fn stop_realtime_session(&mut self, session_id: &str) -> (s: AudioEngineSnapshot)
        ensures
            engine_step(old(self)@, EngineCall::Stop(session_id@), final(self)@),
            keys_sorted(final(self)@.ids),
            final(self)@.format == old(self)@.format,
            final(self)@.ids.to_set() == old(self)@.ids.to_set().remove(session_id@),
            strings_view(s.active_session_ids@) == final(self)@.ids,
            s.format == final(self)@.format,
    {
        proof {
            use_type_invariant(&*self);
        }
        let ghost before = self@.ids;
        let (p, found) = locate(&self.active_session_ids, session_id);
        if found {
            let mut ids: Vec<String> = Vec::new();
            std::mem::swap(&mut ids, &mut self.active_session_ids);
            ids.remove(p);
            assert(strings_view(ids@) =~= before.remove(p as int));
            proof {
                lemma_remove_keeps_sorted(before, p as int);
            }
            self.active_session_ids = ids;
            proof {
                assert forall|x: Seq<char>| #[trigger] self@.ids.to_set().contains(x) == before.to_set().remove(
                    session_id@,
                ).contains(x) by {
                    if self@.ids.contains(x) {
                        let j = choose|j: int| 0 <= j < self@.ids.len() && self@.ids[j] == x;
                        let oj = if j < p { j } else { j + 1 };
                        assert(before[oj] == x);
                        lemma_sorted_keys_distinct(before, oj, p as int);
                    }
                    if before.contains(x) && x != session_id@ {
                        let j = choose|j: int| 0 <= j < before.len() && before[j] == x;
                        if j < p {
                            assert(self@.ids[j] == x);
                        } else {
                            assert(j != p);
                            assert(self@.ids[j - 1] == x);
                        }
                    }
                }
                assert(self@.ids.to_set() =~= before.to_set().remove(session_id@));
            }
        } else {
            assert(before.to_set().remove(session_id@) =~= before.to_set());
        }
        proof {
            use_type_invariant(&*self);
        }
        self.snapshot()
    }

    /// Deactivates every session.
    pub fn stop_all(&mut self) -> (s: AudioEngineSnapshot)
        ensures
            engine_step(old(self)@, EngineCall::StopAll, final(self)@),
            final(self)@.ids.len() == 0,
            keys_sorted(final(self)@.ids),
            final(self)@.format == old(self)@.format,
            s.active_session_ids@.len() == 0,
            s.format == final(self)@.format,
    {
        let ids: Vec<String> = Vec::new();
        assert(strings_view(ids@) =~= Seq::<Seq<char>>::empty());
        self.active_session_ids = ids;
        assert(self@.ids.to_set() =~= Set::<Seq<char>>::empty());
        self.snapshot()
    }
}

impl Default for AudioEngine {
    /// An engine for the default format with no active session.
    fn default() -> (e: AudioEngine)
        ensures
            e@.ids.len() == 0,
            e@.format == (PcmFormat { sample_rate: 48_000, channels: 1, sample_format: SampleFormat::F32, frame_ms: 20 }),
            keys_sorted(e@.ids),
    {
        AudioEngine::new(PcmFormat::default_format())
    }
}

pub open spec fn session_keys(ss: Seq<RealtimeSessionView>) -> Seq<Seq<char>> {
    ss.map_values(|s: RealtimeSessionView| s.session_id)
}

pub open spec fn sessions_view(v: Seq<RealtimeSession>) -> Seq<RealtimeSessionView> {
    v.map_values(|s: RealtimeSession| s@)
}

/// Some session has id `id`.
pub open spec fn has_session(ss: Seq<RealtimeSessionView>, id: Seq<char>) -> bool {
    session_keys(ss).contains(id)
}

/// Where the session with id `id` is.
pub open spec fn session_index(ss: Seq<RealtimeSessionView>, id: Seq<char>) -> int {
    choose|i: int| 0 <= i < ss.len() && #[trigger] ss[i].session_id == id
}

/// `e` is a realtime-session error with message `m`.
pub open spec fn rt_error(e: AppError, m: Seq<char>) -> bool {
    e matches AppError::RealtimeSession { message } && message@ == m
}

/// The outcome of changing session `id` to `f`.
pub open spec fn session_patched(
    old_ss: Seq<RealtimeSessionView>,
    new_ss: Seq<RealtimeSessionView>,
    id: Seq<char>,
    r: Result<RealtimeSession, AppError>,
    f: RealtimeSessionView,
) -> bool {
    match r {
        Ok(s) => has_session(old_ss, id) && s@ == f && new_ss == old_ss.update(session_index(old_ss, id), f),
        Err(e) => !has_session(old_ss, id) && rt_error(e, "session not found: "@ + id) && new_ss == old_ss,
    }
}

/// `{:?}` of a session status.
pub open spec fn session_status_name(s: RealtimeSessionStatus) -> Seq<char> {
    match s {
        RealtimeSessionStatus::Idle => "Idle"@,
        RealtimeSessionStatus::Connecting => "Connecting"@,
        RealtimeSessionStatus::Running => "Running"@,
        RealtimeSessionStatus::Stopping => "Stopping"@,
        RealtimeSessionStatus::Stopped => "Stopped"@,
        RealtimeSessionStatus::Failed => "Failed"@,
    }
}

fn session_status_text(s: RealtimeSessionStatus) -> (t: &'static str)
    ensures
        t@ == session_status_name(s),
{
    match s {
        RealtimeSessionStatus::Idle => "Idle",
        RealtimeSessionStatus::Connecting => "Connecting",
        RealtimeSessionStatus::Running => "Running",
        RealtimeSessionStatus::Stopping => "Stopping",
        RealtimeSessionStatus::Stopped => "Stopped",
        RealtimeSessionStatus::Failed => "Failed",
    }
}

/// A session may start only when idle, stopped or failed.
pub open spec fn startable(s: RealtimeSessionStatus) -> bool {
    s == RealtimeSessionStatus::Idle || s == RealtimeSessionStatus::Stopped || s == RealtimeSessionStatus::Failed
}

/// A request to open a realtime session.
#[derive(Debug, Clone, PartialEq, Eq)]
pub struct CreateRealtimeSessionRequest {
    pub voice_name: String,
    pub runtime_params: RuntimeParams,
}

/// A request to change a session's conversion parameters.
#[derive(Debug, Clone, PartialEq, Eq)]
pub struct UpdateRealtimeParamsRequest {
    pub runtime_params: RuntimeParams,
}

/// A request to change a session's voice.
#[derive(Debug, Clone, PartialEq, Eq)]
pub struct SwitchRealtimeVoiceRequest {
    pub voice_name: String,
}

/// The realtime sessions, in order of their ids.
#[derive(Debug)]
pub struct SessionManager {
    sessions: Vec<RealtimeSession>,
}

impl View for SessionManager {
    type V = Seq<RealtimeSessionView>;

    closed spec fn view(&self) -> Seq<RealtimeSessionView> {
        sessions_view(self.sessions@)
    }
}

impl SessionManager {
    /// The sessions are kept in increasing id order, each id once.
    #[verifier::type_invariant]
    spec fn ids_in_order(&self) -> bool {
        keys_sorted(session_keys(sessions_view(self.sessions@)))
    }

    /// No sessions.
    pub fn new() -> (m: SessionManager)
        ensures
            m@.len() == 0,
    {
        let sessions: Vec<RealtimeSession> = Vec::new();
        assert(sessions_view(sessions@) =~= Seq::<RealtimeSessionView>::empty());
        assert(session_keys(sessions_view(sessions@)) =~= Seq::<Seq<char>>::empty());
        SessionManager { sessions }
    }

    fn locate(&self, id: &str) -> (r: (usize, bool))
        requires
            keys_sorted(session_keys(self@)),
        ensures
            ({
                let ks = session_keys(self@);
                if r.1 {
                    r.0 < ks.len() && ks[r.0 as int] == id@ && has_session(self@, id@) && session_index(self@, id@)
                        == r.0
                } else {
                    is_key_place(ks, id@, r.0 as int) && !has_session(self@, id@)
                }
            }),
    {
        let ghost ks = session_keys(self@);
        let mut i: usize = 0;
        while i < self.sessions.len() && text_lt(self.sessions[i].session_id.as_str(), id)
            invariant
                i <= self.sessions.len(),
                ks == session_keys(self@),
                keys_sorted(ks),
                forall|j: int| 0 <= j < i ==> text_less(#[trigger] ks[j], id@),
            decreases self.sessions.len() - i,
        {
            assert(ks[i as int] == self.sessions@[i as int]@.session_id);
            i += 1;
        }
        if i < self.sessions.len() && same_text(self.sessions[i].session_id.as_str(), id) {
            assert(ks[i as int] == self.sessions@[i as int]@.session_id);
            proof {
                assert(self@[i as int].session_id == id@);
                assert(ks.contains(id@));
                let k = session_index(self@, id@);
                assert(0 <= k < self@.len() && self@[k].session_id == id@);
                if k != i as int {
                    assert(ks[k] == id@);
                    lemma_sorted_keys_distinct(ks, k, i as int);
                }
            }
            return (i, true);
        }
        proof {
            if i < self.sessions.len() {
                assert(ks[i as int] == self.sessions@[i as int]@.session_id);
                lemma_text_less_total(ks[i as int], id@);
                assert forall|j: int| i <= j < ks.len() implies text_less(id@, #[trigger] ks[j]) by {
                    if j > i {
                        lemma_text_less_transitive(id@, ks[i as int], ks[j]);
                    }
                }
            }
            assert(!ks.contains(id@)) by {
                if ks.contains(id@) {
                    let j = choose|j: int| 0 <= j < ks.len() && ks[j] == id@;
                    lemma_text_less_irreflexive(id@);
                    if j < i {
                        assert(text_less(ks[j], id@));
                    } else {
                        assert(text_less(id@, ks[j]));
                    }
                }
            }
        }
        (i, false)
    }

    fn not_found(id: &str) -> (e: AppError)
        ensures
            rt_error(e, "session not found: "@ + id@),
    {
        AppError::realtime_session(concat2("session not found: ", id))
    }

    fn patch_at(&mut self, i: usize, s: RealtimeSession)
        requires
            keys_sorted(session_keys(old(self)@)),
            i < old(self)@.len(),
            s@.session_id == old(self)@[i as int].session_id,
        ensures
            final(self)@ == old(self)@.update(i as int, s@),
            keys_sorted(session_keys(final(self)@)),
    {
        let ghost before = self@;
        let ghost sv = s@;
        let mut sessions: Vec<RealtimeSession> = Vec::new();
        std::mem::swap(&mut sessions, &mut self.sessions);
        sessions.set(i, s);
        assert(sessions_view(sessions@) =~= before.update(i as int, sv));
        assert(session_keys(sessions_view(sessions@)) =~= session_keys(before));
        self.sessions = sessions;
    }

    /// The session with id `session_id`.
    pub fn get_realtime_session(&self, session_id: &str) -> (r: Result<RealtimeSession, AppError>)
        ensures
            match r {
                Ok(s) => has_session(self@, session_id@) && s@ == self@[session_index(self@, session_id@)],
                Err(e) => !has_session(self@, session_id@) && rt_error(e, "session not found: "@ + session_id@),
            },
    {
        proof {
            use_type_invariant(&*self);
        }
        let (i, found) = self.locate(session_id);
        if found {
            assert(self@[i as int] == self.sessions@[i as int]@);
            Ok(self.sessions[i].duplicate())
        } else {
            Err(Self::not_found(session_id))
        }
    }

    /// Every session, in order of their ids.
    pub fn list_realtime_sessions(&self) -> (r: Vec<RealtimeSession>)
        ensures
            sessions_view(r@) == self@,
    {
        proof {
            use_type_invariant(&*self);
        }
        let mut r: Vec<RealtimeSession> = Vec::new();
        let mut i: usize = 0;
        while i < self.sessions.len()
            invariant
                i <= self.sessions.len(),
                sessions_view(r@) == self@.take(i as int),
            decreases self.sessions.len() - i,
        {
            let ghost before = r@;
            r.push(self.sessions[i].duplicate());
            assert(sessions_view(r@) =~= sessions_view(before).push(self.sessions@[i as int]@));
            assert(self@.take(i as int + 1) =~= self@.take(i as int).push(self@[i as int]));
            i += 1;
        }
        assert(self@.take(self.sessions.len() as int) =~= self@);
        r
    }
}

pub open spec fn session_place(ss: Seq<RealtimeSessionView>, id: Seq<char>) -> int {
    choose|p: int| is_key_place(session_keys(ss), id, p)
}

/// `ss` with `s` in place of any session with its id, else in order of ids.
pub open spec fn with_session(ss: Seq<RealtimeSessionView>, s: RealtimeSessionView) -> Seq<RealtimeSessionView> {
    if has_session(ss, s.session_id) {
        ss.update(session_index(ss, s.session_id), s)
    } else {
        ss.insert(session_place(ss, s.session_id), s)
    }
}

pub(crate) proof fn lemma_key_place_unique(ks: Seq<Seq<char>>, k: Seq<char>, p: int, q: int)
    requires
        is_key_place(ks, k, p),
        is_key_place(ks, k, q),
    ensures
        p == q,
{
    if p < q {
        assert(text_less(ks[p], k));
        assert(text_less(k, ks[p]));
        lemma_text_less_total(ks[p], k);
    } else if q < p {
        assert(text_less(ks[q], k));
        assert(text_less(k, ks[q]));
        lemma_text_less_total(ks[q], k);
    }
}

/// A new session: idle, no error.
pub open spec fn new_session_view(
    session_id: Seq<char>,
    trace_id: Seq<char>,
    voice_name: Seq<char>,
    runtime_params: Seq<(Seq<char>, JsonFieldView)>,
    websocket_url: Seq<char>,
    now: i64,
) -> RealtimeSessionView {
    RealtimeSessionView {
        session_id,
        trace_id,
        voice_name,
        runtime_params,
        status: RealtimeSessionStatus::Idle,
        websocket_url,
        error_summary: None,
        created_at: now,
        updated_at: now,
    }
}

/// The session in `status` as of `now`.
pub open spec fn session_in(s: RealtimeSessionView, status: RealtimeSessionStatus, now: i64) -> RealtimeSessionView {
    RealtimeSessionView { status, updated_at: now, ..s }
}

/// What starting the existing session `id` does to the sessions and the
/// engine, and what it returns (see `start_realtime_session`).
pub open spec fn start_effect(
    before: Seq<RealtimeSessionView>,
    after: Seq<RealtimeSessionView>,
    engine_before: AudioEngineView,
    engine_after: AudioEngineView,
    id: Seq<char>,
    now: i64,
    r: Result<RealtimeSession, AppError>,
) -> bool {
    let i = session_index(before, id);
    let cur = before[i];
    let connecting = session_in(RealtimeSessionView { error_summary: None, ..cur }, RealtimeSessionStatus::Connecting, now);
    if !startable(cur.status) {
        (r matches Err(e) && rt_error(e, "cannot start realtime session from "@ + session_status_name(cur.status)))
            && after == before && engine_after == engine_before
    } else if pcm_format_error(engine_before.format) is Some {
        (r matches Err(e) && (e matches AppError::Audio { message } && Some(message@) == pcm_format_error(
            engine_before.format,
        ))) && after =~= before.update(i, connecting) && engine_after == engine_before
    } else {
        let running = session_in(connecting, RealtimeSessionStatus::Running, now);
        (r matches Ok(s) && s@ == running) && after =~= before.update(i, running) && engine_after.ids.to_set()
            == engine_before.ids.to_set().insert(id)
    }
}

/// With a valid audio format, starting an existing session succeeds exactly
/// when it is idle, stopped or failed; it then runs with no error, the engine
/// holds its id and the stored session is the one returned. A refused start
/// changes neither the sessions nor the engine.
pub proof fn lemma_start_runs_startable_session(
    before: Seq<RealtimeSessionView>,
    after: Seq<RealtimeSessionView>,
    engine_before: AudioEngineView,
    engine_after: AudioEngineView,
    id: Seq<char>,
    now: i64,
    r: Result<RealtimeSession, AppError>,
)
    requires
        has_session(before, id),
        pcm_format_error(engine_before.format) is None,
        start_effect(before, after, engine_before, engine_after, id, now, r),
    ensures
        r is Ok <==> startable(before[session_index(before, id)].status),
        r matches Ok(y) ==> y@.session_id == id && y@.status == RealtimeSessionStatus::Running
            && y@.error_summary is None && engine_after.ids.contains(id) && after[session_index(before, id)] == y@,
        r is Err ==> after == before && engine_after == engine_before,
{
    let i = session_index(before, id);
    assert(session_keys(before).contains(id));
    let k = choose|k: int| 0 <= k < session_keys(before).len() && session_keys(before)[k] == id;
    assert(before[k].session_id == id);
    assert(0 <= i < before.len() && before[i].session_id == id);
    if r is Ok {
        assert(engine_after.ids.to_set().contains(id));
    }
}

impl SessionManager {
    fn insert_session(&mut self, s: RealtimeSession)
        requires
            keys_sorted(session_keys(old(self)@)),
        ensures
            keys_sorted(session_keys(final(self)@)),
            final(self)@ == with_session(old(self)@, s@),
    {
        let ghost before = self@;
        let ghost sv = s@;
        let (p, found) = self.locate(s.session_id.as_str());
        if found {
            self.patch_at(p, s);
        } else {
            proof {
                lemma_key_place_unique(session_keys(before), sv.session_id, p as int, session_place(before, sv.session_id));
            }
            let mut sessions: Vec<RealtimeSession> = Vec::new();
            std::mem::swap(&mut sessions, &mut self.sessions);
            sessions.insert(p, s);
            assert(sessions_view(sessions@) =~= before.insert(p as int, sv));
            assert(session_keys(sessions_view(sessions@)) =~= session_keys(before).insert(p as int, sv.session_id));
            proof {
                lemma_insert_keeps_sorted(session_keys(before), sv.session_id, p as int);
            }
            self.sessions = sessions;
        }
    }

    /// Opens a session for the request's voice (required, trimmed) once the
    /// settings are valid; it connects to the configured realtime websocket.
    pub fn create_realtime_session(
        &mut self,
        session_id: String,
        trace_id: String,
        request: CreateRealtimeSessionRequest,
        settings: &AppSettings,
        now: i64,
    ) -> (r: Result<RealtimeSession, AppError>)
        ensures
            match r {
                Ok(s) => {
                    &&& trim_seq(request.voice_name@).len() > 0
                    &&& settings_error(settings@) is None
                    &&& s@ == new_session_view(
                        session_id@,
                        trace_id@,
                        trim_seq(request.voice_name@),
                        request.runtime_params@,
                        websocket_url_spec(settings@.backend.realtime.base_url, "/ws/v1/realtime/voice"@),
                        now,
                    )
                    &&& final(self)@ == with_session(old(self)@, s@)
                },
                Err(e) => final(self)@ == old(self)@ && if trim_seq(request.voice_name@).len() == 0 {
                    rt_error(e, "voiceName is required"@)
                } else {
                    settings_error(settings@) matches Some(m) && e matches AppError::InvalidSettings { message }
                        && message@ == m
                },
            },
    {
        proof {
            use_type_invariant(&*self);
        }
        let voice = trimmed(request.voice_name.as_str());
        if voice.unicode_len() == 0 {
            return Err(AppError::realtime_session(String::from_str("voiceName is required")));
        }
        match settings.validate() {
            Ok(()) => {},
            Err(m) => return Err(AppError::invalid_settings(m)),
        }
        let endpoint = RealtimeEndpoint::from_backend_config(&settings.backend.realtime);
        let session = RealtimeSession {
            session_id,
            trace_id,
            voice_name: voice,
            runtime_params: request.runtime_params,
            status: RealtimeSessionStatus::Idle,
            websocket_url: endpoint.websocket_url,
            error_summary: None,
            created_at: now,
            updated_at: now,
        };
        let out = session.duplicate();
        self.insert_session(session);
        Ok(out)
    }

    /// Starts an idle, stopped or failed session: it connects, the audio engine
    /// takes it up, and it runs. When the engine refuses (its format is
    /// invalid) the session is left connecting and the engine's error returned.
    pub fn start_realtime_session(&mut self, session_id: &str, engine: &mut AudioEngine, now: i64) -> (r: Result<
        RealtimeSession,
        AppError,
    >)
        ensures
            keys_sorted(final(engine)@.ids),
            final(engine)@.format == old(engine)@.format,
            !has_session(old(self)@, session_id@) ==> (r matches Err(e) && rt_error(e, "session not found: "@ + session_id@))
                && final(self)@ == old(self)@ && final(engine)@ == old(engine)@,
            has_session(old(self)@, session_id@) ==> start_effect(
                old(self)@,
                final(self)@,
                old(engine)@,
                final(engine)@,
                session_id@,
                now,
                r,
            ),
    {
        proof {
            use_type_invariant(&*self);
        }
        proof {
            use_type_invariant(&*engine);
        }
        let (i, found) = self.locate(session_id);
        if !found {
            return Err(Self::not_found(session_id));
        }
        assert(self@[i as int] == self.sessions@[i as int]@);
        let status = self.sessions[i].status;
        match status {
            RealtimeSessionStatus::Idle | RealtimeSessionStatus::Stopped | RealtimeSessionStatus::Failed => {},
            _ => {
                return Err(
                    AppError::realtime_session(
                        concat2("cannot start realtime session from ", session_status_text(status)),
                    ),
                );
            },
        }
        let mut s = self.sessions[i].duplicate();
        s.error_summary = None;
        s.status = RealtimeSessionStatus::Connecting;
        s.updated_at = now;
        let connecting = s.duplicate();
        self.patch_at(i, connecting);
        match engine.start_realtime_session(session_id) {
            Ok(_) => {},
            Err(e) => return Err(e),
        }
        s.status = RealtimeSessionStatus::Running;
        s.updated_at = now;
        let out = s.duplicate();
        self.patch_at(i, s);
        Ok(out)
    }

    /// Stops a session and releases it from the audio engine.
    pub fn stop_realtime_session(&mut self, session_id: &str, engine: &mut AudioEngine, now: i64) -> (r: Result<
        RealtimeSession,
        AppError,
    >)
        ensures
            keys_sorted(final(engine)@.ids),
            final(engine)@.format == old(engine)@.format,
            session_patched(
                old(self)@,
                final(self)@,
                session_id@,
                r,
                session_in(old(self)@[session_index(old(self)@, session_id@)], RealtimeSessionStatus::Stopped, now),
            ),
            r is Ok ==> final(engine)@.ids.to_set() == old(engine)@.ids.to_set().remove(session_id@),
            r is Err ==> final(engine)@ == old(engine)@,
    {
        proof {
            use_type_invariant(&*self);
        }
        proof {
            use_type_invariant(&*engine);
        }
        let (i, found) = self.locate(session_id);
        if !found {
            return Err(Self::not_found(session_id));
        }
        assert(self@[i as int] == self.sessions@[i as int]@);
        let mut s = self.sessions[i].duplicate();
        engine.stop_realtime_session(session_id);
        s.status = RealtimeSessionStatus::Stopped;
        s.updated_at = now;
        let out = s.duplicate();
        self.patch_at(i, s);
        Ok(out)
    }

    /// Marks a session failed with `message` and releases it from the audio engine.
    pub fn mark_realtime_session_failed(
        &mut self,
        session_id: &str,
        message: String,
        engine: &mut AudioEngine,
        now: i64,
    ) -> (r: Result<RealtimeSession, AppError>)
        ensures
            keys_sorted(final(engine)@.ids),
            final(engine)@.format == old(engine)@.format,
            session_patched(
                old(self)@,
                final(self)@,
                session_id@,
                r,
                session_in(
                    RealtimeSessionView {
                        error_summary: Some(message@),
                        ..old(self)@[session_index(old(self)@, session_id@)]
                    },
                    RealtimeSessionStatus::Failed,
                    now,
                ),
            ),
            r is Ok ==> final(engine)@.ids.to_set() == old(engine)@.ids.to_set().remove(session_id@),
            r is Err ==> final(engine)@ == old(engine)@,
    {
        proof {
            use_type_invariant(&*self);
        }
        proof {
            use_type_invariant(&*engine);
        }
        let (i, found) = self.locate(session_id);
        if !found {
            return Err(Self::not_found(session_id));
        }
        assert(self@[i as int] == self.sessions@[i as int]@);
        let mut s = self.sessions[i].duplicate();
        engine.stop_realtime_session(session_id);
        s.error_summary = Some(message);
        s.status = RealtimeSessionStatus::Failed;
        s.updated_at = now;
        let out = s.duplicate();
        self.patch_at(i, s);
        Ok(out)
    }

    /// Replaces a session's conversion parameters.
    pub fn update_realtime_params(&mut self, session_id: &str, request: UpdateRealtimeParamsRequest, now: i64) -> (r:
        Result<RealtimeSession, AppError>)
        ensures
            session_patched(
                old(self)@,
                final(self)@,
                session_id@,
                r,
                RealtimeSessionView {
                    runtime_params: request.runtime_params@,
                    updated_at: now,
                    ..old(self)@[session_index(old(self)@, session_id@)]
                },
            ),
    {
        proof {
            use_type_invariant(&*self);
        }
        let (i, found) = self.locate(session_id);
        if !found {
            return Err(Self::not_found(session_id));
        }
        assert(self@[i as int] == self.sessions@[i as int]@);
        let mut s = self.sessions[i].duplicate();
        s.runtime_params = request.runtime_params;
        s.updated_at = now;
        let out = s.duplicate();
        self.patch_at(i, s);
        Ok(out)
    }

    /// Switches a session's voice; the voice name is required (and trimmed).
    pub fn switch_realtime_voice(&mut self, session_id: &str, request: SwitchRealtimeVoiceRequest, now: i64) -> (r:
        Result<RealtimeSession, AppError>)
        ensures
            trim_seq(request.voice_name@).len() == 0 ==> (r matches Err(e) && rt_error(e, "voiceName is required"@))
                && final(self)@ == old(self)@,
            trim_seq(request.voice_name@).len() > 0 ==> session_patched(
                old(self)@,
                final(self)@,
                session_id@,
                r,
                RealtimeSessionView {
                    voice_name: trim_seq(request.voice_name@),
                    updated_at: now,
                    ..old(self)@[session_index(old(self)@, session_id@)]
                },
            ),
    {
        proof {
            use_type_invariant(&*self);
        }
        let voice = trimmed(request.voice_name.as_str());
        if voice.unicode_len() == 0 {
            return Err(AppError::realtime_session(String::from_str("voiceName is required")));
        }
        let (i, found) = self.locate(session_id);
        if !found {
            return Err(Self::not_found(session_id));
        }
        assert(self@[i as int] == self.sessions@[i as int]@);
        let mut s = self.sessions[i].duplicate();
        s.voice_name = voice;
        s.updated_at = now;
        let out = s.duplicate();
        self.patch_at(i, s);
        Ok(out)
    }
}


/// Starting a realtime session the audio engine was not running and then
/// stopping it leaves the engine with the sessions it had before.
pub proof fn lemma_engine_start_stop_round_trip(
    before: AudioEngineView,
    started: AudioEngineView,
    stopped: AudioEngineView,
    session_id: Seq<char>,
)
    requires
        !before.ids.contains(session_id),
        started.ids.to_set() == before.ids.to_set().insert(session_id),
        stopped.ids.to_set() == started.ids.to_set().remove(session_id),
    ensures
        stopped.ids.to_set() == before.ids.to_set(),
{
    assert(!before.ids.to_set().contains(session_id));
    assert(before.ids.to_set().insert(session_id).remove(session_id) =~= before.ids.to_set());
}

} // verus!
