use vstd::prelude::*;

use crate::domain::{stem_name, VoiceSeparationStem};
use crate::settings::{opt_str, AppSettings, BackendConfig};
use crate::storage::AppPaths;
use crate::text::{
    ascii_lower_char, chars_of, concat2, concat3, decimal, decimal_seq, digit_char, is_ascii_alphanumeric,
    is_ascii_alphanumeric_char, push_char, same_text, strip_prefix, to_ascii_lowercase, trim_end_char,
    trim_start_char, without_leading, without_trailing,
};

verus! {

/// An id that ties log lines and records to one operation:
/// `<scope>-<timestamp>-<sequence>`.
#[derive(Debug, Clone, PartialEq, Eq)]
pub struct TraceId(String);

/// `<prefix>-<timestamp>-<sequence>`.
pub open spec fn stamped_id(prefix: Seq<char>, timestamp: Seq<char>, sequence: u64) -> Seq<char> {
    prefix + "-"@ + timestamp + "-"@ + decimal_seq(sequence as nat)
}

/// See `stamped_id`.
pub fn new_entity_id(prefix: &str, timestamp: &str, sequence: u64) -> (id: String)
    ensures
        id@ == stamped_id(prefix@, timestamp@, sequence),
{
    let a = concat3(prefix, "-", timestamp);
    concat3(a.as_str(), "-", decimal(sequence).as_str())
}

impl TraceId {
    /// The trace id of `scope` stamped with `timestamp` and the process-wide
    /// `sequence` number.
    pub fn from_parts(scope: &str, timestamp: &str, sequence: u64) -> (t: TraceId)
        ensures
            t.text() == stamped_id(scope@, timestamp@, sequence),
    {
        TraceId(new_entity_id(scope, timestamp, sequence))
    }

    pub closed spec fn text(&self) -> Seq<char> {
        self.0@
    }

    pub fn as_str(&self) -> (s: &str)
        ensures
            s@ == self.text(),
    {
        self.0.as_str()
    }

    pub fn into_string(self) -> (s: String)
        ensures
            s@ == self.text(),
    {
        self.0
    }
}

proof fn lemma_decimal_shape(n: nat)
    ensures
        decimal_seq(n).len() >= 1,
        n < 10 <==> decimal_seq(n).len() == 1,
        decimal_seq(n).last() == digit_char(n % 10),
    decreases n,
{
    if n >= 10 {
        lemma_decimal_shape(n / 10);
    }
}

proof fn lemma_digit_injective(a: nat, b: nat)
    requires
        a < 10,
        b < 10,
        digit_char(a) == digit_char(b),
    ensures
        a == b,
{
    assert((digit_char(a) as u32) == a + 48);
    assert((digit_char(b) as u32) == b + 48);
}

/// Different numbers have different decimal forms.
pub proof fn lemma_decimal_injective(a: nat, b: nat)
    requires
        decimal_seq(a) == decimal_seq(b),
    ensures
        a == b,
    decreases a,
{
    lemma_decimal_shape(a);
    lemma_decimal_shape(b);
    lemma_digit_injective(a % 10, b % 10);
    if a >= 10 {
        assert(decimal_seq(a).drop_last() == decimal_seq(a / 10));
        assert(decimal_seq(b).drop_last() == decimal_seq(b / 10));
        lemma_decimal_injective(a / 10, b / 10);
    }
}

/// Ids stamped for one prefix with timestamps of the same width (the
/// application's timestamps all have 17 digits) and different sequence numbers
/// differ, and every id starts with its prefix and a dash.
pub proof fn lemma_stamped_ids_distinct(prefix: Seq<char>, ta: Seq<char>, tb: Seq<char>, a: u64, b: u64)
    ensures
        ta.len() == tb.len() && a != b ==> stamped_id(prefix, ta, a) != stamped_id(prefix, tb, b),
        stamped_id(prefix, ta, a).take((prefix.len() + 1) as int) == prefix + "-"@,
{
    let pa = prefix + "-"@ + ta + "-"@;
    let pb = prefix + "-"@ + tb + "-"@;
    assert(stamped_id(prefix, ta, a) == pa + decimal_seq(a as nat));
    assert(stamped_id(prefix, tb, b) == pb + decimal_seq(b as nat));
    if ta.len() == tb.len() && a != b && stamped_id(prefix, ta, a) == stamped_id(prefix, tb, b) {
        let sa = pa + decimal_seq(a as nat);
        let sb = pb + decimal_seq(b as nat);
        assert(pa.len() == pb.len());
        assert(sa.subrange(pa.len() as int, sa.len() as int) =~= decimal_seq(a as nat));
        assert(sb.subrange(pb.len() as int, sb.len() as int) =~= decimal_seq(b as nat));
        lemma_decimal_injective(a as nat, b as nat);
    }
    reveal_strlit("-");
    assert(stamped_id(prefix, ta, a).take((prefix.len() + 1) as int) =~= prefix + "-"@);
}

/// The sequence numbers stamped into ids, handed out one after another from 1
/// and wrapping around after `u64::MAX`.
#[derive(Debug)]
pub struct IdSequence {
    next: u64,
}

/// The number after `n`, wrapping to 0 after `u64::MAX`.
pub open spec fn next_sequence(n: u64) -> u64 {
    if n == u64::MAX {
        0
    } else {
        (n + 1) as u64
    }
}

impl IdSequence {
    /// The number the next id gets.
    pub closed spec fn upcoming(&self) -> u64 {
        self.next
    }

    /// A sequence whose first number is 1.
    pub fn new() -> (s: IdSequence)
        ensures
            s.upcoming() == 1,
    {
        IdSequence { next: 1 }
    }

    fn draw(&mut self) -> (n: u64)
        ensures
            n == old(self).upcoming(),
            final(self).upcoming() == next_sequence(n),
    {
        let n = self.next;
        self.next = if n == u64::MAX { 0 } else { n + 1 };
        n
    }

    /// A fresh trace id for `scope`, stamped with `timestamp` and the next number.
    pub fn trace_id(&mut self, scope: &str, timestamp: &str) -> (t: TraceId)
        ensures
            t.text() == stamped_id(scope@, timestamp@, old(self).upcoming()),
            final(self).upcoming() == next_sequence(old(self).upcoming()),
    {
        let n = self.draw();
        TraceId::from_parts(scope, timestamp, n)
    }

    /// A fresh id for an entity of kind `prefix`, stamped with `timestamp` and the next number.
    pub fn entity_id(&mut self, prefix: &str, timestamp: &str) -> (id: String)
        ensures
            id@ == stamped_id(prefix@, timestamp@, old(self).upcoming()),
            final(self).upcoming() == next_sequence(old(self).upcoming()),
    {
        let n = self.draw();
        new_entity_id(prefix, timestamp, n)
    }
}

/// Two ids drawn one after the other from a sequence, with timestamps of the
/// same width, differ; both start with their scope and a dash.
pub proof fn lemma_consecutive_ids_distinct(scope: Seq<char>, ta: Seq<char>, tb: Seq<char>, n: u64)
    requires
        ta.len() == tb.len(),
    ensures
        stamped_id(scope, ta, n) != stamped_id(scope, tb, next_sequence(n)),
        stamped_id(scope, tb, next_sequence(n)).take((scope.len() + 1) as int) == scope + "-"@,
{
    lemma_stamped_ids_distinct(scope, ta, tb, n, next_sequence(n));
    lemma_stamped_ids_distinct(scope, tb, ta, next_sequence(n), n);
}

/// What the application reports about itself.
#[derive(Debug, Clone, PartialEq, Eq)]
pub struct AppSummary {
    pub name: &'static str,
    pub version: &'static str,
    pub status: &'static str,
    pub message: &'static str,
}

/// The summary with the runtime's trace id and directories.
#[derive(Debug, Clone, PartialEq, Eq)]
pub struct AppRuntimeInfo {
    pub summary: AppSummary,
    pub trace_id: String,
    pub paths: AppPaths,
}

/// The application's name, version and readiness.
pub fn app_summary() -> (s: AppSummary)
    ensures
        s.name@ == "voice-cloner"@,
        s.version@ == "0.1.0"@,
        s.status@ == "ready"@,
        s.message@ == "Voice Cloner runtime foundation is ready for feature development."@,
{
    AppSummary {
        name: "voice-cloner",
        version: "0.1.0",
        status: "ready",
        message: "Voice Cloner runtime foundation is ready for feature development.",
    }
}

/// An input or output audio device.
#[derive(Debug, Clone, Copy, PartialEq, Eq, Structural)]
pub enum AudioDeviceKind {
    Input,
    Output,
}

/// An audio device as shown to the user.
#[derive(Debug, Clone, PartialEq, Eq)]
pub struct AudioDeviceInfo {
    pub id: String,
    pub name: String,
    pub kind: AudioDeviceKind,
    pub is_default: bool,
}

/// The system's default devices, by name.
#[derive(Debug, Clone, PartialEq, Eq)]
pub struct DefaultAudioDevices {
    pub input: Option<String>,
    pub output: Option<String>,
}

/// Lists and describes the system's audio devices (the listing itself is the
/// application's part).
#[derive(Debug, Default)]
pub struct AudioDeviceManager;

/// A device name reduced to lower-case ASCII letters and digits, everything
/// else a dash.
pub open spec fn dashed_name(s: Seq<char>) -> Seq<char> {
    s.map_values(|c: char| if is_ascii_alphanumeric_char(c) { ascii_lower_char(c) } else { '-' })
}

/// `input-<index>-<name>` or `output-<index>-<name>`, the name dashed and
/// without dashes at either end.
pub open spec fn device_id_spec(kind: AudioDeviceKind, index: usize, name: Seq<char>) -> Seq<char> {
    let prefix = match kind {
        AudioDeviceKind::Input => "input"@,
        AudioDeviceKind::Output => "output"@,
    };
    prefix + "-"@ + decimal_seq(index as nat) + "-"@ + trim_start_char(trim_end_char(dashed_name(name), '-'), '-')
}

/// See `device_id_spec`; the id stays the same while a device keeps its
/// place and name.
pub fn stable_device_id(kind: AudioDeviceKind, index: usize, name: &str) -> (id: String)
    ensures
        id@ == device_id_spec(kind, index, name@),
{
    let v = chars_of(name);
    let mut dashed = String::new();
    let mut i: usize = 0;
    while i < v.len()
        invariant
            i <= v.len(),
            v@ == name@,
            dashed@ == dashed_name(name@).take(i as int),
        decreases v.len() - i,
    {
        let c = v[i];
        let d = if is_ascii_alphanumeric(c) {
            to_ascii_lowercase(c)
        } else {
            '-'
        };
        push_char(&mut dashed, d);
        assert(dashed_name(name@).take(i as int + 1) =~= dashed_name(name@).take(i as int).push(d));
        i += 1;
    }
    assert(dashed_name(name@).take(v.len() as int) =~= dashed_name(name@));
    let end_trimmed = without_trailing(dashed.as_str(), '-');
    let normalized = without_leading(end_trimmed.as_str(), '-');
    let prefix = match kind {
        AudioDeviceKind::Input => "input",
        AudioDeviceKind::Output => "output",
    };
    let a = concat3(prefix, "-", decimal(index as u64).as_str());
    concat3(a.as_str(), "-", normalized.as_str())
}

/// `{:?}` of a device kind.
pub open spec fn kind_name(kind: AudioDeviceKind) -> Seq<char> {
    match kind {
        AudioDeviceKind::Input => "Input"@,
        AudioDeviceKind::Output => "Output"@,
    }
}

/// The name shown for device `index`: its own, or `Unknown <kind> device <index>`.
pub open spec fn shown_device_name(kind: AudioDeviceKind, index: usize, name: Option<Seq<char>>) -> Seq<char> {
    match name {
        Some(n) => n,
        None => "Unknown "@ + kind_name(kind) + " device "@ + decimal_seq(index as nat),
    }
}

impl AudioDeviceManager {
    /// Describes the devices of one kind from their names in system order
    /// (`None` where a name could not be read); the default device is the one
    /// whose name is `default_name`.
    pub fn describe_devices(kind: AudioDeviceKind, names: Vec<Option<String>>, default_name: Option<String>) -> (r:
        Vec<AudioDeviceInfo>)
        ensures
            r@.len() == names@.len(),
            forall|i: int|
                0 <= i < r@.len() ==> {
                    let n = shown_device_name(kind, i as usize, opt_str(#[trigger] names@[i]));
                    &&& r@[i].name@ == n
                    &&& r@[i].id@ == device_id_spec(kind, i as usize, n)
                    &&& r@[i].kind == kind
                    &&& r@[i].is_default == (opt_str(default_name) == Some(n))
                },
    {
        let mut r: Vec<AudioDeviceInfo> = Vec::new();
        let mut i: usize = 0;
        while i < names.len()
            invariant
                i <= names.len(),
                r@.len() == i,
                forall|j: int|
                    0 <= j < i ==> {
                        let n = shown_device_name(kind, j as usize, opt_str(#[trigger] names@[j]));
                        &&& r@[j].name@ == n
                        &&& r@[j].id@ == device_id_spec(kind, j as usize, n)
                        &&& r@[j].kind == kind
                        &&& r@[j].is_default == (opt_str(default_name) == Some(n))
                    },
            decreases names.len() - i,
        {
            let name = match &names[i] {
                Some(n) => n.clone(),
                None => {
                    let k = match kind {
                        AudioDeviceKind::Input => "Input",
                        AudioDeviceKind::Output => "Output",
                    };
                    let a = concat3("Unknown ", k, " device ");
                    concat2(a.as_str(), decimal(i as u64).as_str())
                },
            };
            let is_default = match &default_name {
                Some(d) => same_text(d.as_str(), name.as_str()),
                None => false,
            };
            let id = stable_device_id(kind, i, name.as_str());
            r.push(AudioDeviceInfo { id, name, kind, is_default });
            i += 1;
        }
        r
    }
}

/// Which voice preview plays, if any.
#[derive(Debug, Clone, PartialEq, Eq)]
pub struct VoicePreviewState {
    pub playing_voice_name: Option<String>,
}

/// What toggling a preview asks the player to do.
#[derive(Debug, Clone, Copy, PartialEq, Eq, Structural)]
pub enum PreviewToggle {
    /// The same voice was playing: it stops.
    Stop,
    /// Another voice (or none) was playing: it stops and the new one starts.
    Start,
}

/// Plays at most one voice preview at a time; the audio itself is the
/// application's part.
#[derive(Debug, Default)]
pub struct VoicePreviewPlayer {
    current: Option<String>,
}

impl View for VoicePreviewPlayer {
    type V = Option<Seq<char>>;

    closed spec fn view(&self) -> Option<Seq<char>> {
        opt_str(self.current)
    }
}

impl VoicePreviewPlayer {
    /// Nothing playing.
    pub fn new() -> (p: VoicePreviewPlayer)
        ensures
            p@ is None,
    {
        VoicePreviewPlayer { current: None }
    }

    /// Toggling `voice_name` stops it when it plays, else starts it.
    pub fn toggle_action(&self, voice_name: &str) -> (a: PreviewToggle)
        ensures
            a == (if self@ == Some(voice_name@) {
                PreviewToggle::Stop
            } else {
                PreviewToggle::Start
            }),
    {
        match &self.current {
            Some(v) => if same_text(v.as_str(), voice_name) {
                PreviewToggle::Stop
            } else {
                PreviewToggle::Start
            },
            None => PreviewToggle::Start,
        }
    }

    /// Forgets the playing voice, handing it back so its playback can be stopped.
    pub fn stop_current(&mut self) -> (v: Option<String>)
        ensures
            opt_str(v) == old(self)@,
            final(self)@ is None,
    {
        let mut v: Option<String> = None;
        std::mem::swap(&mut v, &mut self.current);
        v
    }

    /// Records that `voice_name` now plays.
    pub fn started(&mut self, voice_name: String) -> (s: VoicePreviewState)
        ensures
            final(self)@ == Some(voice_name@),
            opt_str(s.playing_voice_name) == Some(voice_name@),
    {
        self.current = Some(voice_name);
        self.snapshot()
    }

    /// Stops whatever plays.
    pub fn stop(&mut self) -> (s: VoicePreviewState)
        ensures
            final(self)@ is None,
            s.playing_voice_name is None,
    {
        let _ = self.stop_current();
        VoicePreviewState { playing_voice_name: None }
    }

    /// Which voice plays.
    pub fn snapshot(&self) -> (s: VoicePreviewState)
        ensures
            opt_str(s.playing_voice_name) == self@,
    {
        self.snapshot_from_guard()
    }

    fn snapshot_from_guard(&self) -> (s: VoicePreviewState)
        ensures
            opt_str(s.playing_voice_name) == self@,
    {
        VoicePreviewState { playing_voice_name: crate::settings::clone_opt_string(&self.current) }
    }
}

/// The preview key of an offline job's output: `offline-job:<id>`.
pub fn offline_preview_key(job_id: &str) -> (k: String)
    ensures
        k@ == "offline-job:"@ + job_id@,
{
    concat2("offline-job:", job_id)
}

/// The job id of an offline preview key.
pub fn offline_job_id_from_key(key: &str) -> (r: Option<String>)
    ensures
        match r {
            Some(id) => key@ == "offline-job:"@ + id@,
            None => !crate::text::has_prefix(key@, "offline-job:"@),
        },
{
    let r = strip_prefix(key, "offline-job:");
    if let Some(id) = &r {
        assert(key@ =~= "offline-job:"@ + id@);
    }
    r
}

/// The preview key of a separated track: `voice-separation:<job>:<stem>`.
pub fn separation_preview_key(job_id: &str, stem: VoiceSeparationStem) -> (k: String)
    ensures
        k@ == "voice-separation:"@ + job_id@ + ":"@ + stem_name(stem),
{
    let a = concat3("voice-separation:", job_id, ":");
    concat2(a.as_str(), crate::domain::stem_text(stem))
}

/// Which separated track plays, if any.
#[derive(Debug, Clone, PartialEq, Eq)]
pub struct VoiceSeparationPreviewState {
    pub playing_job_id: Option<String>,
    pub playing_stem: Option<VoiceSeparationStem>,
}

/// The separation preview state after toggling the track of `job_id`: that
/// track when something plays, else nothing.
pub fn preview_state_from_key(playback: VoicePreviewState, job_id: &str, stem: VoiceSeparationStem) -> (s:
    VoiceSeparationPreviewState)
    ensures
        playback.playing_voice_name is Some ==> opt_str(s.playing_job_id) == Some(job_id@) && s.playing_stem == Some(
            stem,
        ),
        playback.playing_voice_name is None ==> s.playing_job_id is None && s.playing_stem is None,
{
    if playback.playing_voice_name.is_some() {
        VoiceSeparationPreviewState { playing_job_id: Some(String::from_str(job_id)), playing_stem: Some(stem) }
    } else {
        VoiceSeparationPreviewState { playing_job_id: None, playing_stem: None }
    }
}

/// The settings of a backend service by its name: `llm`, `asr`, `tts` or `realtime`.
pub fn backend_config_for_service<'a>(settings: &'a AppSettings, service: &str) -> (r: Option<&'a BackendConfig>)
    ensures
        r == (if service@ == "llm"@ {
            Some(&settings.backend.llm)
        } else if service@ == "asr"@ {
            Some(&settings.backend.asr)
        } else if service@ == "tts"@ {
            Some(&settings.backend.tts)
        } else if service@ == "realtime"@ {
            Some(&settings.backend.realtime)
        } else {
            None
        }),
{
    if same_text(service, "llm") {
        Some(&settings.backend.llm)
    } else if same_text(service, "asr") {
        Some(&settings.backend.asr)
    } else if same_text(service, "tts") {
        Some(&settings.backend.tts)
    } else if same_text(service, "realtime") {
        Some(&settings.backend.realtime)
    } else {
        None
    }
}

} // verus!
