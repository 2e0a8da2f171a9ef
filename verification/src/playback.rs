use vstd::prelude::*;

use crate::frame::PcmFormat;
use crate::frame_queue::{lemma_insertion_point_exists, FrameQueue};

verus! {

/// How many queued frames make a missing frame worth skipping.
pub const PLAYBACK_GAP_SKIP_PENDING: usize = 10;

/// How many frames may wait for playback before the oldest are dropped.
pub const PLAYBACK_MAX_PENDING: usize = 600;

/// Milliseconds of audio gathered before playback starts.
pub const PLAYBACK_JITTER_PREBUFFER_MS: usize = 0;

/// What the server said about a converted audio chunk.
#[derive(Debug, Clone, PartialEq, Eq)]
pub struct PendingOutputChunk {
    pub tts_job_id: Option<String>,
    pub chunk_id: Option<String>,
    pub audio_chunk_index: Option<u64>,
    pub expected_bytes: Option<u64>,
}

/// A converted audio chunk waiting for its turn to play.
#[derive(Debug)]
pub struct PendingPlaybackFrame {
    pub metadata: PendingOutputChunk,
    pub bytes: Vec<u8>,
    pub latency_ms: Option<u64>,
}

/// A chunk the buffer gave up on, and why (`gap_skip`, `late_drop`,
/// `duplicate_drop` or `playback_overflow_drop`).
#[derive(Debug, PartialEq)]
pub struct PlaybackDrop {
    pub tts_job_id: Option<String>,
    pub chunk_id: Option<String>,
    pub audio_chunk_index: u64,
    pub status: &'static str,
}

/// The abstract state of an `OrderedPlaybackBuffer`.
pub struct PlaybackBufferView {
    /// The chunk index that plays next.
    pub expected: Option<u64>,
    /// Waiting chunks with their indices.
    pub pending: Seq<(u64, PendingPlaybackFrame)>,
    pub gap_skip_pending: nat,
    pub max_pending: nat,
    pub prebuffer_ms: nat,
    pub started: bool,
}

/// The indices of `s` strictly increase.
pub open spec fn keys_increasing(s: Seq<(u64, PendingPlaybackFrame)>) -> bool {
    forall|i: int, j: int| 0 <= i < j < s.len() ==> #[trigger] s[i].0 < #[trigger] s[j].0
}

/// Some chunk of `s` has index `k`.
pub open spec fn has_key(s: Seq<(u64, PendingPlaybackFrame)>, k: u64) -> bool {
    exists|i: int| 0 <= i < s.len() && #[trigger] s[i].0 == k
}

/// Every index of `s` is at least `e`.
pub open spec fn all_at_least(s: Seq<(u64, PendingPlaybackFrame)>, e: u64) -> bool {
    forall|i: int| 0 <= i < s.len() ==> #[trigger] s[i].0 >= e
}

/// `a + b`, capped at `u64::MAX`.
pub open spec fn sat_add(a: u64, b: int) -> u64 {
    if a + b > u64::MAX {
        u64::MAX
    } else {
        (a + b) as u64
    }
}

/// Where a chunk with index `k` goes in the increasing sequence `s`.
pub open spec fn insertion_point(s: Seq<(u64, PendingPlaybackFrame)>, k: u64) -> int {
    choose|p: int| #[trigger] is_insertion_point(s, k, p)
}

/// Every index before position `p` of `s` is below `k`, every one from `p` on is at least `k`.
pub open spec fn is_insertion_point(s: Seq<(u64, PendingPlaybackFrame)>, k: u64, p: int) -> bool {
    &&& 0 <= p <= s.len()
    &&& forall|j: int| 0 <= j < p ==> #[trigger] s[j].0 < k
    &&& forall|j: int| p <= j < s.len() ==> #[trigger] s[j].0 >= k
}

/// How `enqueue` treats a chunk.
pub enum EnqueueVerdict {
    Accepted,
    Late,
    Duplicate,
}

impl PlaybackBufferView {
    /// Chunks are held in index order, never below the index that plays next,
    /// and nothing is held before a first index is known.
    pub open spec fn wf(self) -> bool {
        &&& keys_increasing(self.pending)
        &&& self.max_pending >= 1
        &&& match self.expected {
            Some(e) => all_at_least(self.pending, e),
            None => self.pending.len() == 0,
        }
    }

    /// The index `enqueue` gives a chunk that carries `index` (or none).
    pub open spec fn enqueue_index(self, index: Option<u64>) -> u64 {
        match index {
            Some(i) => i,
            None => sat_add(
                match self.expected {
                    Some(e) => e,
                    None => 1,
                },
                self.pending.len() as int,
            ),
        }
    }

    /// The index that plays next once a chunk with index `k` has been offered.
    pub open spec fn expected_after_offer(self, k: u64) -> u64 {
        match self.expected {
            Some(e) => e,
            None => k,
        }
    }

    /// Whether `enqueue` keeps, or drops as late or duplicate, a chunk with index `k`.
    pub open spec fn verdict(self, k: u64) -> EnqueueVerdict {
        if k < self.expected_after_offer(k) {
            EnqueueVerdict::Late
        } else if has_key(self.pending, k) {
            EnqueueVerdict::Duplicate
        } else {
            EnqueueVerdict::Accepted
        }
    }

    /// The state after the gap-skip step of `apply_pressure`, and the index
    /// skipped over, if any: when at least `gap_skip_pending` chunks wait and the
    /// earliest of them lies beyond the expected index, playback jumps to it.
    pub open spec fn gap_step(self) -> (PlaybackBufferView, Option<u64>) {
        if self.pending.len() >= self.gap_skip_pending && self.expected is Some && self.pending.len() > 0
            && self.pending[0].0 > self.expected->0 {
            (PlaybackBufferView { expected: Some(self.pending[0].0), ..self }, self.expected)
        } else {
            (self, None)
        }
    }

    /// How many of the oldest chunks `apply_pressure` drops to get down to `max_pending`.
    pub open spec fn overflow_count(self) -> nat {
        if self.pending.len() > self.max_pending {
            (self.pending.len() - self.max_pending) as nat
        } else {
            0
        }
    }

    /// The state after `apply_pressure`.
    pub open spec fn after_pressure(self) -> PlaybackBufferView {
        let mid = self.gap_step().0;
        let n = mid.overflow_count();
        PlaybackBufferView {
            expected: if n > 0 {
                Some(sat_add(mid.pending[n - 1].0, 1))
            } else {
                mid.expected
            },
            pending: mid.pending.skip(n as int),
            ..mid
        }
    }

    /// The expected index once a pop has resolved a missing one.
    pub open spec fn with_expected_resolved(self) -> PlaybackBufferView {
        if self.expected is None {
            PlaybackBufferView {
                expected: if self.pending.len() > 0 {
                    Some(self.pending[0].0)
                } else {
                    None
                },
                ..self
            }
        } else {
            self
        }
    }

    /// `pop_playable` still waits for the prebuffer to fill.
    pub open spec fn waiting_for_prebuffer(self, frame_ms: nat) -> bool {
        &&& !self.started
        &&& self.pending.len() * frame_ms < self.prebuffer_ms
        &&& self.pending.len() < self.max_pending
    }

    /// The state after `pop_playable` with frames of `frame_ms`, and the index it played.
    pub open spec fn after_pop(self, frame_ms: nat) -> (PlaybackBufferView, Option<u64>) {
        let b1 = self.with_expected_resolved();
        if b1.waiting_for_prebuffer(frame_ms) {
            (b1, None)
        } else {
            let b2 = PlaybackBufferView { started: true, ..b1 };
            match b2.expected {
                Some(e) => if b2.pending.len() > 0 && b2.pending[0].0 == e {
                    (
                        PlaybackBufferView {
                            expected: Some(sat_add(e, 1)),
                            pending: b2.pending.drop_first(),
                            ..b2
                        },
                        Some(e),
                    )
                } else {
                    (b2, None)
                },
                None => (b2, None),
            }
        }
    }
}

/// A drop report for `entry` with the given status.
pub open spec fn drop_reports(d: PlaybackDrop, entry: (u64, PendingPlaybackFrame), status: Seq<char>) -> bool {
    &&& d.audio_chunk_index == entry.0
    &&& d.tts_job_id == entry.1.metadata.tts_job_id
    &&& d.chunk_id == entry.1.metadata.chunk_id
    &&& d.status@ == status
}

/// Reorders converted audio chunks by index before they are played, dropping
/// late and duplicate chunks and relieving pressure when too many wait.
#[derive(Debug)]
pub struct OrderedPlaybackBuffer {
    expected_next_index: Option<u64>,
    pending: FrameQueue,
    gap_skip_pending: usize,
    max_pending: usize,
    prebuffer_ms: usize,
    playback_started: bool,
}

impl View for OrderedPlaybackBuffer {
    type V = PlaybackBufferView;

    closed spec fn view(&self) -> PlaybackBufferView {
        PlaybackBufferView {
            expected: self.expected_next_index,
            pending: self.pending.entries(),
            gap_skip_pending: self.gap_skip_pending as nat,
            max_pending: self.max_pending as nat,
            prebuffer_ms: self.prebuffer_ms as nat,
            started: self.playback_started,
        }
    }
}

impl OrderedPlaybackBuffer {
    /// The buffer's state always satisfies `PlaybackBufferView::wf`.
    #[verifier::type_invariant]
    spec fn consistent(&self) -> bool {
        self@.wf()
    }

    /// Takes the waiting frames out, leaving none.
    fn take_pending(&mut self) -> (q: FrameQueue)
        ensures
            q.entries() == old(self)@.pending,
            final(self)@ == (PlaybackBufferView { pending: Seq::empty(), ..old(self)@ }),
    {
        proof {
            use_type_invariant(&*self);
        }
        let mut q = FrameQueue::new();
        std::mem::swap(&mut q, &mut self.pending);
        q
    }

    /// An empty buffer; `max_pending` is raised to at least 1, and playback
    /// starts at once when `prebuffer_ms` is 0.
    pub fn new(gap_skip_pending: usize, max_pending: usize, prebuffer_ms: usize) -> (b: OrderedPlaybackBuffer)
        ensures
            b@.wf(),
            b@.expected is None,
            b@.pending.len() == 0,
            b@.gap_skip_pending == gap_skip_pending,
            b@.max_pending == if max_pending >= 1 { max_pending } else { 1 },
            b@.prebuffer_ms == prebuffer_ms,
            b@.started == (prebuffer_ms == 0),
    {
        OrderedPlaybackBuffer {
            expected_next_index: None,
            pending: FrameQueue::new(),
            gap_skip_pending,
            max_pending: if max_pending >= 1 { max_pending } else { 1 },
            prebuffer_ms,
            playback_started: prebuffer_ms == 0,
        }
    }

    /// Number of chunks waiting.
    pub fn pending_len(&self) -> (n: usize)
        ensures
            n == self@.pending.len(),
    {
        self.pending.len()
    }

    /// Queues a chunk under its own index, or, when it carries none, under the
    /// next free index after the expected one. A chunk below the expected index
    /// is dropped as `late_drop`, one whose index is already queued as
    /// `duplicate_drop`.
    pub fn enqueue(&mut self, metadata: PendingOutputChunk, bytes: Vec<u8>, latency_ms: Option<u64>) -> (r:
        Result<u64, PlaybackDrop>)
        ensures
            final(self)@.wf(),
            final(self)@.pending.len() <= old(self)@.pending.len() + 1,
            ({
                let k = old(self)@.enqueue_index(metadata.audio_chunk_index);
                &&& final(self)@.expected == Some(old(self)@.expected_after_offer(k))
                &&& final(self)@.gap_skip_pending == old(self)@.gap_skip_pending
                &&& final(self)@.max_pending == old(self)@.max_pending
                &&& final(self)@.prebuffer_ms == old(self)@.prebuffer_ms
                &&& final(self)@.started == old(self)@.started
                &&& match r {
                    Ok(i) => {
                        &&& i == k
                        &&& old(self)@.verdict(k) is Accepted
                        &&& final(self)@.pending == old(self)@.pending.insert(
                            insertion_point(old(self)@.pending, k),
                            (k, PendingPlaybackFrame { metadata, bytes, latency_ms }),
                        )
                    },
                    Err(d) => {
                        &&& d.audio_chunk_index == k
                        &&& d.tts_job_id == metadata.tts_job_id
                        &&& d.chunk_id == metadata.chunk_id
                        &&& final(self)@.pending == old(self)@.pending
                        &&& (old(self)@.verdict(k) is Late ==> d.status@ == "late_drop"@)
                        &&& (old(self)@.verdict(k) is Duplicate ==> d.status@ == "duplicate_drop"@)
                        &&& !(old(self)@.verdict(k) is Accepted)
                    },
                }
            }),
    {
        proof {
            use_type_invariant(&*self);
        }
        let index = match metadata.audio_chunk_index {
            Some(i) => i,
            None => {
                let base = match self.expected_next_index {
                    Some(e) => e,
                    None => 1,
                };
                let extra = self.pending.len() as u64;
                if base > u64::MAX - extra {
                    u64::MAX
                } else {
                    base + extra
                }
            },
        };
        let expected = match self.expected_next_index {
            Some(e) => e,
            None => index,
        };
        self.expected_next_index = Some(expected);
        if index < expected {
            proof {
                use_type_invariant(&*self);
            }
            return Err(
                PlaybackDrop {
                    tts_job_id: metadata.tts_job_id,
                    chunk_id: metadata.chunk_id,
                    audio_chunk_index: index,
                    status: "late_drop",
                },
            );
        }
        let ghost s = self.pending.entries();
        if self.pending.contains(index) {
            proof {
                use_type_invariant(&*self);
            }
            return Err(
                PlaybackDrop {
                    tts_job_id: metadata.tts_job_id,
                    chunk_id: metadata.chunk_id,
                    audio_chunk_index: index,
                    status: "duplicate_drop",
                },
            );
        }
        let ghost p = insertion_point(s, index);
        proof {
            lemma_insertion_point_exists(s, index);
        }
        let mut q = self.take_pending();
        q.insert(index, PendingPlaybackFrame { metadata, bytes, latency_ms });
        let ghost t = q.entries();
        assert(keys_increasing(t)) by {
            assert forall|i: int, j: int| 0 <= i < j < t.len() implies #[trigger] t[i].0 < #[trigger] t[j].0 by {
                if j < p {
                } else if j == p {
                } else if i < p {
                    assert(t[j] == s[j - 1]);
                    assert(s[j - 1].0 >= index);
                } else if i == p {
                    assert(t[j] == s[j - 1]);
                    assert(s[j - 1].0 >= index);
                    assert(s[j - 1].0 != index) by {
                        assert(!has_key(s, index));
                    }
                } else {
                    assert(t[i] == s[i - 1]);
                    assert(t[j] == s[j - 1]);
                }
            }
        }
        assert(all_at_least(t, expected)) by {
            assert forall|i: int| 0 <= i < t.len() implies #[trigger] t[i].0 >= expected by {
                if i < p {
                    assert(t[i] == s[i]);
                } else if i > p {
                    assert(t[i] == s[i - 1]);
                }
            }
        }
        self.pending = q;
        Ok(index)
    }

    /// Relieves playback pressure: once at least `gap_skip_pending` chunks wait
    /// and the expected one is missing, playback jumps to the earliest waiting
    /// chunk (a `gap_skip` report for the missing index); then the oldest chunks
    /// beyond `max_pending` are dropped (`playback_overflow_drop`, oldest first).
    pub fn apply_pressure(&mut self) -> (drops: Vec<PlaybackDrop>)
        ensures
            final(self)@.wf(),
            final(self)@ == old(self)@.after_pressure(),
            ({
                let (mid, gap) = old(self)@.gap_step();
                let n = mid.overflow_count() as int;
                let g: int = if gap is Some { 1 } else { 0 };
                &&& drops@.len() == g + n
                &&& (gap is Some ==> drops@[0].audio_chunk_index == gap->0 && drops@[0].tts_job_id is None
                    && drops@[0].chunk_id is None && drops@[0].status@ == "gap_skip"@)
                &&& forall|i: int| g <= i < g + n ==> drop_reports(
                    #[trigger] drops@[i],
                    mid.pending[i - g],
                    "playback_overflow_drop"@,
                )
            }),
    {
        proof {
            use_type_invariant(&*self);
        }
        let mut drops: Vec<PlaybackDrop> = Vec::new();
        if self.pending.len() >= self.gap_skip_pending {
            if let Some(expected) = self.expected_next_index {
                if let Some(first) = self.pending.first_key() {
                    if first > expected {
                        self.expected_next_index = Some(first);
                        drops.push(
                            PlaybackDrop {
                                tts_job_id: None,
                                chunk_id: None,
                                audio_chunk_index: expected,
                                status: "gap_skip",
                            },
                        );
                    }
                }
            }
        }
        let ghost mid = self@;
        let ghost g = drops@.len();
        assert(mid == old(self)@.gap_step().0);
        assert(mid.wf());
        let ghost n = mid.overflow_count() as int;
        let ghost s = mid.pending;
        let total = self.pending.len();
        let mut removed: usize = 0;
        while self.pending.len() > self.max_pending
            invariant
                s.len() == total,
                mid.wf(),
                mid == old(self)@.gap_step().0,
                s == mid.pending,
                n == mid.overflow_count(),
                g == drops@.len() - removed,
                g == (if old(self)@.gap_step().1 is Some { 1int } else { 0int }),
                removed <= n,
                self.pending.entries() == s.skip(removed as int),
                self.max_pending == mid.max_pending,
                self.gap_skip_pending == mid.gap_skip_pending,
                self.prebuffer_ms == mid.prebuffer_ms,
                self.playback_started == mid.started,
                self.expected_next_index == (if removed > 0 {
                    Some(sat_add(s[removed - 1].0, 1))
                } else {
                    mid.expected
                }),
                old(self)@.gap_step().1 is Some ==> drops@[0].audio_chunk_index == old(self)@.gap_step().1->0
                    && drops@[0].tts_job_id is None && drops@[0].chunk_id is None && drops@[0].status@
                    == "gap_skip"@,
                forall|i: int| g <= i < g + removed ==> drop_reports(#[trigger] drops@[i], s[i - g], "playback_overflow_drop"@),
            decreases self.pending.entries().len(),
        {
            assert(self.pending.entries().len() == s.len() - removed);
            assert(removed < n);
            let mut q = self.take_pending();
            let (index, frame) = q.remove_first();
            assert(s[removed as int].0 == index);
            assert(q.entries() =~= s.skip(removed + 1));
            proof {
                assert forall|a: int| 0 <= a < q.entries().len() implies #[trigger] q.entries()[a].0 > index by {
                    assert(q.entries()[a] == s[removed + 1 + a]);
                    assert(s[removed as int].0 < s[removed + 1 + a].0);
                }
                if removed > 0 {
                    assert(s[removed - 1].0 < s[removed as int].0);
                } else {
                    assert(mid.expected is Some);
                    assert(s[0].0 >= mid.expected->0);
                }
            }
            self.pending = q;
            if let Some(expected) = self.expected_next_index {
                if expected <= index {
                    let next = if index == u64::MAX { u64::MAX } else { index + 1 };
                    self.expected_next_index = Some(next);
                }
            }
            proof {
                if removed > 0 {
                    assert(s[removed - 1].0 < s[removed as int].0);
                } else {
                    assert(mid.expected is Some);
                    assert(s[0].0 >= mid.expected->0);
                }
            }
            drops.push(
                PlaybackDrop {
                    tts_job_id: frame.metadata.tts_job_id,
                    chunk_id: frame.metadata.chunk_id,
                    audio_chunk_index: index,
                    status: "playback_overflow_drop",
                },
            );
            assert(s.skip(removed as int).drop_first() =~= s.skip(removed + 1));
            removed += 1;
        }
        proof {
            assert(removed == n);
            let f = self@;
            assert(keys_increasing(f.pending)) by {
                assert forall|i: int, j: int| 0 <= i < j < f.pending.len() implies #[trigger] f.pending[i].0
                    < #[trigger] f.pending[j].0 by {
                    assert(f.pending[i] == s[i + n]);
                    assert(f.pending[j] == s[j + n]);
                }
            }
            if let Some(e) = f.expected {
                assert forall|i: int| 0 <= i < f.pending.len() implies #[trigger] f.pending[i].0 >= e by {
                    assert(f.pending[i] == s[i + n]);
                    if n > 0 {
                        assert(s[n - 1].0 < s[i + n].0);
                    }
                }
            } else {
                assert(mid.expected is None);
            }
        }
        drops
    }

    /// Plays the expected chunk if it is waiting (and the prebuffer has filled
    /// once); the expected index then moves one past it.
    pub fn pop_playable(&mut self, format: PcmFormat) -> (r: Option<(u64, PendingPlaybackFrame)>)
        requires
            old(self)@.pending.len() * format.frame_ms <= usize::MAX,
        ensures
            final(self)@.wf(),
            final(self)@ == old(self)@.after_pop(format.frame_ms as nat).0,
            match r {
                Some((i, f)) => old(self)@.after_pop(format.frame_ms as nat).1 == Some(i) && old(self)@.pending.len() > 0
                    && old(self)@.pending[0] == (i, f),
                None => old(self)@.after_pop(format.frame_ms as nat).1 is None,
            },
    {
        proof {
            use_type_invariant(&*self);
        }
        if self.expected_next_index.is_none() {
            self.expected_next_index = self.pending.first_key();
        }
        if !self.playback_started {
            if self.queued_ms(format) < self.prebuffer_ms && self.pending.len() < self.max_pending {
                proof {
                    use_type_invariant(&*self);
                }
                return None;
            }
            self.playback_started = true;
        }
        proof {
            use_type_invariant(&*self);
        }
        let expected = match self.expected_next_index {
            Some(e) => e,
            None => return None,
        };
        let playable = match self.pending.first_key() {
            Some(first) => first == expected,
            None => false,
        };
        if playable {
            let ghost s = self.pending.entries();
            let mut q = self.take_pending();
            let (index, frame) = q.remove_first();
            proof {
                let t = q.entries();
                assert forall|i: int| 0 <= i < t.len() implies #[trigger] t[i].0 >= sat_add(expected, 1) by {
                    assert(t[i] == s[i + 1]);
                    assert(s[0].0 < s[i + 1].0);
                }
                assert forall|i: int, j: int| 0 <= i < j < t.len() implies #[trigger] t[i].0 < #[trigger] t[j].0 by {
                    assert(t[i] == s[i + 1]);
                    assert(t[j] == s[j + 1]);
                }
            }
            self.expected_next_index = Some(if expected == u64::MAX { u64::MAX } else { expected + 1 });
            self.pending = q;
            Some((index, frame))
        } else {
            None
        }
    }

    /// Milliseconds of audio waiting: one frame of `format` per chunk.
    pub fn queued_ms(&self, format: PcmFormat) -> (ms: usize)
        requires
            self@.pending.len() * format.frame_ms <= usize::MAX,
        ensures
            ms == self@.pending.len() * format.frame_ms,
    {
        self.pending.len() * format.frame_ms as usize
    }
}

/// After `apply_pressure` no more than `max_pending` chunks wait.
pub proof fn lemma_pressure_bounds_queue(b: PlaybackBufferView)
    requires
        b.wf(),
    ensures
        b.after_pressure().pending.len() <= b.max_pending,
        b.after_pressure().max_pending == b.max_pending,
{
}

/// `apply_pressure` drops the oldest waiting chunks and only them: what stays
/// is what waited after them, in the same order, and every dropped index is
/// below every index that stays.
pub proof fn lemma_pressure_drops_oldest(b: PlaybackBufferView)
    requires
        b.wf(),
    ensures
        ({
            let a = b.after_pressure();
            let n = b.gap_step().0.overflow_count() as int;
            &&& 0 <= n <= b.pending.len()
            &&& b.pending.take(n) + a.pending == b.pending
            &&& a.pending.len() <= a.max_pending
            &&& keys_increasing(b.pending.take(n))
            &&& forall|i: int, j: int| 0 <= i < n && 0 <= j < a.pending.len() ==> #[trigger] b.pending[i].0
                < #[trigger] a.pending[j].0
        }),
{
    let a = b.after_pressure();
    let n = b.gap_step().0.overflow_count() as int;
    assert(b.gap_step().0.pending == b.pending);
    assert(a.pending == b.pending.skip(n));
    assert(b.pending.take(n) + b.pending.skip(n) =~= b.pending);
    assert forall|i: int, j: int| 0 <= i < n && 0 <= j < a.pending.len() implies #[trigger] b.pending[i].0
        < #[trigger] a.pending[j].0 by {
        assert(a.pending[j] == b.pending[j + n]);
    }
}

/// Playback goes forward: when `pop_playable` plays chunk `i`, every chunk
/// still waiting has a larger index, and a chunk offered later with index `i`
/// or below is dropped as late (unless `i` is the largest index there is).
pub proof fn lemma_played_index_never_replays(b: PlaybackBufferView, frame_ms: nat, j: u64)
    requires
        b.wf(),
        b.after_pop(frame_ms).1 is Some,
        b.after_pop(frame_ms).1->0 < u64::MAX,
        j <= b.after_pop(frame_ms).1->0,
    ensures
        ({
            let (next, played) = b.after_pop(frame_ms);
            &&& forall|k: int| 0 <= k < next.pending.len() ==> #[trigger] next.pending[k].0 > played->0
            &&& next.verdict(j) is Late
        }),
{
    let (next, played) = b.after_pop(frame_ms);
    let s = b.pending;
    assert forall|k: int| 0 <= k < next.pending.len() implies #[trigger] next.pending[k].0 > played->0 by {
        assert(next.pending[k] == s[k + 1]);
        assert(s[0].0 < s[k + 1].0);
    }
}

/// A chunk below the index that plays next is never queued.
pub proof fn lemma_enqueue_rejects_stale(b: PlaybackBufferView, k: u64)
    requires
        b.wf(),
        b.expected is Some,
        k < b.expected->0,
    ensures
        b.verdict(k) is Late,
{
}

} // verus!
