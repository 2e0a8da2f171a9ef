use std::collections::BTreeMap;
use vstd::prelude::*;
use vstd::std_specs::cmp::OrdSpec;
use vstd::std_specs::iter::IteratorSpec;

use crate::playback::{has_key, insertion_point, is_insertion_point, keys_increasing, PendingPlaybackFrame};

verus! {

/// The frames waiting for playback, keyed by chunk index in a `BTreeMap`.
/// `entries` lists them in increasing index order.
#[derive(Debug)]
pub struct FrameQueue {
    frames: BTreeMap<u64, PendingPlaybackFrame>,
}

/// `s` lists the frames of `m` in increasing index order.
pub open spec fn lists(m: Map<u64, PendingPlaybackFrame>, s: Seq<(u64, PendingPlaybackFrame)>) -> bool {
    &&& keys_increasing(s)
    &&& m.dom().len() == s.len()
    &&& forall|i: int| 0 <= i < s.len() ==> m.contains_key(#[trigger] s[i].0) && m[s[i].0] == s[i].1
    &&& forall|k: u64| #[trigger] m.contains_key(k) ==> has_key(s, k)
}

/// Two increasing listings of one map are the same.
proof fn lemma_lists_unique(
    m: Map<u64, PendingPlaybackFrame>,
    s1: Seq<(u64, PendingPlaybackFrame)>,
    s2: Seq<(u64, PendingPlaybackFrame)>,
)
    requires
        m.dom().finite(),
        lists(m, s1),
        lists(m, s2),
    ensures
        s1 == s2,
    decreases s1.len(),
{
    if s1.len() > 0 {
        let a = s1[0].0;
        let b = s2[0].0;
        let i = choose|i: int| 0 <= i < s2.len() && #[trigger] s2[i].0 == a;
        let j = choose|j: int| 0 <= j < s1.len() && #[trigger] s1[j].0 == b;
        assert(m.contains_key(s1[0].0));
        assert(m.contains_key(s2[0].0));
        if i > 0 {
            assert(s2[0].0 < s2[i].0);
        }
        if j > 0 {
            assert(s1[0].0 < s1[j].0);
        }
        assert(a == b);
        let m2 = m.remove(a);
        let t1 = s1.drop_first();
        let t2 = s2.drop_first();
        assert forall|p: int, q: int| 0 <= p < q < t1.len() implies #[trigger] t1[p].0 < #[trigger] t1[q].0 by {
            assert(s1[p + 1].0 < s1[q + 1].0);
        }
        assert forall|p: int, q: int| 0 <= p < q < t2.len() implies #[trigger] t2[p].0 < #[trigger] t2[q].0 by {
            assert(s2[p + 1].0 < s2[q + 1].0);
        }
        assert forall|p: int| 0 <= p < t1.len() implies m2.contains_key(#[trigger] t1[p].0) && m2[t1[p].0]
            == t1[p].1 by {
            assert(s1[0].0 < s1[p + 1].0);
        }
        assert forall|p: int| 0 <= p < t2.len() implies m2.contains_key(#[trigger] t2[p].0) && m2[t2[p].0]
            == t2[p].1 by {
            assert(s2[0].0 < s2[p + 1].0);
        }
        assert forall|k: u64| #[trigger] m2.contains_key(k) implies has_key(t1, k) by {
            let p = choose|p: int| 0 <= p < s1.len() && #[trigger] s1[p].0 == k;
            assert(p != 0);
            assert(t1[p - 1].0 == k);
        }
        assert forall|k: u64| #[trigger] m2.contains_key(k) implies has_key(t2, k) by {
            let p = choose|p: int| 0 <= p < s2.len() && #[trigger] s2[p].0 == k;
            assert(p != 0);
            assert(t2[p - 1].0 == k);
        }
        lemma_lists_unique(m2, t1, t2);
        assert(s1[0] == s2[0]);
        assert forall|p: int| 0 <= p < s1.len() implies s1[p] == s2[p] by {
            if p > 0 {
                assert(s1[p] == t1[p - 1]);
                assert(s2[p] == t2[p - 1]);
            }
        }
        assert(s1 =~= s2);
    } else {
        assert(s2.len() == 0);
        assert(s1 =~= s2);
    }
}

/// An increasing sequence of indices has a place for every further index.
pub proof fn lemma_insertion_point_exists(s: Seq<(u64, PendingPlaybackFrame)>, k: u64)
    requires
        keys_increasing(s),
    ensures
        is_insertion_point(s, k, insertion_point(s, k)),
    decreases s.len(),
{
    if s.len() == 0 {
        assert(is_insertion_point(s, k, 0));
    } else {
        let t = s.drop_last();
        assert forall|i: int, j: int| 0 <= i < j < t.len() implies #[trigger] t[i].0 < #[trigger] t[j].0 by {
            assert(s[i].0 < s[j].0);
        }
        lemma_insertion_point_exists(t, k);
        let p = insertion_point(t, k);
        if s.last().0 < k {
            assert forall|j: int| 0 <= j < s.len() implies #[trigger] s[j].0 < k by {
                if j < t.len() {
                    assert(s[j].0 < s[s.len() - 1].0);
                }
            }
            assert(is_insertion_point(s, k, s.len() as int));
        } else {
            assert forall|j: int| 0 <= j < p implies #[trigger] s[j].0 < k by {
                assert(t[j].0 < k);
            }
            assert forall|j: int| p <= j < s.len() implies #[trigger] s[j].0 >= k by {
                if j < t.len() {
                    assert(t[j].0 >= k);
                }
            }
            assert(is_insertion_point(s, k, p));
        }
    }
}

/// The first item that `iter` yields.
fn first_item<I: Iterator>(iter: I) -> (r: Option<I::Item>)
    ensures
        iter.obeys_prophetic_iter_laws() ==> r == (if iter.remaining().len() > 0 {
            Some(iter.remaining()[0])
        } else {
            None::<I::Item>
        }),
{
    let mut iter = iter;
    iter.next()
}

impl FrameQueue {
    /// The queued frames in increasing index order.
    pub closed spec fn entries(&self) -> Seq<(u64, PendingPlaybackFrame)> {
        choose|s: Seq<(u64, PendingPlaybackFrame)>| lists(self.frames@, s)
    }

    /// `entries` lists the map's frames.
    proof fn lemma_entries(&self)
        ensures
            lists(self.frames@, self.entries()),
            self.frames@.dom().finite(),
            ({
                let rem = vstd::std_specs::btree::spec_keys_iter(&self.frames).remaining();
                &&& rem.len() == self.entries().len()
                &&& forall|i: int| 0 <= i < rem.len() ==> *rem[i] == #[trigger] self.entries()[i].0
            }),
    {
        assert(vstd::laws_cmp::obeys_cmp::<u64>());
        assert(vstd::std_specs::btree::key_obeys_cmp_spec::<u64>());
        let m = self.frames@;
        let rem = vstd::std_specs::btree::spec_keys_iter(&self.frames).remaining();
        let ks = rem.unref();
        assert(vstd::laws_cmp::obeys_cmp::<&u64>());
        assert(vstd::std_specs::btree::increasing_seq(rem));
        let s = Seq::new(ks.len(), |i: int| (ks[i], m[ks[i]]));
        assert forall|i: int, j: int| 0 <= i < j < s.len() implies #[trigger] s[i].0 < #[trigger] s[j].0 by {
            assert(OrdSpec::cmp_spec(&rem[i], &rem[j]) is Less);
        }
        assert forall|i: int| 0 <= i < s.len() implies m.contains_key(#[trigger] s[i].0) && m[s[i].0] == s[i].1 by {
            assert(ks.contains(ks[i]));
            assert(ks.to_set().contains(ks[i]));
        }
        assert forall|k: u64| #[trigger] m.contains_key(k) implies has_key(s, k) by {
            assert(ks.to_set().contains(k));
            assert(ks.contains(k));
            let i = choose|i: int| 0 <= i < ks.len() && ks[i] == k;
            assert(s[i].0 == k);
        }
        assert(lists(m, s));
        lemma_lists_unique(m, s, self.entries());
    }

    /// An empty queue.
    pub fn new() -> (q: FrameQueue)
        ensures
            q.entries() == Seq::<(u64, PendingPlaybackFrame)>::empty(),
    {
        let q = FrameQueue { frames: BTreeMap::new() };
        proof {
            q.lemma_entries();
            assert(q.entries().len() == 0);
            assert(q.entries() =~= Seq::<(u64, PendingPlaybackFrame)>::empty());
        }
        q
    }

    /// How many frames wait.
    pub fn len(&self) -> (n: usize)
        ensures
            n == self.entries().len(),
    {
        proof {
            self.lemma_entries();
        }
        self.frames.len()
    }

    /// Whether a frame with index `k` waits.
    pub fn contains(&self, k: u64) -> (r: bool)
        ensures
            r == has_key(self.entries(), k),
    {
        proof {
            self.lemma_entries();
        }
        let r = self.frames.contains_key(&k);
        proof {
            let s = self.entries();
            if has_key(s, k) {
                let i = choose|i: int| 0 <= i < s.len() && #[trigger] s[i].0 == k;
                assert(self.frames@.contains_key(s[i].0));
            }
        }
        r
    }

    /// The lowest waiting index.
    pub fn first_key(&self) -> (r: Option<u64>)
        ensures
            r == (if self.entries().len() > 0 {
                Some(self.entries()[0].0)
            } else {
                None::<u64>
            }),
    {
        proof {
            self.lemma_entries();
        }
        proof {
            assert(vstd::laws_cmp::obeys_cmp::<u64>());
            assert(vstd::std_specs::btree::key_obeys_cmp_spec::<u64>());
        }
        match first_item(self.frames.keys()) {
            Some(k) => Some(*k),
            None => None,
        }
    }

    /// Queues `frame` under index `k`, which is not queued yet.
    pub fn insert(&mut self, k: u64, frame: PendingPlaybackFrame)
        requires
            !has_key(old(self).entries(), k),
        ensures
            final(self).entries() == old(self).entries().insert(
                insertion_point(old(self).entries(), k),
                (k, frame),
            ),
    {
        proof {
            self.lemma_entries();
        }
        let ghost s = self.entries();
        let ghost p = insertion_point(s, k);
        let ghost t = s.insert(p, (k, frame));
        proof {
            lemma_insertion_point_exists(s, k);
            assert(!self.frames@.contains_key(k));
        }
        self.frames.insert(k, frame);
        proof {
            assert forall|i: int, j: int| 0 <= i < j < t.len() implies #[trigger] t[i].0 < #[trigger] t[j].0 by {
                if j < p {
                } else if j == p {
                    assert(t[i].0 == s[i].0);
                } else if i < p {
                    assert(t[j].0 == s[j - 1].0);
                    assert(s[i].0 < k);
                } else if i == p {
                    assert(t[j].0 == s[j - 1].0);
                    assert(s[j - 1].0 >= k);
                    assert(s[j - 1].0 != k);
                } else {
                    assert(s[i - 1].0 < s[j - 1].0);
                }
            }
            assert forall|i: int| 0 <= i < t.len() implies self.frames@.contains_key(#[trigger] t[i].0)
                && self.frames@[t[i].0] == t[i].1 by {
                if i < p {
                    assert(t[i] == s[i]);
                    assert(s[i].0 != k);
                } else if i > p {
                    assert(t[i] == s[i - 1]);
                    assert(s[i - 1].0 != k);
                }
            }
            assert forall|q: u64| #[trigger] self.frames@.contains_key(q) implies has_key(t, q) by {
                if q == k {
                    assert(t[p].0 == k);
                } else {
                    let i = choose|i: int| 0 <= i < s.len() && #[trigger] s[i].0 == q;
                    if i < p {
                        assert(t[i].0 == q);
                    } else {
                        assert(t[i + 1].0 == q);
                    }
                }
            }
            assert(lists(self.frames@, t));
            self.lemma_entries();
            lemma_lists_unique(self.frames@, self.entries(), t);
        }
    }

    /// Takes out the frame with the lowest index; the queue is not empty.
    pub fn remove_first(&mut self) -> (r: (u64, PendingPlaybackFrame))
        requires
            old(self).entries().len() > 0,
        ensures
            r == old(self).entries()[0],
            final(self).entries() == old(self).entries().drop_first(),
    {
        proof {
            self.lemma_entries();
        }
        let ghost s = self.entries();
        let k = self.first_key().unwrap();
        let removed = self.frames.remove(&k);
        proof {
            assert(s[0].0 == k);
            assert(self.frames@.contains_key(k) == false);
            let t = s.drop_first();
            assert forall|i: int, j: int| 0 <= i < j < t.len() implies #[trigger] t[i].0 < #[trigger] t[j].0 by {
                assert(s[i + 1].0 < s[j + 1].0);
            }
            assert forall|i: int| 0 <= i < t.len() implies self.frames@.contains_key(#[trigger] t[i].0)
                && self.frames@[t[i].0] == t[i].1 by {
                assert(s[0].0 < s[i + 1].0);
            }
            assert forall|q: u64| #[trigger] self.frames@.contains_key(q) implies has_key(t, q) by {
                let i = choose|i: int| 0 <= i < s.len() && #[trigger] s[i].0 == q;
                assert(i != 0);
                assert(t[i - 1].0 == q);
            }
            assert(lists(self.frames@, t));
            self.lemma_entries();
            lemma_lists_unique(self.frames@, self.entries(), t);
        }
        (k, removed.unwrap())
    }
}

} // verus!
