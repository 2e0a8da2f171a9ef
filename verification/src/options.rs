use vstd::prelude::*;

use crate::sessions::{is_key_place, keys_sorted, lemma_key_place_unique, lemma_sorted_keys_distinct, locate};
use crate::settings::{opt_str, pairs_view};

verus! {

/// Extra provider options: string values under string keys, each key once,
/// kept in increasing key order.
#[derive(Debug, PartialEq, Eq)]
pub struct ExtraOptions {
    keys: Vec<String>,
    values: Vec<String>,
}

/// The keys of `ps`, in order.
pub open spec fn option_keys(ps: Seq<(Seq<char>, Seq<char>)>) -> Seq<Seq<char>> {
    ps.map_values(|p: (Seq<char>, Seq<char>)| p.0)
}

/// Some option of `ps` has key `k`.
pub open spec fn has_option(ps: Seq<(Seq<char>, Seq<char>)>, k: Seq<char>) -> bool {
    exists|i: int| 0 <= i < ps.len() && #[trigger] ps[i].0 == k
}

/// Where key `k` sits in `ps`, when it is there.
pub open spec fn option_index(ps: Seq<(Seq<char>, Seq<char>)>, k: Seq<char>) -> int {
    choose|i: int| 0 <= i < ps.len() && #[trigger] ps[i].0 == k
}

/// The value under `k` in `ps`, if any.
pub open spec fn option_value(ps: Seq<(Seq<char>, Seq<char>)>, k: Seq<char>) -> Option<Seq<char>> {
    if has_option(ps, k) {
        Some(ps[option_index(ps, k)].1)
    } else {
        None
    }
}

/// `ps` with `v` under `k`: the value of an existing key is replaced, a new
/// key goes to its place in key order.
pub open spec fn put_option(ps: Seq<(Seq<char>, Seq<char>)>, k: Seq<char>, v: Seq<char>) -> Seq<
    (Seq<char>, Seq<char>),
> {
    if has_option(ps, k) {
        ps.update(option_index(ps, k), (k, v))
    } else {
        ps.insert(choose|p: int| is_key_place(option_keys(ps), k, p), (k, v))
    }
}

impl View for ExtraOptions {
    type V = Seq<(Seq<char>, Seq<char>)>;

    closed spec fn view(&self) -> Seq<(Seq<char>, Seq<char>)> {
        Seq::new(self.keys@.len(), |i: int| (self.keys@[i]@, self.values@[i]@))
    }
}

impl ExtraOptions {
    #[verifier::type_invariant]
    spec fn in_key_order(&self) -> bool {
        &&& self.keys@.len() == self.values@.len()
        &&& keys_sorted(self.keys@.map_values(|s: String| s@))
    }

    /// No options.
    pub fn new() -> (o: ExtraOptions)
        ensures
            o@ == Seq::<(Seq<char>, Seq<char>)>::empty(),
    {
        let keys: Vec<String> = Vec::new();
        let values: Vec<String> = Vec::new();
        assert(keys@.map_values(|s: String| s@) =~= Seq::<Seq<char>>::empty());
        let o = ExtraOptions { keys, values };
        assert(o@ =~= Seq::<(Seq<char>, Seq<char>)>::empty());
        o
    }

    /// The value under `key`.
    pub fn get(&self, key: &str) -> (r: Option<String>)
        ensures
            opt_str(r) == option_value(self@, key@),
    {
        proof {
            use_type_invariant(self);
            assert(option_keys(self@) =~= self.keys@.map_values(|s: String| s@));
        }
        let (i, found) = locate(&self.keys, key);
        if found {
            let v = self.values[i].clone();
            proof {
                let ps = self@;
                assert(ps[i as int].0 == key@);
                let j = option_index(ps, key@);
                assert(self.keys@.map_values(|s: String| s@)[j] == ps[j].0);
                assert(self.keys@.map_values(|s: String| s@)[i as int] == ps[i as int].0);
                if j != i {
                    lemma_sorted_keys_distinct(option_keys(ps), j, i as int);
                }
            }
            Some(v)
        } else {
            proof {
                let ps = self@;
                if has_option(ps, key@) {
                    let j = choose|j: int| 0 <= j < ps.len() && #[trigger] ps[j].0 == key@;
                    assert(self.keys@.map_values(|s: String| s@)[j] == key@);
                }
            }
            None
        }
    }

    /// Sets `key` to `value`: see `put_option`.
    pub fn insert(&mut self, key: String, value: String)
        ensures
            final(self)@ == put_option(old(self)@, key@, value@),
    {
        proof {
            use_type_invariant(&*self);
            assert(option_keys(self@) =~= self.keys@.map_values(|s: String| s@));
        }
        let ghost ps = self@;
        let ghost ks = self.keys@.map_values(|s: String| s@);
        let mut taken = ExtraOptions::new();
        std::mem::swap(&mut taken, self);
        let ExtraOptions { mut keys, mut values } = taken;
        let (at, found) = locate(&keys, key.as_str());
        let ghost kv = key@;
        let ghost vv = value@;
        if found {
            values.set(at, value);
            proof {
                assert(ps[at as int].0 == kv);
                assert(has_option(ps, kv));
                let i = option_index(ps, kv);
                assert(ks[i] == ps[i].0);
                assert(ks[at as int] == ps[at as int].0);
                if i != at {
                    lemma_sorted_keys_distinct(ks, i, at as int);
                }
                assert(i == at);
                assert(put_option(ps, kv, vv) == ps.update(at as int, (kv, vv)));
            }
            *self = ExtraOptions { keys, values };
            assert(self@ =~= ps.update(at as int, (kv, vv)));
        } else {
            keys.insert(at, key);
            values.insert(at, value);
            assert(keys@.map_values(|s: String| s@) =~= ks.insert(at as int, kv));
            proof {
                crate::sessions::lemma_insert_keeps_sorted(ks, kv, at as int);
                if has_option(ps, kv) {
                    let i = choose|i: int| 0 <= i < ps.len() && #[trigger] ps[i].0 == kv;
                    assert(ks[i] == kv);
                    assert(ks.contains(kv));
                }
                assert(!has_option(ps, kv));
                assert(is_key_place(option_keys(ps), kv, at as int));
                let p = choose|p: int| is_key_place(option_keys(ps), kv, p);
                lemma_key_place_unique(option_keys(ps), kv, at as int, p);
                assert(put_option(ps, kv, vv) == ps.insert(at as int, (kv, vv)));
            }
            *self = ExtraOptions { keys, values };
            assert(self@ =~= ps.insert(at as int, (kv, vv)));
        }
    }

    /// The options as key/value pairs, in key order.
    pub fn entries(&self) -> (v: Vec<(String, String)>)
        ensures
            pairs_view(v@) == self@,
    {
        proof {
            use_type_invariant(self);
        }
        let mut v: Vec<(String, String)> = Vec::new();
        let mut i: usize = 0;
        while i < self.keys.len()
            invariant
                i <= self.keys@.len(),
                self.keys@.len() == self.values@.len(),
                pairs_view(v@) == self@.take(i as int),
            decreases self.keys.len() - i,
        {
            let ghost before = v@;
            v.push((self.keys[i].clone(), self.values[i].clone()));
            assert(pairs_view(v@) =~= pairs_view(before).push(self@[i as int]));
            assert(self@.take(i as int + 1) =~= self@.take(i as int).push(self@[i as int]));
            i += 1;
        }
        assert(self@.take(self.keys.len() as int) =~= self@);
        v
    }

    /// A copy of these options.
    pub fn duplicate(&self) -> (r: ExtraOptions)
        ensures
            r@ == self@,
    {
        proof {
            use_type_invariant(self);
        }
        let mut keys: Vec<String> = Vec::new();
        let mut values: Vec<String> = Vec::new();
        let mut i: usize = 0;
        while i < self.keys.len()
            invariant
                i <= self.keys@.len(),
                self.keys@.len() == self.values@.len(),
                keys@.len() == i,
                values@.len() == i,
                forall|j: int| 0 <= j < i ==> #[trigger] keys@[j]@ == self.keys@[j]@,
                forall|j: int| 0 <= j < i ==> #[trigger] values@[j]@ == self.values@[j]@,
            decreases self.keys.len() - i,
        {
            keys.push(self.keys[i].clone());
            values.push(self.values[i].clone());
            i += 1;
        }
        assert(keys@.map_values(|s: String| s@) =~= self.keys@.map_values(|s: String| s@));
        let r = ExtraOptions { keys, values };
        assert(r@ =~= self@);
        r
    }

    /// Equal by views.
    pub fn same_as(&self, other: &ExtraOptions) -> (r: bool)
        ensures
            r == (self@ == other@),
    {
        let a = self.entries();
        let b = other.entries();
        crate::settings::same_pairs(&a, &b)
    }
}

impl Clone for ExtraOptions {
    /// A copy with the same options.
    fn clone(&self) -> (r: Self)
        ensures
            r@ == self@,
    {
        self.duplicate()
    }
}

} // verus!
