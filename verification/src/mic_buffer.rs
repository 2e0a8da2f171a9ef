use vstd::prelude::*;

verus! {

/// How many consumed samples may pile up before the buffer is compacted.
pub const COMPACT_AFTER_SAMPLES: usize = 4096;

/// The samples waiting to be written to the virtual microphone, oldest
/// first; consumed samples are dropped lazily.
#[derive(Debug)]
pub struct VirtualMicSampleBuffer<T> {
    samples: Vec<T>,
    cursor: usize,
}

/// The pending samples once `incoming` arrives and only the newest
/// `max_samples` are kept.
pub open spec fn bounded_append<T>(pending: Seq<T>, incoming: Seq<T>, max_samples: nat) -> Seq<T> {
    let all = pending + incoming;
    if all.len() > max_samples {
        all.skip(all.len() - max_samples)
    } else {
        all
    }
}

impl<T> VirtualMicSampleBuffer<T> {
    /// The cursor never passes the end of the stored samples.
    #[verifier::type_invariant]
    spec fn cursor_in_bounds(&self) -> bool {
        self.cursor <= self.samples@.len()
    }
}

impl<T: Copy> VirtualMicSampleBuffer<T> {
    /// The samples not yet consumed, oldest first.
    pub closed spec fn pending(&self) -> Seq<T> {
        self.samples@.skip(self.cursor as int)
    }

    /// How many consumed samples are still held in storage.
    pub closed spec fn consumed(&self) -> nat {
        self.cursor as nat
    }


    /// An empty buffer.
    pub fn new() -> (b: VirtualMicSampleBuffer<T>)
        ensures
            b.pending().len() == 0,
    {
        let b = VirtualMicSampleBuffer { samples: Vec::new(), cursor: 0 };
        assert(b.samples@.skip(0) =~= Seq::<T>::empty());
        b
    }

    /// How many samples wait.
    pub fn available(&self) -> (n: usize)
        ensures
            n == self.pending().len(),
    {
        proof {
            use_type_invariant(self);
        }
        self.samples.len() - self.cursor
    }

    /// Drops consumed samples from storage once the buffer is exhausted, or
    /// when more than `COMPACT_AFTER_SAMPLES` consumed samples make up most of it.
    pub fn compact_if_needed(&mut self)
        ensures
            final(self).pending() == old(self).pending(),
            final(self).consumed() == if old(self).pending().len() == 0 || (old(self).consumed()
                > COMPACT_AFTER_SAMPLES && old(self).consumed() > old(self).pending().len()) {
                0
            } else {
                old(self).consumed()
            },
    {
        proof {
            use_type_invariant(&*self);
        }
        if self.cursor == 0 {
            return;
        }
        if self.cursor >= self.samples.len() {
            let ghost before = self.pending();
            self.cursor = 0;
            self.samples = Vec::new();
            assert(self.samples@.skip(0) =~= before);
        } else if self.cursor > COMPACT_AFTER_SAMPLES && self.cursor > self.samples.len() - self.cursor {
            let ghost before = self.pending();
            let mut kept: Vec<T> = Vec::new();
            let mut i = self.cursor;
            while i < self.samples.len()
                invariant
                    self.cursor <= i <= self.samples@.len(),
                    kept@ == self.samples@.subrange(self.cursor as int, i as int),
                decreases self.samples.len() - i,
            {
                kept.push(self.samples[i]);
                i += 1;
            }
            assert(kept@ =~= before);
            self.cursor = 0;
            self.samples = kept;
            assert(self.samples@.skip(0) =~= before);
        }
    }

    /// Adds `incoming`, keeping only the newest `max_samples` samples waiting.
    pub fn extend_bounded(&mut self, incoming: &[T], max_samples: usize)
        requires
            old(self).pending().len() + incoming@.len() <= usize::MAX,
        ensures
            final(self).pending() == bounded_append(old(self).pending(), incoming@, max_samples as nat),
    {
        proof {
            use_type_invariant(&*self);
        }
        let ghost start = self.pending();
        self.compact_if_needed();
        proof {
            use_type_invariant(&*self);
        }
        if incoming.len() >= max_samples {
            let mut fresh: Vec<T> = Vec::new();
            let mut i = incoming.len() - max_samples;
            let from = i;
            while i < incoming.len()
                invariant
                    from <= i <= incoming@.len(),
                    from == incoming@.len() - max_samples,
                    fresh@ == incoming@.subrange(from as int, i as int),
                decreases incoming.len() - i,
            {
                fresh.push(incoming[i]);
                i += 1;
            }
            self.cursor = 0;
            self.samples = fresh;
            proof {
                let all = start + incoming@;
                assert(self.samples@.skip(0) =~= self.samples@);
                if all.len() > max_samples {
                    assert(all.skip(all.len() - max_samples) =~= incoming@.subrange(from as int, incoming@.len() as int));
                } else {
                    assert(start.len() == 0 && incoming@.len() == max_samples);
                    assert(all =~= incoming@);
                }
            }
            return;
        }
        let overflow = self.available() + incoming.len();
        assert(self.samples@.len() - self.cursor == self.pending().len());
        if overflow > max_samples {
            assert(incoming@.len() < max_samples);
            assert(overflow - max_samples < self.samples@.len() - self.cursor);
            let advance = overflow - max_samples;
            let c = self.cursor;
            assert(c + advance < self.samples@.len());
            assert(self.samples@.len() == self.samples.len());
            self.cursor = c + advance;
            self.compact_if_needed();
        }
        proof {
            use_type_invariant(&*self);
        }
        let ghost kept = self.pending();
        let mut taken = VirtualMicSampleBuffer::new();
        std::mem::swap(&mut taken, self);
        let VirtualMicSampleBuffer { mut samples, cursor } = taken;
        let mut i: usize = 0;
        let ghost base = samples@;
        while i < incoming.len()
            invariant
                i <= incoming@.len(),
                cursor <= base.len(),
                samples@ == base + incoming@.take(i as int),
                kept == base.skip(cursor as int),
            decreases incoming.len() - i,
        {
            samples.push(incoming[i]);
            assert(incoming@.take(i as int + 1) =~= incoming@.take(i as int).push(incoming@[i as int]));
            i += 1;
        }
        *self = VirtualMicSampleBuffer { samples, cursor };
        proof {
            assert(incoming@.take(incoming@.len() as int) =~= incoming@);
            assert(self.pending() =~= kept + incoming@);
            let all = start + incoming@;
            if all.len() > max_samples {
                assert(kept =~= start.skip(all.len() - max_samples));
                assert(all.skip(all.len() - max_samples) =~= start.skip(all.len() - max_samples) + incoming@);
            } else {
                assert(kept =~= start);
            }
        }
    }

    /// The oldest waiting sample, or `zero` (and a reset buffer) when none waits.
    pub fn next_or_zero(&mut self, zero: T) -> (s: T)
        ensures
            if old(self).pending().len() == 0 {
                s == zero && final(self).pending().len() == 0
            } else {
                s == old(self).pending()[0] && final(self).pending() == old(self).pending().drop_first()
            },
    {
        proof {
            use_type_invariant(&*self);
        }
        if self.cursor >= self.samples.len() {
            self.cursor = 0;
            self.samples = Vec::new();
            assert(self.samples@.skip(0) =~= Seq::<T>::empty());
            return zero;
        }
        let ghost before = self.pending();
        let s = self.samples[self.cursor];
        self.cursor += 1;
        assert(self.pending() =~= before.drop_first());
        s
    }
}


/// The buffer never holds more than the limit, and what it holds are the
/// newest samples, in arrival order.
pub proof fn lemma_bounded_append_keeps_newest<T>(pending: Seq<T>, incoming: Seq<T>, max_samples: nat)
    ensures
        ({
            let all = pending + incoming;
            let kept = bounded_append(pending, incoming, max_samples);
            &&& kept.len() <= max_samples || kept.len() == all.len()
            &&& kept.len() <= all.len()
            &&& kept == all.skip(all.len() - kept.len())
        }),
{
    let all = pending + incoming;
    if all.len() <= max_samples {
        assert(all.skip(0) =~= all);
    }
}

} // verus!
