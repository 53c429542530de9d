//! The sliding window of the most recent audio samples.
use vstd::prelude::*;

verus! {

/// The last `n` elements of `s`, or all of `s` where it holds fewer.
pub open spec fn keep_latest<T>(s: Seq<T>, n: nat) -> Seq<T> {
    if s.len() <= n {
        s
    } else {
        s.subrange(s.len() - n, s.len() as int)
    }
}

/// The buffer's contents after `chunks` are added in order, one call each,
/// starting from `start`.
pub open spec fn after_chunks<T>(start: Seq<T>, chunks: Seq<Seq<T>>, n: nat) -> Seq<T>
    decreases chunks.len(),
{
    if chunks.len() == 0 {
        start
    } else {
        after_chunks(keep_latest(start + chunks[0], n), chunks.drop_first(), n)
    }
}

proof fn lemma_keep_latest_absorbs<T>(s: Seq<T>, t: Seq<T>, n: nat)
    ensures
        keep_latest(keep_latest(s, n) + t, n) == keep_latest(s + t, n),
{
    if s.len() > n {
        let k = keep_latest(s, n);
        assert(keep_latest(k + t, n) =~= keep_latest(s + t, n));
    }
}

/// Eviction is first in, first out for every sequence of additions: however
/// the input is cut into chunks, the buffer ends up holding exactly the most
/// recent `n` samples of all input (all of it while there are fewer).
pub proof fn lemma_eviction_keeps_latest<T>(start: Seq<T>, chunks: Seq<Seq<T>>, n: nat)
    requires
        start.len() <= n,
    ensures
        after_chunks(start, chunks, n) == keep_latest(start + chunks.flatten(), n),
    decreases chunks.len(),
{
    if chunks.len() == 0 {
        assert(start + chunks.flatten() =~= start);
    } else {
        let next = keep_latest(start + chunks[0], n);
        lemma_eviction_keeps_latest(next, chunks.drop_first(), n);
        lemma_keep_latest_absorbs(start + chunks[0], chunks.drop_first().flatten(), n);
        assert(start + chunks[0] + chunks.drop_first().flatten() =~= start + chunks.flatten());
    }
}

/// The samples received so far, oldest first, holding at most the most
/// recent `buffer_size` of them after each addition.
pub struct SampleBuffer<T> {
    samples: Vec<T>,
}

impl<T> View for SampleBuffer<T> {
    type V = Seq<T>;

    closed spec fn view(&self) -> Seq<T> {
        self.samples@
    }
}

impl<T: Copy> SampleBuffer<T> {
    /// An empty buffer with room reserved for `buffer_size` samples.
    pub fn new(buffer_size: usize) -> (r: Self)
        ensures
            r@ == Seq::<T>::empty(),
    {
        SampleBuffer { samples: Vec::with_capacity(buffer_size) }
    }

    /// Appends `samples` in order, then drops the oldest samples so that at
    /// most `buffer_size` remain.
    pub fn add_samples(&mut self, samples: &[T], buffer_size: usize)
        ensures
            final(self)@ == keep_latest(old(self)@ + samples@, buffer_size as nat),
    {
        let ghost start = self@;
        let mut i: usize = 0;
        while i < samples.len()
            invariant
                i <= samples@.len(),
                self@ == start + samples@.subrange(0, i as int),
            decreases samples@.len() - i,
        {
            self.samples.push(samples[i]);
            i = i + 1;
            assert(samples@.subrange(0, i as int) == samples@.subrange(0, i - 1 as int).push(
                samples@[i - 1],
            ));
        }
        assert(samples@.subrange(0, samples@.len() as int) == samples@);
        let len = self.samples.len();
        if len > buffer_size {
            self.samples = self.samples.split_off(len - buffer_size);
        }
    }

    /// The number of samples held.
    pub fn len(&self) -> (r: usize)
        ensures
            r == self@.len(),
    {
        self.samples.len()
    }

    /// Whether no sample is held.
    pub fn is_empty(&self) -> (r: bool)
        ensures
            r == (self@.len() == 0),
    {
        self.samples.len() == 0
    }

    /// All samples held, oldest first.
    pub fn samples(&self) -> (r: &[T])
        ensures
            r@ == self@,
    {
        self.samples.as_slice()
    }

    /// The most recent `n` samples, oldest first; `None` while fewer than
    /// `n` have been received.
    pub fn latest(&self, n: usize) -> (r: Option<&[T]>)
        ensures
            r is None <==> self@.len() < n,
            r matches Some(w) ==> w@ == keep_latest(self@, n as nat),
    {
        let len = self.samples.len();
        if len < n {
            None
        } else {
            let w = &self.samples.as_slice()[len - n..len];
            assert(len == n ==> self@.subrange(0, len as int) == self@);
            Some(w)
        }
    }
}

} // verus!
