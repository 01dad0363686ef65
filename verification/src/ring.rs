use vstd::prelude::*;

verus! {

use std::collections::VecDeque;

/// Bounded FIFO of 16-bit signed samples, shared between the audio
/// ingest side (producer) and the audio output callback (consumer).
/// Occupancy never exceeds the configured capacity; a chunk that does
/// not fit is refused whole and the producer retries later, so samples
/// are delayed by backpressure but never discarded once accepted.
pub struct AudioRing {
    samples: VecDeque<i16>,
    capacity: usize,
}

impl AudioRing {
    /// The queued samples, oldest first.
    pub closed spec fn contents(&self) -> Seq<i16> {
        self.samples@
    }

    /// The configured bound on occupancy.
    pub closed spec fn cap(&self) -> usize {
        self.capacity
    }

    /// Occupancy never exceeds the configured capacity.
    pub closed spec fn wf(&self) -> bool {
        self.samples@.len() <= self.capacity
    }

    pub fn new(capacity: usize) -> (ring: AudioRing)
        ensures
            ring.wf(),
            ring.cap() == capacity,
            ring.contents() =~= Seq::<i16>::empty(),
    {
        AudioRing { samples: VecDeque::new(), capacity }
    }

    pub fn len(&self) -> (n: usize)
        ensures
            n == self.contents().len(),
    {
        self.samples.len()
    }

    pub fn capacity(&self) -> (n: usize)
        ensures
            n == self.cap(),
    {
        self.capacity
    }

    /// Whether a chunk of `extra` further samples still fits under the
    /// capacity bound.
    pub fn fits(&self, extra: usize) -> (b: bool)
        ensures
            b == (self.contents().len() + extra <= self.cap()),
    {
        extra <= self.capacity && self.samples.len() <= self.capacity - extra
    }

    /// Appends the whole chunk when it fits under the capacity bound and
    /// refuses it untouched otherwise.  An accepted chunk is queued in
    /// order behind what is already buffered: acceptance never discards
    /// or reorders samples.
    pub fn try_push(&mut self, chunk: &Vec<i16>) -> (accepted: bool)
        requires
            old(self).wf(),
        ensures
            final(self).wf(),
            final(self).cap() == old(self).cap(),
            accepted == (old(self).contents().len() + chunk@.len() <= old(self).cap()),
            accepted ==> final(self).contents() =~= old(self).contents() + chunk@,
            !accepted ==> final(self).contents() == old(self).contents(),
    {
        if !self.fits(chunk.len()) {
            return false;
        }
        let ghost prior = self.samples@;
        let ghost bound = self.capacity;
        let mut i: usize = 0;
        while i < chunk.len()
            invariant
                i <= chunk@.len(),
                self.capacity == bound,
                prior.len() + chunk@.len() <= bound,
                self.samples@ =~= prior + chunk@.take(i as int),
            decreases chunk@.len() - i,
        {
            self.samples.push_back(chunk[i]);
            proof {
                assert(chunk@.take(i + 1 as int) =~= chunk@.take(i as int).push(chunk@[i as int]));
            }
            i = i + 1;
        }
        proof {
            assert(chunk@.take(chunk@.len() as int) =~= chunk@);
        }
        true
    }

    /// Removes and returns the oldest sample, or `None` when the buffer
    /// is empty (the consumer substitutes silence on underrun).
    pub fn pop_front(&mut self) -> (s: Option<i16>)
        requires
            old(self).wf(),
        ensures
            final(self).wf(),
            final(self).cap() == old(self).cap(),
            old(self).contents().len() == 0 ==> s is None
                && final(self).contents() == old(self).contents(),
            old(self).contents().len() > 0 ==> s == Some(old(self).contents()[0])
                && final(self).contents() =~= old(self).contents().drop_first(),
    {
        self.samples.pop_front()
    }

    /// Discards everything buffered; used when a session is torn down.
    pub fn clear(&mut self)
        ensures
            final(self).wf(),
            final(self).cap() == old(self).cap(),
            final(self).contents() =~= Seq::<i16>::empty(),
    {
        self.samples.clear();
    }
}

/// Every sample of an accepted chunk is eventually poppable: once the
/// samples buffered ahead of it and the chunk's own earlier samples have
/// been popped, the next pop returns exactly that sample.
pub proof fn lemma_accepted_sample_poppable(prior: Seq<i16>, chunk: Seq<i16>, k: int)
    requires
        0 <= k < chunk.len(),
    ensures
        (prior + chunk).skip(prior.len() + k)[0] == chunk[k],
{
    assert((prior + chunk).skip(prior.len() + k)[0] == (prior + chunk)[prior.len() + k]);
}

} // verus!
