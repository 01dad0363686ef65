use vstd::prelude::*;

verus! {

/// Monotonic count of audio samples actually delivered to the output
/// device; the authoritative session time source.  It is written only by
/// the audio output callback and never decreases or wraps.
pub struct MasterClock {
    total: u64,
}

impl MasterClock {
    /// Total samples delivered since the clock was created.
    pub closed spec fn samples(&self) -> u64 {
        self.total
    }

    pub fn new() -> (clock: MasterClock)
        ensures
            clock.samples() == 0,
    {
        MasterClock { total: 0 }
    }

    /// Advance by the number of samples just delivered to the device.
    /// The clock only ever moves forward.
    pub fn advance(&mut self, delivered: u64)
        requires
            old(self).samples() + delivered <= u64::MAX,
        ensures
            final(self).samples() == old(self).samples() + delivered,
            final(self).samples() >= old(self).samples(),
    {
        self.total = self.total + delivered;
    }

    pub fn samples_delivered(&self) -> (n: u64)
        ensures
            n == self.samples(),
    {
        self.total
    }
}

/// Clock value reached after a sequence of callback invocations, each
/// delivering the given number of samples.
pub open spec fn clock_after(deltas: Seq<u64>) -> int
    decreases deltas.len(),
{
    if deltas.len() == 0 {
        0
    } else {
        clock_after(deltas.drop_last()) + deltas.last()
    }
}

/// Across any sequence of callback invocations the master clock value is
/// non-decreasing: a later prefix of deliveries never yields a smaller
/// clock value than an earlier one.
pub proof fn lemma_clock_monotonic(deltas: Seq<u64>, i: int, j: int)
    requires
        0 <= i <= j <= deltas.len(),
    ensures
        clock_after(deltas.take(i)) <= clock_after(deltas.take(j)),
    decreases j - i,
{
    if i < j {
        lemma_clock_monotonic(deltas, i, j - 1);
        assert(deltas.take(j).drop_last() =~= deltas.take(j - 1));
    }
}

} // verus!
