use vstd::prelude::*;

verus! {

use vstd::math::min;

use crate::clock::MasterClock;
use crate::intervals::IntervalSet;
use crate::ring::AudioRing;
use crate::timebase::{audio_time_us, elapsed_us_at, AudioFormat};

/// The sample the output callback owes at position `i` of one buffer
/// request: the `i`-th buffered sample, gated to silence when its
/// session time falls outside the enabled interval set, or silence
/// outright when the ring has run dry.
pub open spec fn expected_output(
    buffered: Seq<i16>,
    start_samples: u64,
    start_offset_us: u64,
    fmt: AudioFormat,
    set: &IntervalSet,
    i: int,
) -> i16 {
    if i < buffered.len() {
        if set.contains(start_offset_us + elapsed_us_at(start_samples + i, fmt)) {
            buffered[i]
        } else {
            0i16
        }
    } else {
        0i16
    }
}

/// Serves one hardware buffer request of `count` samples: pops buffered
/// samples in FIFO order, substitutes silence once the ring runs dry,
/// gates every delivered sample against the enabled interval set at its
/// session time, and advances the master clock by exactly `count`
/// whatever the underrun — so clock-derived time and device time never
/// diverge permanently.
pub fn fill_output(
    ring: &mut AudioRing,
    clock: &mut MasterClock,
    set: &IntervalSet,
    fmt: &AudioFormat,
    start_offset_us: u64,
    count: usize,
) -> (out: Vec<i16>)
    requires
        old(ring).wf(),
        fmt.wf(),
        old(clock).samples() + count <= u64::MAX,
        start_offset_us + elapsed_us_at(old(clock).samples() + count, *fmt) <= u64::MAX,
    ensures
        out@.len() == count,
        final(clock).samples() == old(clock).samples() + count,
        final(clock).samples() >= old(clock).samples(),
        final(ring).wf(),
        final(ring).cap() == old(ring).cap(),
        final(ring).contents() =~= old(ring).contents().skip(
            min(count as int, old(ring).contents().len() as int),
        ),
        forall|i: int|
            0 <= i < count ==> out@[i] == expected_output(
                old(ring).contents(),
                old(clock).samples(),
                start_offset_us,
                *fmt,
                set,
                i,
            ),
{
    let base: u64 = clock.samples_delivered();
    let ghost buffered = ring.contents();
    let mut out: Vec<i16> = Vec::new();
    let mut i: usize = 0;
    while i < count
        invariant
            i <= count,
            out@.len() == i,
            fmt.wf(),
            base == old(clock).samples(),
            base + count <= u64::MAX,
            start_offset_us + elapsed_us_at(base + count, *fmt) <= u64::MAX,
            buffered == old(ring).contents(),
            ring.wf(),
            ring.cap() == old(ring).cap(),
            ring.contents() =~= buffered.skip(min(i as int, buffered.len() as int)),
            forall|j: int|
                0 <= j < i ==> out@[j] == expected_output(
                    buffered,
                    base,
                    start_offset_us,
                    *fmt,
                    set,
                    j,
                ),
        decreases count - i,
    {
        proof {
            crate::timebase::lemma_elapsed_monotonic(
                base + i,
                base + count,
                *fmt,
            );
        }
        let pos: u64 = base + (i as u64);
        let t_us: u64 = start_offset_us + audio_time_us(pos, fmt);
        let popped = ring.pop_front();
        let sample = match popped {
            Some(v) => set.gate_sample(v, t_us),
            None => 0,
        };
        out.push(sample);
        proof {
            let k = min(i as int, buffered.len() as int);
            let k2 = min(i + 1 as int, buffered.len() as int);
            if (i as int) < buffered.len() {
                assert(buffered.skip(k).len() > 0);
                assert(buffered.skip(k)[0] == buffered[k]);
                assert(buffered.skip(k).drop_first() =~= buffered.skip(k2));
            } else {
                assert(buffered.skip(k).len() == 0);
                assert(buffered.skip(k) =~= buffered.skip(k2));
            }
        }
        i = i + 1;
    }
    clock.advance(count as u64);
    out
}

} // verus!
