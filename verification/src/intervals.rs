use vstd::prelude::*;

verus! {

use crate::clips::Clip;

/// Half-open range of session time, in whole microseconds.
#[derive(Clone, Copy)]
pub struct Interval {
    pub start_us: u64,
    pub end_us: u64,
}

impl Interval {
    pub open spec fn wf(&self) -> bool {
        self.start_us < self.end_us
    }

    pub open spec fn contains(&self, t: int) -> bool {
        self.start_us <= t < self.end_us
    }
}

/// The timeline ranges during which audio output is audible, derived
/// once per session from the clips' audio-enable flags and immutable for
/// the session's lifetime.  Spans follow the clip order; empty or
/// audio-disabled clips contribute nothing.
pub struct IntervalSet {
    spans: Vec<Interval>,
}

/// Whether some audio-enabled clip covers the instant `t`.
pub open spec fn clips_enable(clips: Seq<Clip>, t: int) -> bool {
    exists|i: int| 0 <= i < clips.len() && clips[i].audio_enabled && clips[i].covers(t)
}

/// Whether some span of the list covers the instant `t`.
pub open spec fn spans_cover(spans: Seq<Interval>, t: int) -> bool {
    exists|k: int| 0 <= k < spans.len() && spans[k].contains(t)
}

impl IntervalSet {
    pub closed spec fn spans(&self) -> Seq<Interval> {
        self.spans@
    }

    pub closed spec fn wf(&self) -> bool {
        forall|i: int| 0 <= i < self.spans@.len() ==> self.spans@[i].wf()
    }

    /// Whether the instant `t` of session time is audible.
    pub open spec fn contains(&self, t: int) -> bool {
        spans_cover(self.spans(), t)
    }

    /// Derives the enabled set from the clip list: one span per
    /// audio-enabled clip of positive length, covering exactly the
    /// instants some such clip covers.
    pub fn from_clips(clips: &Vec<Clip>) -> (set: IntervalSet)
        ensures
            set.wf(),
            forall|t: int| #[trigger] set.contains(t) == clips_enable(clips@, t),
    {
        let mut spans: Vec<Interval> = Vec::new();
        let mut i: usize = 0;
        while i < clips.len()
            invariant
                i <= clips@.len(),
                forall|k: int| 0 <= k < spans@.len() ==> spans@[k].wf(),
                forall|t: int| #[trigger] spans_cover(spans@, t)
                    == clips_enable(clips@.take(i as int), t),
            decreases clips@.len() - i,
        {
            let c = &clips[i];
            let ghost prior = spans@;
            if c.audio_enabled && c.start_us < c.end_us {
                spans.push(Interval { start_us: c.start_us, end_us: c.end_us });
            }
            proof {
                let pre = clips@.take(i as int);
                let post = clips@.take(i + 1 as int);
                assert(post.drop_last() =~= pre);
                assert(post.last() == clips@[i as int]);
                assert forall|t: int| #[trigger] spans_cover(spans@, t)
                    == clips_enable(post, t) by {
                    if spans_cover(spans@, t) {
                        let k = choose|k: int| 0 <= k < spans@.len() && spans@[k].contains(t);
                        if k < prior.len() {
                            assert(spans_cover(prior, t));
                            assert(clips_enable(pre, t));
                            let j = choose|j: int|
                                0 <= j < pre.len() && pre[j].audio_enabled && pre[j].covers(t);
                            assert(post[j].audio_enabled && post[j].covers(t));
                            assert(clips_enable(post, t));
                        } else {
                            assert(clips@[i as int].audio_enabled && clips@[i as int].covers(t));
                            assert(post[i as int].audio_enabled && post[i as int].covers(t));
                            assert(clips_enable(post, t));
                        }
                    }
                    if clips_enable(post, t) {
                        let j = choose|j: int|
                            0 <= j < post.len() && post[j].audio_enabled && post[j].covers(t);
                        if j < i {
                            assert(pre[j].audio_enabled && pre[j].covers(t));
                            assert(clips_enable(pre, t));
                            assert(spans_cover(prior, t));
                            let k = choose|k: int| 0 <= k < prior.len() && prior[k].contains(t);
                            assert(spans@[k].contains(t));
                            assert(spans_cover(spans@, t));
                        } else {
                            assert(clips@[i as int].audio_enabled && clips@[i as int].covers(t));
                            assert(spans@[spans@.len() - 1].contains(t));
                            assert(spans_cover(spans@, t));
                        }
                    }
                }
            }
            i = i + 1;
        }
        proof {
            assert(clips@.take(clips@.len() as int) =~= clips@);
        }
        IntervalSet { spans }
    }

    /// Tests whether the given instant of session time is audible.
    pub fn is_enabled_at(&self, t_us: u64) -> (b: bool)
        ensures
            b == self.contains(t_us as int),
    {
        let mut i: usize = 0;
        while i < self.spans.len()
            invariant
                i <= self.spans@.len(),
                forall|k: int| 0 <= k < i ==> !self.spans@[k].contains(t_us as int),
            decreases self.spans@.len() - i,
        {
            let s = &self.spans[i];
            if s.start_us <= t_us && t_us < s.end_us {
                proof {
                    assert(self.spans()[i as int].contains(t_us as int));
                    assert(spans_cover(self.spans(), t_us as int));
                }
                return true;
            }
            i = i + 1;
        }
        proof {
            if spans_cover(self.spans(), t_us as int) {
                let k = choose|k: int|
                    0 <= k < self.spans().len() && self.spans()[k].contains(t_us as int);
                assert(false);
            }
        }
        false
    }

    /// Applies the audio gate: a sample whose session time falls outside
    /// the enabled set is replaced by silence.
    pub fn gate_sample(&self, sample: i16, t_us: u64) -> (r: i16)
        ensures
            r == (if self.contains(t_us as int) {
                sample
            } else {
                0i16
            }),
    {
        if self.is_enabled_at(t_us) {
            sample
        } else {
            0
        }
    }
}

} // verus!
