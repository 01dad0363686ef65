use vstd::prelude::*;

verus! {

use crate::timebase::{frame_pts_us, frame_target_us, FrameRate, MAX_FRAME_INDEX};

/// What the pacer decides to do with the frame just decoded.
#[derive(Clone, Copy, PartialEq, Eq, Structural, Debug)]
pub enum PaceAction {
    /// Write the frame to the handoff cell now.
    Display,
    /// Sleep one bounded interval, re-check the clock and the
    /// cancellation flag, and decide again for the same frame.
    Wait,
    /// Skip the frame and move on to the next one immediately.
    Drop,
}

/// Pacing thresholds, in microseconds.  They are parameters rather than
/// hard constants; `default` gives the stock values.
#[derive(Clone, Copy)]
pub struct PacerConfig {
    /// A frame at least this far behind the clock is dropped, once the
    /// readiness barrier is open (catch-up favours recency).
    pub drop_behind_us: u64,
    /// A frame more than this far ahead of the clock is held back.
    pub wait_ahead_us: u64,
    /// Upper bound on a single pacing sleep, so cancellation is observed
    /// promptly.
    pub max_sleep_us: u64,
}

impl Default for PacerConfig {
    /// The stock thresholds: drop at 50 ms behind, wait above 5 ms
    /// ahead, sleep at most 20 ms at a time.
    fn default() -> (cfg: PacerConfig)
        ensures
            cfg.drop_behind_us == 50_000,
            cfg.wait_ahead_us == 5_000,
            cfg.max_sleep_us == 20_000,
    {
        PacerConfig { drop_behind_us: 50_000, wait_ahead_us: 5_000, max_sleep_us: 20_000 }
    }
}

/// The display/wait/drop decision for a frame with presentation time
/// `pts_us` against clock time `clock_us`.  The very first frame of a
/// session is displayed unconditionally; dropping requires the readiness
/// barrier to be open.
pub open spec fn decide_spec(
    pts_us: int,
    clock_us: int,
    barrier_open: bool,
    first_delivered: bool,
    cfg: PacerConfig,
) -> PaceAction {
    if !first_delivered {
        PaceAction::Display
    } else if barrier_open && pts_us + cfg.drop_behind_us < clock_us {
        PaceAction::Drop
    } else if pts_us > clock_us + cfg.wait_ahead_us {
        PaceAction::Wait
    } else {
        PaceAction::Display
    }
}

/// Decides the fate of one frame from its presentation time and the
/// master clock's current time.
pub fn decide(
    pts_us: u64,
    clock_us: u64,
    barrier_open: bool,
    first_delivered: bool,
    cfg: &PacerConfig,
) -> (a: PaceAction)
    ensures
        a == decide_spec(pts_us as int, clock_us as int, barrier_open, first_delivered, *cfg),
{
    if !first_delivered {
        PaceAction::Display
    } else if barrier_open && clock_us > pts_us && clock_us - pts_us > cfg.drop_behind_us {
        PaceAction::Drop
    } else if pts_us > clock_us && pts_us - clock_us > cfg.wait_ahead_us {
        PaceAction::Wait
    } else {
        PaceAction::Display
    }
}

/// Safety margin subtracted from a pacing sleep so the pacer wakes a
/// little before the frame is due.
pub const SLEEP_MARGIN_US: u64 = 2_000;

/// Length of one bounded pacing sleep while a frame is ahead of the
/// clock: the remaining gap, capped at the configured maximum, less the
/// wake-early margin.
pub open spec fn sleep_us_spec(pts_us: int, clock_us: int, cfg: PacerConfig) -> int {
    let gap = if pts_us > clock_us {
        pts_us - clock_us
    } else {
        0
    };
    let capped = if gap > cfg.max_sleep_us {
        cfg.max_sleep_us as int
    } else {
        gap
    };
    if capped > SLEEP_MARGIN_US {
        capped - SLEEP_MARGIN_US
    } else {
        0
    }
}

/// One bounded pacing sleep; never longer than the configured maximum,
/// so a cancellation request is observed within that bound.
pub fn pace_sleep_us(pts_us: u64, clock_us: u64, cfg: &PacerConfig) -> (d: u64)
    ensures
        d == sleep_us_spec(pts_us as int, clock_us as int, *cfg),
        d <= cfg.max_sleep_us,
{
    let gap: u64 = if pts_us > clock_us {
        pts_us - clock_us
    } else {
        0
    };
    let capped: u64 = if gap > cfg.max_sleep_us {
        cfg.max_sleep_us
    } else {
        gap
    };
    if capped > SLEEP_MARGIN_US {
        capped - SLEEP_MARGIN_US
    } else {
        0
    }
}

/// The video-side pacing state: which frame of the stream is up next,
/// whether the session's first frame has reached the handoff cell, and —
/// as ghost history — the presentation times of every frame delivered so
/// far, in delivery order.
pub struct VideoPacer {
    rate: FrameRate,
    cfg: PacerConfig,
    next_idx: u64,
    first_delivered: bool,
    displayed: Ghost<Seq<int>>,
}

impl VideoPacer {
    pub closed spec fn rate(&self) -> FrameRate {
        self.rate
    }

    pub closed spec fn cfg(&self) -> PacerConfig {
        self.cfg
    }

    /// Index of the frame the pacer will judge next.
    pub closed spec fn next_index(&self) -> u64 {
        self.next_idx
    }

    /// Whether the session's first frame has already been delivered.
    pub closed spec fn first_delivered(&self) -> bool {
        self.first_delivered
    }

    /// Presentation times of the frames delivered to the handoff cell,
    /// in delivery order.
    pub closed spec fn history(&self) -> Seq<int> {
        self.displayed@
    }

    pub closed spec fn wf(&self) -> bool {
        &&& self.rate.wf()
        &&& self.next_idx <= MAX_FRAME_INDEX
        &&& forall|a: int, b: int|
            0 <= a <= b < self.displayed@.len() ==> self.displayed@[a] <= self.displayed@[b]
        &&& forall|a: int|
            0 <= a < self.displayed@.len() ==> self.displayed@[a] <= frame_pts_us(
                self.next_idx,
                self.rate,
            )
    }

    /// Starts pacing at the given first frame index (derived from the
    /// session's start offset), with nothing delivered yet.
    pub fn new(first_idx: u64, rate: FrameRate, cfg: PacerConfig) -> (p: VideoPacer)
        requires
            rate.wf(),
            first_idx <= MAX_FRAME_INDEX,
        ensures
            p.wf(),
            p.rate() == rate,
            p.cfg() == cfg,
            p.next_index() == first_idx,
            !p.first_delivered(),
            p.history() =~= Seq::<int>::empty(),
    {
        VideoPacer {
            rate,
            cfg,
            next_idx: first_idx,
            first_delivered: false,
            displayed: Ghost(Seq::empty()),
        }
    }

    pub fn next_frame_index(&self) -> (idx: u64)
        ensures
            idx == self.next_index(),
    {
        self.next_idx
    }

    pub fn has_delivered_first(&self) -> (b: bool)
        ensures
            b == self.first_delivered(),
    {
        self.first_delivered
    }

    /// The intended presentation time of the frame up next.
    pub fn current_target_us(&self) -> (t: u64)
        requires
            self.wf(),
        ensures
            t == frame_pts_us(self.next_index(), self.rate()),
    {
        frame_target_us(self.next_idx, &self.rate)
    }

    /// Judges the frame up next against the master clock.
    pub fn decide(&self, clock_us: u64, barrier_open: bool) -> (a: PaceAction)
        requires
            self.wf(),
        ensures
            a == decide_spec(
                frame_pts_us(self.next_index(), self.rate()),
                clock_us as int,
                barrier_open,
                self.first_delivered(),
                self.cfg(),
            ),
    {
        let pts = frame_target_us(self.next_idx, &self.rate);
        decide(pts, clock_us, barrier_open, self.first_delivered, &self.cfg)
    }

    /// Records that the frame up next was written to the handoff cell
    /// and moves on: its presentation time joins the delivery history,
    /// which stays in non-decreasing order.
    pub fn note_displayed(&mut self)
        requires
            old(self).wf(),
            old(self).next_index() < MAX_FRAME_INDEX,
        ensures
            final(self).wf(),
            final(self).rate() == old(self).rate(),
            final(self).cfg() == old(self).cfg(),
            final(self).next_index() == old(self).next_index() + 1,
            final(self).first_delivered(),
            final(self).history() =~= old(self).history().push(
                frame_pts_us(old(self).next_index(), old(self).rate()),
            ),
    {
        proof {
            crate::timebase::lemma_frame_pts_monotonic(
                self.next_idx,
                (self.next_idx + 1) as u64,
                self.rate,
            );
        }
        self.displayed = Ghost(self.displayed@.push(frame_pts_us(self.next_idx, self.rate)));
        self.next_idx = self.next_idx + 1;
        self.first_delivered = true;
    }

    /// Records that the frame up next was dropped to catch up: nothing
    /// is delivered and the pacer moves on to the following frame.
    pub fn note_dropped(&mut self)
        requires
            old(self).wf(),
            old(self).next_index() < MAX_FRAME_INDEX,
        ensures
            final(self).wf(),
            final(self).rate() == old(self).rate(),
            final(self).cfg() == old(self).cfg(),
            final(self).next_index() == old(self).next_index() + 1,
            final(self).first_delivered() == old(self).first_delivered(),
            final(self).history() == old(self).history(),
    {
        proof {
            crate::timebase::lemma_frame_pts_monotonic(
                self.next_idx,
                (self.next_idx + 1) as u64,
                self.rate,
            );
        }
        self.next_idx = self.next_idx + 1;
    }
}

/// Frames reach the handoff cell in non-decreasing presentation-time
/// order: however the pacer was driven, its delivery history never goes
/// backwards in time.
pub proof fn lemma_delivery_order(p: &VideoPacer, a: int, b: int)
    requires
        p.wf(),
        0 <= a <= b < p.history().len(),
    ensures
        p.history()[a] <= p.history()[b],
{
}

} // verus!
