use vstd::prelude::*;

verus! {

/// One-shot startup readiness signal.  It starts closed; the video
/// ingest side opens it once the session's first frame sits in the
/// handoff cell; the controller refuses to start the audio side until it
/// observes it open.  Nothing ever closes it again, so time cannot start
/// flowing before a frame is visible.
pub struct ReadinessBarrier {
    signalled: bool,
}

impl ReadinessBarrier {
    pub closed spec fn is_open(&self) -> bool {
        self.signalled
    }

    pub fn new() -> (b: ReadinessBarrier)
        ensures
            !b.is_open(),
    {
        ReadinessBarrier { signalled: false }
    }

    /// Opens the barrier; opening is idempotent and irreversible.
    pub fn signal(&mut self)
        ensures
            final(self).is_open(),
    {
        self.signalled = true;
    }

    pub fn observed(&self) -> (b: bool)
        ensures
            b == self.is_open(),
    {
        self.signalled
    }
}

} // verus!
