use vstd::prelude::*;

verus! {

use vstd::arithmetic::mul::{lemma_mul_strictly_positive, lemma_mul_upper_bound};
use vstd::string::StrSliceExecFns;

use crate::timebase::{elapsed_us, AudioFormat, FrameRate, MAX_FRAME_INDEX, MICROS_PER_SECOND};

/// Unicode white space, the code points of the `White_Space` property.
pub open spec fn is_whitespace_char(c: char) -> bool {
    let u = c as u32;
    ||| u == 0x09
    ||| u == 0x0A
    ||| u == 0x0B
    ||| u == 0x0C
    ||| u == 0x0D
    ||| u == 0x20
    ||| u == 0x85
    ||| u == 0xA0
    ||| u == 0x1680
    ||| (0x2000 <= u && u <= 0x200A)
    ||| u == 0x2028
    ||| u == 0x2029
    ||| u == 0x202F
    ||| u == 0x205F
    ||| u == 0x3000
}

/// Whether the text names nothing: empty, or white space throughout.
pub open spec fn blank(s: Seq<char>) -> bool {
    forall|i: int| 0 <= i < s.len() ==> is_whitespace_char(#[trigger] s[i])
}

/// Tests whether a path field is empty or all white space.
pub fn is_blank(s: &str) -> (b: bool)
    ensures
        b == blank(s@),
{
    let n = s.unicode_len();
    let mut i: usize = 0;
    while i < n
        invariant
            n == s@.len(),
            i <= n,
            forall|k: int| 0 <= k < i ==> is_whitespace_char(#[trigger] s@[k]),
        decreases n - i,
    {
        let u = s.get_char(i) as u32;
        let space = u == 0x09 || u == 0x0A || u == 0x0B || u == 0x0C || u == 0x0D || u == 0x20
            || u == 0x85 || u == 0xA0 || u == 0x1680 || (0x2000 <= u && u <= 0x200A)
            || u == 0x2028 || u == 0x2029 || u == 0x202F || u == 0x205F || u == 0x3000;
        if !space {
            proof {
                assert(!is_whitespace_char(s@[i as int]));
            }
            return false;
        }
        i = i + 1;
    }
    true
}

/// Lifecycle of one playback attempt: `Stopped`, then `Starting` while
/// the video side buffers its first frame, then `Playing` once the
/// readiness barrier has opened and audio may run.
#[derive(Clone, Copy, PartialEq, Eq, Structural, Debug)]
pub enum PlayerState {
    Stopped,
    Starting,
    Playing,
}

/// Everything a caller supplies to start a session.
#[derive(Clone)]
pub struct SessionConfig {
    pub input_path: String,
    pub duration_us: u64,
    pub start_offset_us: u64,
    pub fmt: AudioFormat,
    pub rate: FrameRate,
}

/// Why a start attempt was refused.  A refusal leaves the controller
/// `Stopped` with no session and no threads owed.
#[derive(Clone, Copy, PartialEq, Eq, Structural, Debug)]
pub enum StartError {
    /// A blank input path, or a timeline of zero length.
    NothingToPlay,
    /// The output device reported an unusable sample rate or channel
    /// count.
    BadAudioFormat,
    /// The target frame rate is below one frame per second.
    BadFrameRate,
    /// The start offset lies beyond the range the pacer can time.
    BeyondPacingRange,
}

/// The recorded parameters of the live session, fixed at `start` and
/// used for elapsed-time computation until teardown.
#[derive(Clone, Copy)]
pub struct SessionParams {
    pub start_offset_us: u64,
    pub fmt: AudioFormat,
    pub rate: FrameRate,
    pub first_frame_idx: u64,
}

/// Index of the first frame the video decoder emits when decoding
/// starts `start_us` into the timeline.
pub open spec fn start_frame_spec(start_us: u64, rate: FrameRate) -> int {
    (start_us * rate.num) / (MICROS_PER_SECOND * rate.den)
}

/// The playback controller: it owns the session lifecycle and enforces
/// the start / readiness / stop protocol.  The threads, streams and
/// decoder processes live with the caller, which performs the outside
/// work each transition calls for; the controller only decides, so every
/// method returns without blocking.
pub struct PlaybackController {
    state: PlayerState,
    session: Option<SessionParams>,
}

impl PlaybackController {
    pub closed spec fn state(&self) -> PlayerState {
        self.state
    }

    pub closed spec fn session(&self) -> Option<SessionParams> {
        self.session
    }

    pub closed spec fn wf(&self) -> bool {
        &&& (self.state is Stopped <==> self.session is None)
        &&& (self.session matches Some(p) ==> {
            &&& p.fmt.wf()
            &&& p.rate.wf()
            &&& p.first_frame_idx <= MAX_FRAME_INDEX
            &&& p.first_frame_idx == start_frame_spec(p.start_offset_us, p.rate)
        })
    }

    pub fn new() -> (c: PlaybackController)
        ensures
            c.wf(),
            c.state() is Stopped,
            c.session() is None,
    {
        PlaybackController { state: PlayerState::Stopped, session: None }
    }

    pub fn current_state(&self) -> (s: PlayerState)
        ensures
            s == self.state(),
    {
        self.state
    }

    /// Tears the session down, whatever the state: the caller must set
    /// both cancellation flags, drop the audio stream, and detach-join
    /// both threads; the state change itself is immediate and never
    /// waits on them.
    pub fn stop(&mut self)
        ensures
            final(self).wf(),
            final(self).state() is Stopped,
            final(self).session() is None,
    {
        self.state = PlayerState::Stopped;
        self.session = None;
    }

    /// A seek performs exactly the stop teardown; the caller then starts
    /// a fresh session at the new position.
    pub fn seek(&mut self)
        ensures
            final(self).wf(),
            final(self).state() is Stopped,
            final(self).session() is None,
    {
        self.stop();
    }

    /// Starts a new session: any previous one is torn down first, the
    /// configuration is validated, and on success the controller enters
    /// `Starting` — the caller then spawns the video thread and polls
    /// readiness; audio must not start yet.  Returns the index of the
    /// first frame the video decoder will emit.
    pub fn start(&mut self, cfg: &SessionConfig) -> (r: Result<u64, StartError>)
        requires
            old(self).wf(),
        ensures
            final(self).wf(),
            match r {
                Ok(idx) => {
                    &&& !blank(cfg.input_path@)
                    &&& cfg.duration_us > 0
                    &&& cfg.fmt.wf()
                    &&& cfg.rate.wf()
                    &&& start_frame_spec(cfg.start_offset_us, cfg.rate) <= MAX_FRAME_INDEX
                    &&& idx == start_frame_spec(cfg.start_offset_us, cfg.rate)
                    &&& final(self).state() is Starting
                    &&& final(self).session() == Some(SessionParams {
                        start_offset_us: cfg.start_offset_us,
                        fmt: cfg.fmt,
                        rate: cfg.rate,
                        first_frame_idx: idx,
                    })
                },
                Err(e) => {
                    &&& final(self).state() is Stopped
                    &&& final(self).session() is None
                    &&& (e is NothingToPlay <==> blank(cfg.input_path@) || cfg.duration_us
                        == 0)
                    &&& (e is BadAudioFormat <==> !blank(cfg.input_path@) && cfg.duration_us
                        > 0 && !cfg.fmt.wf())
                    &&& (e is BadFrameRate <==> !blank(cfg.input_path@) && cfg.duration_us > 0
                        && cfg.fmt.wf() && !cfg.rate.wf())
                    &&& (e is BeyondPacingRange <==> !blank(cfg.input_path@)
                        && cfg.duration_us > 0 && cfg.fmt.wf() && cfg.rate.wf()
                        && start_frame_spec(cfg.start_offset_us, cfg.rate) > MAX_FRAME_INDEX)
                },
            },
    {
        self.stop();
        if is_blank(cfg.input_path.as_str()) || cfg.duration_us == 0 {
            return Err(StartError::NothingToPlay);
        }
        if !(cfg.fmt.sample_rate >= 1 && cfg.fmt.channels >= 1) {
            return Err(StartError::BadAudioFormat);
        }
        if !(cfg.rate.den >= 1 && cfg.rate.num >= cfg.rate.den) {
            return Err(StartError::BadFrameRate);
        }
        proof {
            lemma_mul_upper_bound(
                cfg.start_offset_us as int,
                u64::MAX as int,
                cfg.rate.num as int,
                u32::MAX as int,
            );
            lemma_mul_upper_bound(
                MICROS_PER_SECOND as int,
                MICROS_PER_SECOND as int,
                cfg.rate.den as int,
                u32::MAX as int,
            );
            lemma_mul_strictly_positive(MICROS_PER_SECOND as int, cfg.rate.den as int);
        }
        let numer: u128 = (cfg.start_offset_us as u128) * (cfg.rate.num as u128);
        let denom: u128 = (MICROS_PER_SECOND as u128) * (cfg.rate.den as u128);
        let idx_wide: u128 = numer / denom;
        if idx_wide > (MAX_FRAME_INDEX as u128) {
            return Err(StartError::BeyondPacingRange);
        }
        let idx: u64 = idx_wide as u64;
        self.session = Some(SessionParams {
            start_offset_us: cfg.start_offset_us,
            fmt: cfg.fmt,
            rate: cfg.rate,
            first_frame_idx: idx,
        });
        self.state = PlayerState::Starting;
        Ok(idx)
    }

    /// One readiness poll while `Starting`: once the barrier is observed
    /// open the controller enters `Playing`, and the caller then starts
    /// the audio ingest thread and the hardware output stream.  Returns
    /// whether audio should be started now.
    pub fn observe_readiness(&mut self, barrier_open: bool) -> (start_audio: bool)
        requires
            old(self).wf(),
        ensures
            final(self).wf(),
            final(self).session() == old(self).session(),
            start_audio == (old(self).state() is Starting && barrier_open),
            start_audio ==> final(self).state() is Playing,
            !start_audio ==> final(self).state() == old(self).state(),
    {
        match self.state {
            PlayerState::Starting => {
                if barrier_open {
                    self.state = PlayerState::Playing;
                    true
                } else {
                    false
                }
            },
            _ => false,
        }
    }

    /// The video thread reported termination.  While still `Starting`
    /// that is a readiness failure: the session is aborted and audio
    /// never starts; the return value says whether the caller must
    /// surface that failure.  In any other state the stream simply ended
    /// and nothing changes.
    pub fn video_thread_ended(&mut self) -> (failed: bool)
        requires
            old(self).wf(),
        ensures
            final(self).wf(),
            failed == (old(self).state() is Starting),
            failed ==> final(self).state() is Stopped && final(self).session() is None,
            !failed ==> final(self).state() == old(self).state() && final(self).session()
                == old(self).session(),
    {
        match self.state {
            PlayerState::Starting => {
                self.stop();
                true
            },
            _ => false,
        }
    }

    /// Current playback position: the session's start offset plus the
    /// time the master clock's sample count stands for, saturating at
    /// the representable maximum; `None` when no session is live.
    pub fn current_time_us(&self, clock_samples: u64) -> (t: Option<u64>)
        requires
            self.wf(),
        ensures
            match self.session() {
                Some(p) => t == Some(
                    if p.start_offset_us + elapsed_us(clock_samples, p.fmt) <= u64::MAX {
                        (p.start_offset_us + elapsed_us(clock_samples, p.fmt)) as u64
                    } else {
                        u64::MAX
                    },
                ),
                None => t is None,
            },
    {
        match &self.session {
            Some(p) => {
                proof {
                    lemma_mul_upper_bound(
                        p.fmt.sample_rate as int,
                        u32::MAX as int,
                        p.fmt.channels as int,
                        u16::MAX as int,
                    );
                    lemma_mul_upper_bound(
                        clock_samples as int,
                        u64::MAX as int,
                        MICROS_PER_SECOND as int,
                        MICROS_PER_SECOND as int,
                    );
                    lemma_mul_strictly_positive(p.fmt.sample_rate as int, p.fmt.channels as int);
                }
                let denom: u128 = (p.fmt.sample_rate as u128) * (p.fmt.channels as u128);
                let elapsed: u128 = ((clock_samples as u128) * (MICROS_PER_SECOND as u128))
                    / denom;
                let total: u128 = (p.start_offset_us as u128) + elapsed;
                if total <= (u64::MAX as u128) {
                    Some(total as u64)
                } else {
                    Some(u64::MAX)
                }
            },
            None => None,
        }
    }

    /// The live session's recorded parameters, if any.
    pub fn session_params(&self) -> (p: Option<SessionParams>)
        ensures
            p == self.session(),
    {
        match &self.session {
            Some(params) => Some(*params),
            None => None,
        }
    }
}

} // verus!
