use vstd::prelude::*;

verus! {

use vstd::arithmetic::div_mod::{
    lemma_div_is_ordered,
    lemma_div_multiples_vanish,
    lemma_fundamental_div_mod,
};
use vstd::arithmetic::mul::{
    lemma_mul_inequality,
    lemma_mul_strictly_positive,
    lemma_mul_upper_bound,
};

pub const MICROS_PER_SECOND: u64 = 1_000_000;

/// Sample rate and channel count of the audio output stream, as reported
/// by the output device when a session starts.
#[derive(Clone, Copy, PartialEq, Eq, Structural, Debug)]
pub struct AudioFormat {
    pub sample_rate: u32,
    pub channels: u16,
}

impl AudioFormat {
    pub open spec fn wf(&self) -> bool {
        1 <= self.sample_rate && 1 <= self.channels
    }

    /// Interleaved samples consumed per second of playback.
    pub open spec fn samples_per_second(&self) -> int {
        self.sample_rate * self.channels
    }
}

/// Elapsed playback time, in whole microseconds, at sample position
/// `pos` of the output stream.
pub open spec fn elapsed_us_at(pos: int, fmt: AudioFormat) -> int {
    (pos * MICROS_PER_SECOND) / fmt.samples_per_second()
}

/// Elapsed playback time, in whole microseconds, once `samples` total
/// interleaved samples have been delivered to the device.
pub open spec fn elapsed_us(samples: u64, fmt: AudioFormat) -> int {
    elapsed_us_at(samples as int, fmt)
}

/// Elapsed time is monotone in the sample position: delivering more
/// samples never moves the derived time backwards.
pub proof fn lemma_elapsed_monotonic(p: int, q: int, fmt: AudioFormat)
    requires
        fmt.wf(),
        0 <= p <= q,
    ensures
        elapsed_us_at(p, fmt) <= elapsed_us_at(q, fmt),
{
    lemma_mul_strictly_positive(fmt.sample_rate as int, fmt.channels as int);
    lemma_mul_inequality(p, q, MICROS_PER_SECOND as int);
    lemma_div_is_ordered(
        p * MICROS_PER_SECOND,
        q * MICROS_PER_SECOND,
        fmt.samples_per_second(),
    );
}

/// The derived time is exact for every sample count, with no bound: once
/// `n` samples have been delivered at `sample_rate` and `channels`, the
/// elapsed time `n / (sample_rate * channels)` seconds lies within the
/// single whole microsecond that `elapsed_us` names — `t` microseconds
/// where `t * (rate * ch) <= n * 1_000_000 < (t + 1) * (rate * ch)`.
pub proof fn lemma_elapsed_us_exact(n: u64, fmt: AudioFormat)
    requires
        fmt.wf(),
    ensures
        elapsed_us(n, fmt) * fmt.samples_per_second() <= n * MICROS_PER_SECOND,
        n * MICROS_PER_SECOND < (elapsed_us(n, fmt) + 1) * fmt.samples_per_second(),
{
    let sps = fmt.samples_per_second();
    let product = (n * MICROS_PER_SECOND) as int;
    let t = elapsed_us(n, fmt);
    lemma_mul_strictly_positive(fmt.sample_rate as int, fmt.channels as int);
    vstd::arithmetic::div_mod::lemma_fundamental_div_mod(product, sps);
    vstd::arithmetic::div_mod::lemma_mod_division_less_than_divisor(product, sps);
    assert(t * sps <= product && product < (t + 1) * sps) by (nonlinear_arith)
        requires
            product == sps * t + product % sps,
            0 <= product % sps < sps,
    ;
}

/// Converts the master clock's sample count to elapsed microseconds:
/// exactly `samples * 1_000_000 / (sample_rate * channels)`, rounded
/// toward zero.
pub fn audio_time_us(samples: u64, fmt: &AudioFormat) -> (t: u64)
    requires
        fmt.wf(),
        elapsed_us(samples, *fmt) <= u64::MAX,
    ensures
        t == elapsed_us(samples, *fmt),
{
    proof {
        lemma_mul_upper_bound(
            fmt.sample_rate as int,
            u32::MAX as int,
            fmt.channels as int,
            u16::MAX as int,
        );
        lemma_mul_upper_bound(
            samples as int,
            u64::MAX as int,
            MICROS_PER_SECOND as int,
            MICROS_PER_SECOND as int,
        );
        lemma_mul_strictly_positive(fmt.sample_rate as int, fmt.channels as int);
    }
    let denom: u64 = (fmt.sample_rate as u64) * (fmt.channels as u64);
    let wide: u128 = (samples as u128) * (MICROS_PER_SECOND as u128);
    (wide / (denom as u128)) as u64
}

/// Target frame rate as an exact rational number of frames per second
/// (`num / den`, e.g. 30000/1001 for NTSC video).  Rates below one frame
/// per second are not meaningful for playback pacing.
#[derive(Clone, Copy, PartialEq, Eq, Structural, Debug)]
pub struct FrameRate {
    pub num: u32,
    pub den: u32,
}

impl FrameRate {
    pub open spec fn wf(&self) -> bool {
        1 <= self.den <= self.num
    }
}

/// Largest frame index whose presentation time is computed without
/// overflowing a microsecond count.
pub const MAX_FRAME_INDEX: u64 = u64::MAX / 1_000_000;

/// Intended presentation time of the frame with the given index, in whole
/// microseconds from session start: `idx * 1_000_000 * den / num`,
/// rounded toward zero.
pub open spec fn frame_pts_us(idx: u64, rate: FrameRate) -> int {
    (idx * MICROS_PER_SECOND * rate.den) / (rate.num as int)
}

/// Computes a frame's intended presentation time relative to session
/// start (`frame_index / target_fps`, in microseconds).
pub fn frame_target_us(idx: u64, rate: &FrameRate) -> (t: u64)
    requires
        rate.wf(),
        idx <= MAX_FRAME_INDEX,
    ensures
        t == frame_pts_us(idx, *rate),
        t <= idx * MICROS_PER_SECOND,
{
    proof {
        lemma_mul_inequality(idx as int, MAX_FRAME_INDEX as int, MICROS_PER_SECOND as int);
        lemma_fundamental_div_mod(u64::MAX as int, MICROS_PER_SECOND as int);
        assert(idx * MICROS_PER_SECOND <= u64::MAX);
        lemma_mul_upper_bound(
            (idx * MICROS_PER_SECOND) as int,
            u64::MAX as int,
            rate.den as int,
            u32::MAX as int,
        );
        assert((idx * MICROS_PER_SECOND * rate.den) <= (idx * MICROS_PER_SECOND * rate.num))
            by (nonlinear_arith)
            requires
                rate.den <= rate.num,
                0 <= idx,
                0 <= MICROS_PER_SECOND,
        ;
        lemma_div_is_ordered(
            (idx * MICROS_PER_SECOND * rate.den) as int,
            (idx * MICROS_PER_SECOND * rate.num) as int,
            rate.num as int,
        );
        lemma_div_multiples_vanish((idx * MICROS_PER_SECOND) as int, rate.num as int);
        assert(idx * MICROS_PER_SECOND * rate.num == rate.num * (idx * MICROS_PER_SECOND))
            by (nonlinear_arith)
        ;
    }
    let wide: u128 = (idx as u128) * (MICROS_PER_SECOND as u128) * (rate.den as u128);
    (wide / (rate.num as u128)) as u64
}

/// Presentation times are monotone in the frame index: a later frame
/// never targets an earlier time than an earlier frame.
pub proof fn lemma_frame_pts_monotonic(i: u64, j: u64, rate: FrameRate)
    requires
        rate.wf(),
        i <= j,
    ensures
        frame_pts_us(i, rate) <= frame_pts_us(j, rate),
{
    assert((i * MICROS_PER_SECOND * rate.den) <= (j * MICROS_PER_SECOND * rate.den))
        by (nonlinear_arith)
        requires
            i <= j,
            0 <= rate.den,
            0 <= MICROS_PER_SECOND,
    ;
    lemma_div_is_ordered(
        (i * MICROS_PER_SECOND * rate.den) as int,
        (j * MICROS_PER_SECOND * rate.den) as int,
        rate.num as int,
    );
}

} // verus!
