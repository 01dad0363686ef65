use vstd::prelude::*;

verus! {

use crate::clips::{Clip, FadeKind};

/// One fade directive for a decoder filter chain: which way it fades,
/// when it starts relative to the decoder's own start, and how long it
/// runs.  The same directive drives the video and the audio filter; only
/// the caller-side spelling differs.
#[derive(Clone, Copy, PartialEq, Eq, Structural, Debug)]
pub struct FadeFilter {
    pub kind: FadeKind,
    pub start_us: u64,
    pub duration_us: u64,
}

/// The fade directives of a clip rendered as its own segment, whose
/// decoder starts at the clip's head: a fade-in at the very start, and a
/// fade-out ending at the clip's tail (clamped to the head when the fade
/// is longer than the clip).
pub open spec fn clip_fades(c: Clip) -> Seq<FadeFilter> {
    let head = if c.fade_in_us > 0 {
        seq![FadeFilter { kind: FadeKind::In, start_us: 0, duration_us: c.fade_in_us }]
    } else {
        Seq::<FadeFilter>::empty()
    };
    let out_start = if c.duration_us() >= c.fade_out_us {
        c.duration_us() - c.fade_out_us
    } else {
        0
    };
    let tail = if c.fade_out_us > 0 {
        seq![
            FadeFilter { kind: FadeKind::Out, start_us: out_start as u64, duration_us: c.fade_out_us },
        ]
    } else {
        Seq::<FadeFilter>::empty()
    };
    head + tail
}

/// Derives the fade directives for one clip cut out as a segment of its
/// own.
pub fn build_fade_filters(clip: &Clip) -> (r: Vec<FadeFilter>)
    requires
        clip.wf(),
    ensures
        r@ =~= clip_fades(*clip),
{
    let mut r: Vec<FadeFilter> = Vec::new();
    if clip.fade_in_us > 0 {
        r.push(FadeFilter { kind: FadeKind::In, start_us: 0, duration_us: clip.fade_in_us });
    }
    if clip.fade_out_us > 0 {
        let duration = clip.end_us - clip.start_us;
        let out_start = if duration >= clip.fade_out_us {
            duration - clip.fade_out_us
        } else {
            0
        };
        r.push(FadeFilter {
            kind: FadeKind::Out,
            start_us: out_start,
            duration_us: clip.fade_out_us,
        });
    }
    r
}

/// Fade lengths scaled down proportionally when together they would
/// outrun the clip, so the two fades never overlap.
pub open spec fn fitted_fades(c: Clip) -> (int, int) {
    let total = c.fade_in_us + c.fade_out_us;
    if total <= c.duration_us() {
        (c.fade_in_us as int, c.fade_out_us as int)
    } else {
        ((c.fade_in_us * c.duration_us()) / total, (c.fade_out_us * c.duration_us()) / total)
    }
}

/// Scales a clip's fade lengths down proportionally when together they
/// exceed its duration, leaving shorter fades untouched.
pub fn fit_fades(clip: &Clip) -> (r: (u64, u64))
    requires
        clip.wf(),
    ensures
        r.0 == fitted_fades(*clip).0,
        r.1 == fitted_fades(*clip).1,
        r.0 + r.1 <= clip.fade_in_us + clip.fade_out_us,
{
    let duration = clip.end_us - clip.start_us;
    if clip.fade_in_us as u128 + clip.fade_out_us as u128 <= duration as u128 {
        return (clip.fade_in_us, clip.fade_out_us);
    }
    let total: u128 = (clip.fade_in_us as u128) + (clip.fade_out_us as u128);
    proof {
        vstd::arithmetic::mul::lemma_mul_upper_bound(
            clip.fade_in_us as int,
            u64::MAX as int,
            clip.duration_us(),
            u64::MAX as int,
        );
        vstd::arithmetic::mul::lemma_mul_upper_bound(
            clip.fade_out_us as int,
            u64::MAX as int,
            clip.duration_us(),
            u64::MAX as int,
        );
        lemma_scaled_fade_le(clip.fade_in_us as int, clip.duration_us(), total as int);
        lemma_scaled_fade_le(clip.fade_out_us as int, clip.duration_us(), total as int);
    }
    let fi: u64 = (((clip.fade_in_us as u128) * (duration as u128)) / total) as u64;
    let fo: u64 = (((clip.fade_out_us as u128) * (duration as u128)) / total) as u64;
    (fi, fo)
}

/// A fade scaled by `d / total` with `f <= total` never exceeds `f`.
proof fn lemma_scaled_fade_le(f: int, d: int, total: int)
    requires
        0 <= f <= total,
        0 <= d < total,
    ensures
        (f * d) / total <= f,
        (f * d) / total <= d,
{
    vstd::arithmetic::mul::lemma_mul_inequality(f, total, d);
    vstd::arithmetic::div_mod::lemma_div_is_ordered(f * d, total * d, total);
    vstd::arithmetic::div_mod::lemma_div_multiples_vanish(d, total);
    vstd::arithmetic::mul::lemma_mul_inequality(d, total, f);
    assert(d * f == f * d) by (nonlinear_arith);
    vstd::arithmetic::div_mod::lemma_div_is_ordered(f * d, total * f, total);
    vstd::arithmetic::div_mod::lemma_div_multiples_vanish(f, total);
}

/// The fade directives one clip contributes to a playback session whose
/// decoder starts `start_us` into the timeline: each fade keeps its
/// absolute position, re-expressed relative to the session start, and a
/// fade already underway at the session start is skipped (a hard cut)
/// rather than scheduled at a negative time.
pub open spec fn clip_playback_fades(c: Clip, start_us: u64) -> Seq<FadeFilter> {
    let head = if c.fade_in_us > 0 && c.start_us >= start_us {
        seq![
            FadeFilter {
                kind: FadeKind::In,
                start_us: (c.start_us - start_us) as u64,
                duration_us: c.fade_in_us,
            },
        ]
    } else {
        Seq::<FadeFilter>::empty()
    };
    let tail = if c.fade_out_us > 0 && c.end_us - c.fade_out_us - start_us >= 0 {
        seq![
            FadeFilter {
                kind: FadeKind::Out,
                start_us: (c.end_us - c.fade_out_us - start_us) as u64,
                duration_us: c.fade_out_us,
            },
        ]
    } else {
        Seq::<FadeFilter>::empty()
    };
    head + tail
}

/// The fade directives of a whole clip list for a session starting at
/// `start_us`, in clip order.
pub open spec fn playback_fades(clips: Seq<Clip>, start_us: u64) -> Seq<FadeFilter>
    decreases clips.len(),
{
    if clips.len() == 0 {
        Seq::empty()
    } else {
        playback_fades(clips.drop_last(), start_us) + clip_playback_fades(
            clips.last(),
            start_us,
        )
    }
}

/// Derives the fade directives applied at the decoder level when a
/// playback session starts `start_us` into the timeline.
pub fn build_playback_filters(clips: &Vec<Clip>, start_us: u64) -> (r: Vec<FadeFilter>)
    ensures
        r@ =~= playback_fades(clips@, start_us),
{
    let mut r: Vec<FadeFilter> = Vec::new();
    let mut i: usize = 0;
    while i < clips.len()
        invariant
            i <= clips@.len(),
            r@ =~= playback_fades(clips@.take(i as int), start_us),
        decreases clips@.len() - i,
    {
        let c = &clips[i];
        if c.fade_in_us > 0 && c.start_us >= start_us {
            r.push(FadeFilter {
                kind: FadeKind::In,
                start_us: c.start_us - start_us,
                duration_us: c.fade_in_us,
            });
        }
        if c.fade_out_us > 0 && c.end_us >= c.fade_out_us && c.end_us - c.fade_out_us
            >= start_us {
            r.push(FadeFilter {
                kind: FadeKind::Out,
                start_us: c.end_us - c.fade_out_us - start_us,
                duration_us: c.fade_out_us,
            });
        }
        proof {
            let pre = clips@.take(i as int);
            let post = clips@.take(i + 1 as int);
            assert(post.drop_last() =~= pre);
            assert(post.last() == clips@[i as int]);
        }
        i = i + 1;
    }
    proof {
        assert(clips@.take(clips@.len() as int) =~= clips@);
    }
    r
}

} // verus!
