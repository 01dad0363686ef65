use vstd::prelude::*;

verus! {

use crate::clips::Clip;
use crate::filters::{build_fade_filters, clip_fades, fit_fades, fitted_fades, FadeFilter};

/// Why no export plan could be made.
#[derive(Clone, Copy, PartialEq, Eq, Structural, Debug)]
pub enum RenderPlanError {
    /// The timeline holds no clips at all.
    NoClips,
    /// Clips exist, but every one has both tracks disabled.
    NoSegments,
}

/// One decoder invocation of the export pipeline: cut this range of the
/// input, apply these fades, and encode it as the next segment; the
/// segments are then concatenated in order.
#[derive(Debug)]
pub struct RenderSegment {
    pub start_us: u64,
    pub duration_us: u64,
    pub fades: Vec<FadeFilter>,
}

/// Whether a clip contributes a segment: at least one track enabled.
pub open spec fn renderable(c: Clip) -> bool {
    c.video_enabled || c.audio_enabled
}

/// The clips that contribute a segment, in timeline order.
pub open spec fn renderable_clips(clips: Seq<Clip>) -> Seq<Clip>
    decreases clips.len(),
{
    if clips.len() == 0 {
        Seq::empty()
    } else {
        renderable_clips(clips.drop_last()) + if renderable(clips.last()) {
            seq![clips.last()]
        } else {
            Seq::empty()
        }
    }
}

/// The clip as the export encodes it: fades scaled down proportionally
/// when together they would outrun the clip.
pub open spec fn fitted_clip(c: Clip) -> Clip {
    Clip {
        fade_in_us: fitted_fades(c).0 as u64,
        fade_out_us: fitted_fades(c).1 as u64,
        ..c
    }
}

/// Whether a segment is exactly the cut the clip asks for, with its
/// fitted fade directives.
pub open spec fn seg_matches(seg: RenderSegment, c: Clip) -> bool {
    &&& seg.start_us == c.start_us
    &&& seg.duration_us == c.duration_us()
    &&& seg.fades@ == clip_fades(fitted_clip(c))
}

/// Plans the export: one segment per clip with a track enabled, in clip
/// order, each cutting the clip's range with its fade directives, fades
/// first fitted so the pair never outruns the clip.  Fails when the
/// timeline is empty or nothing is enabled.
pub fn plan_render(clips: &Vec<Clip>) -> (r: Result<Vec<RenderSegment>, RenderPlanError>)
    requires
        forall|i: int| 0 <= i < clips@.len() ==> (#[trigger] clips@[i]).wf(),
    ensures
        match r {
            Ok(segs) => {
                &&& clips@.len() > 0
                &&& segs@.len() == renderable_clips(clips@).len()
                &&& segs@.len() > 0
                &&& forall|i: int|
                    0 <= i < segs@.len() ==> seg_matches(
                        #[trigger] segs@[i],
                        renderable_clips(clips@)[i],
                    )
            },
            Err(e) => {
                &&& (e is NoClips <==> clips@.len() == 0)
                &&& (e is NoSegments <==> clips@.len() > 0 && renderable_clips(clips@).len()
                    == 0)
            },
        },
{
    if clips.len() == 0 {
        return Err(RenderPlanError::NoClips);
    }
    let mut segs: Vec<RenderSegment> = Vec::new();
    let mut i: usize = 0;
    while i < clips.len()
        invariant
            i <= clips@.len(),
            forall|k: int| 0 <= k < clips@.len() ==> (#[trigger] clips@[k]).wf(),
            segs@.len() == renderable_clips(clips@.take(i as int)).len(),
            forall|k: int|
                0 <= k < segs@.len() ==> seg_matches(
                    #[trigger] segs@[k],
                    renderable_clips(clips@.take(i as int))[k],
                ),
        decreases clips@.len() - i,
    {
        let c = &clips[i];
        if c.video_enabled || c.audio_enabled {
            let (fade_in_us, fade_out_us) = fit_fades(c);
            let fitted = Clip { fade_in_us, fade_out_us, ..*c };
            proof {
                assert(fitted == fitted_clip(clips@[i as int]));
            }
            let fades = build_fade_filters(&fitted);
            segs.push(RenderSegment {
                start_us: c.start_us,
                duration_us: c.end_us - c.start_us,
                fades,
            });
        }
        proof {
            let pre = clips@.take(i as int);
            let post = clips@.take(i + 1 as int);
            assert(post.drop_last() =~= pre);
            assert(post.last() == clips@[i as int]);
        }
        i = i + 1;
    }
    proof {
        assert(clips@.take(clips@.len() as int) =~= clips@);
    }
    if segs.len() == 0 {
        return Err(RenderPlanError::NoSegments);
    }
    Ok(segs)
}

} // verus!
