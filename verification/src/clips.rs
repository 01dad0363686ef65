use vstd::prelude::*;

verus! {

/// Which tracks of a clip take part in playback and rendering.
#[derive(Clone, Copy, PartialEq, Eq, Structural)]
pub enum TrackType {
    Both,
    Video,
    Audio,
}

/// The kind of source material an imported asset holds.
#[derive(Clone, Copy, PartialEq, Eq, Structural)]
pub enum MediaType {
    Video,
    Audio,
    Image,
}

/// Whether a fade handle shapes the head or the tail of a clip.
#[derive(Clone, Copy, PartialEq, Eq, Structural, Debug)]
pub enum FadeKind {
    In,
    Out,
}

/// An active drag of one clip's fade handle.
#[derive(Clone, Copy)]
pub struct FadeDrag {
    pub clip_idx: usize,
    pub kind: FadeKind,
}

/// The timeline tool the user is working with.
#[derive(Clone, Copy, PartialEq, Eq, Structural)]
pub enum Tool {
    Hand,
    Scissors,
}

/// A source file in the project's media library.  Times are whole
/// microseconds; for still images the duration is the default display
/// length.
#[derive(Clone)]
pub struct MediaAsset {
    pub id: usize,
    pub path: String,
    pub name: String,
    pub kind: MediaType,
    pub duration_us: u64,
}

/// A time-bounded piece of the timeline, with its fade lengths and
/// per-track enable flags.  All times are whole microseconds.
#[derive(Clone, Copy)]
pub struct Clip {
    pub start_us: u64,
    pub end_us: u64,
    pub asset_id: Option<usize>,
    pub fade_in_us: u64,
    pub fade_out_us: u64,
    pub linked: bool,
    pub video_enabled: bool,
    pub audio_enabled: bool,
}

impl Clip {
    pub open spec fn wf(&self) -> bool {
        self.start_us <= self.end_us
    }

    pub open spec fn duration_us(&self) -> int {
        self.end_us - self.start_us
    }

    /// Whether the timeline instant `t` lies inside this clip.
    pub open spec fn covers(&self, t: int) -> bool {
        self.start_us <= t < self.end_us
    }
}

/// Everything a project file captures about the edit.
#[derive(Clone)]
pub struct ProjectData {
    pub input_path: String,
    pub output_path: String,
    pub clips: Vec<Clip>,
    pub duration_us: u64,
    pub playhead_us: u64,
    pub video_width: u32,
    pub video_height: u32,
    pub video_fps: crate::timebase::FrameRate,
    pub media_library: Vec<MediaAsset>,
}

/// The left half of a clip split at `t`: truncated there, keeping its
/// fade-in and surrendering its fade-out to the right half.
pub open spec fn split_left(c: Clip, t: u64) -> Clip {
    Clip { end_us: t, fade_out_us: 0, ..c }
}

/// The right half of a clip split at `t`: starting there with no
/// fade-in, inheriting the original fade-out.
pub open spec fn split_right(c: Clip, t: u64) -> Clip {
    Clip { start_us: t, fade_in_us: 0, ..c }
}

/// Splits the clip at index `idx` in two at time `t_us`, provided `t_us`
/// lies strictly inside it.  The clip is truncated at the cut and a new
/// clip covering the remainder is inserted immediately after it; the cut
/// point gets no fades.  Returns the index of the new right-hand clip,
/// or `None` (leaving the timeline untouched) when the index is out of
/// range or the cut would fall on or outside the clip's edges.
pub fn split_clip_at(clips: &mut Vec<Clip>, idx: usize, t_us: u64) -> (r: Option<usize>)
    ensures
        match r {
            Some(j) => {
                &&& idx < old(clips)@.len()
                &&& old(clips)@[idx as int].start_us < t_us < old(clips)@[idx as int].end_us
                &&& j == idx + 1
                &&& final(clips)@ =~= old(clips)@.take(idx as int) + seq![
                    split_left(old(clips)@[idx as int], t_us),
                    split_right(old(clips)@[idx as int], t_us),
                ] + old(clips)@.skip(idx as int + 1)
            },
            None => {
                &&& final(clips)@ == old(clips)@
                &&& !(idx < old(clips)@.len()
                    && old(clips)@[idx as int].start_us < t_us < old(clips)@[idx as int].end_us)
            },
        },
{
    if idx >= clips.len() {
        return None;
    }
    let start = clips[idx].start_us;
    let end = clips[idx].end_us;
    if t_us <= start || t_us >= end {
        return None;
    }
    let base = clips[idx];
    let left = Clip { end_us: t_us, fade_out_us: 0, ..base };
    let right = Clip { start_us: t_us, fade_in_us: 0, ..base };
    clips.set(idx, left);
    clips.insert(idx + 1, right);
    Some(idx + 1)
}

} // verus!
