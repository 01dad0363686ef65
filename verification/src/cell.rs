use vstd::prelude::*;

verus! {

/// One decoded RGBA frame on its way from the video ingest side to the
/// renderer, with the presentation time the pacer scheduled it for.
pub struct VideoFrame {
    pub width: u32,
    pub height: u32,
    pub pts_us: u64,
    pub data: Vec<u8>,
}

impl VideoFrame {
    /// A frame holds exactly `width * height * 4` bytes of RGBA data.
    pub open spec fn wf(&self) -> bool {
        self.data@.len() == self.width * self.height * 4
    }

    /// Builds a frame from raw RGBA bytes, refusing a byte count that
    /// does not match the dimensions.
    pub fn new(width: u32, height: u32, pts_us: u64, data: Vec<u8>) -> (r: Option<VideoFrame>)
        ensures
            match r {
                Some(f) => {
                    &&& f.wf()
                    &&& f.width == width
                    &&& f.height == height
                    &&& f.pts_us == pts_us
                    &&& f.data@ == data@
                },
                None => data@.len() != width * height * 4,
            },
    {
        proof {
            vstd::arithmetic::mul::lemma_mul_upper_bound(
                width as int,
                u32::MAX as int,
                height as int,
                u32::MAX as int,
            );
        }
        let expected: u128 = (width as u128) * (height as u128) * 4;
        if (data.len() as u128) == expected {
            Some(VideoFrame { width, height, pts_us, data })
        } else {
            None
        }
    }

    /// The exact byte count of a raw frame with the given dimensions,
    /// when it is representable on this machine.
    pub fn byte_size(width: u32, height: u32) -> (r: Option<usize>)
        ensures
            match r {
                Some(n) => n == width * height * 4,
                None => width * height * 4 > usize::MAX,
            },
    {
        proof {
            vstd::arithmetic::mul::lemma_mul_upper_bound(
                width as int,
                u32::MAX as int,
                height as int,
                u32::MAX as int,
            );
        }
        let wide: u128 = (width as u128) * (height as u128) * 4;
        if wide <= usize::MAX as u128 {
            Some(wide as usize)
        } else {
            None
        }
    }
}

/// Single-slot, most-recent-wins container for the frame most recently
/// scheduled for display.  The producer overwrites unconditionally — an
/// unread frame is silently superseded — and the consumer takes and
/// clears, so the cell never holds more than one frame and the renderer
/// never waits.
pub struct FrameHandoffCell {
    slot: Option<VideoFrame>,
}

impl FrameHandoffCell {
    /// The frame currently held, if any.
    pub closed spec fn content(&self) -> Option<VideoFrame> {
        self.slot
    }

    pub closed spec fn wf(&self) -> bool {
        self.slot matches Some(f) ==> f.wf()
    }

    pub fn new() -> (c: FrameHandoffCell)
        ensures
            c.wf(),
            c.content() is None,
    {
        FrameHandoffCell { slot: None }
    }

    /// Publishes a frame, superseding whatever was there.
    pub fn publish(&mut self, frame: VideoFrame)
        requires
            frame.wf(),
        ensures
            final(self).wf(),
            final(self).content() == Some(frame),
    {
        self.slot = Some(frame);
    }

    /// Takes and clears the held frame; `None` when it was already
    /// consumed.
    pub fn take(&mut self) -> (r: Option<VideoFrame>)
        requires
            old(self).wf(),
        ensures
            final(self).wf(),
            r == old(self).content(),
            final(self).content() is None,
            r matches Some(f) ==> f.wf(),
    {
        self.slot.take()
    }
}

} // verus!
