use vstd::prelude::*;

verus! {

use crate::cell::VideoFrame;

/// What decoding an encoded image (PNG and friends) yields once
/// flattened to RGBA8: width, height and the pixel bytes, or nothing for
/// bytes no decoder accepts.  The result depends on the bytes alone.
pub uninterp spec fn decoded_rgba(bytes: Seq<u8>) -> Option<(u32, u32, Seq<u8>)>;

/// Relies on `image::load_from_memory` and `DynamicImage::to_rgba8`:
/// decoding is a pure function of the encoded bytes, and the flattened
/// buffer holds exactly `width * height * 4` RGBA bytes.
#[verifier::external_body]
fn decode_rgba_bytes(data: &[u8]) -> (r: Option<(u32, u32, Vec<u8>)>)
    ensures
        match r {
            Some((w, h, px)) => decoded_rgba(data@) == Some((w, h, px@)) && px@.len() == w * h
                * 4,
            None => decoded_rgba(data@) is None,
        },
{
    match image::load_from_memory(data) {
        Ok(img) => {
            let rgba = img.to_rgba8();
            let w = rgba.width();
            let h = rgba.height();
            Some((w, h, rgba.into_raw()))
        },
        Err(_) => None,
    }
}

/// Decodes an encoded still image — a preview or thumbnail handed back
/// by the frame grabber — into a well-formed video frame carrying the
/// given presentation time.
pub fn frame_from_encoded(data: &[u8], pts_us: u64) -> (r: Option<VideoFrame>)
    ensures
        match r {
            Some(f) => {
                &&& decoded_rgba(data@) == Some((f.width, f.height, f.data@))
                &&& f.pts_us == pts_us
                &&& f.wf()
            },
            None => decoded_rgba(data@) is None,
        },
{
    match decode_rgba_bytes(data) {
        Some((width, height, px)) => Some(VideoFrame { width, height, pts_us, data: px }),
        None => None,
    }
}

} // verus!
