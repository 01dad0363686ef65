use vstd::prelude::*;

verus! {

use vstd::arithmetic::div_mod::{lemma_div_is_ordered, lemma_div_multiples_vanish};
use vstd::arithmetic::mul::{lemma_mul_inequality, lemma_mul_strictly_positive, lemma_mul_upper_bound};

broadcast use vstd::string::to_string_from_display_ensures_for_str;

/// Height of a preview scaled to `max_width` while keeping the aspect
/// ratio, saturating at the representable maximum and never below one
/// line: a degenerate aspect ratio must not yield an empty frame.
pub open spec fn scaled_height(width: u32, height: u32, max_width: u32) -> int {
    let h = (max_width * height) / (width as int);
    if h < 1 {
        1
    } else if h <= u32::MAX {
        h
    } else {
        u32::MAX as int
    }
}

/// Preview dimensions for source material of the given size rendered at
/// `max_width`: the width is taken as is and the height follows the
/// aspect ratio, floored at one line; unknown source dimensions fall
/// back to a 16:9 frame.
pub fn scaled_preview_size(width: u32, height: u32, max_width: u32) -> (r: (u32, u32))
    requires
        max_width * 9 <= u32::MAX,
    ensures
        (width == 0 || height == 0) ==> r == (
            max_width,
            (if (max_width * 9) / 16 < 1 {
                1int
            } else {
                (max_width * 9) / 16
            }) as u32,
        ),
        (width > 0 && height > 0) ==> r == (
            max_width,
            scaled_height(width, height, max_width) as u32,
        ),
{
    if width == 0 || height == 0 {
        let fallback = max_width * 9 / 16;
        let floored: u32 = if fallback < 1 {
            1
        } else {
            fallback
        };
        return (max_width, floored);
    }
    proof {
        lemma_mul_upper_bound(max_width as int, u32::MAX as int, height as int, u32::MAX as int);
    }
    let wide: u64 = (max_width as u64) * (height as u64) / (width as u64);
    let out_h: u32 = if wide < 1 {
        1
    } else if wide <= (u32::MAX as u64) {
        wide as u32
    } else {
        u32::MAX
    };
    (max_width, out_h)
}

/// The invocation that draws the waveform strip the timeline shows
/// behind the clips: one PNG of the whole input's audio, 2048 by 100,
/// white on transparent.  The caller hands the list to the decoder
/// binary unchanged.
pub fn generate_waveform_args(input: &str, output: &str) -> (args: Vec<String>)
    ensures
        args@.len() == 8,
        args@[0]@ == "-y"@,
        args@[1]@ == "-i"@,
        args@[2]@ == input@,
        args@[3]@ == "-filter_complex"@,
        args@[4]@ == "showwavespic=s=2048x100:colors=white"@,
        args@[5]@ == "-frames:v"@,
        args@[6]@ == "1"@,
        args@[7]@ == output@,
{
    let mut args: Vec<String> = Vec::new();
    args.push("-y".to_string());
    args.push("-i".to_string());
    args.push(input.to_string());
    args.push("-filter_complex".to_string());
    args.push("showwavespic=s=2048x100:colors=white".to_string());
    args.push("-frames:v".to_string());
    args.push("1".to_string());
    args.push(output.to_string());
    args
}

/// The representative instant of the `i`-th of `count` thumbnails: the
/// midpoint of its equal share of the timeline, in microseconds.
pub open spec fn thumbnail_time_us(duration_us: u64, count: usize, i: int) -> int {
    ((2 * i + 1) * duration_us) / (2 * count as int)
}

/// The instants to grab `count` evenly spread thumbnails at, each in the
/// middle of its share of the material.
pub fn thumbnail_times(duration_us: u64, count: usize) -> (r: Vec<u64>)
    requires
        count <= 100_000,
    ensures
        r@.len() == count,
        forall|i: int| 0 <= i < count ==> r@[i] == thumbnail_time_us(duration_us, count, i),
    {
    let mut r: Vec<u64> = Vec::new();
    let mut i: usize = 0;
    while i < count
        invariant
            count <= 100_000,
            i <= count,
            r@.len() == i,
            forall|k: int| 0 <= k < i ==> r@[k] == thumbnail_time_us(duration_us, count, k),
        decreases count - i,
    {
        proof {
            lemma_mul_strictly_positive(2, count as int);
            lemma_mul_inequality((2 * i + 1) as int, (2 * count) as int, duration_us as int);
            lemma_mul_upper_bound(
                (2 * i + 1) as int,
                (2 * count) as int,
                duration_us as int,
                u64::MAX as int,
            );
            lemma_div_is_ordered(
                ((2 * i + 1) * duration_us) as int,
                ((2 * count) * duration_us) as int,
                (2 * count) as int,
            );
            lemma_div_multiples_vanish(duration_us as int, (2 * count) as int);
        }
        let numer: u128 = ((2 * (i as u128)) + 1) * (duration_us as u128);
        let t: u64 = (numer / (2 * (count as u128))) as u64;
        r.push(t);
        i = i + 1;
    }
    r
}

} // verus!
