use vstd::prelude::*;

verus! {

/// The signed 16-bit value encoded little-endian by a pair of bytes.
pub open spec fn sample_of_le(lo: u8, hi: u8) -> int {
    if hi < 128 {
        lo + 256 * hi
    } else {
        lo + 256 * hi - 65536
    }
}

/// Decodes one interleaved PCM sample from its two little-endian bytes.
pub fn sample_from_le(lo: u8, hi: u8) -> (s: i16)
    ensures
        s as int == sample_of_le(lo, hi),
{
    let unsigned: u32 = (lo as u32) + 256 * (hi as u32);
    if unsigned < 32768 {
        unsigned as i16
    } else {
        ((unsigned as i32) - 65536) as i16
    }
}

/// Converts a chunk of the decoder's raw little-endian byte stream into
/// signed 16-bit samples, two bytes per sample; a trailing odd byte
/// encodes nothing and is dropped.
pub fn bytes_to_samples(bytes: &[u8]) -> (out: Vec<i16>)
    ensures
        out@.len() == bytes@.len() / 2,
        forall|i: int|
            0 <= i < out@.len() ==> out@[i] as int == sample_of_le(
                bytes@[2 * i],
                bytes@[2 * i + 1],
            ),
{
    let len: usize = bytes.len();
    let n: usize = len / 2;
    proof {
        vstd::arithmetic::div_mod::lemma_fundamental_div_mod(len as int, 2);
    }
    let mut out: Vec<i16> = Vec::new();
    let mut k: usize = 0;
    while k < n
        invariant
            len == bytes@.len(),
            n == bytes@.len() / 2,
            2 * n <= len,
            k <= n,
            out@.len() == k,
            forall|i: int|
                0 <= i < k ==> out@[i] as int == sample_of_le(bytes@[2 * i], bytes@[2 * i + 1]),
        decreases n - k,
    {
        let s = sample_from_le(bytes[2 * k], bytes[2 * k + 1]);
        out.push(s);
        k = k + 1;
    }
    out
}

/// The offset-binary representation used by devices that take unsigned
/// 16-bit output: the signed sample shifted up by 32768, so that silence
/// maps to 32768.
pub fn sample_to_unsigned(v: i16) -> (r: u16)
    ensures
        r as int == v + 32768,
{
    ((v as i32) + 32768) as u16
}

} // verus!
