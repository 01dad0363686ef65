use vstd::prelude::*;

verus! {

use crate::timebase::FrameRate;

/// ASCII decimal digit.
pub open spec fn is_digit(b: u8) -> bool {
    48 <= b <= 57
}

pub open spec fn all_digits(s: Seq<u8>) -> bool {
    forall|i: int| 0 <= i < s.len() ==> is_digit(#[trigger] s[i])
}

/// The number a string of decimal digits denotes.
pub open spec fn decimal_val(s: Seq<u8>) -> int
    decreases s.len(),
{
    if s.len() == 0 {
        0
    } else {
        decimal_val(s.drop_last()) * 10 + (s.last() - 48)
    }
}

pub open spec fn pow10(n: nat) -> int
    decreases n,
{
    if n == 0 {
        1
    } else {
        10 * pow10((n - 1) as nat)
    }
}

/// Digit strings denote values from zero up to (excluded) ten to their
/// length.
pub proof fn lemma_decimal_val_bound(s: Seq<u8>)
    requires
        all_digits(s),
    ensures
        0 <= decimal_val(s) < pow10(s.len()),
    decreases s.len(),
{
    if s.len() > 0 {
        assert(all_digits(s.drop_last())) by {
            assert(forall|i: int|
                0 <= i < s.len() - 1 ==> s.drop_last()[i] == #[trigger] s[i]);
        }
        lemma_decimal_val_bound(s.drop_last());
        assert(is_digit(s.last()));
        assert(decimal_val(s) <= (pow10((s.len() - 1) as nat) - 1) * 10 + 9) by (nonlinear_arith)
            requires
                decimal_val(s) == decimal_val(s.drop_last()) * 10 + (s.last() - 48),
                decimal_val(s.drop_last()) <= pow10((s.len() - 1) as nat) - 1,
                s.last() - 48 <= 9,
        ;
    }
}

/// A digit string's value only grows as more digits follow.
pub proof fn lemma_decimal_prefix_le(s: Seq<u8>, i: int)
    requires
        all_digits(s),
        0 <= i <= s.len(),
    ensures
        decimal_val(s.take(i)) <= decimal_val(s),
    decreases s.len() - i,
{
    assert(all_digits(s.take(i))) by {
        assert(forall|j: int| 0 <= j < i ==> s.take(i)[j] == #[trigger] s[j]);
    }
    if i < s.len() {
        assert(s.take(i + 1).drop_last() =~= s.take(i));
        assert(s.take(i + 1).last() == s[i]);
        lemma_decimal_val_bound(s.take(i));
        assert(decimal_val(s.take(i)) <= decimal_val(s.take(i)) * 10 + (s[i] - 48))
            by (nonlinear_arith)
            requires
                0 <= decimal_val(s.take(i)),
                48 <= s[i],
        ;
        lemma_decimal_prefix_le(s, i + 1);
    } else {
        assert(s.take(i) =~= s);
    }
}

/// What parsing an unsigned decimal yields: the denoted value, exactly
/// when the bytes are one or more digits and the value fits the type.
pub open spec fn parse_u64_spec(s: Seq<u8>) -> Option<u64> {
    if s.len() > 0 && all_digits(s) && decimal_val(s) <= u64::MAX {
        Some(decimal_val(s) as u64)
    } else {
        None
    }
}

pub open spec fn parse_u32_spec(s: Seq<u8>) -> Option<u32> {
    if s.len() > 0 && all_digits(s) && decimal_val(s) <= u32::MAX {
        Some(decimal_val(s) as u32)
    } else {
        None
    }
}

/// Parses an unsigned decimal number.
pub fn parse_u64(s: &[u8]) -> (r: Option<u64>)
    ensures
        r == parse_u64_spec(s@),
{
    if s.len() == 0 {
        return None;
    }
    let mut v: u64 = 0;
    let mut i: usize = 0;
    while i < s.len()
        invariant
            0 < s@.len(),
            i <= s@.len(),
            all_digits(s@.take(i as int)),
            v == decimal_val(s@.take(i as int)),
        decreases s@.len() - i,
    {
        let b = s[i];
        if !(48 <= b && b <= 57) {
            proof {
                assert(!is_digit(s@[i as int]));
            }
            return None;
        }
        let d = (b - 48) as u64;
        let grown = match v.checked_mul(10) {
            Some(x) => x.checked_add(d),
            None => None,
        };
        proof {
            assert(s@.take(i + 1 as int).drop_last() =~= s@.take(i as int));
            assert(s@.take(i + 1 as int).last() == s@[i as int]);
        }
        match grown {
            Some(x) => {
                v = x;
            },
            None => {
                proof {
                    assert(decimal_val(s@.take(i + 1 as int)) > u64::MAX);
                    if all_digits(s@) {
                        lemma_decimal_prefix_le(s@, i + 1 as int);
                    }
                }
                return None;
            },
        }
        i = i + 1;
    }
    proof {
        assert(s@.take(s@.len() as int) =~= s@);
    }
    Some(v)
}

/// Parses an unsigned decimal number that must fit 32 bits.
pub fn parse_u32(s: &[u8]) -> (r: Option<u32>)
    ensures
        r == parse_u32_spec(s@),
{
    proof {
        if all_digits(s@) {
            lemma_decimal_val_bound(s@);
        }
    }
    match parse_u64(s) {
        Some(v) => {
            if v <= u32::MAX as u64 {
                Some(v as u32)
            } else {
                None
            }
        },
        None => None,
    }
}

/// ASCII whitespace as the probe output carries it.
pub open spec fn is_space(b: u8) -> bool {
    b == 32 || b == 9 || b == 10 || b == 13
}

pub open spec fn trim_front_spec(s: Seq<u8>) -> Seq<u8>
    decreases s.len(),
{
    if s.len() > 0 && is_space(s[0]) {
        trim_front_spec(s.drop_first())
    } else {
        s
    }
}

pub open spec fn trim_back_spec(s: Seq<u8>) -> Seq<u8>
    decreases s.len(),
{
    if s.len() > 0 && is_space(s.last()) {
        trim_back_spec(s.drop_last())
    } else {
        s
    }
}

/// The bytes with leading and trailing whitespace removed.
pub open spec fn trim_spec(s: Seq<u8>) -> Seq<u8> {
    trim_back_spec(trim_front_spec(s))
}

/// Strips leading and trailing ASCII whitespace.
pub fn trim(s: &[u8]) -> (r: &[u8])
    ensures
        r@ == trim_spec(s@),
{
    proof {
        assert(s@.skip(0) =~= s@);
    }
    let mut lo: usize = 0;
    while lo < s.len() && (s[lo] == 32 || s[lo] == 9 || s[lo] == 10 || s[lo] == 13)
        invariant
            lo <= s@.len(),
            trim_front_spec(s@) == trim_front_spec(s@.skip(lo as int)),
        decreases s@.len() - lo,
    {
        proof {
            assert(s@.skip(lo as int)[0] == s@[lo as int]);
            assert(s@.skip(lo as int).drop_first() =~= s@.skip(lo + 1 as int));
        }
        lo = lo + 1;
    }
    proof {
        if lo < s@.len() {
            assert(s@.skip(lo as int)[0] == s@[lo as int]);
        }
        assert(trim_front_spec(s@) == s@.skip(lo as int));
    }
    let mut hi: usize = s.len();
    while hi > lo && (s[hi - 1] == 32 || s[hi - 1] == 9 || s[hi - 1] == 10 || s[hi - 1] == 13)
        invariant
            lo <= hi <= s@.len(),
            trim_front_spec(s@) == s@.skip(lo as int),
            trim_spec(s@) == trim_back_spec(s@.subrange(lo as int, hi as int)),
        decreases hi,
    {
        proof {
            let cur = s@.subrange(lo as int, hi as int);
            assert(cur.last() == s@[hi - 1 as int]);
            assert(cur.drop_last() =~= s@.subrange(lo as int, hi - 1 as int));
        }
        hi = hi - 1;
    }
    proof {
        assert(s@.skip(lo as int) =~= s@.subrange(lo as int, s@.len() as int));
        let cur = s@.subrange(lo as int, hi as int);
        if hi > lo {
            assert(cur.last() == s@[hi - 1 as int]);
        }
        assert(trim_back_spec(cur) == cur);
    }
    &s[lo..hi]
}

/// Index of the first occurrence of `b`, or the length when absent.
pub open spec fn find_byte(s: Seq<u8>, b: u8) -> int
    decreases s.len(),
{
    if s.len() == 0 {
        0
    } else if s[0] == b {
        0
    } else {
        1 + find_byte(s.drop_first(), b)
    }
}

proof fn lemma_find_first(s: Seq<u8>, b: u8, i: int)
    requires
        0 <= i <= s.len(),
        forall|j: int| 0 <= j < i ==> s[j] != b,
        i < s.len() ==> s[i] == b,
    ensures
        find_byte(s, b) == i,
    decreases i, s.len(),
{
    if s.len() == 0 {
    } else if i == 0 {
    } else {
        assert(s[0] != b);
        let t = s.drop_first();
        assert(forall|j: int| 0 <= j < i - 1 ==> t[j] == #[trigger] s[j + 1]);
        lemma_find_first(t, b, i - 1);
    }
}

/// Finds the first occurrence of a byte, reporting the length when it
/// is absent.
pub fn find_first(s: &[u8], b: u8) -> (r: usize)
    ensures
        r == find_byte(s@, b),
        r <= s@.len(),
        r < s@.len() ==> s@[r as int] == b,
        forall|j: int| 0 <= j < r ==> s@[j] != b,
{
    let mut i: usize = 0;
    while i < s.len()
        invariant
            i <= s@.len(),
            forall|j: int| 0 <= j < i ==> s@[j] != b,
        decreases s@.len() - i,
    {
        if s[i] == b {
            proof {
                lemma_find_first(s@, b, i as int);
            }
            return i;
        }
        i = i + 1;
    }
    proof {
        lemma_find_first(s@, b, s@.len() as int);
    }
    i
}

/// What parsing a frame-rate field yields: either a fraction such as
/// `30000/1001` (numerator and denominator decimal, denominator
/// nonzero), or a plain or decimal number such as `25` or `29.97`, read
/// as an exact rational with a power-of-ten denominator.  At most nine
/// fraction digits fit the rational's range.
pub open spec fn parse_fps_spec(s: Seq<u8>) -> Option<FrameRate> {
    let t = trim_spec(s);
    let slash = find_byte(t, 47);
    if slash < t.len() {
        let n = parse_u32_spec(trim_spec(t.take(slash)));
        let d = parse_u32_spec(trim_spec(t.skip(slash + 1)));
        match (n, d) {
            (Some(nv), Some(dv)) => {
                if dv >= 1 {
                    Some(FrameRate { num: nv, den: dv })
                } else {
                    None
                }
            },
            _ => None,
        }
    } else {
        let dot = find_byte(t, 46);
        if dot == t.len() {
            match parse_u32_spec(t) {
                Some(v) => Some(FrameRate { num: v, den: 1 }),
                None => None,
            }
        } else {
            let intp = t.take(dot);
            let frac = t.skip(dot + 1);
            if intp.len() >= 1 && frac.len() <= 9 {
                match parse_u32_spec(intp + frac) {
                    Some(v) => Some(FrameRate { num: v, den: pow10(frac.len()) as u32 }),
                    None => None,
                }
            } else {
                None
            }
        }
    }
}

/// Ten to a small power.
pub fn pow10_u32(n: usize) -> (r: u32)
    requires
        n <= 9,
    ensures
        r == pow10(n as nat),
{
    proof {
        reveal_with_fuel(pow10, 11);
    }
    match n {
        0 => 1,
        1 => 10,
        2 => 100,
        3 => 1_000,
        4 => 10_000,
        5 => 100_000,
        6 => 1_000_000,
        7 => 10_000_000,
        8 => 100_000_000,
        _ => 1_000_000_000,
    }
}

/// Copies a range of bytes into a fresh vector.
fn copy_range(s: &[u8], lo: usize, hi: usize) -> (r: Vec<u8>)
    requires
        lo <= hi <= s@.len(),
    ensures
        r@ =~= s@.subrange(lo as int, hi as int),
{
    let mut r: Vec<u8> = Vec::new();
    let mut i: usize = lo;
    while i < hi
        invariant
            lo <= i <= hi <= s@.len(),
            r@ =~= s@.subrange(lo as int, i as int),
        decreases hi - i,
    {
        r.push(s[i]);
        proof {
            assert(s@.subrange(lo as int, i + 1 as int) =~= s@.subrange(lo as int, i as int)
                .push(s@[i as int]));
        }
        i = i + 1;
    }
    r
}

/// Parses a frame-rate field as the probe reports it (`30000/1001`,
/// `25`, `29.97`) into an exact rational.
pub fn parse_fps(s: &[u8]) -> (r: Option<FrameRate>)
    ensures
        r == parse_fps_spec(s@),
{
    let t = trim(s);
    let slash = find_first(t, 47);
    if slash < t.len() {
        proof {
            assert(t@.take(slash as int) =~= t@.subrange(0, slash as int));
            assert(t@.skip(slash + 1 as int) =~= t@.subrange(slash + 1 as int, t@.len() as int));
        }
        let n = parse_u32(trim(&t[0..slash]));
        let d = parse_u32(trim(&t[slash + 1..t.len()]));
        match (n, d) {
            (Some(nv), Some(dv)) => {
                if dv >= 1 {
                    Some(FrameRate { num: nv, den: dv })
                } else {
                    None
                }
            },
            _ => None,
        }
    } else {
        let dot = find_first(t, 46);
        if dot == t.len() {
            match parse_u32(t) {
                Some(v) => Some(FrameRate { num: v, den: 1 }),
                None => None,
            }
        } else {
            proof {
                assert(t@.take(dot as int) =~= t@.subrange(0, dot as int));
                assert(t@.skip(dot + 1 as int) =~= t@.subrange(dot + 1 as int, t@.len() as int));
            }
            let frac_len = t.len() - dot - 1;
            if dot >= 1 && frac_len <= 9 {
                let mut joined = copy_range(t, 0, dot);
                let mut i: usize = dot + 1;
                while i < t.len()
                    invariant
                        dot + 1 <= i <= t@.len(),
                        joined@ =~= t@.subrange(0, dot as int) + t@.subrange(
                            dot + 1 as int,
                            i as int,
                        ),
                    decreases t@.len() - i,
                {
                    joined.push(t[i]);
                    proof {
                        assert(t@.subrange(dot + 1 as int, i + 1 as int) =~= t@.subrange(
                            dot + 1 as int,
                            i as int,
                        ).push(t@[i as int]));
                    }
                    i = i + 1;
                }
                proof {
                    assert(joined@ =~= t@.take(dot as int) + t@.skip(dot + 1 as int));
                }
                let den = pow10_u32(frac_len);
                match parse_u32(joined.as_slice()) {
                    Some(v) => Some(FrameRate { num: v, den }),
                    None => None,
                }
            } else {
                None
            }
        }
    }
}

/// All-zero digit padding.
pub open spec fn zero_digits(n: nat) -> Seq<u8> {
    Seq::new(n, |i: int| 48u8)
}

/// The first six fraction digits of a duration, right-padded with
/// zeros: the microseconds its fraction part denotes.
pub open spec fn frac_micros_digits(frac: Seq<u8>) -> Seq<u8> {
    if frac.len() <= 6 {
        frac + zero_digits((6 - frac.len()) as nat)
    } else {
        frac.take(6)
    }
}

/// What parsing a duration field (decimal seconds, e.g. `123.456`)
/// yields in whole microseconds: the seconds times a million plus the
/// fraction read to microsecond precision, exactly when the field is
/// digits with at most one point and the total fits.
pub open spec fn parse_duration_us_spec(s: Seq<u8>) -> Option<u64> {
    let dot = find_byte(s, 46);
    if dot == s.len() {
        match parse_u64_spec(s) {
            Some(v) => {
                if v * 1_000_000 <= u64::MAX {
                    Some((v * 1_000_000) as u64)
                } else {
                    None
                }
            },
            None => None,
        }
    } else {
        let intp = s.take(dot);
        let frac = s.skip(dot + 1);
        let us = decimal_val(intp) * 1_000_000 + decimal_val(frac_micros_digits(frac));
        if intp.len() >= 1 && all_digits(intp) && all_digits(frac) && us <= u64::MAX {
            Some(us as u64)
        } else {
            None
        }
    }
}

/// Parses a duration field of decimal seconds into whole microseconds.
pub fn parse_duration_us(s: &[u8]) -> (r: Option<u64>)
    ensures
        r == parse_duration_us_spec(s@),
{
    let dot = find_first(s, 46);
    if dot == s.len() {
        match parse_u64(s) {
            Some(v) => v.checked_mul(1_000_000),
            None => None,
        }
    } else {
        proof {
            assert(s@.take(dot as int) =~= s@.subrange(0, dot as int));
            assert(s@.skip(dot + 1 as int) =~= s@.subrange(dot + 1 as int, s@.len() as int));
        }
        let ghost intp = s@.take(dot as int);
        let ghost frac = s@.skip(dot + 1 as int);
        let ghost frac6 = frac_micros_digits(frac);

        // The seconds part.
        let vi = match parse_u64(&s[0..dot]) {
            Some(v) => v,
            None => {
                proof {
                    lemma_duration_over_u64(intp, frac);
                }
                return None;
            },
        };
        // The first six fraction digits, padded out to microseconds.
        let frac_len = s.len() - dot - 1;
        let m = if frac_len < 6 {
            frac_len
        } else {
            6
        };
        let mut f6 = copy_range(s, dot + 1, dot + 1 + m);
        while f6.len() < 6
            invariant
                m <= 6,
                m <= frac.len(),
                frac == s@.skip(dot as int + 1),
                m < 6 ==> m == frac.len(),
                m <= f6@.len() <= 6,
                f6@ =~= frac.take(m as int) + zero_digits((f6@.len() - m) as nat),
            decreases 6 - f6@.len(),
        {
            f6.push(48);
        }
        proof {
            assert(f6@ =~= frac6);
        }
        let fv = match parse_u64(f6.as_slice()) {
            Some(v) => v,
            None => {
                proof {
                    assert(!all_digits(frac)) by {
                        if all_digits(frac) {
                            lemma_frac6_digits(frac);
                            lemma_decimal_val_bound(frac6);
                            reveal_with_fuel(pow10, 7);
                        }
                    }
                }
                return None;
            },
        };
        // Any fraction digits beyond microsecond precision must still be
        // digits for the field to be well-formed.
        proof {
            assert(all_digits(f6@));
            assert forall|k: int| 0 <= k < m implies is_digit(#[trigger] frac[k]) by {
                assert(f6@[k] == frac.take(m as int)[k]);
            }
        }
        let mut j: usize = dot + 1 + m;
        while j < s.len()
            invariant
                dot + 1 + m <= j <= s@.len(),
                dot as int == find_byte(s@, 46),
                dot < s@.len(),
                frac == s@.skip(dot as int + 1),
                forall|k: int| 0 <= k < j - dot - 1 ==> is_digit(#[trigger] frac[k]),
            decreases s@.len() - j,
        {
            let b = s[j];
            proof {
                assert(frac[j - dot - 1] == s@[j as int]);
            }
            if !(48 <= b && b <= 57) {
                proof {
                    assert(!is_digit(frac[j - dot - 1]));
                    assert(!all_digits(frac));
                }
                return None;
            }
            j = j + 1;
        }
        proof {
            assert(all_digits(frac));
            lemma_frac6_digits(frac);
            lemma_decimal_val_bound(frac6);
            lemma_decimal_val_bound(intp);
        }
        match vi.checked_mul(1_000_000) {
            Some(x) => {
                match x.checked_add(fv) {
                    Some(y) => Some(y),
                    None => None,
                }
            },
            None => {
                proof {
                    assert(decimal_val(intp) * 1_000_000 + decimal_val(frac6) > u64::MAX);
                }
                None
            },
        }
    }
}

/// Six padded fraction digits are digits whenever the fraction is.
proof fn lemma_frac6_digits(frac: Seq<u8>)
    requires
        all_digits(frac),
    ensures
        all_digits(frac_micros_digits(frac)),
{
    let f6 = frac_micros_digits(frac);
    assert forall|i: int| 0 <= i < f6.len() implies is_digit(#[trigger] f6[i]) by {
        if frac.len() <= 6 {
            if i < frac.len() {
                assert(f6[i] == frac[i]);
            } else {
                assert(f6[i] == 48);
            }
        } else {
            assert(f6[i] == frac[i]);
        }
    }
}

/// When the seconds part alone overflows, the whole duration does.
proof fn lemma_duration_over_u64(intp: Seq<u8>, frac: Seq<u8>)
    requires
        parse_u64_spec(intp) is None,
    ensures
        !(intp.len() >= 1 && all_digits(intp) && all_digits(frac) && decimal_val(intp)
            * 1_000_000 + decimal_val(frac_micros_digits(frac)) <= u64::MAX),
{
    if intp.len() >= 1 && all_digits(intp) && all_digits(frac) {
        lemma_decimal_val_bound(intp);
        lemma_frac6_digits(frac);
        lemma_decimal_val_bound(frac_micros_digits(frac));
        assert(decimal_val(intp) > u64::MAX);
        assert(decimal_val(intp) * 1_000_000 >= decimal_val(intp)) by (nonlinear_arith)
            requires
                decimal_val(intp) >= 0,
        ;
    }
}

pub proof fn lemma_find_byte_range(s: Seq<u8>, b: u8)
    ensures
        0 <= find_byte(s, b) <= s.len(),
    decreases s.len(),
{
    if s.len() > 0 && s[0] != b {
        lemma_find_byte_range(s.drop_first(), b);
    }
}

/// The comma-separated fields of a line: each comma ends a field.
pub open spec fn split_commas_spec(s: Seq<u8>) -> Seq<Seq<u8>>
    decreases s.len(),
    via split_commas_spec_decreases
{
    let c = find_byte(s, 44);
    if c == s.len() {
        seq![s]
    } else {
        seq![s.take(c)] + split_commas_spec(s.skip(c + 1))
    }
}

#[via_fn]
proof fn split_commas_spec_decreases(s: Seq<u8>) {
    lemma_find_byte_range(s, 44);
}

/// What the probe reports about a video stream, with the duration in
/// whole microseconds and the frame rate as an exact rational.
#[derive(Clone, Copy, PartialEq, Eq, Structural, Debug)]
pub struct VideoInfo {
    pub width: u32,
    pub height: u32,
    pub duration_us: u64,
    pub fps: FrameRate,
}

#[derive(Clone, Copy, PartialEq, Eq, Structural, Debug)]
pub enum ProbeError {
    /// The probe's report held fewer than the four expected fields.
    MalformedOutput,
}

/// The fields of the probe's report: its trimmed output split at
/// commas.
pub open spec fn probe_fields(s: Seq<u8>) -> Seq<Seq<u8>> {
    split_commas_spec(trim_spec(s))
}

/// The stream description the first four fields denote; a field that
/// does not parse falls back to its conventional default.  A rate below
/// one frame per second cannot pace playback, so it falls back too.
pub open spec fn video_info_of(fields: Seq<Seq<u8>>) -> VideoInfo {
    VideoInfo {
        width: match parse_u32_spec(fields[0]) {
            Some(v) => v,
            None => 1920,
        },
        height: match parse_u32_spec(fields[1]) {
            Some(v) => v,
            None => 1080,
        },
        duration_us: match parse_duration_us_spec(fields[2]) {
            Some(v) => v,
            None => 0,
        },
        fps: match parse_fps_spec(fields[3]) {
            Some(r) => if r.wf() {
                r
            } else {
                FrameRate { num: 30, den: 1 }
            },
            None => FrameRate { num: 30, den: 1 },
        },
    }
}

/// Reads the probe's comma-separated report of width, height, duration
/// and frame rate.  Fewer than four fields is an error; a field that
/// does not parse — or a frame rate below one, which cannot pace
/// playback — falls back to its conventional default, as the stream is
/// still playable.
pub fn parse_video_info(s: &[u8]) -> (r: Result<VideoInfo, ProbeError>)
    ensures
        probe_fields(s@).len() >= 4 ==> r == Ok::<VideoInfo, ProbeError>(
            video_info_of(probe_fields(s@)),
        ),
        probe_fields(s@).len() < 4 ==> r == Err::<VideoInfo, ProbeError>(
            ProbeError::MalformedOutput,
        ),
{
    let t = trim(s);
    let ghost fields = probe_fields(s@);
    let c1 = find_first(t, 44);
    if c1 == t.len() {
        return Err(ProbeError::MalformedOutput);
    }
    let f0 = &t[0..c1];
    let r1 = &t[c1 + 1..t.len()];
    proof {
        assert(f0@ =~= t@.take(c1 as int));
        assert(r1@ =~= t@.skip(c1 + 1 as int));
        assert(fields == seq![f0@] + split_commas_spec(r1@));
    }
    let c2 = find_first(r1, 44);
    if c2 == r1.len() {
        proof {
            assert(fields.len() == 2);
        }
        return Err(ProbeError::MalformedOutput);
    }
    let f1 = &r1[0..c2];
    let r2 = &r1[c2 + 1..r1.len()];
    proof {
        assert(f1@ =~= r1@.take(c2 as int));
        assert(r2@ =~= r1@.skip(c2 + 1 as int));
        assert(split_commas_spec(r1@) == seq![f1@] + split_commas_spec(r2@));
    }
    let c3 = find_first(r2, 44);
    if c3 == r2.len() {
        proof {
            assert(fields.len() == 3);
        }
        return Err(ProbeError::MalformedOutput);
    }
    let f2 = &r2[0..c3];
    let r3 = &r2[c3 + 1..r2.len()];
    proof {
        assert(f2@ =~= r2@.take(c3 as int));
        assert(r3@ =~= r2@.skip(c3 + 1 as int));
        assert(split_commas_spec(r2@) == seq![f2@] + split_commas_spec(r3@));
    }
    let c4 = find_first(r3, 44);
    let f3 = if c4 == r3.len() {
        r3
    } else {
        &r3[0..c4]
    };
    proof {
        if c4 < r3.len() {
            assert(f3@ =~= r3@.take(c4 as int));
        }
        assert(split_commas_spec(r3@)[0] == f3@);
        assert(split_commas_spec(r3@).len() >= 1);
        assert(fields.len() >= 4);
        assert(fields[0] == f0@);
        assert(fields[1] == f1@);
        assert(fields[2] == f2@);
        assert(fields[3] == f3@);
    }
    let width = match parse_u32(f0) {
        Some(v) => v,
        None => 1920,
    };
    let height = match parse_u32(f1) {
        Some(v) => v,
        None => 1080,
    };
    let duration_us = match parse_duration_us(f2) {
        Some(v) => v,
        None => 0,
    };
    let fps = match parse_fps(f3) {
        Some(r) => {
            if r.den >= 1 && r.num >= r.den {
                r
            } else {
                FrameRate { num: 30, den: 1 }
            }
        },
        None => FrameRate { num: 30, den: 1 },
    };
    Ok(VideoInfo { width, height, duration_us, fps })
}

} // verus!
