//! The four-band level meter: a coarse loudness reading of the most recent
//! samples, in thousandths of full scale.

use vstd::prelude::*;

verus! {

/// How many of the most recent samples the meter reads.
pub const LEVEL_WINDOW: usize = 1024;

/// Full scale: a level is between 0 and this.
pub const LEVEL_FULL: u64 = 1000;

/// The meter's boost for captured audio.
pub const CAPTURE_BOOST: u32 = 5;

/// The meter's boost for played audio.
pub const OUTPUT_BOOST: u32 = 7;

/// The sum of the squares of the samples from `from` up to `to`.
pub open spec fn sum_squares(s: Seq<i16>, from: int, to: int) -> nat
    decreases to - from,
{
    if from < 0 || to <= from || to > s.len() {
        0
    } else {
        sum_squares(s, from, to - 1) + ((s[to - 1] as int) * (s[to - 1] as int)) as nat
    }
}

/// Whether `r` is the square root of `x`, rounded down.
pub open spec fn is_root(x: nat, r: nat) -> bool {
    r * r <= x && x < (r + 1) * (r + 1)
}

/// The square root of `x`, rounded down.
pub open spec fn root(x: nat) -> nat {
    choose|r: nat| is_root(x, r)
}

/// The root mean square of the samples from `from` up to `to`, in sample
/// units, each step rounded down.
pub open spec fn rms(s: Seq<i16>, from: int, to: int) -> nat {
    if to <= from {
        0
    } else {
        root(sum_squares(s, from, to) / ((to - from) as nat))
    }
}

/// A root mean square times a gain, in thousandths of full scale.
pub open spec fn scaled(rms: nat, gain: nat) -> nat {
    rms * gain * 1000 / 32767
}

/// The smaller of a reading and full scale.
pub open spec fn clamped(v: nat) -> nat {
    if v > 1000 {
        1000
    } else {
        v
    }
}

/// Where band `i` of a window of `len` samples begins.
pub open spec fn band_start(len: nat, i: int) -> int {
    i * ((len / 4) as int)
}

/// Where band `i` of a window of `len` samples ends: the last band takes
/// what the division left over.
pub open spec fn band_end(len: nat, i: int) -> int {
    if i == 3 {
        len as int
    } else {
        (i + 1) * ((len / 4) as int)
    }
}

/// The level of band `i` before the boost: ten times its root mean square,
/// clamped. A band without a sample reads as full.
pub open spec fn band_level(s: Seq<i16>, i: int) -> nat {
    let start = band_start(s.len(), i);
    let end = band_end(s.len(), i);
    if end <= start {
        1000
    } else {
        clamped(scaled(rms(s, start, end), 10))
    }
}

/// The level of band `i`: its own level plus the window's root mean square
/// times the boost, clamped again.
pub open spec fn boosted_level(s: Seq<i16>, i: int, boost: nat) -> nat {
    clamped(band_level(s, i) + scaled(rms(s, 0, s.len() as int), boost))
}

/// The part of a run that the meter reads: its last `LEVEL_WINDOW` samples.
pub open spec fn window_of(s: Seq<i16>) -> Seq<i16> {
    if s.len() > LEVEL_WINDOW {
        s.skip(s.len() - LEVEL_WINDOW)
    } else {
        s
    }
}

/// The four levels of a run of samples; all zero where there is none.
pub open spec fn levels_of(s: Seq<i16>, boost: nat) -> Seq<u16> {
    let w = window_of(s);
    if w.len() == 0 {
        seq![0u16, 0u16, 0u16, 0u16]
    } else {
        seq![
            boosted_level(w, 0, boost) as u16,
            boosted_level(w, 1, boost) as u16,
            boosted_level(w, 2, boost) as u16,
            boosted_level(w, 3, boost) as u16,
        ]
    }
}

/// A number has one rounded-down square root.
pub proof fn root_is_unique(x: nat, a: nat, b: nat)
    requires
        is_root(x, a),
        is_root(x, b),
    ensures
        a == b,
{
    if a < b {
        assert((a + 1) * (a + 1) <= b * b) by (nonlinear_arith)
            requires
                a + 1 <= b,
        ;
    } else if b < a {
        assert((b + 1) * (b + 1) <= a * a) by (nonlinear_arith)
            requires
                b + 1 <= a,
        ;
    }
}

fn isqrt(x: u64) -> (r: u64)
    requires
        x <= 0x4000_0000,
    ensures
        r == root(x as nat),
        r <= 32768,
{
    let mut lo: u64 = 0;
    let mut hi: u64 = 32769;
    while hi - lo > 1
        invariant
            lo < hi <= 32769,
            lo * lo <= x,
            x < hi * hi,
        decreases hi - lo,
    {
        let mid = lo + (hi - lo) / 2;
        assert(mid * mid <= 32769 * 32769) by (nonlinear_arith)
            requires
                mid <= 32769,
        ;
        if mid * mid <= x {
            lo = mid;
        } else {
            hi = mid;
        }
    }
    proof {
        assert(is_root(x as nat, lo as nat));
        root_is_unique(x as nat, lo as nat, root(x as nat));
    }
    lo
}

fn energy(s: &[i16], from: usize, to: usize) -> (sum: u64)
    requires
        from <= to <= s@.len(),
        to - from <= LEVEL_WINDOW,
    ensures
        sum == sum_squares(s@, from as int, to as int),
        sum <= (to - from) * 0x4000_0000,
{
    let mut sum: u64 = 0;
    let mut k: usize = from;
    while k < to
        invariant
            from <= k <= to <= s@.len(),
            to - from <= LEVEL_WINDOW,
            sum == sum_squares(s@, from as int, k as int),
            sum <= (k - from) * 0x4000_0000,
        decreases to - k,
    {
        let v: i64 = s[k] as i64;
        assert(0 <= v * v <= 0x4000_0000) by (nonlinear_arith)
            requires
                -32768 <= v <= 32767,
        ;
        let sq: u64 = (v * v) as u64;
        sum = sum + sq;
        k += 1;
    }
    sum
}

fn rms_of(s: &[i16], from: usize, to: usize) -> (r: u64)
    requires
        from < to <= s@.len(),
        to - from <= LEVEL_WINDOW,
    ensures
        r == rms(s@, from as int, to as int),
        r <= 32768,
{
    let sum = energy(s, from, to);
    let n: u64 = (to - from) as u64;
    assert(sum / n <= 0x4000_0000) by (nonlinear_arith)
        requires
            sum <= n * 0x4000_0000,
            n > 0,
    ;
    isqrt(sum / n)
}

fn scale(r: u64, gain: u32) -> (v: u64)
    requires
        r <= 32768,
    ensures
        v == scaled(r as nat, gain as nat),
{
    assert(r * gain <= 32768 * 0xffff_ffff) by (nonlinear_arith)
        requires
            r <= 32768,
            gain <= 0xffff_ffff,
    ;
    let product: u64 = r * (gain as u64);
    assert(product * 1000 <= 32768 * 0xffff_ffff * 1000) by (nonlinear_arith)
        requires
            product <= 32768 * 0xffff_ffff,
    ;
    product * 1000 / 32767
}

fn clamp(v: u64) -> (c: u64)
    ensures
        c == clamped(v as nat),
        c <= 1000,
{
    if v > LEVEL_FULL {
        LEVEL_FULL
    } else {
        v
    }
}

fn band(w: &[i16], i: usize, boost_part: u64) -> (level: u16)
    requires
        i < 4,
        0 < w@.len() <= LEVEL_WINDOW,
    ensures
        level as nat == clamped(band_level(w@, i as int) + boost_part as nat),
        level <= 1000,
{
    let len = w.len();
    let size = len / 4;
    assert(i * size <= 3 * size && (i + 1) * size <= 4 * size) by (nonlinear_arith)
        requires
            i < 4,
    ;
    assert(i != 3 ==> i * size < (i + 1) * size || size == 0) by (nonlinear_arith);
    let start = i * size;
    let end = if i == 3 {
        len
    } else {
        (i + 1) * size
    };
    let own: u64 = if end <= start {
        LEVEL_FULL
    } else {
        clamp(scale(rms_of(w, start, end), 10))
    };
    let total: u64 = if boost_part > 2000 {
        2000
    } else {
        own + boost_part
    };
    clamp(total) as u16
}

/// The four levels of a run of samples, each between 0 and 1000. Only the
/// last `LEVEL_WINDOW` samples count; without samples all four are zero.
pub fn four_band_levels(samples: &[i16], boost: u32) -> (levels: [u16; 4])
    ensures
        levels@ == levels_of(samples@, boost as nat),
        forall|i: int| 0 <= i < 4 ==> levels@[i] <= 1000,
        samples@.len() == 0 ==> levels@ == seq![0u16, 0u16, 0u16, 0u16],
{
    let len = samples.len();
    if len == 0 {
        let levels = [0u16, 0u16, 0u16, 0u16];
        assert(levels@ =~= seq![0u16, 0u16, 0u16, 0u16]);
        return levels;
    }
    let start = if len > LEVEL_WINDOW {
        len - LEVEL_WINDOW
    } else {
        0
    };
    let w = vstd::slice::slice_subrange(samples, start, len);
    assert(w@ =~= window_of(samples@));
    let part = scale(rms_of(w, 0, w.len()), boost);
    let a = band(w, 0, part);
    let b = band(w, 1, part);
    let c = band(w, 2, part);
    let d = band(w, 3, part);
    let levels = [a, b, c, d];
    assert(levels@ =~= levels_of(samples@, boost as nat));
    levels
}

} // verus!
