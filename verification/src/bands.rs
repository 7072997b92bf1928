use vstd::prelude::*;
use crate::spectrum::{LEVEL_CAP, NUM_BANDS};

verus! {

/// Number of magnitude bins a forward transform of one frame yields: half the
/// frame plus the zero-frequency bin.
pub const NUM_BINS: usize = 1025;

/// Numerator of the global visual gain, in per-myriad units: the gain is
/// 0.85, applied together with the per-band gain (a percentage), so the two
/// divide the scaled magnitude by ten thousand.
pub const GAIN_PER_MYRIAD: u64 = 8500;

/// Lower bin index of band `b`; `band_edge_spec(NUM_BANDS)` is the first bin
/// past the last band. The edges grow roughly by octaves, mapping the fixed
/// transform size onto musically spaced bands, and the top edge is the last
/// usable bin of the transform, fixed because the transform size is fixed.
pub open spec fn band_edge_spec(b: int) -> int {
    if b <= 0 {
        1
    } else if b == 1 {
        2
    } else if b == 2 {
        4
    } else if b == 3 {
        8
    } else if b == 4 {
        16
    } else if b == 5 {
        32
    } else if b == 6 {
        64
    } else if b == 7 {
        128
    } else if b == 8 {
        256
    } else if b == 9 {
        384
    } else if b == 10 {
        512
    } else if b == 11 {
        768
    } else {
        1024
    }
}

/// The edge table is strictly increasing and stays inside the bin range.
pub proof fn lemma_band_edges_increasing()
    ensures
        forall|b: int| 0 <= b < NUM_BANDS ==> #[trigger] band_edge_spec(b) < band_edge_spec(b + 1),
        forall|b: int| 0 <= b <= NUM_BANDS ==> 1 <= #[trigger] band_edge_spec(b) < NUM_BINS,
{
}

pub fn band_edge(b: usize) -> (r: usize)
    requires
        b <= NUM_BANDS,
    ensures
        r == band_edge_spec(b as int),
{
    if b == 0 {
        1
    } else if b == 1 {
        2
    } else if b == 2 {
        4
    } else if b == 3 {
        8
    } else if b == 4 {
        16
    } else if b == 5 {
        32
    } else if b == 6 {
        64
    } else if b == 7 {
        128
    } else if b == 8 {
        256
    } else if b == 9 {
        384
    } else if b == 10 {
        512
    } else if b == 11 {
        768
    } else {
        1024
    }
}

/// Per-band visual gain in percent: a deliberate smile curve that favors the
/// mid bands over sub-bass and the highest registers, for visual balance
/// rather than physical accuracy.
pub open spec fn band_gain_spec(b: int) -> int {
    if b <= 0 {
        50
    } else if b == 1 {
        65
    } else if b == 2 {
        80
    } else if b == 3 {
        90
    } else if b == 4 {
        100
    } else if b == 5 {
        100
    } else if b == 6 {
        95
    } else if b == 7 {
        85
    } else if b == 8 {
        75
    } else if b == 9 {
        65
    } else if b == 10 {
        55
    } else {
        45
    }
}

pub fn band_gain(b: usize) -> (r: u64)
    requires
        b < NUM_BANDS,
    ensures
        r == band_gain_spec(b as int),
        1 <= r <= 100,
{
    if b == 0 {
        50
    } else if b == 1 {
        65
    } else if b == 2 {
        80
    } else if b == 3 {
        90
    } else if b == 4 {
        100
    } else if b == 5 {
        100
    } else if b == 6 {
        95
    } else if b == 7 {
        85
    } else if b == 8 {
        75
    } else if b == 9 {
        65
    } else if b == 10 {
        55
    } else {
        45
    }
}

/// Sum of the magnitudes of bins `[i, j)`.
pub open spec fn sum_mags(m: Seq<u32>, i: int, j: int) -> int
    decreases j - i,
{
    if i < 0 || j <= i || j > m.len() {
        0
    } else {
        m[i] + sum_mags(m, i + 1, j)
    }
}

/// Largest magnitude among bins `[i, j)`.
pub open spec fn max_mag(m: Seq<u32>, i: int, j: int) -> int
    decreases j - i,
{
    if i < 0 || j <= i || j > m.len() {
        0
    } else {
        let rest = max_mag(m, i + 1, j);
        if m[i] >= rest {
            m[i] as int
        } else {
            rest
        }
    }
}

proof fn lemma_sum_mags_bounded(m: Seq<u32>, i: int, j: int)
    requires
        0 <= i <= j <= m.len(),
    ensures
        0 <= sum_mags(m, i, j) <= (j - i) * 0xffff_ffff,
    decreases j - i,
{
    if i < j {
        lemma_sum_mags_bounded(m, i + 1, j);
        assert((j - i) * 0xffff_ffff == (j - (i + 1)) * 0xffff_ffff + 0xffff_ffff)
            by (nonlinear_arith);
    }
}

/// The running maximum bounds every magnitude it has scanned.
pub proof fn lemma_max_mag_bounds(m: Seq<u32>, i: int, j: int)
    requires
        0 <= i <= j <= m.len(),
    ensures
        0 <= max_mag(m, i, j) <= 0xffff_ffff,
        forall|k: int| i <= k < j ==> m[k] <= max_mag(m, i, j),
    decreases j - i,
{
    if i < j {
        lemma_max_mag_bounds(m, i + 1, j);
    }
}

/// The largest magnitude over `[i, k)` splits at any `j` between `i` and `k`.
proof fn lemma_max_mag_concat(m: Seq<u32>, i: int, j: int, k: int)
    requires
        0 <= i <= j <= k <= m.len(),
    ensures
        max_mag(m, i, k) == if max_mag(m, i, j) >= max_mag(m, j, k) {
            max_mag(m, i, j)
        } else {
            max_mag(m, j, k)
        },
    decreases j - i,
{
    if i < j {
        lemma_max_mag_concat(m, i + 1, j, k);
    }
}

/// Raw level of band `b`: the arithmetic mean of the magnitudes of the bins
/// the band covers.
pub open spec fn raw_band(m: Seq<u32>, b: int) -> int {
    sum_mags(m, band_edge_spec(b), band_edge_spec(b + 1)) / (band_edge_spec(b + 1)
        - band_edge_spec(b))
}

/// Largest magnitude among all bins any band covers this frame.
pub open spec fn frame_max(m: Seq<u32>) -> int {
    max_mag(m, band_edge_spec(0), band_edge_spec(NUM_BANDS as int))
}

/// Mean raw levels of all bands, and the frame's largest scanned magnitude.
pub fn map_bands(mags: &Vec<u32>) -> (r: (Vec<u32>, u32))
    requires
        mags@.len() == NUM_BINS,
    ensures
        r.0@.len() == NUM_BANDS,
        forall|b: int| 0 <= b < NUM_BANDS ==> r.0@[b] == raw_band(mags@, b),
        r.1 == frame_max(mags@),
{
    let mut raw: Vec<u32> = Vec::new();
    let mut maxm: u32 = 0;
    let mut b: usize = 0;
    proof {
        lemma_band_edges_increasing();
    }
    while b < NUM_BANDS
        invariant
            mags@.len() == NUM_BINS,
            b <= NUM_BANDS,
            raw@.len() == b,
            forall|x: int| 0 <= x < b ==> raw@[x] == raw_band(mags@, x),
            maxm == max_mag(mags@, band_edge_spec(0), band_edge_spec(b as int)),
        decreases NUM_BANDS - b,
    {
        let start = band_edge(b);
        let end = band_edge(b + 1);
        proof {
            lemma_band_edges_increasing();
            lemma_max_mag_bounds(mags@, band_edge_spec(0), start as int);
        }
        let mut sum: u64 = 0;
        let mut i: usize = start;
        while i < end
            invariant
                mags@.len() == NUM_BINS,
                band_edge_spec(b as int) == start,
                band_edge_spec(b as int + 1) == end,
                1 <= start < end < NUM_BINS,
                start <= i <= end,
                sum == sum_mags(mags@, start as int, i as int),
                sum <= (i - start) * 0xffff_ffff,
                maxm == if max_mag(mags@, band_edge_spec(0), start as int) >= max_mag(
                    mags@,
                    start as int,
                    i as int,
                ) {
                    max_mag(mags@, band_edge_spec(0), start as int)
                } else {
                    max_mag(mags@, start as int, i as int)
                },
            decreases end - i,
        {
            let v = mags[i];
            proof {
                lemma_sum_mags_unfold_right(mags@, start as int, i as int);
                lemma_max_mag_unfold_right(mags@, start as int, i as int);
                assert((i + 1 - start) * 0xffff_ffff == (i - start) * 0xffff_ffff + 0xffff_ffff)
                    by (nonlinear_arith);
                assert(sum + v <= 0xffff_ffff_ffff_ffff_u64) by (nonlinear_arith)
                    requires
                        sum <= (i - start) * 0xffff_ffff,
                        0 <= i - start <= 1024,
                        v <= 0xffff_ffff,
                ;
            }
            sum = sum + (v as u64);
            if v > maxm {
                maxm = v;
            }
            i += 1;
        }
        proof {
            lemma_max_mag_concat(mags@, band_edge_spec(0), start as int, end as int);
            lemma_sum_mags_bounded(mags@, start as int, end as int);
            assert(sum / ((end - start) as u64) <= 0xffff_ffff) by (nonlinear_arith)
                requires
                    sum <= (end - start) * 0xffff_ffff,
                    end > start,
            ;
        }
        let mean: u64 = sum / ((end - start) as u64);
        raw.push(mean as u32);
        b += 1;
    }
    (raw, maxm)
}

/// The integer square root: the largest `r` with `r * r <= n`.
pub open spec fn isqrt_spec(n: int) -> int
    decreases n,
{
    if n <= 0 {
        0
    } else {
        let p = isqrt_spec(n - 1);
        if (p + 1) * (p + 1) <= n {
            p + 1
        } else {
            p
        }
    }
}

/// `isqrt_spec(n)` is the floor of the square root of `n`.
pub proof fn lemma_isqrt_bounds(n: int)
    requires
        n >= 0,
    ensures
        0 <= isqrt_spec(n),
        isqrt_spec(n) * isqrt_spec(n) <= n,
        n < (isqrt_spec(n) + 1) * (isqrt_spec(n) + 1),
    decreases n,
{
    if n > 0 {
        lemma_isqrt_bounds(n - 1);
        let p = isqrt_spec(n - 1);
        if (p + 1) * (p + 1) <= n {
            assert(n == (p + 1) * (p + 1));
            assert((p + 1) * (p + 1) < (p + 2) * (p + 2)) by (nonlinear_arith)
                requires p >= 0;
        }
    }
}

/// No two distinct values satisfy the floor-square-root bounds.
pub proof fn lemma_isqrt_unique(n: int, r: int)
    requires
        n >= 0,
        r >= 0,
        r * r <= n,
        n < (r + 1) * (r + 1),
    ensures
        r == isqrt_spec(n),
{
    lemma_isqrt_bounds(n);
    let s = isqrt_spec(n);
    if r < s {
        assert((r + 1) * (r + 1) <= s * s) by (nonlinear_arith)
            requires 0 <= r < s;
    }
    if s < r {
        assert((s + 1) * (s + 1) <= r * r) by (nonlinear_arith)
            requires 0 <= s < r;
    }
}

/// Integer square root by bisection on the root.
pub fn isqrt64(n: u64) -> (r: u64)
    ensures
        r == isqrt_spec(n as int),
        r * r <= n,
{
    if n == 0 {
        proof {
            lemma_isqrt_unique(n as int, 0);
        }
        return 0;
    }
    let mut lo: u64 = 0;
    let mut hi: u64 = 4294967296;
    while lo + 1 < hi
        invariant
            lo < hi <= 4294967296,
            lo * lo <= n,
            n < hi * hi,
        decreases hi - lo,
    {
        let mid: u64 = lo + (hi - lo) / 2;
        proof {
            assert(mid * mid < 0xffff_ffff_ffff_ffff_u64) by (nonlinear_arith)
                requires mid < 4294967296u64;
        }
        if mid * mid <= n {
            lo = mid;
        } else {
            hi = mid;
        }
    }
    proof {
        lemma_isqrt_unique(n as int, lo as int);
    }
    lo
}

/// Normalized level of one band in fixed point: the raw mean scaled by the
/// frame maximum, the per-band gain and the global gain, put through a
/// square-root response curve into `[0, LEVEL_SCALE]` units, and capped at
/// `LEVEL_CAP`. A silent frame (zero maximum) maps every band to zero.
pub open spec fn norm_level(raw: int, maxm: int, b: int) -> int {
    if maxm <= 0 {
        0
    } else {
        let scaled = isqrt_spec(raw * band_gain_spec(b) * (GAIN_PER_MYRIAD as int) / maxm);
        if scaled > LEVEL_CAP {
            LEVEL_CAP as int
        } else {
            scaled
        }
    }
}

/// Every normalized level lies in `[0, LEVEL_CAP]` before smoothing.
pub proof fn lemma_norm_level_capped(raw: int, maxm: int, b: int)
    requires
        raw >= 0,
    ensures
        0 <= norm_level(raw, maxm, b) <= LEVEL_CAP,
{
    if maxm > 0 {
        vstd::arithmetic::mul::lemma_mul_nonnegative(raw * band_gain_spec(b), GAIN_PER_MYRIAD as int);
        vstd::arithmetic::mul::lemma_mul_nonnegative(raw, band_gain_spec(b));
        vstd::arithmetic::div_mod::lemma_div_pos_is_pos(
            raw * band_gain_spec(b) * (GAIN_PER_MYRIAD as int),
            maxm,
        );
        lemma_isqrt_bounds(raw * band_gain_spec(b) * (GAIN_PER_MYRIAD as int) / maxm);
    }
}

/// The normalized levels of all bands, from their raw means and the frame's
/// largest magnitude.
pub fn normalize_bands(raw: &Vec<u32>, maxm: u32) -> (r: Vec<u16>)
    requires
        raw@.len() == NUM_BANDS,
    ensures
        r@.len() == NUM_BANDS,
        forall|b: int| 0 <= b < NUM_BANDS ==> r@[b] == norm_level(raw@[b] as int, maxm as int, b),
        forall|b: int| 0 <= b < NUM_BANDS ==> r@[b] <= LEVEL_CAP,
{
    let mut out: Vec<u16> = Vec::new();
    let mut b: usize = 0;
    while b < NUM_BANDS
        invariant
            raw@.len() == NUM_BANDS,
            b <= NUM_BANDS,
            out@.len() == b,
            forall|x: int| 0 <= x < b ==> out@[x] == norm_level(raw@[x] as int, maxm as int, x),
            forall|x: int| 0 <= x < b ==> out@[x] <= LEVEL_CAP,
        decreases NUM_BANDS - b,
    {
        let level: u16 = if maxm == 0 {
            0
        } else {
            let gain = band_gain(b);
            proof {
                assert((raw@[b as int] as u64) * gain * GAIN_PER_MYRIAD
                    <= 0xffff_ffff_u64 * 100 * 8500) by (nonlinear_arith)
                    requires
                        raw@[b as int] <= 0xffff_ffff_u32,
                        gain <= 100u64,
                        GAIN_PER_MYRIAD == 8500u64,
                ;
            }
            let num: u64 = (raw[b] as u64) * gain * GAIN_PER_MYRIAD;
            let q: u64 = num / (maxm as u64);
            let s: u64 = isqrt64(q);
            proof {
                lemma_isqrt_bounds(q as int);
            }
            if s > (LEVEL_CAP as u64) {
                LEVEL_CAP
            } else {
                s as u16
            }
        };
        out.push(level);
        b += 1;
    }
    out
}

proof fn lemma_max_mag_zero(m: Seq<u32>, i: int, j: int)
    requires
        0 <= i <= j <= m.len(),
        forall|k: int| 0 <= k < m.len() ==> m[k] == 0,
    ensures
        max_mag(m, i, j) == 0,
    decreases j - i,
{
    if i < j {
        lemma_max_mag_zero(m, i + 1, j);
    }
}

/// A frame of pure silence has a zero maximum, so every band of it
/// normalizes to zero.
pub proof fn lemma_silent_frame(m: Seq<u32>)
    requires
        m.len() == NUM_BINS,
        forall|k: int| 0 <= k < m.len() ==> m[k] == 0,
    ensures
        frame_max(m) == 0,
        forall|b: int| 0 <= b < NUM_BANDS ==> norm_level(raw_band(m, b), frame_max(m), b) == 0,
{
    lemma_band_edges_increasing();
    lemma_max_mag_zero(m, band_edge_spec(0), band_edge_spec(NUM_BANDS as int));
}

/// Appending one bin on the right extends a left-closed sum.
proof fn lemma_sum_mags_unfold_right(m: Seq<u32>, i: int, j: int)
    requires
        0 <= i <= j < m.len(),
    ensures
        sum_mags(m, i, j + 1) == sum_mags(m, i, j) + m[j],
    decreases j - i,
{
    if i < j {
        lemma_sum_mags_unfold_right(m, i + 1, j);
    } else {
        assert(sum_mags(m, j + 1, j + 1) == 0);
        assert(sum_mags(m, j, j) == 0);
    }
}

/// Appending one bin on the right extends a left-closed maximum.
proof fn lemma_max_mag_unfold_right(m: Seq<u32>, i: int, j: int)
    requires
        0 <= i <= j < m.len(),
    ensures
        max_mag(m, i, j + 1) == if max_mag(m, i, j) >= m[j] {
            max_mag(m, i, j)
        } else {
            m[j] as int
        },
    decreases j - i,
{
    if i < j {
        lemma_max_mag_unfold_right(m, i + 1, j);
    } else {
        assert(max_mag(m, j + 1, j + 1) == 0);
        assert(max_mag(m, j, j) == 0);
    }
}

} // verus!
