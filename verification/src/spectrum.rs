use vstd::prelude::*;

verus! {

/// Number of frequency bands in a published spectrum (one per note of a
/// chromatic octave).
pub const NUM_BANDS: usize = 12;

/// Levels are fixed-point: a value of `LEVEL_SCALE` stands for 1.0, the top of
/// the displayable range.
pub const LEVEL_SCALE: u16 = 1000;

/// Bands are capped at 0.85 of the displayable range before smoothing, so a
/// bar never saturates the top of the display.
pub const LEVEL_CAP: u16 = 850;

/// One frame of spectrum data for visualization: per-band levels and an
/// overall peak, all in `[0, LEVEL_SCALE]`.
#[derive(Debug, PartialEq)]
pub struct SpectrumData {
    /// Normalized frequency bands, lowest first, each in `[0, LEVEL_SCALE]`.
    pub bands: Vec<u16>,
    /// Overall peak level in `[0, LEVEL_SCALE]`.
    pub peak: u16,
}

impl SpectrumData {
    /// All invariants of a spectrum frame: exactly `NUM_BANDS` bands, every
    /// level within the displayable range.
    pub open spec fn wf(&self) -> bool {
        &&& self.bands@.len() == NUM_BANDS
        &&& forall|i: int| 0 <= i < self.bands@.len() ==> self.bands@[i] <= LEVEL_SCALE
        &&& self.peak <= LEVEL_SCALE
    }

    /// True when every level of the frame is exactly zero.
    pub open spec fn is_zero(&self) -> bool {
        &&& forall|i: int| 0 <= i < self.bands@.len() ==> self.bands@[i] == 0
        &&& self.peak == 0
    }
}

impl Clone for SpectrumData {
    fn clone(&self) -> (r: Self)
        ensures
            r.bands@ == self.bands@,
            r.peak == self.peak,
    {
        SpectrumData { bands: self.bands.clone(), peak: self.peak }
    }
}

impl Default for SpectrumData {
    /// The all-zero frame published before any processing pass has run.
    fn default() -> (r: Self)
        ensures
            r.wf(),
            r.is_zero(),
    {
        let mut bands: Vec<u16> = Vec::new();
        let mut i: usize = 0;
        while i < NUM_BANDS
            invariant
                i <= NUM_BANDS,
                bands@.len() == i,
                forall|j: int| 0 <= j < i ==> bands@[j] == 0,
            decreases NUM_BANDS - i,
        {
            bands.push(0);
            i += 1;
        }
        SpectrumData { bands, peak: 0 }
    }
}

/// One step of the temporal smoother: the published level moves to the
/// midpoint of the previous level and the frame's new level, which is an
/// exponential moving average with blend factor one half.
pub open spec fn smooth_step(prev: int, new: int) -> int {
    (prev + new) / 2
}

/// Exponential smoothing keeps levels inside any range that bounds both of
/// its inputs: the blend is a convex combination.
pub proof fn lemma_smooth_step_bounded(prev: int, new: int, hi: int)
    requires
        0 <= prev <= hi,
        0 <= new <= hi,
    ensures
        0 <= smooth_step(prev, new) <= hi,
{
}

/// A silent frame halves every level: smoothing toward zero is monotonically
/// non-increasing and reaches exactly zero once the level is at most one.
pub proof fn lemma_smooth_step_silence(prev: int)
    requires
        0 <= prev,
    ensures
        smooth_step(prev, 0) == prev / 2,
        smooth_step(prev, 0) <= prev,
        prev <= 1 ==> smooth_step(prev, 0) == 0,
{
}

/// Smoothing under an unchanged input contracts toward that input: the
/// distance to the input never grows, at least halves while it is two or
/// more, and a level within one of the input is a fixed point, so repeated
/// passes over unchanged data stabilize.
pub proof fn lemma_smooth_step_converges(prev: int, new: int)
    requires
        0 <= prev,
        0 <= new,
    ensures
        abs_diff(smooth_step(prev, new), new) <= abs_diff(prev, new),
        abs_diff(prev, new) >= 2 ==> abs_diff(smooth_step(prev, new), new) <= abs_diff(prev, new) / 2 + 1,
        abs_diff(prev, new) <= 1 ==> smooth_step(prev, new) == if prev >= new { new } else { prev },
{
}

/// A level after `k` smoothing steps against pure silence.
pub open spec fn decayed(v: int, k: nat) -> int
    decreases k,
{
    if k == 0 {
        v
    } else {
        decayed(v / 2, (k - 1) as nat)
    }
}

/// Sustained silence converges every level to exactly zero: after `k` silent
/// frames a level below `2^k` has decayed to nothing. Ten frames empty the
/// whole displayable range.
pub proof fn lemma_silence_converges_to_zero(v: int, k: nat)
    requires
        0 <= v,
        v < vstd::arithmetic::power2::pow2(k),
    ensures
        decayed(v, k) == 0,
    decreases k,
{
    if k == 0 {
        vstd::arithmetic::power2::lemma_pow2(0);
        vstd::arithmetic::power::lemma_pow0(2);
    } else {
        vstd::arithmetic::power2::lemma_pow2_unfold(k);
        lemma_silence_converges_to_zero(v / 2, (k - 1) as nat);
    }
}

/// Distance between two levels.
pub open spec fn abs_diff(a: int, b: int) -> int {
    if a >= b {
        a - b
    } else {
        b - a
    }
}

} // verus!
