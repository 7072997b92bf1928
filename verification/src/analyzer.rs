use vstd::prelude::*;
use crate::bands::{frame_max, map_bands, norm_level, normalize_bands, raw_band, NUM_BINS};
use crate::spectrum::{smooth_step, SpectrumData, LEVEL_CAP, NUM_BANDS};
use crate::window::{apply_window, FFT_SIZE, HANN_WINDOW_Q15};

verus! {

/// The ring contents of a sample buffer in chronological order: the samples
/// from the write cursor to the end (the oldest), then those before the
/// cursor (the newest).
pub open spec fn chrono_of(buf: Seq<i16>, pos: int) -> Seq<i16> {
    buf.subrange(pos, buf.len() as int) + buf.subrange(0, pos)
}

/// Audio analyzer: a fixed ring of the most recent `FFT_SIZE` samples and the
/// persisted, smoothed spectrum published to consumers. Samples are mono
/// amplitudes in signed Q15 fixed point (`1 << 15` stands for full scale).
pub struct AudioAnalyzer {
    /// The sample ring; `write_pos` is the slot the next sample overwrites.
    pub sample_buffer: Vec<i16>,
    /// Write cursor, always within the ring.
    pub write_pos: usize,
    /// The published spectrum, blended a little toward each new frame.
    pub spectrum: SpectrumData,
}

impl AudioAnalyzer {
    /// Invariants: the ring holds exactly one analysis frame, the cursor is
    /// inside it, and the published spectrum is within displayable range.
    pub open spec fn wf(&self) -> bool {
        &&& self.sample_buffer@.len() == FFT_SIZE
        &&& self.write_pos < FFT_SIZE
        &&& self.spectrum.wf()
    }

    /// The most recent `FFT_SIZE` samples, oldest first.
    pub open spec fn chrono(&self) -> Seq<i16> {
        chrono_of(self.sample_buffer@, self.write_pos as int)
    }

    /// A fresh analyzer: a silent ring and the all-zero spectrum.
    pub fn new() -> (r: Self)
        ensures
            r.wf(),
            r.write_pos == 0,
            r.chrono() == Seq::<i16>::new(FFT_SIZE as nat, |i: int| 0i16),
            r.spectrum.is_zero(),
    {
        let mut buf: Vec<i16> = Vec::new();
        let mut i: usize = 0;
        while i < FFT_SIZE
            invariant
                i <= FFT_SIZE,
                buf@.len() == i,
                forall|j: int| 0 <= j < i ==> buf@[j] == 0i16,
            decreases FFT_SIZE - i,
        {
            buf.push(0);
            i += 1;
        }
        let r = AudioAnalyzer { sample_buffer: buf, write_pos: 0, spectrum: SpectrumData::default() };
        proof {
            assert(r.chrono() =~= Seq::<i16>::new(FFT_SIZE as nat, |i: int| 0i16));
        }
        r
    }

    /// Appends a chunk of new samples, each overwriting the oldest slot and
    /// advancing the cursor, wrapping at capacity; old data is unconditionally
    /// overwritten, by design, so the ring always holds the last `FFT_SIZE`
    /// samples of the stream. Never fails, never allocates.
    pub fn push_samples(&mut self, samples: &[i16])
        requires
            old(self).wf(),
        ensures
            final(self).wf(),
            final(self).chrono() == (old(self).chrono() + samples@).skip(samples@.len() as int),
            final(self).write_pos == (old(self).write_pos + samples@.len()) % (FFT_SIZE as int),
            final(self).spectrum.bands@ == old(self).spectrum.bands@,
            final(self).spectrum.peak == old(self).spectrum.peak,
    {
        let ghost c0 = old(self).chrono();
        let ghost p0 = old(self).write_pos as int;
        let mut j: usize = 0;
        while j < samples.len()
            invariant
                old(self).wf(),
                self.wf(),
                j <= samples@.len(),
                c0 == old(self).chrono(),
                p0 == old(self).write_pos as int,
                self.spectrum.bands@ == old(self).spectrum.bands@,
                self.spectrum.peak == old(self).spectrum.peak,
                self.chrono() =~= (c0 + samples@.take(j as int)).skip(j as int),
                self.write_pos == (p0 + j) % (FFT_SIZE as int),
            decreases samples@.len() - j,
        {
            let s = samples[j];
            let ghost cj = self.chrono();
            let ghost pj = self.write_pos as int;
            let ghost bufj = self.sample_buffer@;
            self.sample_buffer[self.write_pos] = s;
            self.write_pos = (self.write_pos + 1) % FFT_SIZE;
            proof {
                lemma_ring_write(bufj, pj, s);
                assert(self.chrono() =~= cj.skip(1).push(s));
                assert(cj.skip(1).push(s) =~= (c0 + samples@.take(j + 1)).skip(j + 1));
            }
            j += 1;
        }
        proof {
            assert(samples@.take(samples@.len() as int) =~= samples@);
            assert(self.chrono() =~= (c0 + samples@).skip(samples@.len() as int));
        }
    }

    /// The ring read out in chronological order, starting at the oldest
    /// sample (the slot just past the write cursor).
    pub fn ordered_samples(&self) -> (out: Vec<i16>)
        requires
            self.wf(),
        ensures
            out@ == self.chrono(),
    {
        let mut out: Vec<i16> = Vec::new();
        let mut i: usize = 0;
        while i < FFT_SIZE
            invariant
                self.wf(),
                i <= FFT_SIZE,
                out@.len() == i,
                forall|j: int| 0 <= j < i ==> out@[j] == self.chrono()[j],
            decreases FFT_SIZE - i,
        {
            let idx = (self.write_pos + i) % FFT_SIZE;
            proof {
                if self.write_pos + i < FFT_SIZE {
                    assert(idx == self.write_pos + i);
                } else {
                    assert(idx == self.write_pos + i - FFT_SIZE);
                }
                assert(self.chrono()[i as int] == self.sample_buffer@[idx as int]);
            }
            out.push(self.sample_buffer[idx]);
            i += 1;
        }
        proof {
            assert(out@ =~= self.chrono());
        }
        out
    }

    /// One analysis frame ready for the forward transform: the chronological
    /// ring contents with the Hann window applied, in Q15 products.
    pub fn windowed_frame(&self) -> (out: Vec<i32>)
        requires
            self.wf(),
        ensures
            out@.len() == FFT_SIZE,
            forall|i: int|
                0 <= i < FFT_SIZE ==> out@[i] == (self.chrono()[i] as int) * (
                HANN_WINDOW_Q15@[i] as int),
    {
        let ordered = self.ordered_samples();
        apply_window(&ordered)
    }

    /// Folds one frame of transform magnitudes into the published spectrum:
    /// maps bins to bands, normalizes against the frame maximum, and blends
    /// the result into the persisted levels and peak. The ring is untouched.
    pub fn update_spectrum(&mut self, mags: &Vec<u32>)
        requires
            old(self).wf(),
            mags@.len() == NUM_BINS,
        ensures
            final(self).wf(),
            final(self).sample_buffer@ == old(self).sample_buffer@,
            final(self).write_pos == old(self).write_pos,
            final(self).spectrum.bands@.len() == NUM_BANDS,
            forall|b: int|
                0 <= b < NUM_BANDS ==> final(self).spectrum.bands@[b] as int == smooth_step(
                    old(self).spectrum.bands@[b] as int,
                    norm_level(raw_band(mags@, b), frame_max(mags@), b),
                ),
            final(self).spectrum.peak as int == smooth_step(
                old(self).spectrum.peak as int,
                peak_of(mags@, NUM_BANDS as int),
            ),
    {
        let (raw, maxm) = map_bands(mags);
        let new_bands = normalize_bands(&raw, maxm);
        let mut blended: Vec<u16> = Vec::new();
        let mut cur_peak: u16 = 0;
        let mut b: usize = 0;
        while b < NUM_BANDS
            invariant
                old(self).wf(),
                self == old(self),
                mags@.len() == NUM_BINS,
                b <= NUM_BANDS,
                new_bands@.len() == NUM_BANDS,
                forall|x: int|
                    0 <= x < NUM_BANDS ==> new_bands@[x] == norm_level(
                        raw_band(mags@, x),
                        frame_max(mags@),
                        x,
                    ),
                forall|x: int| 0 <= x < NUM_BANDS ==> new_bands@[x] <= LEVEL_CAP,
                blended@.len() == b,
                forall|x: int|
                    0 <= x < b ==> blended@[x] as int == smooth_step(
                        old(self).spectrum.bands@[x] as int,
                        new_bands@[x] as int,
                    ),
                forall|x: int| 0 <= x < b ==> blended@[x] <= 1000,
                cur_peak as int == peak_of(mags@, b as int),
                cur_peak <= LEVEL_CAP,
            decreases NUM_BANDS - b,
        {
            let prev = self.spectrum.bands[b];
            let next = new_bands[b];
            blended.push((prev + next) / 2);
            if next > cur_peak {
                cur_peak = next;
            }
            b += 1;
        }
        let new_peak = (self.spectrum.peak + cur_peak) / 2;
        self.spectrum = SpectrumData { bands: blended, peak: new_peak };
    }

    /// An owned copy of the current published spectrum, stable in the
    /// caller's hands whatever the pipeline does afterwards.
    pub fn snapshot(&self) -> (s: SpectrumData)
        requires
            self.wf(),
        ensures
            s.wf(),
            s.bands@ == self.spectrum.bands@,
            s.peak == self.spectrum.peak,
    {
        self.spectrum.clone()
    }
}

/// The lock invariant of the shared handle: the analyzer inside stays well
/// formed.
pub struct AnalyzerInv {}

impl vstd::rwlock::RwLockPredicate<AudioAnalyzer> for AnalyzerInv {
    open spec fn inv(self, v: AudioAnalyzer) -> bool {
        v.wf()
    }
}

/// Thread-safe handle over the whole pipeline: the sample producer and the
/// snapshot consumer each run alone in one critical section over the
/// complete state, so a push never interleaves with a processing pass and
/// every snapshot is a fully computed frame.
pub struct SharedAnalyzer {
    lock: vstd::rwlock::RwLock<AudioAnalyzer, AnalyzerInv>,
}

impl SharedAnalyzer {
    /// Appends a chunk of samples to the ring under the lock; never fails.
    pub fn push_samples(&self, samples: &[i16]) {
        let (mut analyzer, handle) = self.lock.acquire_write();
        analyzer.push_samples(samples);
        handle.release_write(analyzer);
    }

    /// One windowed analysis frame of the current ring, under the lock.
    pub fn windowed_frame(&self) -> (out: Vec<i32>)
        ensures
            out@.len() == FFT_SIZE,
    {
        let read_handle = self.lock.acquire_read();
        let frame = read_handle.borrow().windowed_frame();
        read_handle.release_read();
        frame
    }

    /// Folds one frame of transform magnitudes into the published spectrum,
    /// under the lock.
    pub fn update_spectrum(&self, mags: &Vec<u32>)
        requires
            mags@.len() == NUM_BINS,
    {
        let (mut analyzer, handle) = self.lock.acquire_write();
        analyzer.update_spectrum(mags);
        handle.release_write(analyzer);
    }

    /// An owned copy of the published spectrum, always within displayable
    /// range, stable in the caller's hands whatever happens next.
    pub fn snapshot(&self) -> (s: SpectrumData)
        ensures
            s.wf(),
    {
        let read_handle = self.lock.acquire_read();
        let s = read_handle.borrow().snapshot();
        read_handle.release_read();
        s
    }
}

/// A fresh analyzer behind its shared handle, ready for one producer and one
/// consumer.
pub fn create_shared_analyzer() -> (r: SharedAnalyzer)
{
    SharedAnalyzer {
        lock: vstd::rwlock::RwLock::new(AudioAnalyzer::new(), Ghost(AnalyzerInv {})),
    }
}

/// The frame's instantaneous peak: the largest normalized level among the
/// first `b` bands.
pub open spec fn peak_of(m: Seq<u32>, b: int) -> int
    decreases b,
{
    if b <= 0 {
        0
    } else {
        let level = norm_level(raw_band(m, b - 1), frame_max(m), b - 1);
        let rest = peak_of(m, b - 1);
        if level >= rest {
            level
        } else {
            rest
        }
    }
}

/// Ring buffer correctness: pushing exactly one full frame of samples leaves
/// the chronological view equal to that frame, whatever the cursor held
/// before.
pub proof fn lemma_full_frame_replaces(c: Seq<i16>, s: Seq<i16>)
    requires
        c.len() == FFT_SIZE,
        s.len() == FFT_SIZE,
    ensures
        (c + s).skip(s.len() as int) == s,
{
    assert((c + s).skip(s.len() as int) =~= s);
}

/// Silence decays the whole published spectrum: a frame of all-zero
/// magnitudes normalizes every band and the instantaneous peak to zero, so a
/// processing pass halves every published level, never raises one, and fixes
/// an all-zero spectrum in place.
pub proof fn lemma_silent_frame_decays(m: Seq<u32>)
    requires
        m.len() == NUM_BINS,
        forall|k: int| 0 <= k < m.len() ==> m[k] == 0,
    ensures
        forall|b: int| 0 <= b < NUM_BANDS ==> norm_level(raw_band(m, b), frame_max(m), b) == 0,
        peak_of(m, NUM_BANDS as int) == 0,
        forall|prev: int| prev >= 0 ==> #[trigger] smooth_step(prev, 0) == prev / 2,
        smooth_step(0, 0) == 0,
{
    crate::bands::lemma_silent_frame(m);
    lemma_peak_of_silent(m, NUM_BANDS as int);
}

proof fn lemma_peak_of_silent(m: Seq<u32>, b: int)
    requires
        m.len() == NUM_BINS,
        forall|k: int| 0 <= k < m.len() ==> m[k] == 0,
    ensures
        peak_of(m, b) == 0,
    decreases b,
{
    crate::bands::lemma_silent_frame(m);
    if b > 0 {
        lemma_peak_of_silent(m, b - 1);
        if 0 <= b - 1 < NUM_BANDS {
            assert(norm_level(raw_band(m, b - 1), frame_max(m), b - 1) == 0);
        } else {
            assert(frame_max(m) == 0);
        }
    }
}

/// Writing one sample at the cursor drops the oldest chronological sample
/// and appends the new one at the youngest end.
proof fn lemma_ring_write(buf: Seq<i16>, pos: int, s: i16)
    requires
        0 <= pos < buf.len(),
    ensures
        chrono_of(buf.update(pos, s), (pos + 1) % (buf.len() as int)) == chrono_of(
            buf,
            pos,
        ).skip(1).push(s),
{
    let n = buf.len() as int;
    let buf2 = buf.update(pos, s);
    if pos + 1 == n {
        assert(chrono_of(buf2, 0) =~= chrono_of(buf, pos).skip(1).push(s));
    } else {
        vstd::arithmetic::div_mod::lemma_small_mod((pos + 1) as nat, n as nat);
        assert((pos + 1) % n == pos + 1);
        assert(chrono_of(buf2, pos + 1) =~= chrono_of(buf, pos).skip(1).push(s));
    }
}

} // verus!
