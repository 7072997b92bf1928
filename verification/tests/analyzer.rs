use player_core::analyzer::{create_shared_analyzer, AudioAnalyzer};
use player_core::bands::{band_edge, isqrt64, map_bands, normalize_bands, NUM_BINS};
use player_core::spectrum::{SpectrumData, LEVEL_CAP, LEVEL_SCALE, NUM_BANDS};
use player_core::window::{FFT_SIZE, HANN_WINDOW_Q15};

fn fft_magnitudes(frame: &[i32]) -> Option<Vec<u32>> {
    let mut planner = realfft::RealFftPlanner::<f32>::new();
    let fft = planner.plan_fft_forward(FFT_SIZE);
    let mut buf: Vec<f32> = frame.iter().map(|&x| x as f32 / 32768.0).collect();
    let mut out = fft.make_output_vec();
    match fft.process(&mut buf, &mut out) {
        Ok(()) => Some(out.iter().map(|c| c.norm() as u32).collect()),
        Err(_) => None,
    }
}

fn run_process(analyzer: &mut AudioAnalyzer) -> SpectrumData {
    let frame = analyzer.windowed_frame();
    if let Some(mags) = fft_magnitudes(&frame) {
        if mags.len() == NUM_BINS {
            analyzer.update_spectrum(&mags);
        }
    }
    analyzer.snapshot()
}

fn assert_in_range(s: &SpectrumData) {
    assert_eq!(s.bands.len(), NUM_BANDS);
    for &b in &s.bands {
        assert!(b <= LEVEL_SCALE);
    }
    assert!(s.peak <= LEVEL_SCALE);
}

#[test]
fn default_spectrum_is_all_zero() {
    let s = SpectrumData::default();
    assert_eq!(s.bands, vec![0u16; NUM_BANDS]);
    assert_eq!(s.peak, 0);
}

#[test]
fn fresh_analyzer_ring_is_silent() {
    let a = AudioAnalyzer::new();
    assert_eq!(a.ordered_samples(), vec![0i16; FFT_SIZE]);
}

#[test]
fn ring_reproduces_a_full_frame_in_order() {
    let mut a = AudioAnalyzer::new();
    // Move the cursor away from zero first, so the reproduction does not
    // depend on the initial cursor position.
    a.push_samples(&[7i16; 137]);
    let frame: Vec<i16> = (0..FFT_SIZE as i16).collect();
    a.push_samples(&frame);
    assert_eq!(a.ordered_samples(), frame);
}

#[test]
fn ring_keeps_only_the_most_recent_samples() {
    let mut a = AudioAnalyzer::new();
    let long: Vec<i16> = (0..3000).map(|x| x as i16).collect();
    a.push_samples(&long);
    let expected: Vec<i16> = (3000 - FFT_SIZE as i32..3000).map(|x| x as i16).collect();
    assert_eq!(a.ordered_samples(), expected);
}

#[test]
fn pushing_nothing_changes_nothing() {
    let mut a = AudioAnalyzer::new();
    a.push_samples(&[3, 1, 4]);
    let before = a.ordered_samples();
    a.push_samples(&[]);
    assert_eq!(a.ordered_samples(), before);
}

#[test]
fn window_table_matches_the_raised_cosine_formula() {
    for i in 0..FFT_SIZE {
        let w = 0.5 * (1.0 - (2.0 * std::f64::consts::PI * i as f64 / FFT_SIZE as f64).cos());
        let expected = (w * 32768.0).round() as i64;
        let got = HANN_WINDOW_Q15[i] as i64;
        assert!(
            (expected - got).abs() <= 1,
            "window entry {} is {} but the formula gives {}",
            i,
            got,
            expected
        );
    }
    assert_eq!(HANN_WINDOW_Q15[0], 0);
    assert_eq!(HANN_WINDOW_Q15[FFT_SIZE / 2], 32768);
}

#[test]
fn window_is_symmetric() {
    for i in 1..FFT_SIZE {
        assert_eq!(HANN_WINDOW_Q15[i], HANN_WINDOW_Q15[FFT_SIZE - i]);
    }
}

#[test]
fn windowed_frame_scales_samples_by_the_table() {
    let mut a = AudioAnalyzer::new();
    a.push_samples(&vec![100i16; FFT_SIZE]);
    let frame = a.windowed_frame();
    assert_eq!(frame.len(), FFT_SIZE);
    for i in 0..FFT_SIZE {
        assert_eq!(frame[i], 100i32 * HANN_WINDOW_Q15[i] as i32);
    }
}

#[test]
fn band_edges_are_strictly_increasing() {
    for b in 0..NUM_BANDS {
        assert!(band_edge(b) < band_edge(b + 1));
    }
    assert_eq!(band_edge(0), 1);
    assert_eq!(band_edge(NUM_BANDS), NUM_BINS - 1);
}

#[test]
fn isqrt_gives_exact_floors() {
    assert_eq!(isqrt64(0), 0);
    assert_eq!(isqrt64(1), 1);
    assert_eq!(isqrt64(3), 1);
    assert_eq!(isqrt64(4), 2);
    assert_eq!(isqrt64(42500), 206);
    assert_eq!(isqrt64(850000), 921);
    assert_eq!(isqrt64(u64::MAX), 4294967295);
}

#[test]
fn map_bands_takes_means_and_the_global_max() {
    let mut mags = vec![0u32; NUM_BINS];
    mags[1] = 100; // band 0 is exactly bin 1
    mags[2] = 30; // band 1 is exactly bins [2, 4)
    mags[3] = 50;
    let (raw, maxm) = map_bands(&mags);
    assert_eq!(raw[0], 100);
    assert_eq!(raw[1], 40);
    assert_eq!(&raw[2..], &[0u32; 10]);
    assert_eq!(maxm, 100);
}

#[test]
fn normalizer_applies_gain_curve_and_square_root() {
    let raw = {
        let mut v = vec![0u32; NUM_BANDS];
        v[0] = 100;
        v
    };
    let bands = normalize_bands(&raw, 100);
    // band 0: sqrt((100/100) * 0.50 * 0.85) in milli-units is isqrt(425000) = 651.
    assert_eq!(bands[0], 651);
    assert_eq!(&bands[1..], &[0u16; 11]);
}

#[test]
fn normalizer_caps_every_band_at_the_display_limit() {
    // A full-gain band at the frame maximum normalizes to sqrt(0.85) and is
    // capped at 0.85 of the display range.
    let raw = vec![u32::MAX; NUM_BANDS];
    let bands = normalize_bands(&raw, u32::MAX);
    for (b, &v) in bands.iter().enumerate() {
        assert!(v <= LEVEL_CAP, "band {} is {}", b, v);
    }
    assert_eq!(bands[4], LEVEL_CAP); // gain 1.0: sqrt(0.85) = 0.922, capped
}

#[test]
fn silence_normalizes_to_zero() {
    let bands = normalize_bands(&vec![0u32; NUM_BANDS], 0);
    assert_eq!(bands, vec![0u16; NUM_BANDS]);
}

#[test]
fn update_blends_halfway_toward_the_new_frame() {
    let mut a = AudioAnalyzer::new();
    let mut mags = vec![0u32; NUM_BINS];
    mags[1] = 100;
    a.update_spectrum(&mags);
    let s = a.snapshot();
    // New level of band 0 is 651 (see the normalizer test); smoothing blends
    // half of it into the zero start.
    assert_eq!(s.bands[0], 325);
    assert_eq!(s.peak, 325);
    assert_eq!(&s.bands[1..], &[0u16; 11]);
}

#[test]
fn silent_frames_decay_levels_monotonically_to_zero() {
    let mut a = AudioAnalyzer::new();
    let mut mags = vec![0u32; NUM_BINS];
    for i in 1..NUM_BINS {
        mags[i] = 1000;
    }
    a.update_spectrum(&mags);
    let mut prev = a.snapshot();
    assert!(prev.bands.iter().any(|&b| b > 0));
    let silence = vec![0u32; NUM_BINS];
    for _ in 0..12 {
        a.update_spectrum(&silence);
        let cur = a.snapshot();
        for b in 0..NUM_BANDS {
            assert!(cur.bands[b] <= prev.bands[b]);
            assert_eq!(cur.bands[b], prev.bands[b] / 2);
        }
        assert!(cur.peak <= prev.peak);
        prev = cur;
    }
    assert_eq!(prev.bands, vec![0u16; NUM_BANDS]);
    assert_eq!(prev.peak, 0);
}

#[test]
fn processing_before_any_push_returns_the_zero_default() {
    let mut a = AudioAnalyzer::new();
    let s = run_process(&mut a);
    assert_eq!(s.bands, vec![0u16; NUM_BANDS]);
    assert_eq!(s.peak, 0);
}

#[test]
fn a_sinusoid_dominates_its_own_band() {
    let mut a = AudioAnalyzer::new();
    // Bin 40 of the transform falls in the sixth band, which covers bins
    // [32, 64).
    let samples: Vec<i16> = (0..FFT_SIZE)
        .map(|i| {
            let phase = 2.0 * std::f64::consts::PI * 40.0 * i as f64 / FFT_SIZE as f64;
            (0.6 * 32767.0 * phase.sin()) as i16
        })
        .collect();
    a.push_samples(&samples);
    let mut s = a.snapshot();
    for _ in 0..24 {
        s = run_process(&mut a);
        assert_in_range(&s);
    }
    for b in 0..NUM_BANDS {
        if b != 5 {
            assert!(
                s.bands[5] > s.bands[b],
                "band 5 is {} but band {} is {}",
                s.bands[5],
                b,
                s.bands[b]
            );
        }
    }
}

#[test]
fn repeated_processing_without_new_input_stabilizes() {
    let mut a = AudioAnalyzer::new();
    let samples: Vec<i16> = (0..FFT_SIZE)
        .map(|i| {
            let phase = 2.0 * std::f64::consts::PI * 100.0 * i as f64 / FFT_SIZE as f64;
            (0.4 * 32767.0 * phase.sin()) as i16
        })
        .collect();
    a.push_samples(&samples);
    let mut prev = run_process(&mut a);
    let mut delta = u16::MAX;
    for _ in 0..40 {
        let cur = run_process(&mut a);
        assert_in_range(&cur);
        let step: u16 = (0..NUM_BANDS)
            .map(|b| cur.bands[b].abs_diff(prev.bands[b]))
            .max()
            .unwrap();
        assert!(step <= delta.max(1), "delta grew from {} to {}", delta, step);
        delta = step.max(1);
        prev = cur;
    }
    let last = run_process(&mut a);
    assert_eq!(last.bands, prev.bands);
    assert_eq!(last.peak, prev.peak);
}

#[test]
fn snapshots_are_stable_owned_copies() {
    let mut a = AudioAnalyzer::new();
    let mut mags = vec![0u32; NUM_BINS];
    mags[1] = 77;
    a.update_spectrum(&mags);
    let taken = a.snapshot();
    let copy_of_taken = taken.clone();
    a.update_spectrum(&vec![0u32; NUM_BINS]);
    a.push_samples(&[5i16; 64]);
    assert_eq!(taken, copy_of_taken);
    assert_ne!(a.snapshot(), taken);
}

#[test]
fn interleaved_producer_and_consumer_stay_in_range() {
    let shared = create_shared_analyzer();
    for round in 0..200u32 {
        let len = rand::random_range(0..64usize);
        let chunk: Vec<i16> = (0..len)
            .map(|_| rand::random_range(-20000i32..20000) as i16)
            .collect();
        shared.push_samples(&chunk);
        if round % 3 == 0 {
            let frame = shared.windowed_frame();
            if let Some(mags) = fft_magnitudes(&frame) {
                if mags.len() == NUM_BINS {
                    shared.update_spectrum(&mags);
                }
            }
            assert_in_range(&shared.snapshot());
        }
    }
}
