use pitch_tracker::{
    detect, process_spectrum, AnalyzerConfig, ConfigError, Note, NoteTable,
};
use rustfft::num_complex::Complex;
use rustfft::FftPlanner;

fn magnitudes_of(samples: &[f32], fft_size: usize) -> Vec<u64> {
    let mut buffer: Vec<Complex<f32>> = (0..fft_size)
        .map(|i| {
            let w = 0.54
                - 0.46
                    * (2.0 * std::f32::consts::PI * i as f32 / (fft_size - 1) as f32).cos();
            let s = if i < samples.len() { samples[i] } else { 0.0 };
            Complex::new(s * w, 0.0)
        })
        .collect();
    let mut planner = FftPlanner::<f32>::new();
    planner.plan_fft_forward(fft_size).process(&mut buffer);
    buffer.iter().map(|c| (c.norm() * 1000.0).round() as u64).collect()
}

#[test]
fn pure_tone_resolves_to_a4() {
    let config = AnalyzerConfig::new(1024, 44100).unwrap();
    let table = NoteTable::standard();
    let tone: Vec<f32> = (0..1024)
        .map(|i| (2.0 * std::f32::consts::PI * 440.0 * i as f32 / 44100.0).sin())
        .collect();
    let mags = magnitudes_of(&tone, 1024);
    let event = process_spectrum(&mags, &config, &table, 77).expect("a tone yields an event");
    let width: u64 = 43066;
    assert!(event.millihertz.abs_diff(440_000) <= width);
    assert_eq!(event.label, "A4");
    assert_eq!(event.bin, 10);
    assert_eq!(event.timestamp, 77);
}

#[test]
fn silence_yields_no_event() {
    let config = AnalyzerConfig::new(1024, 44100).unwrap();
    let table = NoteTable::standard();
    let silence = vec![0.0f32; 1024];
    let mags = magnitudes_of(&silence, 1024);
    assert!(mags.iter().all(|&m| m == 0));
    assert!(process_spectrum(&mags, &config, &table, 0).is_none());
}

#[test]
fn weak_peak_is_below_confidence() {
    let config = AnalyzerConfig::with_thresholds(8, 8000, 0, 1000).unwrap();
    let table = NoteTable::standard();
    let spectrum: Vec<u64> = vec![0, 999, 10, 0, 5000, 5000, 5000, 5000];
    assert!(detect(&spectrum, &config, &table, 0).is_none());
    let strong: Vec<u64> = vec![0, 1000, 10, 0, 0, 0, 0, 0];
    let e = detect(&strong, &config, &table, 3).unwrap();
    assert_eq!(e.bin, 1);
    assert_eq!(e.magnitude, 1000);
    assert_eq!(e.millihertz, 1_000_000);
    assert_eq!(e.label, "G#5");
}

#[test]
fn threshold_removes_weak_peak_before_detection() {
    let config = AnalyzerConfig::with_thresholds(8, 8000, 3000, 1000).unwrap();
    let table = NoteTable::standard();
    let mags: Vec<u64> = vec![0, 2999, 10, 0, 0, 0, 0, 0];
    assert!(process_spectrum(&mags, &config, &table, 0).is_none());
    let mags: Vec<u64> = vec![0, 2999, 3001, 0, 0, 0, 0, 0];
    let e = process_spectrum(&mags, &config, &table, 0).unwrap();
    assert_eq!(e.bin, 2);
    assert_eq!(e.millihertz, 2_000_000);
}

#[test]
fn nearest_note_uses_smallest_difference() {
    let table = NoteTable::standard();
    assert_eq!(table.len(), 22);
    assert_eq!(table.get(table.nearest(430_664)).label, "A4");
    assert_eq!(table.get(table.nearest(0)).label, "C3");
    assert_eq!(table.get(table.nearest(261_000)).label, "C4");
    let two = NoteTable::new(vec![Note::new("lo", 100), Note::new("hi", 200)]).unwrap();
    // equally far from both: the earlier entry wins
    assert_eq!(two.nearest(150), 0);
    assert_eq!(two.nearest(151), 1);
}

#[test]
fn configuration_errors() {
    assert_eq!(AnalyzerConfig::new(1000, 44100), Err(ConfigError::FftSizeNotPowerOfTwo));
    assert_eq!(AnalyzerConfig::new(0, 44100), Err(ConfigError::FftSizeNotPowerOfTwo));
    assert!(matches!(NoteTable::new(vec![]), Err(ConfigError::EmptyNoteTable)));
    let c = AnalyzerConfig::new(2048, 48000).unwrap();
    assert_eq!(c.magnitude_threshold, 3000);
    assert_eq!(c.min_confidence, 1000);
}
