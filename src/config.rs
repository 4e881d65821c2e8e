use crate::spectrum::{is_pow2, is_power_of_two, DEFAULT_MAGNITUDE_THRESHOLD, DEFAULT_MIN_CONFIDENCE};
use vstd::prelude::*;

verus! {

/// A pipeline setting that cannot work, found before any audio I/O begins.
#[derive(Debug, Clone, Copy, PartialEq, Eq, Structural)]
pub enum ConfigError {
    /// The FFT size is not a power of two.
    FftSizeNotPowerOfTwo,
    /// The note table has no entry to resolve a frequency to.
    EmptyNoteTable,
}

/// Settings of the spectral analyzer and pitch detector.
#[derive(Debug, Clone, Copy, PartialEq, Eq, Structural)]
pub struct AnalyzerConfig {
    /// Samples per analysis pass, a power of two.
    pub fft_size: usize,
    /// Sample rate of the captured audio, in hertz.
    pub sample_rate: u32,
    /// Bins below Nyquist at or under this magnitude are cut.
    pub magnitude_threshold: u64,
    /// A winning magnitude below this yields no note event.
    pub min_confidence: u64,
}

impl AnalyzerConfig {
    /// A configuration with the default thresholds; fails unless `fft_size`
    /// is a power of two.
    pub fn new(fft_size: usize, sample_rate: u32) -> (r: Result<AnalyzerConfig, ConfigError>)
        ensures
            r is Err <==> !is_pow2(fft_size as nat),
            r is Err ==> r == Err::<AnalyzerConfig, ConfigError>(ConfigError::FftSizeNotPowerOfTwo),
            r matches Ok(c) ==> c == (AnalyzerConfig {
                fft_size,
                sample_rate,
                magnitude_threshold: DEFAULT_MAGNITUDE_THRESHOLD,
                min_confidence: DEFAULT_MIN_CONFIDENCE,
            }),
    {
        AnalyzerConfig::with_thresholds(
            fft_size,
            sample_rate,
            DEFAULT_MAGNITUDE_THRESHOLD,
            DEFAULT_MIN_CONFIDENCE,
        )
    }

    /// A configuration with the given thresholds; fails unless `fft_size` is
    /// a power of two.
    pub fn with_thresholds(
        fft_size: usize,
        sample_rate: u32,
        magnitude_threshold: u64,
        min_confidence: u64,
    ) -> (r: Result<AnalyzerConfig, ConfigError>)
        ensures
            r is Err <==> !is_pow2(fft_size as nat),
            r is Err ==> r == Err::<AnalyzerConfig, ConfigError>(ConfigError::FftSizeNotPowerOfTwo),
            r matches Ok(c) ==> c == (AnalyzerConfig {
                fft_size,
                sample_rate,
                magnitude_threshold,
                min_confidence,
            }),
    {
        if !is_power_of_two(fft_size) {
            return Err(ConfigError::FftSizeNotPowerOfTwo);
        }
        Ok(AnalyzerConfig { fft_size, sample_rate, magnitude_threshold, min_confidence })
    }
}

} // verus!
