//! Core of a streaming pitch tracker: a bounded frame queue between the
//! capture callback and analysis, magnitude-spectrum thresholding and peak
//! picking, note resolution, the recording sink's lifecycle and the analysis
//! session's control decisions.
//!
//! Floating-point work (windowing, the FFT, sample normalisation) and all I/O
//! happen outside this crate; here audio samples are fixed-point integers
//! (`sink::UNITY` is full scale) and magnitudes are integers in thousandths
//! of the raw FFT modulus.

pub mod config;
pub mod frame;
pub mod notes;
pub mod pitch;
pub mod queue;
pub mod session;
pub mod sink;
pub mod spectrum;

pub use config::{AnalyzerConfig, ConfigError};
pub use frame::AudioFrame;
pub use notes::{Note, NoteTable};
pub use pitch::{detect, process_spectrum, NoteEvent};
pub use queue::FrameQueue;
pub use session::{step, SessionAction, SessionEvent, SessionState};
pub use sink::{quantize, quantize_all, DropAction, RecordingSink, SinkError, WavFormat, UNITY};
pub use spectrum::{
    apply_threshold, bin_frequency, bin_width, count_surviving, dominant_bin, fit_frame,
    is_power_of_two,
};
