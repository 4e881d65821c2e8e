use crate::config::AnalyzerConfig;
use crate::notes::{nearest_of, Note, NoteTable};
use crate::spectrum::{apply_threshold, bin_frequency, bin_millihertz, cut, dominant_bin, peak_of};
use vstd::prelude::*;

verus! {

/// A detected dominant pitch.
#[derive(Debug)]
pub struct NoteEvent {
    /// Dominant frequency in millihertz (lower edge of the winning bin).
    pub millihertz: u64,
    /// Magnitude of the winning bin.
    pub magnitude: u64,
    /// Index of the winning bin.
    pub bin: usize,
    /// Label of the nearest note of the table.
    pub label: String,
    /// When the analyzed frame was detected, as supplied by the caller.
    pub timestamp: u64,
}

/// Index of the winning bin: the strongest below Nyquist, lowest on ties.
pub open spec fn winning_bin(s: Seq<u64>) -> nat {
    peak_of(s, s.len() / 2)
}

/// A spectrum yields an event when it has a bin below Nyquist and the
/// winning magnitude reaches `min_confidence`.
pub open spec fn has_event(s: Seq<u64>, min_confidence: u64) -> bool {
    s.len() / 2 > 0 && s[winning_bin(s) as int] >= min_confidence
}

/// `e` is the event that spectrum `s` yields at `sample_rate`, resolved
/// against `notes` and stamped with `timestamp`.
pub open spec fn is_event_of(
    e: NoteEvent,
    s: Seq<u64>,
    sample_rate: u32,
    notes: Seq<Note>,
    timestamp: u64,
) -> bool {
    let f = bin_millihertz(winning_bin(s), sample_rate as nat, s.len());
    &&& e.bin == winning_bin(s)
    &&& e.magnitude == s[winning_bin(s) as int]
    &&& e.millihertz == f
    &&& e.label@ == notes[nearest_of(notes, f as u64, notes.len()) as int].label@
    &&& e.timestamp == timestamp
}

/// Finds the dominant bin of `spectrum` below Nyquist and, when it is strong
/// enough, the nearest note to its frequency.
pub fn detect(
    spectrum: &Vec<u64>,
    config: &AnalyzerConfig,
    table: &NoteTable,
    timestamp: u64,
) -> (r: Option<NoteEvent>)
    requires
        table.wf(),
        spectrum@.len() == config.fft_size,
    ensures
        r is Some <==> has_event(spectrum@, config.min_confidence),
        r matches Some(e) ==> is_event_of(
            e,
            spectrum@,
            config.sample_rate,
            table.entries(),
            timestamp,
        ),
{
    match dominant_bin(spectrum) {
        None => None,
        Some((bin, magnitude)) => {
            if magnitude < config.min_confidence {
                return None;
            }
            proof {
                crate::spectrum::lemma_peak_is_first_maximum(spectrum@, spectrum@.len() / 2);
            }
            let millihertz = bin_frequency(bin, config.sample_rate, config.fft_size);
            let k = table.nearest(millihertz);
            let label = table.get(k).label.clone();
            Some(NoteEvent { millihertz, magnitude, bin, label, timestamp })
        },
    }
}

/// One analysis pass on the magnitude spectrum of a frame: thresholding at
/// the configured level, then detection on the surviving bins.
pub fn process_spectrum(
    magnitudes: &Vec<u64>,
    config: &AnalyzerConfig,
    table: &NoteTable,
    timestamp: u64,
) -> (r: Option<NoteEvent>)
    requires
        table.wf(),
        magnitudes@.len() == config.fft_size,
    ensures
        r is Some <==> has_event(cut(magnitudes@, config.magnitude_threshold), config.min_confidence),
        r matches Some(e) ==> is_event_of(
            e,
            cut(magnitudes@, config.magnitude_threshold),
            config.sample_rate,
            table.entries(),
            timestamp,
        ),
{
    let surviving = apply_threshold(magnitudes, config.magnitude_threshold);
    detect(&surviving, config, table, timestamp)
}

/// A silent frame, whose magnitudes are all zero, yields no event whatever
/// the magnitude threshold, as long as the confidence threshold is positive.
pub proof fn lemma_silence_yields_no_event(mags: Seq<u64>, threshold: u64, min_confidence: u64)
    requires
        forall|i: int| 0 <= i < mags.len() ==> mags[i] == 0,
        min_confidence > 0,
    ensures
        !has_event(cut(mags, threshold), min_confidence),
{
    let s = cut(mags, threshold);
    if s.len() / 2 > 0 {
        crate::spectrum::lemma_peak_is_first_maximum(s, s.len() / 2);
        assert(s[winning_bin(s) as int] == 0);
    }
}

} // verus!
