use crate::spectrum::fit_frame;
use vstd::prelude::*;

verus! {

/// One hardware buffer of captured audio: fixed-point samples (`UNITY` is
/// full scale) tagged with the source sample rate and channel count.
#[derive(Debug, PartialEq, Eq)]
pub struct AudioFrame {
    pub samples: Vec<i32>,
    pub sample_rate: u32,
    pub channels: u16,
}

impl AudioFrame {
    pub fn new(samples: Vec<i32>, sample_rate: u32, channels: u16) -> (r: AudioFrame)
        ensures
            r.samples@ == samples@,
            r.sample_rate == sample_rate,
            r.channels == channels,
    {
        AudioFrame { samples, sample_rate, channels }
    }

    pub fn len(&self) -> (r: usize)
        ensures
            r == self.samples@.len(),
    {
        self.samples.len()
    }

    /// The samples to transform in an analysis pass of `fft_size`: truncated
    /// when the frame is longer, zero-padded when it is shorter.
    pub fn fitted(&self, fft_size: usize) -> (r: Vec<i32>)
        ensures
            r@.len() == fft_size,
            forall|i: int| 0 <= i < fft_size ==> r@[i] == if i < self.samples@.len() {
                self.samples@[i]
            } else {
                0i32
            },
    {
        fit_frame(&self.samples, fft_size)
    }
}

} // verus!
