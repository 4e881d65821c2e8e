use vstd::prelude::*;

verus! {

/// Fixed-point value of a full-scale sample (1.0): samples are `i32`
/// multiples of `1 / UNITY`.
pub const UNITY: i32 = 16777216;

pub open spec fn clamp16(v: int) -> int {
    if v > 32767 {
        32767
    } else if v < -32768 {
        -32768
    } else {
        v
    }
}

/// The 16-bit sample written for fixed-point sample `s`: `s / UNITY` scaled
/// by 32767, truncated toward zero, then clamped to the 16-bit range.
pub open spec fn pcm16_of(s: i32) -> i16 {
    let a = if s >= 0 {
        s as int
    } else {
        -(s as int)
    };
    let t = (a * 32767) / (UNITY as int);
    (if s >= 0 {
        clamp16(t)
    } else {
        clamp16(-t)
    }) as i16
}

/// `round(s / UNITY * 32767)`, halves away from zero, clamped to the 16-bit
/// range.
pub open spec fn rounded_pcm16(s: i32) -> int {
    let a = if s >= 0 {
        s as int
    } else {
        -(s as int)
    };
    let r = (2 * a * 32767 + UNITY as int) / (2 * UNITY as int);
    if s >= 0 {
        clamp16(r)
    } else {
        clamp16(-r)
    }
}

/// Every written sample is within one quantization step of the rounded,
/// clamped value of its input.
pub proof fn lemma_quantization_within_one_step(s: i32)
    ensures
        -1 <= pcm16_of(s) as int - rounded_pcm16(s) <= 1,
{
    let a = if s >= 0 {
        s as int
    } else {
        -(s as int)
    };
    let u = UNITY as int;
    let t = (a * 32767) / u;
    let r = (2 * a * 32767 + u) / (2 * u);
    assert(t <= r <= t + 1) by (nonlinear_arith)
        requires
            a >= 0,
            u > 0,
            t == (a * 32767) / u,
            r == (2 * a * 32767 + u) / (2 * u),
    {
        let x = a * 32767;
        assert(t * u <= x < t * u + u);
        assert(2 * t * u <= 2 * x + u < 2 * t * u + 4 * u);
        assert(r * (2 * u) <= 2 * x + u < r * (2 * u) + 2 * u);
    }
    assert(0 <= t <= 0x1_0000_0000_0000);
}

/// Quantizes one fixed-point sample to 16-bit signed PCM.
pub fn quantize(s: i32) -> (r: i16)
    ensures
        r == pcm16_of(s),
{
    let a: i64 = if s >= 0 {
        s as i64
    } else {
        -(s as i64)
    };
    assert(a * 32767 <= 0x1_0000_0000 * 32767) by (nonlinear_arith)
        requires
            0 <= a <= 0x1_0000_0000,
    ;
    let t: i64 = (a * 32767) / (UNITY as i64);
    let v: i64 = if s >= 0 {
        t
    } else {
        -t
    };
    if v > 32767 {
        32767
    } else if v < -32768 {
        -32768
    } else {
        v as i16
    }
}

/// The samples of `samples` quantized one by one.
pub open spec fn quantized(samples: Seq<i32>) -> Seq<i16> {
    Seq::new(samples.len(), |i: int| pcm16_of(samples[i]))
}

/// Quantizes a block of fixed-point samples to 16-bit signed PCM.
pub fn quantize_all(samples: &Vec<i32>) -> (r: Vec<i16>)
    ensures
        r@ == quantized(samples@),
{
    let n = samples.len();
    let mut r: Vec<i16> = Vec::with_capacity(n);
    let mut i: usize = 0;
    while i < n
        invariant
            n == samples@.len(),
            i <= n,
            r@ =~= quantized(samples@.subrange(0, i as int)),
        decreases n - i,
    {
        r.push(quantize(samples[i]));
        i = i + 1;
    }
    assert(samples@.subrange(0, n as int) =~= samples@);
    r
}

/// Why a recording-sink operation was refused.
#[derive(Debug, Clone, Copy, PartialEq, Eq, Structural)]
pub enum SinkError {
    /// The requested format cannot be recorded.
    Format,
    /// The sink was already finalized.
    ClosedSink,
}

/// Layout of the recorded waveform.
#[derive(Debug, Clone, Copy, PartialEq, Eq, Structural)]
pub struct WavFormat {
    pub channels: u16,
    pub sample_rate: u32,
    pub bits_per_sample: u16,
}

impl WavFormat {
    /// Mono, 44100 Hz, 16-bit signed PCM.
    pub fn reference() -> (r: WavFormat)
        ensures
            r == (WavFormat { channels: 1, sample_rate: 44100, bits_per_sample: 16 }),
    {
        WavFormat { channels: 1, sample_rate: 44100, bits_per_sample: 16 }
    }
}

/// The sink records 16-bit samples, with at least one channel and a
/// positive sample rate.
pub open spec fn format_ok(f: WavFormat) -> bool {
    f.channels >= 1 && f.sample_rate >= 1 && f.bits_per_sample == 16
}

/// What must happen to the file of a sink that is dropped.
#[derive(Debug, Clone, Copy, PartialEq, Eq, Structural)]
pub enum DropAction {
    /// Already finalized: nothing to do.
    Nothing,
    /// Samples were written: finalize, so a valid file remains.
    Finalize,
    /// Nothing was written: remove the file, so none remains.
    Discard,
}

/// Lifecycle of one recording: decides which writes are accepted and what
/// 16-bit samples they put in the file. The file itself is written by the
/// caller, in the order the samples are handed back.
pub struct RecordingSink {
    format: WavFormat,
    finalized: bool,
    wrote_any: bool,
    recorded: Ghost<Seq<i16>>,
}

impl RecordingSink {
    pub closed spec fn spec_format(&self) -> WavFormat {
        self.format
    }

    /// Whether `finalize` has succeeded.
    pub closed spec fn is_finalized(&self) -> bool {
        self.finalized
    }

    /// Every sample handed out for the file so far, in order.
    pub closed spec fn recorded(&self) -> Seq<i16> {
        self.recorded@
    }

    pub closed spec fn wf(&self) -> bool {
        self.wrote_any == (self.recorded@.len() > 0)
    }

    /// A sink for a new recording in `format`; refused unless the format can
    /// be recorded.
    pub fn open(format: WavFormat) -> (r: Result<RecordingSink, SinkError>)
        ensures
            r is Err <==> !format_ok(format),
            r is Err ==> r == Err::<RecordingSink, SinkError>(SinkError::Format),
            r matches Ok(s) ==> s.wf() && s.spec_format() == format && !s.is_finalized()
                && s.recorded() == Seq::<i16>::empty(),
    {
        if format.channels == 0 || format.sample_rate == 0 || format.bits_per_sample != 16 {
            return Err(SinkError::Format);
        }
        Ok(RecordingSink { format, finalized: false, wrote_any: false, recorded: Ghost(Seq::empty()) })
    }

    pub fn format(&self) -> (r: WavFormat)
        ensures
            r == self.spec_format(),
    {
        self.format
    }

    pub fn finalized(&self) -> (r: bool)
        ensures
            r == self.is_finalized(),
    {
        self.finalized
    }

    /// Accepts a block of fixed-point samples and hands back the 16-bit
    /// samples to append to the file. Refused, with nothing changed, once the
    /// sink is finalized.
    pub fn write(&mut self, samples: &Vec<i32>) -> (r: Result<Vec<i16>, SinkError>)
        requires
            old(self).wf(),
        ensures
            final(self).wf(),
            old(self).is_finalized() ==> r == Err::<Vec<i16>, SinkError>(SinkError::ClosedSink)
                && *final(self) == *old(self),
            !old(self).is_finalized() ==> r is Ok && !final(self).is_finalized()
                && final(self).spec_format() == old(self).spec_format(),
            r matches Ok(pcm) ==> pcm@ == quantized(samples@) && final(self).recorded() == old(
                self,
            ).recorded() + pcm@,
    {
        if self.finalized {
            return Err(SinkError::ClosedSink);
        }
        let pcm = quantize_all(samples);
        self.recorded = Ghost(self.recorded@ + pcm@);
        self.wrote_any = self.wrote_any || pcm.len() > 0;
        Ok(pcm)
    }

    /// Closes the recording. Succeeds once; later calls are refused and
    /// change nothing.
    pub fn finalize(&mut self) -> (r: Result<(), SinkError>)
        requires
            old(self).wf(),
        ensures
            final(self).wf(),
            old(self).is_finalized() ==> r == Err::<(), SinkError>(SinkError::ClosedSink)
                && *final(self) == *old(self),
            !old(self).is_finalized() ==> r == Ok::<(), SinkError>(()) && final(self).is_finalized()
                && final(self).recorded() == old(self).recorded() && final(self).spec_format()
                == old(self).spec_format(),
    {
        if self.finalized {
            return Err(SinkError::ClosedSink);
        }
        self.finalized = true;
        Ok(())
    }

    /// What to do with the file when the sink goes away without an explicit
    /// finalize: finalize it if anything was written, else remove it.
    pub fn drop_action(&self) -> (r: DropAction)
        requires
            self.wf(),
        ensures
            self.is_finalized() ==> r == DropAction::Nothing,
            !self.is_finalized() && self.recorded().len() > 0 ==> r == DropAction::Finalize,
            !self.is_finalized() && self.recorded().len() == 0 ==> r == DropAction::Discard,
    {
        if self.finalized {
            DropAction::Nothing
        } else if self.wrote_any {
            DropAction::Finalize
        } else {
            DropAction::Discard
        }
    }
}

} // verus!
