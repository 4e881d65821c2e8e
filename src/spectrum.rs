use vstd::prelude::*;

verus! {

/// Magnitudes are integers in thousandths of the raw FFT modulus.
pub const MAGNITUDE_SCALE: u64 = 1000;

/// Bins below Nyquist at or under this magnitude are cut (3.0 raw).
pub const DEFAULT_MAGNITUDE_THRESHOLD: u64 = 3000;

/// A peak weaker than this is treated as silence (1.0 raw).
pub const DEFAULT_MIN_CONFIDENCE: u64 = 1000;

/// `n` is a power of two.
pub open spec fn is_pow2(n: nat) -> bool
    decreases n,
{
    if n <= 1 {
        n == 1
    } else {
        n % 2 == 0 && is_pow2(n / 2)
    }
}

/// Whether `n` is a power of two (a valid FFT size).
pub fn is_power_of_two(n: usize) -> (r: bool)
    ensures
        r == is_pow2(n as nat),
{
    if n == 0 {
        return false;
    }
    let mut m: usize = n;
    while m > 1 && m % 2 == 0
        invariant
            m >= 1,
            is_pow2(m as nat) == is_pow2(n as nat),
        decreases m,
    {
        m = m / 2;
    }
    m == 1
}

/// Bin `i` of `mags` after thresholding: bins below Nyquist (`i < len / 2`)
/// whose magnitude is at most `t` are cut to zero, the rest are kept.
pub open spec fn thresholded(mags: Seq<u64>, t: u64, i: int) -> u64 {
    if i < mags.len() / 2 && mags[i] <= t {
        0
    } else {
        mags[i]
    }
}

/// The whole spectrum after thresholding at `t`.
pub open spec fn cut(mags: Seq<u64>, t: u64) -> Seq<u64> {
    Seq::new(mags.len(), |i: int| thresholded(mags, t, i))
}

/// Cuts every bin below Nyquist whose magnitude is at most `threshold`.
pub fn apply_threshold(mags: &Vec<u64>, threshold: u64) -> (r: Vec<u64>)
    ensures
        r@ == cut(mags@, threshold),
        r@.len() == mags@.len(),
        forall|i: int| 0 <= i < mags@.len() ==> r@[i] == thresholded(mags@, threshold, i),
{
    let n = mags.len();
    let half = n / 2;
    let mut r: Vec<u64> = Vec::with_capacity(n);
    let mut i: usize = 0;
    while i < n
        invariant
            n == mags@.len(),
            half == n / 2,
            i <= n,
            r@.len() == i,
            forall|j: int| 0 <= j < i ==> r@[j] == thresholded(mags@, threshold, j),
        decreases n - i,
    {
        let m = mags[i];
        if i < half && m <= threshold {
            r.push(0);
        } else {
            r.push(m);
        }
        i = i + 1;
    }
    assert(r@ =~= cut(mags@, threshold));
    r
}

/// How many magnitudes of `s` exceed `t`.
pub open spec fn count_above(s: Seq<u64>, t: u64) -> nat
    decreases s.len(),
{
    if s.len() == 0 {
        0
    } else {
        count_above(s.drop_last(), t) + if s.last() > t {
            1nat
        } else {
            0nat
        }
    }
}

/// The number of bins below Nyquist that survive threshold `t`.
pub open spec fn survivors(mags: Seq<u64>, t: u64) -> nat {
    count_above(mags.subrange(0, (mags.len() / 2) as int), t)
}

/// Counts the bins below Nyquist whose magnitude exceeds `threshold`.
pub fn count_surviving(mags: &Vec<u64>, threshold: u64) -> (r: usize)
    ensures
        r == survivors(mags@, threshold),
{
    let half = mags.len() / 2;
    let ghost low = mags@.subrange(0, half as int);
    let mut count: usize = 0;
    let mut i: usize = 0;
    while i < half
        invariant
            half == mags@.len() / 2,
            low == mags@.subrange(0, half as int),
            i <= half,
            count <= i,
            count == count_above(low.subrange(0, i as int), threshold),
        decreases half - i,
    {
        assert(low.subrange(0, i + 1).drop_last() =~= low.subrange(0, i as int));
        if mags[i] > threshold {
            count = count + 1;
        }
        i = i + 1;
    }
    assert(low.subrange(0, half as int) =~= low);
    count
}

/// Raising the magnitude threshold never increases the number of surviving
/// bins of a fixed spectrum.
pub proof fn lemma_threshold_monotone(mags: Seq<u64>, t1: u64, t2: u64)
    requires
        t1 <= t2,
    ensures
        survivors(mags, t2) <= survivors(mags, t1),
{
    lemma_count_above_monotone(mags.subrange(0, (mags.len() / 2) as int), t1, t2);
}

/// The bins below Nyquist that thresholding at `t` leaves nonzero are
/// exactly the survivors of `t`.
pub proof fn lemma_survivors_stay_nonzero(mags: Seq<u64>, t: u64)
    ensures
        survivors(mags, t) == count_above(cut(mags, t).subrange(0, (mags.len() / 2) as int), 0),
{
    lemma_prefix_survivors(mags, t, mags.len() / 2);
}

proof fn lemma_prefix_survivors(mags: Seq<u64>, t: u64, k: nat)
    requires
        k <= mags.len() / 2,
    ensures
        count_above(mags.subrange(0, k as int), t) == count_above(
            cut(mags, t).subrange(0, k as int),
            0,
        ),
    decreases k,
{
    if k > 0 {
        lemma_prefix_survivors(mags, t, (k - 1) as nat);
        assert(mags.subrange(0, k as int).drop_last() =~= mags.subrange(0, k - 1));
        assert(cut(mags, t).subrange(0, k as int).drop_last() =~= cut(mags, t).subrange(0, k - 1));
    }
}

proof fn lemma_count_above_monotone(s: Seq<u64>, t1: u64, t2: u64)
    requires
        t1 <= t2,
    ensures
        count_above(s, t2) <= count_above(s, t1),
    decreases s.len(),
{
    if s.len() > 0 {
        lemma_count_above_monotone(s.drop_last(), t1, t2);
    }
}

/// Index of the strongest of the first `n` bins; ties go to the lowest index.
pub open spec fn peak_of(s: Seq<u64>, n: nat) -> nat
    decreases n,
{
    if n <= 1 {
        0
    } else {
        let p = peak_of(s, (n - 1) as nat);
        if s[n - 1] > s[p as int] {
            (n - 1) as nat
        } else {
            p
        }
    }
}

/// The peak among the first `n` bins is a greatest one, and no earlier bin
/// is as strong.
pub proof fn lemma_peak_is_first_maximum(s: Seq<u64>, n: nat)
    requires
        0 < n <= s.len(),
    ensures
        peak_of(s, n) < n,
        forall|j: int| 0 <= j < n ==> #[trigger] s[j] <= s[peak_of(s, n) as int],
        forall|j: int| 0 <= j < peak_of(s, n) ==> #[trigger] s[j] < s[peak_of(s, n) as int],
    decreases n,
{
    if n > 1 {
        lemma_peak_is_first_maximum(s, (n - 1) as nat);
    }
}

/// The strongest bin below Nyquist and its magnitude, ties broken by the
/// lowest index; `None` when there is no bin below Nyquist.
pub fn dominant_bin(spectrum: &Vec<u64>) -> (r: Option<(usize, u64)>)
    ensures
        spectrum@.len() / 2 == 0 ==> r is None,
        spectrum@.len() / 2 > 0 ==> r == Some(
            (
                peak_of(spectrum@, spectrum@.len() / 2) as usize,
                spectrum@[peak_of(spectrum@, spectrum@.len() / 2) as int],
            ),
        ),
{
    let half = spectrum.len() / 2;
    if half == 0 {
        return None;
    }
    let mut best: usize = 0;
    let mut i: usize = 1;
    while i < half
        invariant
            half == spectrum@.len() / 2,
            1 <= i <= half,
            best == peak_of(spectrum@, i as nat),
        decreases half - i,
    {
        proof {
            lemma_peak_is_first_maximum(spectrum@, i as nat);
        }
        if spectrum[i] > spectrum[best] {
            best = i;
        }
        i = i + 1;
    }
    proof {
        lemma_peak_is_first_maximum(spectrum@, half as nat);
    }
    Some((best, spectrum[best]))
}

/// Frequency in millihertz of the lower edge of bin `bin`, rounded down:
/// `bin * sample_rate / fft_size` hertz.
pub open spec fn bin_millihertz(bin: nat, sample_rate: nat, fft_size: nat) -> nat
    recommends
        fft_size > 0,
{
    (bin * sample_rate * 1000) / fft_size
}

/// Frequency in millihertz of bin `bin` for the given rate and FFT size.
pub fn bin_frequency(bin: usize, sample_rate: u32, fft_size: usize) -> (r: u64)
    requires
        bin < fft_size,
    ensures
        r == bin_millihertz(bin as nat, sample_rate as nat, fft_size as nat),
        r <= sample_rate as nat * 1000,
{
    let b: u128 = bin as u128;
    let sr: u128 = sample_rate as u128;
    assert(b * sr <= 0x1_0000_0000_0000_0000_0000_0000) by (nonlinear_arith)
        requires
            b <= 0x1_0000_0000_0000_0000,
            sr <= 0x1_0000_0000,
    ;
    let num: u128 = b * sr * 1000;
    let q: u128 = num / fft_size as u128;
    proof {
        let b = bin as nat;
        let sr = sample_rate as nat;
        let f = fft_size as nat;
        assert(b * sr * 1000 <= f * (sr * 1000)) by (nonlinear_arith)
            requires
                b < f,
        ;
        assert((b * sr * 1000) / f <= sr * 1000) by (nonlinear_arith)
            requires
                b * sr * 1000 <= f * (sr * 1000),
                f > 0,
        ;
    }
    q as u64
}

/// Width in millihertz of one frequency bin (`sample_rate / fft_size` hertz),
/// rounded down.
pub fn bin_width(sample_rate: u32, fft_size: usize) -> (r: u64)
    requires
        fft_size > 0,
    ensures
        r == bin_millihertz(1, sample_rate as nat, fft_size as nat),
{
    let q: u64 = (sample_rate as u64 * 1000) / fft_size as u64;
    q
}

/// The frame's samples fitted to `fft_size`: truncated when longer,
/// zero-padded when shorter.
pub fn fit_frame(samples: &Vec<i32>, fft_size: usize) -> (r: Vec<i32>)
    ensures
        r@.len() == fft_size,
        forall|i: int| 0 <= i < fft_size ==> r@[i] == if i < samples@.len() {
            samples@[i]
        } else {
            0i32
        },
{
    let mut r: Vec<i32> = Vec::with_capacity(fft_size);
    let mut i: usize = 0;
    while i < fft_size
        invariant
            i <= fft_size,
            r@.len() == i,
            forall|j: int| 0 <= j < i ==> r@[j] == if j < samples@.len() {
                samples@[j]
            } else {
                0i32
            },
        decreases fft_size - i,
    {
        if i < samples.len() {
            r.push(samples[i]);
        } else {
            r.push(0);
        }
        i = i + 1;
    }
    r
}

} // verus!
