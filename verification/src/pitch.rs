use vstd::prelude::*;

verus! {

/// The pitch detection algorithms a user can cycle through.
#[derive(Debug, Clone, Copy, PartialEq, Eq, Structural)]
pub enum Algorithm {
    Yin,
    Mpm,
    Fft,
}

impl Algorithm {
    /// The algorithm that follows `self` in the cycle Yin, Mpm, Fft.
    pub open spec fn spec_next(self) -> Algorithm {
        match self {
            Algorithm::Yin => Algorithm::Mpm,
            Algorithm::Mpm => Algorithm::Fft,
            Algorithm::Fft => Algorithm::Yin,
        }
    }

    /// Every algorithm, in cycle order.
    pub const ALL: [Algorithm; 3] = [Algorithm::Yin, Algorithm::Mpm, Algorithm::Fft];

    pub fn next(self) -> (r: Self)
        ensures
            r == self.spec_next(),
    {
        match self {
            Algorithm::Yin => Algorithm::Mpm,
            Algorithm::Mpm => Algorithm::Fft,
            Algorithm::Fft => Algorithm::Yin,
        }
    }
}

/// Cycling through the algorithms comes back to the start after three steps,
/// and visits three different algorithms on the way.
pub proof fn lemma_algorithm_cycle(a: Algorithm)
    ensures
        a.spec_next().spec_next().spec_next() == a,
        a.spec_next() != a,
        a.spec_next().spec_next() != a,
{
}

impl Algorithm {
    pub open spec fn spec_label(self) -> Seq<char> {
        match self {
            Algorithm::Yin => seq!['Y', 'I', 'N'],
            Algorithm::Mpm => seq!['M', 'P', 'M'],
            Algorithm::Fft => seq!['F', 'F', 'T'],
        }
    }

    /// The algorithm's name as shown in the interface.
    pub fn label(self) -> (r: &'static str)
        ensures
            r@ == self.spec_label(),
    {
        proof {
            reveal_strlit("YIN");
            reveal_strlit("MPM");
            reveal_strlit("FFT");
        }
        match self {
            Algorithm::Yin => "YIN",
            Algorithm::Mpm => "MPM",
            Algorithm::Fft => "FFT",
        }
    }
}

/// McLeod Pitch Method detector; it keeps no state between calls.
pub struct Mpm;

impl Mpm {
    pub fn new() -> Self {
        Mpm
    }
}

/// Samples kept for one analysis: 8192 samples, about 186 ms at 44.1 kHz.
pub const BUFFER_SIZE: usize = 8192;

/// The last `n` entries of a buffer, or the whole buffer when it is not longer.
pub open spec fn latest<T>(buffer: Seq<T>, n: nat) -> Seq<T> {
    if buffer.len() > n {
        buffer.subrange(buffer.len() - n, buffer.len() as int)
    } else {
        buffer
    }
}

/// After trimming, a buffer holds at most `n` entries, and they are the
/// newest ones: the buffer ends with them.
pub proof fn lemma_latest_bounded<T>(buffer: Seq<T>, n: nat)
    ensures
        latest(buffer, n).len() == if buffer.len() > n { n } else { buffer.len() },
        forall|i: int|
            0 <= i < latest(buffer, n).len() ==> #[trigger] latest(buffer, n)[i] == buffer[buffer.len()
                - latest(buffer, n).len() + i],
{
}

/// Drop the oldest samples so that at most `n` remain.
pub fn keep_latest<T: Copy>(buffer: &mut Vec<T>, n: usize)
    ensures
        final(buffer)@ == latest(old(buffer)@, n as nat),
{
    let len = buffer.len();
    if len > n {
        let start = len - n;
        let mut kept: Vec<T> = Vec::new();
        let mut i = start;
        while i < len
            invariant
                len == buffer@.len(),
                start <= i <= len,
                kept@ == buffer@.subrange(start as int, i as int),
            decreases len - i,
        {
            kept.push(buffer[i]);
            i = i + 1;
        }
        *buffer = kept;
    }
}

/// The lags an autocorrelation search considers at `sample_rate`: from the
/// lag of 1000 Hz up to (not including) the smaller of `len` and the lag of
/// 50 Hz.
pub open spec fn spec_lag_bounds(len: nat, sample_rate: u32) -> (nat, nat) {
    let hi = sample_rate as nat / 50;
    (sample_rate as nat / 1000, if len < hi { len } else { hi })
}

/// The YIN search on `sample_count` samples: it compares the first half of
/// the samples with shifted copies, so `len` is half the samples, and it
/// gives up when that half holds fewer than two samples. The result is
/// `(len, min_tau, max_tau)`.
pub open spec fn spec_yin_lags(sample_count: nat, sample_rate: u32) -> Option<(usize, usize, usize)> {
    let len = sample_count / 2;
    if len < 2 {
        None
    } else {
        let (lo, hi) = spec_lag_bounds(len, sample_rate);
        Some((len as usize, lo as usize, hi as usize))
    }
}

pub fn yin_lags(sample_count: usize, sample_rate: u32) -> (r: Option<(usize, usize, usize)>)
    ensures
        r == spec_yin_lags(sample_count as nat, sample_rate),
        r matches Some((len, lo, hi)) ==> 2 <= len && 2 * len <= sample_count && hi <= len,
{
    let len = sample_count / 2;
    if len < 2 {
        return None;
    }
    let min_tau = sample_rate as usize / 1000;
    let hi = sample_rate as usize / 50;
    let max_tau = if len < hi {
        len
    } else {
        hi
    };
    Some((len, min_tau, max_tau))
}

/// The MPM search on `len` samples gives up on fewer than two samples, on an
/// empty lag range, or when the largest lag is not below `len`. The result
/// is `(min_tau, max_tau)`; lags up to `max_tau` inclusive are examined.
pub open spec fn spec_mpm_lags(len: nat, sample_rate: u32) -> Option<(usize, usize)> {
    let (lo, hi) = spec_lag_bounds(len, sample_rate);
    if len < 2 || lo >= hi || hi >= len {
        None
    } else {
        Some((lo as usize, hi as usize))
    }
}

pub fn mpm_lags(len: usize, sample_rate: u32) -> (r: Option<(usize, usize)>)
    ensures
        r == spec_mpm_lags(len as nat, sample_rate),
        r matches Some((lo, hi)) ==> lo < hi < len,
{
    if len < 2 {
        return None;
    }
    let min_tau = sample_rate as usize / 1000;
    let hi = sample_rate as usize / 50;
    let max_tau = if len < hi {
        len
    } else {
        hi
    };
    if min_tau >= max_tau || max_tau >= len {
        return None;
    }
    Some((min_tau, max_tau))
}

/// Number of harmonic products the FFT detector multiplies.
pub const HPS_HARMONICS: usize = 5;

/// The bins the harmonic product spectrum is searched over, given the
/// Nyquist bin and the bins of 50 Hz (rounded up) and 2000 Hz (rounded
/// down): the top bin is capped below the Nyquist bin, and again so that
/// its fifth harmonic stays below it. `None` when the range is empty.
pub open spec fn spec_hps_bins(nyquist: nat, min_bin: nat, top_bin: nat) -> Option<(usize, usize)> {
    let max_bin = if top_bin < nyquist - 1 { top_bin } else { (nyquist - 1) as nat };
    let hps_len = nyquist / HPS_HARMONICS as nat;
    let hps_top = if hps_len >= 1 { (hps_len - 1) as nat } else { 0 };
    let hps_max_bin = if max_bin < hps_top { max_bin } else { hps_top };
    if min_bin >= max_bin || min_bin >= hps_max_bin {
        None
    } else {
        Some((min_bin as usize, hps_max_bin as usize))
    }
}

pub fn hps_bins(nyquist: usize, min_bin: usize, top_bin: usize) -> (r: Option<(usize, usize)>)
    requires
        nyquist >= 1,
    ensures
        r == spec_hps_bins(nyquist as nat, min_bin as nat, top_bin as nat),
        r matches Some((lo, hi)) ==> lo < hi && hi * HPS_HARMONICS < nyquist,
{
    let max_bin = if top_bin < nyquist - 1 {
        top_bin
    } else {
        nyquist - 1
    };
    if min_bin >= max_bin {
        return None;
    }
    let hps_len = nyquist / HPS_HARMONICS;
    let hps_top = hps_len.saturating_sub(1);
    let hps_max_bin = if max_bin < hps_top {
        max_bin
    } else {
        hps_top
    };
    if min_bin >= hps_max_bin {
        return None;
    }
    Some((min_bin, hps_max_bin))
}

} // verus!
