//! The bass-energy extractor: from the magnitudes of a transformed window
//! to one intensity.
//!
//! Magnitudes are unsigned integers on a scale of the caller's choosing; only
//! their order and their ratios matter. Frequencies of the band are held in
//! millihertz, the sample rate in hertz, and the cutoff in millionths.

use crate::intensity::{Intensity, FLOOR, MILLION};
use crate::rounding::rounded_quotient;
use vstd::arithmetic::div_mod::{lemma_div_is_ordered, lemma_div_multiples_vanish};
use vstd::prelude::*;

verus! {

/// The frequency range that counts as bass, and the share of the loudest bin
/// that its peak must reach.
#[derive(Clone, Copy, Debug, PartialEq, Eq)]
pub struct Band {
    /// Lower edge, in millihertz.
    pub low_freq: u32,
    /// Upper edge, in millihertz. The bin it maps to is the first one outside the band.
    pub high_freq: u32,
    /// The cutoff ratio, in millionths.
    pub bass_cutoff: u32,
}

impl Band {
    /// The upper edge is at most half the sample rate.
    pub open spec fn below_nyquist(self, sample_rate: u32) -> bool {
        2 * self.high_freq <= 1000 * sample_rate
    }

    /// The band holds no bin, or none behind the end of a spectrum of
    /// `capacity` bins.
    pub open spec fn within(self, sample_rate: u32, capacity: nat) -> bool {
        bin_of(self.low_freq, sample_rate, capacity) < bin_of(self.high_freq, sample_rate, capacity)
            ==> bin_of(self.high_freq, sample_rate, capacity) <= capacity
    }

    /// Decides whether the upper edge is at most half the sample rate.
    pub fn is_below_nyquist(&self, sample_rate: u32) -> (r: bool)
        ensures
            r == self.below_nyquist(sample_rate),
    {
        2 * (self.high_freq as u64) <= 1000 * (sample_rate as u64)
    }

    /// Decides whether the band holds no bin behind the end of a spectrum
    /// of `capacity` bins.
    pub fn is_within(&self, sample_rate: u32, capacity: usize) -> (r: bool)
        requires
            sample_rate > 0,
        ensures
            r == self.within(sample_rate, capacity as nat),
    {
        let low_bin: u128 = exact_bin(self.low_freq, sample_rate, capacity);
        let high_bin: u128 = exact_bin(self.high_freq, sample_rate, capacity);
        low_bin >= high_bin || high_bin <= capacity as u128
    }
}

/// The bin of a transform of `capacity` slots that a frequency maps to: the
/// frequency as a share of the sample rate, times the capacity, rounded.
pub open spec fn bin_of(freq: u32, sample_rate: u32, capacity: nat) -> nat
    recommends
        sample_rate > 0,
{
    rounded_quotient(freq as nat * capacity, 1000 * sample_rate as nat)
}

/// The first bin of largest magnitude among the bins from `low` up to, not
/// including, `high`, and that magnitude. Bins that hold zero never count:
/// where there is no other, the result is bin 0 with magnitude 0.
pub open spec fn peak(magnitudes: Seq<u32>, low: int, high: int) -> (int, int)
    decreases high - low,
{
    if high <= low {
        (0, 0)
    } else {
        let (index, amplitude) = peak(magnitudes, low, high - 1);
        if magnitudes[high - 1] > amplitude {
            (high - 1, magnitudes[high - 1] as int)
        } else {
            (index, amplitude)
        }
    }
}

/// The largest magnitude among the bins from 1 up to, not including, half
/// the length. Bin 0, the constant term, is left out.
pub open spec fn max_amplitude(magnitudes: Seq<u32>) -> int {
    peak(magnitudes, 1, magnitudes.len() as int / 2).1
}

/// Whether the band's peak is silenced.
pub open spec fn gated(
    bass_index: int,
    bass_amplitude: int,
    max_amplitude: int,
    low_bin: int,
    high_bin: int,
    cutoff: int,
) -> bool {
    ||| max_amplitude == 0
    ||| bass_amplitude * MILLION < cutoff * max_amplitude
    ||| bass_index < low_bin
    ||| high_bin <= low_bin
}

/// Where the peak bin sits inside the band, from the floor for the first bin
/// towards one whole, in millionths and rounded down.
pub open spec fn encoded(bass_index: int, low_bin: int, high_bin: int) -> int
    recommends
        low_bin <= bass_index < high_bin,
{
    FLOOR + ((MILLION - FLOOR) * (bass_index - low_bin)) / (high_bin - low_bin)
}

/// The intensity, in millionths, that a spectrum gives for a band of bins.
pub open spec fn intensity_of(magnitudes: Seq<u32>, low_bin: int, high_bin: int, cutoff: int) -> int {
    let (bass_index, bass_amplitude) = peak(magnitudes, low_bin, high_bin);
    if gated(bass_index, bass_amplitude, max_amplitude(magnitudes), low_bin, high_bin, cutoff) {
        0
    } else {
        encoded(bass_index, low_bin, high_bin)
    }
}

/// What `peak` finds, said without recursion: either every bin of the range
/// holds zero, or the result is the first bin that holds the largest
/// magnitude of the range.
pub proof fn lemma_peak_is_first_maximum(magnitudes: Seq<u32>, low: int, high: int)
    requires
        0 <= low,
        high <= magnitudes.len(),
    ensures
        ({
            let (index, amplitude) = peak(magnitudes, low, high);
            &&& amplitude >= 0
            &&& forall|k: int| low <= k < high ==> magnitudes[k] <= amplitude
            &&& amplitude == 0 ==> index == 0
            &&& amplitude > 0 ==> {
                &&& low <= index < high
                &&& magnitudes[index] == amplitude
                &&& forall|k: int| low <= k < index ==> magnitudes[k] < amplitude
            }
        }),
    decreases high - low,
{
    if high > low {
        lemma_peak_is_first_maximum(magnitudes, low, high - 1);
    }
}

/// The peak of a range that is extended by one bin at its end.
proof fn lemma_peak_step(magnitudes: Seq<u32>, low: int, high: int)
    requires
        low < high,
    ensures
        peak(magnitudes, low, high) == (if magnitudes[high - 1] > peak(magnitudes, low, high - 1).1 {
            (high - 1, magnitudes[high - 1] as int)
        } else {
            peak(magnitudes, low, high - 1)
        }),
{
}

/// A band whose upper edge is at most half the sample rate lies within
/// every spectrum.
pub proof fn lemma_below_nyquist_is_within(band: Band, sample_rate: u32, capacity: nat)
    requires
        sample_rate > 0,
        band.below_nyquist(sample_rate),
    ensures
        band.within(sample_rate, capacity),
{
    lemma_bin_below_nyquist(band.high_freq, sample_rate, capacity);
}

/// A frequency of at most half the sample rate maps to a bin in the lower
/// half of the spectrum.
pub proof fn lemma_bin_below_nyquist(freq: u32, sample_rate: u32, capacity: nat)
    requires
        sample_rate > 0,
        2 * freq <= 1000 * sample_rate,
    ensures
        bin_of(freq, sample_rate, capacity) <= (capacity + 1) / 2,
        bin_of(freq, sample_rate, capacity) <= capacity,
{
    let d = 1000 * sample_rate as int;
    let a = freq as int * capacity as int;
    assert(2 * a + d <= d * (capacity + 1)) by (nonlinear_arith)
        requires
            a == freq as int * capacity as int,
            2 * freq <= d,
            0 <= capacity,
            0 < d,
    ;
    assert(0 < 2 * d);
    lemma_div_is_ordered(2 * a + d, d * (capacity + 1), 2 * d);
    if (capacity + 1) % 2 == 0 {
        let h = (capacity + 1) / 2;
        assert(d * (capacity + 1) == (2 * d) * h) by (nonlinear_arith)
            requires
                capacity + 1 == 2 * h,
        ;
        lemma_div_multiples_vanish(h as int, 2 * d);
    } else {
        let h = capacity as int / 2;
        assert(d * (capacity + 1) == (2 * d) * h + d) by (nonlinear_arith)
            requires
                capacity == 2 * h,
        ;
        vstd::arithmetic::div_mod::lemma_fundamental_div_mod_converse(
            d * (capacity + 1),
            2 * d,
            h,
            d,
        );
    }
}

/// The bin that a frequency maps to, in a type wide enough for every bin.
fn exact_bin(freq: u32, sample_rate: u32, capacity: usize) -> (bin: u128)
    requires
        sample_rate > 0,
    ensures
        bin == bin_of(freq, sample_rate, capacity as nat),
{
    let d: u128 = 1000 * (sample_rate as u128);
    assert((freq as u128) * (capacity as u128) <= 0xffff_ffff * 0xffff_ffff_ffff_ffff)
        by (nonlinear_arith)
        requires
            freq <= 0xffff_ffff,
            capacity <= 0xffff_ffff_ffff_ffff,
    ;
    let a: u128 = (freq as u128) * (capacity as u128);
    (2 * a + d) / (2 * d)
}

/// The bin that `freq`, in millihertz, maps to at `sample_rate` hertz in a
/// transform of `capacity` slots. A bin too large for the machine's index
/// type comes back as the largest index.
pub fn frequency_bin(freq: u32, sample_rate: u32, capacity: usize) -> (bin: usize)
    requires
        sample_rate > 0,
    ensures
        bin == (if bin_of(freq, sample_rate, capacity as nat) <= usize::MAX {
            bin_of(freq, sample_rate, capacity as nat)
        } else {
            usize::MAX as nat
        }),
{
    let q: u128 = exact_bin(freq, sample_rate, capacity);
    if q > usize::MAX as u128 {
        usize::MAX
    } else {
        q as usize
    }
}

/// The first bin of largest magnitude among the bins from `low` up to, not
/// including, `high`, and that magnitude.
pub fn band_peak(magnitudes: &[u32], low: usize, high: usize) -> (r: (usize, u32))
    requires
        low < high ==> high <= magnitudes@.len(),
    ensures
        (r.0 as int, r.1 as int) == peak(magnitudes@, low as int, high as int),
{
    if high <= low {
        return (0, 0);
    }
    let mut index: usize = 0;
    let mut amplitude: u32 = 0;
    let mut i: usize = low;
    while i < high
        invariant
            low <= i <= high,
            high <= magnitudes@.len(),
            (index as int, amplitude as int) == peak(magnitudes@, low as int, i as int),
        decreases high - i,
    {
        proof {
            lemma_peak_step(magnitudes@, low as int, i + 1);
        }
        if magnitudes[i] > amplitude {
            amplitude = magnitudes[i];
            index = i;
        }
        i = i + 1;
    }
    (index, amplitude)
}

/// The intensity that a spectrum gives for the band of bins from `low_bin`
/// up to, not including, `high_bin`, with the cutoff in millionths.
///
/// The band's peak is silenced where the spectrum is silent, where the peak
/// is below the cutoff's share of the loudest bin, where the band holds no
/// bin, and where it holds only zeros and does not begin at bin 0.
/// Otherwise the intensity says where in the band the peak bin sits, not
/// how loud it is: a band of zeros that begins at bin 0, under a cutoff of
/// zero, gives the floor.
pub fn extract_bins(magnitudes: &[u32], low_bin: usize, high_bin: usize, cutoff: u32) -> (r:
    Intensity)
    requires
        low_bin < high_bin ==> high_bin <= magnitudes@.len(),
    ensures
        r@ == intensity_of(magnitudes@, low_bin as int, high_bin as int, cutoff as int),
        r@ == 0 || FLOOR <= r@ <= MILLION,
        high_bin <= low_bin ==> r@ == 0,
        (forall|k: int|
            low_bin <= k < high_bin ==> magnitudes@[k] * MILLION < cutoff * max_amplitude(
                magnitudes@,
            )) ==> r@ == 0,
{
    let (_, max) = band_peak(magnitudes, 1, magnitudes.len() / 2);
    let (bass_index, bass_amplitude) = band_peak(magnitudes, low_bin, high_bin);
    proof {
        if low_bin < high_bin {
            lemma_peak_is_first_maximum(magnitudes@, low_bin as int, high_bin as int);
        }
    }
    assert((cutoff as u64) * (max as u64) <= 0xffff_ffff * 0xffff_ffff) by (nonlinear_arith)
        requires
            cutoff <= 0xffff_ffff,
            max <= 0xffff_ffff,
    ;
    if max == 0 || (bass_amplitude as u64) * (MILLION as u64) < (cutoff as u64) * (max as u64)
        || bass_index < low_bin || high_bin <= low_bin {
        proof {
            if low_bin < high_bin && bass_amplitude > 0 {
                assert(magnitudes@[bass_index as int] == bass_amplitude);
            }
        }
        return Intensity::zero();
    }
    let offset: u128 = (bass_index - low_bin) as u128;
    let width: u128 = (high_bin - low_bin) as u128;
    let span: u128 = (MILLION - FLOOR) as u128;
    proof {
        assert(span * offset <= span * width) by (nonlinear_arith)
            requires
                offset <= width,
                0 <= span,
        ;
        assert(span * offset <= 950_000 * 0xffff_ffff_ffff_ffff) by (nonlinear_arith)
            requires
                span == 950_000,
                offset <= 0xffff_ffff_ffff_ffff,
        ;
        lemma_div_is_ordered((span * offset) as int, (span * width) as int, width as int);
        lemma_div_multiples_vanish(span as int, width as int);
        assert(span * width == width * span) by (nonlinear_arith);
    }
    let share: u128 = (span * offset) / width;
    Intensity::new(FLOOR + share as u32)
}

/// The intensity that a spectrum gives for a band, with the band's edges
/// mapped to bins of a transform as long as the spectrum. A band whose
/// upper edge is at most half the sample rate is always within it.
pub fn extract(magnitudes: &[u32], band: &Band, sample_rate: u32) -> (r: Intensity)
    requires
        sample_rate > 0,
        band.within(sample_rate, magnitudes@.len()),
    ensures
        r@ == intensity_of(
            magnitudes@,
            bin_of(band.low_freq, sample_rate, magnitudes@.len()) as int,
            bin_of(band.high_freq, sample_rate, magnitudes@.len()) as int,
            band.bass_cutoff as int,
        ),
        r@ == 0 || FLOOR <= r@ <= MILLION,
        bin_of(band.high_freq, sample_rate, magnitudes@.len()) <= bin_of(
            band.low_freq,
            sample_rate,
            magnitudes@.len(),
        ) ==> r@ == 0,
        (forall|k: int|
            bin_of(band.low_freq, sample_rate, magnitudes@.len()) <= k < bin_of(
                band.high_freq,
                sample_rate,
                magnitudes@.len(),
            ) ==> magnitudes@[k] * MILLION < band.bass_cutoff * max_amplitude(magnitudes@))
            ==> r@ == 0,
{
    let capacity: usize = magnitudes.len();
    let high_bin: usize = frequency_bin(band.high_freq, sample_rate, capacity);
    let low_bin: usize = frequency_bin(band.low_freq, sample_rate, capacity);
    proof {
        if bin_of(band.low_freq, sample_rate, capacity as nat) > usize::MAX {
            assert(high_bin <= low_bin);
            assert(peak(magnitudes@, low_bin as int, high_bin as int) == (0int, 0int));
        }
    }
    extract_bins(magnitudes, low_bin, high_bin, band.bass_cutoff)
}

/// The intensity that a spectrum gives for a band, where the sample rate is
/// not zero and the band lies within the spectrum; nothing otherwise.
pub fn try_extract(magnitudes: &[u32], band: &Band, sample_rate: u32) -> (r: Option<Intensity>)
    ensures
        r is Some <==> sample_rate > 0 && band.within(sample_rate, magnitudes@.len()),
        r matches Some(level) ==> level@ == intensity_of(
            magnitudes@,
            bin_of(band.low_freq, sample_rate, magnitudes@.len()) as int,
            bin_of(band.high_freq, sample_rate, magnitudes@.len()) as int,
            band.bass_cutoff as int,
        ),
{
    if sample_rate > 0 && band.is_within(sample_rate, magnitudes.len()) {
        Some(extract(magnitudes, band, sample_rate))
    } else {
        None
    }
}

} // verus!
