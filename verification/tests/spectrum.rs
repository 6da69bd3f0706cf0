use bass_haptics::intensity::Intensity;
use bass_haptics::spectrum::{
    band_peak, extract, extract_bins, frequency_bin, try_extract, Band,
};

fn as_float(level: Intensity) -> f64 {
    level.ppm() as f64 / 1_000_000.0
}

/// Capacity 8 at 8000 Hz: one bin per 1000 Hz.
fn band_2_4(cutoff: u32) -> Band {
    Band { low_freq: 2_000_000, high_freq: 4_000_000, bass_cutoff: cutoff }
}

#[test]
fn frequency_bin_rounds_to_nearest() {
    // 4096 slots at 44100 Hz: 20 Hz -> 1.857.., 60 Hz -> 5.57..
    assert_eq!(frequency_bin(20_000, 44_100, 4096), 2);
    assert_eq!(frequency_bin(60_000, 44_100, 4096), 6);
    assert_eq!(frequency_bin(0, 44_100, 4096), 0);
    assert_eq!(frequency_bin(22_050_000, 44_100, 4096), 2048);
    assert_eq!(frequency_bin(2_000_000, 8_000, 8), 2);
    assert_eq!(frequency_bin(4_000_000, 8_000, 8), 4);
}

#[test]
fn frequency_bin_rounds_halves_up() {
    // 8 slots at 8000 Hz: 1500 Hz is bin 1.5, 1499.999 Hz just below.
    assert_eq!(frequency_bin(1_500_000, 8_000, 8), 2);
    assert_eq!(frequency_bin(1_499_999, 8_000, 8), 1);
    assert_eq!(frequency_bin(500_000, 8_000, 8), 1);
    assert_eq!(frequency_bin(499_999, 8_000, 8), 0);
}

#[test]
fn frequency_bin_saturates() {
    assert_eq!(frequency_bin(u32::MAX, 1, usize::MAX), usize::MAX);
}

#[test]
fn band_peak_finds_first_largest() {
    let m = [9u32, 1, 7, 3, 7, 2];
    assert_eq!(band_peak(&m, 1, 6), (2, 7));
    assert_eq!(band_peak(&m, 0, 6), (0, 9));
    assert_eq!(band_peak(&m, 3, 4), (3, 3));
    assert_eq!(band_peak(&m, 4, 4), (0, 0));
    assert_eq!(band_peak(&m, 5, 2), (0, 0));
    assert_eq!(band_peak(&[0u32, 0, 0], 1, 3), (0, 0));
}

#[test]
fn is_below_nyquist_at_the_edge() {
    let band = Band { low_freq: 0, high_freq: 22_050_000, bass_cutoff: 0 };
    assert!(band.is_below_nyquist(44_100));
    assert!(!band.is_below_nyquist(44_099));
    let wide = Band { low_freq: 0, high_freq: u32::MAX, bass_cutoff: 0 };
    assert!(!wide.is_below_nyquist(8_000_000));
    assert!(wide.is_below_nyquist(8_589_935));
}

#[test]
fn peak_in_second_of_two_bins_gives_0_525() {
    let m = [0u32, 0, 0, 10, 0, 0, 0, 0];
    let level = extract(&m, &band_2_4(300_000), 8_000);
    assert_eq!(level.ppm(), 525_000);
    assert_eq!(as_float(level), 0.525);
    assert_eq!(as_float(level), 0.05 + 0.95 * (3.0 - 2.0) / (4.0 - 2.0));
}

#[test]
fn cutoff_below_ratio_does_not_gate() {
    let m = [0u32, 0, 0, 10, 0, 0, 0, 0];
    assert_eq!(extract(&m, &band_2_4(950_000), 8_000).ppm(), 525_000);
}

#[test]
fn cutoff_equal_to_ratio_does_not_gate() {
    let m = [0u32, 0, 0, 10, 0, 0, 0, 0];
    // The ratio is exactly one: only a cutoff above it silences.
    assert_eq!(extract(&m, &band_2_4(1_000_000), 8_000).ppm(), 525_000);
    assert_eq!(extract(&m, &band_2_4(1_000_001), 8_000).ppm(), 0);
    // A ratio of one half against a cutoff of one half.
    let m = [0u32, 20, 0, 10, 0, 0, 0, 0];
    assert_eq!(extract(&m, &band_2_4(500_000), 8_000).ppm(), 525_000);
    assert_eq!(extract(&m, &band_2_4(500_001), 8_000).ppm(), 0);
}

#[test]
fn silence_gives_zero() {
    let m = [0u32; 8];
    assert!(extract(&m, &band_2_4(300_000), 8_000).is_zero());
    assert!(extract(&m, &band_2_4(0), 8_000).is_zero());
    let from_zero = Band { low_freq: 0, high_freq: 4_000_000, bass_cutoff: 0 };
    assert!(extract(&m, &from_zero, 8_000).is_zero());
    assert!(extract_bins(&m, 0, 4, 0).is_zero());
}

#[test]
fn only_constant_term_counts_as_silence() {
    // Bin 0 is left out of the loudest bin, so nothing is loud here.
    let m = [100u32, 0, 0, 0, 0, 0, 0, 0];
    assert!(extract_bins(&m, 0, 4, 0).is_zero());
}

#[test]
fn empty_or_reversed_band_gives_zero() {
    let m = [0u32, 5, 9, 10, 3, 0, 0, 0];
    assert!(extract_bins(&m, 3, 3, 0).is_zero());
    assert!(extract_bins(&m, 4, 2, 0).is_zero());
    assert!(extract_bins(&m, 100, 2, 0).is_zero());
    let reversed = Band { low_freq: 3_000_000, high_freq: 2_000_000, bass_cutoff: 0 };
    assert!(extract(&m, &reversed, 8_000).is_zero());
    let point = Band { low_freq: 3_000_000, high_freq: 3_000_000, bass_cutoff: 0 };
    assert!(extract(&m, &point, 8_000).is_zero());
}

#[test]
fn band_below_cutoff_gives_zero() {
    // The loudest bin holds 100; the band holds at most 29, under 30 %.
    let m = [0u32, 100, 29, 17, 0, 0, 0, 0];
    assert!(extract_bins(&m, 2, 4, 300_000).is_zero());
    let m = [0u32, 100, 30, 17, 0, 0, 0, 0];
    assert_eq!(extract_bins(&m, 2, 4, 300_000).ppm(), 50_000);
}

#[test]
fn band_of_zeros_behind_bin_zero_gives_zero() {
    let m = [0u32, 100, 0, 0, 0, 0, 0, 0];
    assert!(extract_bins(&m, 2, 4, 0).is_zero());
}

#[test]
fn peak_in_first_bin_gives_floor() {
    let m = [0u32, 0, 10, 3, 0, 0, 0, 0];
    assert_eq!(extract_bins(&m, 2, 4, 300_000).ppm(), 50_000);
    assert_eq!(as_float(extract_bins(&m, 2, 4, 300_000)), 0.05);
}

#[test]
fn encoding_rounds_down_to_a_millionth() {
    // Peak in the second of three bins: 0.05 + 0.95 / 3 = 0.366666..
    let m = [0u32, 0, 1, 10, 1, 0, 0, 0, 0, 0, 0, 0, 0, 0, 0, 0];
    assert_eq!(extract_bins(&m, 2, 5, 0).ppm(), 366_666);
    // Peak in the third of three bins: 0.05 + 0.95 * 2 / 3 = 0.683333..
    let m = [0u32, 0, 1, 1, 10, 0, 0, 0, 0, 0, 0, 0, 0, 0, 0, 0];
    assert_eq!(extract_bins(&m, 2, 5, 0).ppm(), 683_333);
}

#[test]
fn output_is_zero_or_between_floor_and_one() {
    let spectra: [[u32; 8]; 4] = [
        [0, 1, 2, 3, 4, 5, 6, 7],
        [7, 6, 5, 4, 3, 2, 1, 0],
        [0, 0, 0, 0, 0, 0, 0, 9],
        [3, 3, 3, 3, 3, 3, 3, 3],
    ];
    for m in spectra.iter() {
        for low in 0..=8usize {
            for high in 0..=8usize {
                for cutoff in [0u32, 300_000, 1_000_000, 2_000_000] {
                    let ppm = extract_bins(m, low, high, cutoff).ppm();
                    assert!(ppm == 0 || (50_000..=1_000_000).contains(&ppm));
                    if high <= low {
                        assert_eq!(ppm, 0);
                    }
                }
            }
        }
    }
}

#[test]
fn first_of_equal_peaks_wins() {
    let m = [0u32, 0, 10, 10, 10, 0, 0, 0, 0, 0];
    assert_eq!(extract_bins(&m, 2, 5, 0).ppm(), 50_000);
}

#[test]
fn intensity_from_ppm_checks_range() {
    assert_eq!(Intensity::from_ppm(0).map(|i| i.ppm()), Some(0));
    assert_eq!(Intensity::from_ppm(1_000_000).map(|i| i.ppm()), Some(1_000_000));
    assert!(Intensity::from_ppm(1_000_001).is_none());
    assert!(Intensity::zero().is_zero());
    assert!(!Intensity::from_ppm(1).unwrap().is_zero());
    assert_eq!(Intensity::from_ppm(525_000).unwrap().ppm(), 525_000);
}

#[test]
fn band_is_within_a_spectrum_that_holds_its_bins() {
    let band = Band { low_freq: 2_000_000, high_freq: 4_000_000, bass_cutoff: 0 };
    assert!(band.is_within(8_000, 8));
    assert!(band.is_within(8_000, 0));
    // At 2000 Hz the upper edge maps to bin 16 of 8.
    assert!(!band.is_within(2_000, 8));
    // At 4000 Hz it maps to bin 8, the end of the spectrum.
    assert!(band.is_within(4_000, 8));
    let reversed = Band { low_freq: 4_000_000, high_freq: 2_000_000, bass_cutoff: 0 };
    assert!(reversed.is_within(1, 8));
    let huge = Band { low_freq: u32::MAX - 1, high_freq: u32::MAX, bass_cutoff: 0 };
    assert!(!huge.is_within(1, usize::MAX));
}

#[test]
fn band_above_half_the_rate_reads_the_upper_bins() {
    let m = [0u32, 3, 0, 0, 0, 0, 9, 0];
    let band = Band { low_freq: 5_000_000, high_freq: 8_000_000, bass_cutoff: 0 };
    assert!(!band.is_below_nyquist(8_000));
    assert!(band.is_within(8_000, 8));
    // Bins 5, 6, 7; the peak sits in the second.
    assert_eq!(extract(&m, &band, 8_000).ppm(), 366_666);
}

#[test]
fn try_extract_refuses_zero_rate_and_band_outside() {
    let m = [0u32, 0, 0, 10, 0, 0, 0, 0];
    assert_eq!(try_extract(&m, &band_2_4(300_000), 8_000).map(|l| l.ppm()), Some(525_000));
    assert!(try_extract(&m, &band_2_4(300_000), 0).is_none());
    assert!(try_extract(&m, &band_2_4(300_000), 2_000).is_none());
    let reversed = Band { low_freq: 4_000_000, high_freq: 2_000_000, bass_cutoff: 0 };
    assert_eq!(try_extract(&m, &reversed, 1).map(|l| l.ppm()), Some(0));
}

#[test]
fn band_of_zeros_from_bin_zero_under_no_cutoff_gives_floor() {
    // Something is loud outside the band, the cutoff asks for nothing, and
    // the band begins at bin 0: the peak stays at bin 0.
    let m = [0u32, 0, 0, 7, 0, 0, 0, 0];
    assert_eq!(extract_bins(&m, 0, 2, 0).ppm(), 50_000);
    // Any cutoff above zero silences it.
    assert_eq!(extract_bins(&m, 0, 2, 1).ppm(), 0);
}
