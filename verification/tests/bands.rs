use lunatech::bands::{
    band_bins, filter_complex_by_range, filter_magnitudes_by_range, first_bin_at, Band,
};

#[test]
fn band_limits_in_hz() {
    assert_eq!(Band::Bass.limits(), (0, 250));
    assert_eq!(Band::Mid.limits(), (250, 4000));
    assert_eq!(Band::Treble.limits(), (4000, 15000));
}

#[test]
fn first_bin_at_exact_values() {
    assert_eq!(first_bin_at(0, 1024, 44100, 513), 0);
    assert_eq!(first_bin_at(250, 1024, 44100, 513), 6);
    assert_eq!(first_bin_at(4000, 1024, 44100, 513), 93);
    assert_eq!(first_bin_at(15000, 1024, 44100, 513), 349);
    assert_eq!(first_bin_at(22050, 1024, 44100, 513), 512);
    assert_eq!(first_bin_at(22051, 1024, 44100, 513), 513);
    assert_eq!(first_bin_at(30000, 1024, 44100, 513), 513);
}

#[test]
fn first_bin_at_a_frequency_that_is_a_bin_centre() {
    assert_eq!(first_bin_at(250, 1000, 1000, 501), 250);
    assert_eq!(first_bin_at(250, 4, 1000, 3), 1);
    assert_eq!(first_bin_at(500, 4, 1000, 3), 2);
    assert_eq!(first_bin_at(501, 4, 1000, 3), 3);
}

#[test]
fn first_bin_at_agrees_with_the_definition() {
    let (block_len, rate, bins) = (2048usize, 48000u32, 1025usize);
    for hz in [0u32, 1, 23, 24, 250, 999, 4000, 15000, 23999, 24000, 24001] {
        let got = first_bin_at(hz, block_len, rate, bins);
        for bin in 0..bins {
            let reaches = (bin as u64) * (rate as u64) >= (hz as u64) * (block_len as u64);
            assert_eq!(bin >= got, reaches, "hz {hz} bin {bin}");
        }
    }
}

#[test]
fn first_bin_at_without_a_rate_or_a_block() {
    assert_eq!(first_bin_at(250, 1024, 0, 513), 513);
    assert_eq!(first_bin_at(0, 1024, 0, 513), 0);
    assert_eq!(first_bin_at(250, 0, 44100, 1), 0);
    assert_eq!(first_bin_at(250, 1024, 44100, 0), 0);
}

#[test]
fn first_bin_at_the_largest_arguments() {
    assert_eq!(first_bin_at(u32::MAX, usize::MAX, 1, 10), 10);
    assert_eq!(first_bin_at(u32::MAX, usize::MAX, u32::MAX, usize::MAX), usize::MAX);
    assert_eq!(first_bin_at(1, usize::MAX, u32::MAX, usize::MAX), 4294967297);
}

#[test]
fn band_bins_of_a_1024_block_at_44100() {
    assert_eq!(band_bins(Band::Bass, 1024, 44100, 513), (0, 6));
    assert_eq!(band_bins(Band::Mid, 1024, 44100, 513), (6, 93));
    assert_eq!(band_bins(Band::Treble, 1024, 44100, 513), (93, 349));
}

#[test]
fn band_bins_are_cut_at_the_end_of_the_spectrum() {
    assert_eq!(band_bins(Band::Bass, 256, 8000, 129), (0, 8));
    assert_eq!(band_bins(Band::Mid, 256, 8000, 129), (8, 128));
    assert_eq!(band_bins(Band::Treble, 256, 8000, 129), (128, 129));
    assert_eq!(band_bins(Band::Treble, 256, 4000, 129), (129, 129));
}

#[test]
fn filter_magnitudes_keeps_the_bins_of_the_range() {
    let values: Vec<u32> = (0..513).collect();
    let bass = filter_magnitudes_by_range(&values, 1024, 44100, 0, 250);
    assert_eq!(bass, vec![0, 1, 2, 3, 4, 5]);
    let mid = filter_magnitudes_by_range(&values, 1024, 44100, 250, 4000);
    assert_eq!(mid, (6..93).collect::<Vec<u32>>());
    let treble = filter_magnitudes_by_range(&values, 1024, 44100, 4000, 15000);
    assert_eq!(treble, (93..349).collect::<Vec<u32>>());
}

#[test]
fn filter_magnitudes_of_an_empty_or_reversed_range() {
    let values: Vec<u32> = (0..513).collect();
    assert_eq!(filter_magnitudes_by_range(&values, 1024, 44100, 250, 250), Vec::<u32>::new());
    assert_eq!(filter_magnitudes_by_range(&values, 1024, 44100, 4000, 250), Vec::<u32>::new());
    assert_eq!(filter_magnitudes_by_range(&[], 1024, 44100, 0, 250), Vec::<u32>::new());
}

#[test]
fn filter_complex_keeps_the_pairs_of_the_range() {
    let values: Vec<(u32, u32)> = (0..129).map(|i| (i, 1000 + i)).collect();
    let bass = filter_complex_by_range(&values, 256, 8000, 0, 250);
    assert_eq!(bass, (0..8).map(|i| (i, 1000 + i)).collect::<Vec<(u32, u32)>>());
    let treble = filter_complex_by_range(&values, 256, 8000, 4000, 15000);
    assert_eq!(treble, vec![(128, 1128)]);
}
