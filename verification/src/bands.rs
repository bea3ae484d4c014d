//! The bins of a spectrum and the frequency bands they fall into.
//!
//! Bin `k` of a transform over `block_len` samples taken at `sample_rate`
//! samples a second is centred at `k * sample_rate / block_len` Hz. All
//! comparisons of frequencies are made on integers, without rounding. The
//! values of a spectrum are carried as they are and never looked into.

use vstd::prelude::*;

verus! {

/// One of the three frequency bands whose energy is reported.
#[derive(Clone, Copy, Debug, PartialEq, Eq, Structural)]
pub enum Band {
    /// From 0 Hz up to, not including, 250 Hz.
    Bass,
    /// From 250 Hz up to, not including, 4000 Hz.
    Mid,
    /// From 4000 Hz up to, not including, 15000 Hz.
    Treble,
}

impl Band {
    /// The lowest frequency of the band, in Hz.
    pub open spec fn low_hz(self) -> int {
        match self {
            Band::Bass => 0,
            Band::Mid => 250,
            Band::Treble => 4000,
        }
    }

    /// The frequency at which the band ends, in Hz; it is not part of the band.
    pub open spec fn high_hz(self) -> int {
        match self {
            Band::Bass => 250,
            Band::Mid => 4000,
            Band::Treble => 15000,
        }
    }

    /// Both limits of the band, in Hz.
    pub fn limits(self) -> (r: (u32, u32))
        ensures
            r.0 == self.low_hz(),
            r.1 == self.high_hz(),
    {
        match self {
            Band::Bass => (0, 250),
            Band::Mid => (250, 4000),
            Band::Treble => (4000, 15000),
        }
    }
}

/// The centre frequency of bin `bin` is at least `hz`.
///
/// Bin `bin` of a transform over `block_len` samples taken at
/// `sample_rate` samples a second is centred at
/// `bin * sample_rate / block_len` Hz; the comparison is made exactly, on
/// the cross products.
pub open spec fn bin_reaches(bin: int, hz: int, block_len: int, sample_rate: int) -> bool {
    bin * sample_rate >= hz * block_len
}

/// The centre frequency of bin `bin` lies in the half-open range from
/// `low_hz` to `high_hz`.
pub open spec fn bin_in_range(
    bin: int,
    low_hz: int,
    high_hz: int,
    block_len: int,
    sample_rate: int,
) -> bool {
    bin_reaches(bin, low_hz, block_len, sample_rate) && !bin_reaches(
        bin,
        high_hz,
        block_len,
        sample_rate,
    )
}

/// Among the first `bins` bins, the index of the first whose centre
/// frequency is at least `hz`, or `bins` if there is none.
pub open spec fn first_bin_reaching(hz: int, block_len: int, sample_rate: int, bins: int) -> int {
    if hz * block_len <= 0 {
        0
    } else if sample_rate <= 0 {
        bins
    } else {
        let ceiling = (hz * block_len + sample_rate - 1) / sample_rate;
        if ceiling < bins {
            ceiling
        } else {
            bins
        }
    }
}

/// The bins from `first_bin_reaching` on are those whose centre frequency
/// is at least `hz`, and the bins before it are those below `hz`.
pub proof fn first_bin_reaching_divides(hz: int, block_len: int, sample_rate: int, bins: int)
    requires
        0 <= hz,
        0 <= block_len,
        0 <= sample_rate,
        0 <= bins,
    ensures
        0 <= first_bin_reaching(hz, block_len, sample_rate, bins) <= bins,
        forall|bin: int|
            0 <= bin < bins ==> (#[trigger] bin_reaches(bin, hz, block_len, sample_rate) <==> bin
                >= first_bin_reaching(hz, block_len, sample_rate, bins)),
{
    let target = hz * block_len;
    assert(target >= 0) by (nonlinear_arith)
        requires
            target == hz * block_len,
            0 <= hz,
            0 <= block_len,
    ;
    if target <= 0 {
        assert forall|bin: int| 0 <= bin < bins implies #[trigger] bin_reaches(
            bin,
            hz,
            block_len,
            sample_rate,
        ) by {
            assert(bin * sample_rate >= 0) by (nonlinear_arith)
                requires
                    0 <= bin,
                    0 <= sample_rate,
            ;
        }
    } else if sample_rate <= 0 {
        assert forall|bin: int| 0 <= bin < bins implies !#[trigger] bin_reaches(
            bin,
            hz,
            block_len,
            sample_rate,
        ) by {
            assert(bin * sample_rate == 0) by (nonlinear_arith)
                requires
                    sample_rate == 0,
            ;
        }
    } else {
        let ceiling = (target + sample_rate - 1) / sample_rate;
        assert(ceiling * sample_rate >= target && (ceiling - 1) * sample_rate < target
            && ceiling >= 1) by (nonlinear_arith)
            requires
                target > 0,
                sample_rate > 0,
                ceiling == (target + sample_rate - 1) / sample_rate,
        ;
        assert forall|bin: int| 0 <= bin < bins implies (#[trigger] bin_reaches(
            bin,
            hz,
            block_len,
            sample_rate,
        ) <==> bin >= first_bin_reaching(hz, block_len, sample_rate, bins)) by {
            if bin >= ceiling {
                assert(bin * sample_rate >= ceiling * sample_rate) by (nonlinear_arith)
                    requires
                        bin >= ceiling,
                        sample_rate > 0,
                ;
            } else {
                assert(bin * sample_rate <= (ceiling - 1) * sample_rate) by (nonlinear_arith)
                    requires
                        bin <= ceiling - 1,
                        sample_rate > 0,
                ;
            }
        }
    }
}

/// Finds, among the first `bins` bins of a spectrum, the first whose
/// centre frequency is at least `hz`.
pub fn first_bin_at(hz: u32, block_len: usize, sample_rate: u32, bins: usize) -> (r: usize)
    ensures
        r == first_bin_reaching(hz as int, block_len as int, sample_rate as int, bins as int),
        r <= bins,
{
    proof {
        first_bin_reaching_divides(hz as int, block_len as int, sample_rate as int, bins as int);
    }
    assert(0 <= hz * block_len <= 0xFFFF_FFFF * 0xFFFF_FFFF_FFFF_FFFF) by (nonlinear_arith)
        requires
            0 <= hz <= 0xFFFF_FFFF,
            0 <= block_len <= 0xFFFF_FFFF_FFFF_FFFF,
    ;
    let target: u128 = (hz as u128) * (block_len as u128);
    if target == 0 {
        return 0;
    }
    if sample_rate == 0 {
        return bins;
    }
    let rate: u128 = sample_rate as u128;
    let ceiling: u128 = (target + (rate - 1)) / rate;
    if ceiling < bins as u128 {
        ceiling as usize
    } else {
        bins
    }
}

/// The bins of a band: the index of its first bin and the index just past
/// its last one, among the first `bins` bins of a spectrum.
pub fn band_bins(band: Band, block_len: usize, sample_rate: u32, bins: usize) -> (r: (
    usize,
    usize,
))
    ensures
        r.0 == first_bin_reaching(band.low_hz(), block_len as int, sample_rate as int, bins as int),
        r.1 == first_bin_reaching(
            band.high_hz(),
            block_len as int,
            sample_rate as int,
            bins as int,
        ),
        r.0 <= r.1 <= bins,
        forall|bin: int|
            0 <= bin < bins ==> (r.0 <= bin < r.1 <==> #[trigger] bin_in_range(
                bin,
                band.low_hz(),
                band.high_hz(),
                block_len as int,
                sample_rate as int,
            )),
{
    let (low_hz, high_hz) = band.limits();
    let first = first_bin_at(low_hz, block_len, sample_rate, bins);
    let end = first_bin_at(high_hz, block_len, sample_rate, bins);
    proof {
        first_bin_is_monotone(
            low_hz as int,
            high_hz as int,
            block_len as int,
            sample_rate as int,
            bins as int,
        );
        first_bin_reaching_divides(
            low_hz as int,
            block_len as int,
            sample_rate as int,
            bins as int,
        );
        first_bin_reaching_divides(
            high_hz as int,
            block_len as int,
            sample_rate as int,
            bins as int,
        );
    }
    (first, end)
}

/// A higher frequency is first reached at the same bin or at a later one.
pub proof fn first_bin_is_monotone(
    low_hz: int,
    high_hz: int,
    block_len: int,
    sample_rate: int,
    bins: int,
)
    requires
        0 <= low_hz <= high_hz,
        0 <= block_len,
        0 <= sample_rate,
        0 <= bins,
    ensures
        first_bin_reaching(low_hz, block_len, sample_rate, bins) <= first_bin_reaching(
            high_hz,
            block_len,
            sample_rate,
            bins,
        ),
{
    first_bin_reaching_divides(low_hz, block_len, sample_rate, bins);
    first_bin_reaching_divides(high_hz, block_len, sample_rate, bins);
    let low = first_bin_reaching(low_hz, block_len, sample_rate, bins);
    let high = first_bin_reaching(high_hz, block_len, sample_rate, bins);
    if high < low {
        assert(bin_reaches(high, high_hz, block_len, sample_rate));
        assert(!bin_reaches(high, low_hz, block_len, sample_rate));
        assert(low_hz * block_len <= high_hz * block_len) by (nonlinear_arith)
            requires
                low_hz <= high_hz,
                0 <= block_len,
        ;
    }
}

/// The values of a spectrum whose bins lie in the half-open frequency
/// range from `low_hz` to `high_hz`; they are consecutive.
pub open spec fn values_in_range<T>(
    values: Seq<T>,
    low_hz: int,
    high_hz: int,
    block_len: int,
    sample_rate: int,
) -> Seq<T> {
    let first = first_bin_reaching(low_hz, block_len, sample_rate, values.len() as int);
    let end = first_bin_reaching(high_hz, block_len, sample_rate, values.len() as int);
    if first <= end {
        values.subrange(first, end)
    } else {
        Seq::empty()
    }
}

/// What the filter keeps is what the range holds: every value kept is the
/// value of a bin in the range, in the order of the bins, and every bin in
/// the range has its value kept.
pub proof fn values_in_range_are_the_bins_in_range<T>(
    values: Seq<T>,
    low_hz: int,
    high_hz: int,
    block_len: int,
    sample_rate: int,
)
    requires
        0 <= low_hz,
        0 <= high_hz,
        0 <= block_len,
        0 <= sample_rate,
    ensures
        ({
            let kept = values_in_range(values, low_hz, high_hz, block_len, sample_rate);
            let first = first_bin_reaching(low_hz, block_len, sample_rate, values.len() as int);
            &&& forall|j: int|
                0 <= j < kept.len() ==> 0 <= first + j < values.len() && #[trigger] kept[j]
                    == values[first + j] && bin_in_range(
                    first + j,
                    low_hz,
                    high_hz,
                    block_len,
                    sample_rate,
                )
            &&& forall|bin: int|
                0 <= bin < values.len() && #[trigger] bin_in_range(
                    bin,
                    low_hz,
                    high_hz,
                    block_len,
                    sample_rate,
                ) ==> first <= bin < first + kept.len()
        }),
{
    first_bin_reaching_divides(low_hz, block_len, sample_rate, values.len() as int);
    first_bin_reaching_divides(high_hz, block_len, sample_rate, values.len() as int);
    let kept = values_in_range(values, low_hz, high_hz, block_len, sample_rate);
    let first = first_bin_reaching(low_hz, block_len, sample_rate, values.len() as int);
    assert forall|j: int| 0 <= j < kept.len() implies 0 <= first + j < values.len()
        && #[trigger] kept[j] == values[first + j] && bin_in_range(
        first + j,
        low_hz,
        high_hz,
        block_len,
        sample_rate,
    ) by {
        assert(bin_reaches(first + j, low_hz, block_len, sample_rate));
        assert(!bin_reaches(first + j, high_hz, block_len, sample_rate));
    }
}

/// The three bands lie side by side: a bin whose centre frequency is below
/// 15000 Hz is in exactly one of them, and a bin at or above 15000 Hz is in
/// none.
pub proof fn bands_partition(bin: int, block_len: int, sample_rate: int)
    requires
        0 <= bin,
        0 <= block_len,
        0 <= sample_rate,
    ensures
        bin_reaches(bin, 15000, block_len, sample_rate) ==> forall|band: Band|
            !#[trigger] bin_in_range(
                bin,
                band.low_hz(),
                band.high_hz(),
                block_len,
                sample_rate,
            ),
        !bin_reaches(bin, 15000, block_len, sample_rate) ==> exists|band: Band|
            #[trigger] bin_in_range(
                bin,
                band.low_hz(),
                band.high_hz(),
                block_len,
                sample_rate,
            ) && forall|other: Band|
                other != band ==> !#[trigger] bin_in_range(
                    bin,
                    other.low_hz(),
                    other.high_hz(),
                    block_len,
                    sample_rate,
                ),
{
    assert(0 * block_len <= bin * sample_rate) by (nonlinear_arith)
        requires
            0 <= bin,
            0 <= sample_rate,
    ;
    assert(250 * block_len <= 4000 * block_len <= 15000 * block_len) by (nonlinear_arith)
        requires
            0 <= block_len,
    ;
    if !bin_reaches(bin, 15000, block_len, sample_rate) {
        let band = if !bin_reaches(bin, 250, block_len, sample_rate) {
            Band::Bass
        } else if !bin_reaches(bin, 4000, block_len, sample_rate) {
            Band::Mid
        } else {
            Band::Treble
        };
        assert(bin_in_range(bin, band.low_hz(), band.high_hz(), block_len, sample_rate));
        assert forall|other: Band| other != band implies !#[trigger] bin_in_range(
            bin,
            other.low_hz(),
            other.high_hz(),
            block_len,
            sample_rate,
        ) by {}
    } else {
        assert forall|band: Band|
            !#[trigger] bin_in_range(
                bin,
                band.low_hz(),
                band.high_hz(),
                block_len,
                sample_rate,
            ) by {}
    }
}

/// Copies the values between two indices.
fn copy_range<T: Copy>(values: &[T], first: usize, end: usize) -> (r: Vec<T>)
    requires
        first <= end <= values@.len(),
    ensures
        r@ == values@.subrange(first as int, end as int),
{
    let mut out: Vec<T> = Vec::new();
    let mut i: usize = first;
    while i < end
        invariant
            first <= i <= end <= values@.len(),
            out@ == values@.subrange(first as int, i as int),
        decreases end - i,
    {
        out.push(values[i]);
        assert(out@ =~= values@.subrange(first as int, i + 1));
        i += 1;
    }
    out
}

/// Copies the values of a spectrum whose bins lie in a frequency range.
fn filter_by_range<T: Copy>(
    values: &[T],
    block_len: usize,
    sample_rate: u32,
    low_hz: u32,
    high_hz: u32,
) -> (r: Vec<T>)
    ensures
        r@ == values_in_range(
            values@,
            low_hz as int,
            high_hz as int,
            block_len as int,
            sample_rate as int,
        ),
{
    let bins: usize = values.len();
    let first = first_bin_at(low_hz, block_len, sample_rate, bins);
    let end = first_bin_at(high_hz, block_len, sample_rate, bins);
    if first <= end {
        copy_range(values, first, end)
    } else {
        Vec::new()
    }
}

/// Keeps the magnitudes whose bins lie in the half-open frequency range
/// from `low_hz` to `high_hz`, in their order.
pub fn filter_magnitudes_by_range(
    spec_values: &[u32],
    block_len: usize,
    sample_rate: u32,
    low_hz: u32,
    high_hz: u32,
) -> (r: Vec<u32>)
    ensures
        r@ == values_in_range(
            spec_values@,
            low_hz as int,
            high_hz as int,
            block_len as int,
            sample_rate as int,
        ),
{
    filter_by_range(spec_values, block_len, sample_rate, low_hz, high_hz)
}

/// Keeps the complex values, each a pair of real and imaginary part, whose
/// bins lie in the half-open frequency range from `low_hz` to `high_hz`, in
/// their order.
pub fn filter_complex_by_range(
    spec_values: &[(u32, u32)],
    block_len: usize,
    sample_rate: u32,
    low_hz: u32,
    high_hz: u32,
) -> (r: Vec<(u32, u32)>)
    ensures
        r@ == values_in_range(
            spec_values@,
            low_hz as int,
            high_hz as int,
            block_len as int,
            sample_rate as int,
        ),
{
    filter_by_range(spec_values, block_len, sample_rate, low_hz, high_hz)
}

} // verus!
