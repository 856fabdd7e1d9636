//! The triangular filters of the mel filterbank.
//!
//! The band edges of the filters are spaced evenly on the mel scale; the
//! caller maps them to power-spectrum bins.  From those bin points this
//! module builds the filterbank itself, with every weight as an exact ratio.

use crate::config::MfccConfig;
use vstd::prelude::*;

verus! {

/// A filter weight, the exact ratio `num / den`.
#[derive(Debug, Clone, Copy, PartialEq, Eq)]
pub struct Weight {
    /// Numerator.
    pub num: usize,
    /// Denominator, never zero.
    pub den: usize,
}

/// The weight zero.
pub open spec fn zero_weight() -> Weight {
    Weight { num: 0, den: 1 }
}

/// Weight that the triangle over the bins `start`, `center`, `end` gives to
/// `bin`: rising in equal steps from zero at `start` towards one at
/// `center`, falling in equal steps from one at `center` towards zero at
/// `end`, and zero outside `start..end`.
pub open spec fn triangle_weight(start: usize, center: usize, end: usize, bin: usize) -> Weight {
    if start <= bin < center {
        Weight { num: (bin - start) as usize, den: (center - start) as usize }
    } else if center <= bin < end {
        Weight { num: (end - bin) as usize, den: (end - center) as usize }
    } else {
        zero_weight()
    }
}

/// Tells whether `bank` is the filterbank over `bin_points` with
/// `num_fft_bins` columns: filter `i` is the triangle over bin points `i`,
/// `i + 1`, `i + 2`.
pub open spec fn is_filterbank(
    bank: Seq<Vec<Weight>>,
    bin_points: Seq<usize>,
    num_fft_bins: nat,
) -> bool {
    &&& bank.len() + 2 == bin_points.len()
    &&& forall|i: int| 0 <= i < bank.len() ==> (#[trigger] bank[i])@.len() == num_fft_bins
    &&& forall|i: int, j: int|
        0 <= i < bank.len() && 0 <= j < num_fft_bins ==> #[trigger] bank[i]@[j]
            == triangle_weight(
            bin_points[i],
            bin_points[i + 1],
            bin_points[i + 2],
            j as usize,
        )
}

/// A triangle's weights are proper fractions between zero and one.
pub proof fn lemma_weight_is_fraction(start: usize, center: usize, end: usize, bin: usize)
    ensures
        triangle_weight(start, center, end, bin).den > 0,
        triangle_weight(start, center, end, bin).num <= triangle_weight(
            start,
            center,
            end,
            bin,
        ).den,
{
}

/// A triangle is zero at its left bin, one at its center bin, and zero from
/// its right bin on.
pub proof fn lemma_triangle_corners(start: usize, center: usize, end: usize)
    requires
        start < center < end,
    ensures
        triangle_weight(start, center, end, start).num == 0,
        triangle_weight(start, center, end, center).num == triangle_weight(
            start,
            center,
            end,
            center,
        ).den,
        triangle_weight(start, center, end, end) == zero_weight(),
{
}

/// Between the centers of two neighbouring filters, the falling side of the
/// first and the rising side of the second share one denominator and their
/// weights add up to one.
pub proof fn lemma_neighbours_sum_to_one(
    first: usize,
    second: usize,
    third: usize,
    fourth: usize,
    bin: usize,
)
    requires
        second <= bin < third,
    ensures
        triangle_weight(first, second, third, bin).den == triangle_weight(
            second,
            third,
            fourth,
            bin,
        ).den,
        triangle_weight(first, second, third, bin).num + triangle_weight(
            second,
            third,
            fourth,
            bin,
        ).num == triangle_weight(first, second, third, bin).den,
{
}

/// Computes the weight of one bin under one triangle.
pub fn triangle_weight_at(start: usize, center: usize, end: usize, bin: usize) -> (weight: Weight)
    ensures
        weight == triangle_weight(start, center, end, bin),
{
    if start <= bin && bin < center {
        Weight { num: bin - start, den: center - start }
    } else if center <= bin && bin < end {
        Weight { num: end - bin, den: end - center }
    } else {
        Weight { num: 0, den: 1 }
    }
}

/// Builds the filterbank over `bin_points`, one row per filter and one
/// column per power-spectrum bin.
pub fn create_mel_filterbank(config: &MfccConfig, bin_points: &Vec<usize>) -> (bank: Vec<
    Vec<Weight>,
>)
    requires
        bin_points@.len() == config.num_filters + 2,
    ensures
        bank@.len() == config.num_filters,
        is_filterbank(bank@, bin_points@, config.spec_num_fft_bins()),
{
    let num_fft_bins: usize = config.num_fft_bins();
    let num_points: usize = bin_points.len();
    let mut bank: Vec<Vec<Weight>> = Vec::new();
    let mut filter: usize = 0;
    while filter < config.num_filters
        invariant
            num_points == config.num_filters + 2,
            bin_points@.len() == num_points,
            num_fft_bins == config.spec_num_fft_bins(),
            filter <= config.num_filters,
            bank@.len() == filter,
            forall|i: int| 0 <= i < bank@.len() ==> (#[trigger] bank@[i])@.len() == num_fft_bins,
            forall|i: int, j: int|
                0 <= i < bank@.len() && 0 <= j < num_fft_bins ==> #[trigger] bank@[i]@[j]
                    == triangle_weight(
                    bin_points@[i],
                    bin_points@[i + 1],
                    bin_points@[i + 2],
                    j as usize,
                ),
        decreases config.num_filters - filter,
    {
        let start: usize = bin_points[filter];
        let center: usize = bin_points[filter + 1];
        let end: usize = bin_points[filter + 2];
        let mut row: Vec<Weight> = Vec::new();
        let mut bin: usize = 0;
        while bin < num_fft_bins
            invariant
                bin <= num_fft_bins,
                row@.len() == bin,
                forall|j: int|
                    0 <= j < bin ==> #[trigger] row@[j] == triangle_weight(
                        start,
                        center,
                        end,
                        j as usize,
                    ),
            decreases num_fft_bins - bin,
        {
            row.push(triangle_weight_at(start, center, end, bin));
            bin += 1;
        }
        bank.push(row);
        filter += 1;
    }
    bank
}

} // verus!
