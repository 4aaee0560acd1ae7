//! The integer part of waveform analysis: how a buffer of samples is cut into
//! the bins that the visualizer shows. Each bin is later reduced to its peak
//! amplitude; that reduction, the RMS and the clipping test work on floating
//! point samples and are done by the application.

use vstd::prelude::*;

verus! {

/// Number of bins in each frame sent to the visualizer.
pub const WAVEFORM_BINS: usize = 64;

/// Samples per bin: the buffer length divided by the bin count, rounded down.
pub open spec fn bin_width(sample_count: nat, target_bins: nat) -> nat {
    if target_bins == 0 {
        0
    } else {
        sample_count / target_bins
    }
}

/// Half-open sample range `[start, end)` of bin `i`. Bins are consecutive
/// slices of `bin_width` samples from the start of the buffer; the samples
/// left over after the last bin are not shown. When the buffer is shorter
/// than the bin count (or empty) every bin is the empty range `[0, 0)` and
/// shows as silence.
pub open spec fn bin_bounds(sample_count: nat, target_bins: nat, i: nat) -> (nat, nat) {
    let w = bin_width(sample_count, target_bins);
    if w == 0 {
        (0, 0)
    } else {
        (i * w, (i + 1) * w)
    }
}

proof fn lemma_bin_end_fits(sample_count: nat, target_bins: nat, i: nat)
    requires
        i < target_bins,
    ensures
        (i + 1) * bin_width(sample_count, target_bins) <= sample_count,
{
    let w = bin_width(sample_count, target_bins);
    assert(target_bins * (sample_count / target_bins) <= sample_count) by (nonlinear_arith)
        requires
            target_bins > 0,
    ;
    assert((i + 1) * w <= target_bins * w) by (nonlinear_arith)
        requires
            i < target_bins,
    ;
}

/// The sample range of each of the `target_bins` bins of a buffer of
/// `sample_count` samples. A buffer with samples needs at least one bin.
pub fn downsample_bins(sample_count: usize, target_bins: usize) -> (bins: Vec<(usize, usize)>)
    requires
        sample_count > 0 ==> target_bins > 0,
    ensures
        bins.len() == target_bins,
        forall|i: int|
            0 <= i < target_bins ==> (bins[i].0 as nat, bins[i].1 as nat) == bin_bounds(
                sample_count as nat,
                target_bins as nat,
                i as nat,
            ),
{
    let width: usize = if target_bins == 0 {
        0
    } else {
        sample_count / target_bins
    };
    let mut bins: Vec<(usize, usize)> = Vec::new();
    let mut start: usize = 0;
    let mut i: usize = 0;
    while i < target_bins
        invariant
            width == bin_width(sample_count as nat, target_bins as nat),
            i <= target_bins,
            bins.len() == i,
            start == i * width,
            forall|j: int|
                0 <= j < i ==> (bins[j].0 as nat, bins[j].1 as nat) == bin_bounds(
                    sample_count as nat,
                    target_bins as nat,
                    j as nat,
                ),
        decreases target_bins - i,
    {
        proof {
            lemma_bin_end_fits(sample_count as nat, target_bins as nat, i as nat);
            assert((i + 1) * width == i * width + width) by (nonlinear_arith);
        }
        if width == 0 {
            bins.push((0, 0));
        } else {
            bins.push((start, start + width));
        }
        start = start + width;
        i = i + 1;
    }
    bins
}

/// The bins tile a prefix of the buffer: each lies inside it, each ends where
/// the next begins, all have the same width, and fewer samples than there are
/// bins are left over after the last one.
pub proof fn downsample_bins_tile_buffer(sample_count: nat, target_bins: nat)
    requires
        target_bins > 0,
        sample_count >= target_bins,
    ensures
        forall|i: nat|
            i < target_bins ==> #[trigger] bin_bounds(sample_count, target_bins, i).1
                <= sample_count,
        forall|i: nat|
            i < target_bins ==> #[trigger] bin_bounds(sample_count, target_bins, i).1
                - bin_bounds(sample_count, target_bins, i).0 == bin_width(
                sample_count,
                target_bins,
            ),
        forall|i: nat|
            i + 1 < target_bins ==> #[trigger] bin_bounds(sample_count, target_bins, i).1
                == bin_bounds(sample_count, target_bins, i + 1).0,
        bin_bounds(sample_count, target_bins, 0).0 == 0,
        sample_count - bin_bounds(sample_count, target_bins, (target_bins - 1) as nat).1
            < target_bins,
{
    let w = bin_width(sample_count, target_bins);
    assert(w >= 1) by (nonlinear_arith)
        requires
            w == sample_count / target_bins,
            sample_count >= target_bins,
            target_bins > 0,
    ;
    assert forall|i: nat| i < target_bins implies #[trigger] bin_bounds(
        sample_count,
        target_bins,
        i,
    ).1 <= sample_count by {
        lemma_bin_end_fits(sample_count, target_bins, i);
    }
    assert forall|i: nat| i < target_bins implies #[trigger] bin_bounds(
        sample_count,
        target_bins,
        i,
    ).1 - bin_bounds(sample_count, target_bins, i).0 == w by {
        assert((i + 1) * w == i * w + w) by (nonlinear_arith);
    }
    let last = (target_bins - 1) as nat;
    assert((last + 1) * w == target_bins * w);
    assert(sample_count - target_bins * (sample_count / target_bins) < target_bins)
        by (nonlinear_arith)
        requires
            target_bins > 0,
    ;
}

} // verus!
