//! Mapping of a spectrum onto a row of display bars.
//!
//! A spectrum is a sequence of levels, one per frequency bin from low to
//! high, each in thousandths of a decibel relative to full scale. The second
//! half of the bars selects the same bins as the first half, so the row shows
//! the same pattern twice.

use vstd::prelude::*;
use crate::scale::{
    map_range, map_range_spec, lemma_map_range_bounds, MAX_DECIBEL, MAX_DISPLAY_HEIGHT,
    MIN_BAR_HEIGHT, MIN_DECIBEL,
};

verus! {

/// Level of a bin that holds no energy at all.
pub const SILENCE: i32 = i32::MIN;

/// Number of bars that select a bin of their own: half of `bar_count`, rounded up.
pub open spec fn half_bars(bar_count: int) -> int {
    (bar_count + 1) / 2
}

/// Distance between the bins that neighbouring bars select.
pub open spec fn stride(total_bins: int, bar_count: int) -> int {
    total_bins / half_bars(bar_count)
}

/// Bin that bar `i` of `bar_count` shows, out of `total_bins` bins.
pub open spec fn source_bin(i: int, total_bins: int, bar_count: int) -> int {
    let idx = (i % half_bars(bar_count)) * stride(total_bins, bar_count);
    if idx < total_bins - 1 {
        idx
    } else {
        total_bins - 1
    }
}

/// `level` held to the range of levels that are told apart.
pub open spec fn clamp_level(level: int) -> int {
    if level < MIN_DECIBEL {
        MIN_DECIBEL as int
    } else if level > MAX_DECIBEL {
        MAX_DECIBEL as int
    } else {
        level
    }
}

/// Height of a bar that shows `level`: the clamped level, carried linearly
/// from the range of levels to the range of heights.
pub open spec fn height_of_level(level: int) -> int {
    map_range_spec(
        clamp_level(level),
        MIN_DECIBEL as int,
        MAX_DECIBEL as int,
        MIN_BAR_HEIGHT as int,
        MAX_DISPLAY_HEIGHT as int,
    )
}

/// Height of bar `i` of `bar_count` for the spectrum `levels`. An empty
/// spectrum leaves every bar at rest.
pub open spec fn bar_at(levels: Seq<i32>, bar_count: int, i: int) -> int {
    if levels.len() == 0 {
        MIN_BAR_HEIGHT as int
    } else {
        height_of_level(levels[source_bin(i, levels.len() as int, bar_count)] as int)
    }
}

/// The row of `bar_count` bars for the spectrum `levels`.
pub open spec fn bars_of(levels: Seq<i32>, bar_count: nat) -> Seq<u32> {
    Seq::new(bar_count, |i: int| bar_at(levels, bar_count as int, i) as u32)
}

/// Every height lies between the height at rest and the display ceiling.
pub open spec fn heights_in_range(bars: Seq<u32>) -> bool {
    forall|i: int| 0 <= i < bars.len() ==> MIN_BAR_HEIGHT <= #[trigger] bars[i] <= MAX_DISPLAY_HEIGHT
}

/// The bin that a bar selects exists, and the product that leads to it is
/// no larger than the number of bins.
pub proof fn lemma_source_bin_bounds(i: int, total_bins: int, bar_count: int)
    requires
        0 <= i < bar_count,
        0 < total_bins,
    ensures
        0 < half_bars(bar_count),
        0 <= i % half_bars(bar_count) < half_bars(bar_count),
        0 <= (i % half_bars(bar_count)) * stride(total_bins, bar_count) <= total_bins,
        0 <= source_bin(i, total_bins, bar_count) < total_bins,
{
    let h = half_bars(bar_count);
    let s = stride(total_bins, bar_count);
    let r = i % h;
    assert(0 <= s && h * s <= total_bins) by (nonlinear_arith)
        requires
            0 < h,
            0 < total_bins,
            s == total_bins / h,
    ;
    assert(0 <= r * s <= h * s) by (nonlinear_arith)
        requires
            0 <= r < h,
            0 <= s,
    ;
}

/// The height for any level lies between the height at rest and the display
/// ceiling; a level at or below the floor gives the height at rest, one at or
/// above the ceiling the full height.
pub proof fn lemma_height_of_level_bounds(level: int)
    ensures
        MIN_BAR_HEIGHT <= height_of_level(level) <= MAX_DISPLAY_HEIGHT,
        level <= MIN_DECIBEL ==> height_of_level(level) == MIN_BAR_HEIGHT,
        level >= MAX_DECIBEL ==> height_of_level(level) == MAX_DISPLAY_HEIGHT,
{
    lemma_map_range_bounds(
        clamp_level(level),
        MIN_DECIBEL as int,
        MAX_DECIBEL as int,
        MIN_BAR_HEIGHT as int,
        MAX_DISPLAY_HEIGHT as int,
    );
}

/// A louder bin never gives a lower bar.
pub proof fn lemma_height_of_level_monotone(a: int, b: int)
    requires
        a <= b,
    ensures
        height_of_level(a) <= height_of_level(b),
{
    let x = clamp_level(a) - MIN_DECIBEL;
    let y = clamp_level(b) - MIN_DECIBEL;
    let w = MAX_DISPLAY_HEIGHT - MIN_BAR_HEIGHT;
    let r = MAX_DECIBEL - MIN_DECIBEL;
    assert(x * w <= y * w) by (nonlinear_arith)
        requires
            x <= y,
            0 <= w,
    ;
    assert((x * w) / r <= (y * w) / r) by (nonlinear_arith)
        requires
            x * w <= y * w,
            0 < r,
    ;
}

/// The row has `bar_count` bars, each between the height at rest and the
/// display ceiling.
pub proof fn lemma_bars_in_range(levels: Seq<i32>, bar_count: nat)
    ensures
        bars_of(levels, bar_count).len() == bar_count,
        heights_in_range(bars_of(levels, bar_count)),
        forall|i: int|
            0 <= i < bar_count ==> #[trigger] bars_of(levels, bar_count)[i] == bar_at(
                levels,
                bar_count as int,
                i,
            ),
{
    assert forall|i: int| 0 <= i < bar_count implies MIN_BAR_HEIGHT <= #[trigger] bar_at(
        levels,
        bar_count as int,
        i,
    ) <= MAX_DISPLAY_HEIGHT by {
        if levels.len() > 0 {
            lemma_height_of_level_bounds(
                levels[source_bin(i, levels.len() as int, bar_count as int)] as int,
            );
        }
    }
}

/// Mirroring: bar `i` has the height of bar `i mod half_bars`, whatever the
/// parity of `bar_count`. For the bars of the second half this is the bar
/// that lies `half_bars` places before it.
pub proof fn lemma_bars_mirrored(levels: Seq<i32>, bar_count: nat, i: int)
    requires
        0 <= i < bar_count,
    ensures
        0 <= i % half_bars(bar_count as int) < bar_count,
        i >= half_bars(bar_count as int) ==> i % half_bars(bar_count as int) == i - half_bars(
            bar_count as int,
        ),
        bars_of(levels, bar_count)[i] == bars_of(levels, bar_count)[i % half_bars(
            bar_count as int,
        )],
{
    let h = half_bars(bar_count as int);
    let j = i % h;
    assert(0 < h <= bar_count);
    assert(j % h == j) by (nonlinear_arith)
        requires
            0 < h,
            j == i % h,
    ;
    if i >= h {
        assert(i - h < h);
        assert(i % h == i - h) by (nonlinear_arith)
            requires
                0 < h,
                h <= i < 2 * h,
        ;
    }
    assert(source_bin(j, levels.len() as int, bar_count as int) == source_bin(
        i,
        levels.len() as int,
        bar_count as int,
    ));
}

/// The mapping has no hidden state: spectra that hold the same levels give
/// the same row of bars.
pub proof fn lemma_bars_deterministic(first: Seq<i32>, second: Seq<i32>, bar_count: nat)
    requires
        first.len() == second.len(),
        forall|k: int| 0 <= k < first.len() ==> first[k] == second[k],
    ensures
        bars_of(first, bar_count) == bars_of(second, bar_count),
{
    assert(first =~= second);
}

/// A spectrum without energy above the floor leaves every bar at rest.
pub proof fn lemma_bars_of_silence(levels: Seq<i32>, bar_count: nat)
    requires
        forall|k: int| 0 <= k < levels.len() ==> levels[k] <= MIN_DECIBEL,
    ensures
        forall|i: int| 0 <= i < bar_count ==> #[trigger] bars_of(levels, bar_count)[i] == MIN_BAR_HEIGHT,
{
    assert forall|i: int| 0 <= i < bar_count implies #[trigger] bars_of(levels, bar_count)[i]
        == MIN_BAR_HEIGHT by {
        if levels.len() > 0 {
            lemma_source_bin_bounds(i, levels.len() as int, bar_count as int);
            lemma_height_of_level_bounds(
                levels[source_bin(i, levels.len() as int, bar_count as int)] as int,
            );
        }
    }
}

/// Height of a bar that shows `level`.
pub fn level_to_height(level: i32) -> (height: u32)
    ensures
        height == height_of_level(level as int),
        MIN_BAR_HEIGHT <= height <= MAX_DISPLAY_HEIGHT,
{
    proof {
        lemma_height_of_level_bounds(level as int);
    }
    let db: i32 = if level < MIN_DECIBEL {
        MIN_DECIBEL
    } else if level > MAX_DECIBEL {
        MAX_DECIBEL
    } else {
        level
    };
    map_range(db, MIN_DECIBEL, MAX_DECIBEL, MIN_BAR_HEIGHT, MAX_DISPLAY_HEIGHT)
}

/// Reduces a spectrum to `bar_count` bar heights.
pub fn group_frequencies_into_bars(levels: &Vec<i32>, bar_count: usize) -> (bars: Vec<u32>)
    ensures
        bars@ == bars_of(levels@, bar_count as nat),
        bars@.len() == bar_count,
        heights_in_range(bars@),
{
    let total_bins: usize = levels.len();
    let half: usize = bar_count / 2 + bar_count % 2;
    let mut bars: Vec<u32> = Vec::new();
    let mut i: usize = 0;
    while i < bar_count
        invariant
            0 <= i <= bar_count,
            total_bins == levels@.len(),
            half == half_bars(bar_count as int),
            bars@.len() == i,
            forall|k: int| 0 <= k < i ==> #[trigger] bars@[k] == bar_at(levels@, bar_count as int, k),
        decreases bar_count - i,
    {
        let height: u32 = if total_bins == 0 {
            MIN_BAR_HEIGHT
        } else {
            proof {
                lemma_source_bin_bounds(i as int, total_bins as int, bar_count as int);
            }
            let interval: usize = total_bins / half;
            let product: usize = (i % half) * interval;
            let idx: usize = if product < total_bins - 1 {
                product
            } else {
                total_bins - 1
            };
            level_to_height(levels[idx])
        };
        bars.push(height);
        i = i + 1;
    }
    proof {
        lemma_bars_in_range(levels@, bar_count as nat);
        assert(bars@ =~= bars_of(levels@, bar_count as nat));
    }
    bars
}

} // verus!
