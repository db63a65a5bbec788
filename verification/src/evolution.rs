//! How a row of bars moves from one tick to the next: towards a target row
//! while audio arrives, down to the height at rest while it does not.

use vstd::prelude::*;
use crate::bars::heights_in_range;
use crate::scale::{MAX_DISPLAY_HEIGHT, MIN_BAR_HEIGHT};

verus! {

/// Share of the old height that survives a smoothing step, in thousandths (0.2).
pub const SMOOTHING: u32 = 200;

/// What a bar loses per tick while it decays, in thousandths of a display unit (8.0).
pub const DECAY_STEP: u32 = 8_000;

/// Ticks after which a row of bars that gets the same target again and again
/// has reached it.
pub const SETTLE_TICKS: u32 = 8;

/// Ticks after which a decaying row of bars is at rest.
pub const DECAY_TICKS: u32 = 19;

/// Weighted mean of the old height and the target, rounded to the nearest
/// thousandth.
pub open spec fn smooth_height(height: int, target: int) -> int {
    (height * SMOOTHING + target * (1000 - SMOOTHING) + 500) / 1000
}

/// Distance between two heights.
pub open spec fn distance(a: int, b: int) -> int {
    if a <= b {
        b - a
    } else {
        a - b
    }
}

/// The height after `ticks` smoothing steps towards the same target.
pub open spec fn smooth_repeated(height: int, target: int, ticks: nat) -> int
    decreases ticks,
{
    if ticks == 0 {
        height
    } else {
        smooth_height(smooth_repeated(height, target, (ticks - 1) as nat), target)
    }
}

/// Five to the power `n`.
pub open spec fn pow5(n: nat) -> int
    decreases n,
{
    if n == 0 {
        1
    } else {
        5 * pow5((n - 1) as nat)
    }
}

/// A row after one smoothing step towards `target`. Bars without a target
/// keep their height.
pub open spec fn smooth_bars(bars: Seq<u32>, target: Seq<u32>) -> Seq<u32> {
    Seq::new(
        bars.len(),
        |i: int|
            if i < target.len() {
                smooth_height(bars[i] as int, target[i] as int) as u32
            } else {
                bars[i]
            },
    )
}

/// A row after `ticks` smoothing steps towards the same target.
pub open spec fn smooth_bars_repeated(bars: Seq<u32>, target: Seq<u32>, ticks: nat) -> Seq<u32>
    decreases ticks,
{
    if ticks == 0 {
        bars
    } else {
        smooth_bars(smooth_bars_repeated(bars, target, (ticks - 1) as nat), target)
    }
}

/// The height after one tick of decay: lower by the decay step, but not
/// below the height at rest.
pub open spec fn decay_height(height: int) -> int {
    if height - DECAY_STEP > MIN_BAR_HEIGHT {
        height - DECAY_STEP
    } else {
        MIN_BAR_HEIGHT as int
    }
}

/// A row after one tick of decay.
pub open spec fn decay_bars(bars: Seq<u32>) -> Seq<u32> {
    Seq::new(bars.len(), |i: int| decay_height(bars[i] as int) as u32)
}

/// A row after `ticks` ticks of decay.
pub open spec fn decay_bars_repeated(bars: Seq<u32>, ticks: nat) -> Seq<u32>
    decreases ticks,
{
    if ticks == 0 {
        bars
    } else {
        decay_bars(decay_bars_repeated(bars, (ticks - 1) as nat))
    }
}

/// Some bar stands above the height at rest.
pub open spec fn any_above_rest(bars: Seq<u32>) -> bool {
    exists|i: int| 0 <= i < bars.len() && #[trigger] bars[i] > MIN_BAR_HEIGHT
}

/// Every bar stands at the height at rest.
pub open spec fn all_at_rest(bars: Seq<u32>) -> bool {
    forall|i: int| 0 <= i < bars.len() ==> #[trigger] bars[i] == MIN_BAR_HEIGHT
}

/// One smoothing step leaves the height between the old height and the
/// target, on the side of the target where it was, keeps a height that has
/// reached the target there, and brings the rest to a fifth of their
/// distance, up to rounding.
pub proof fn lemma_smooth_height_contracts(height: int, target: int)
    ensures
        height <= target ==> height <= smooth_height(height, target) <= target,
        height >= target ==> target <= smooth_height(height, target) <= height,
        5 * distance(smooth_height(height, target), target) <= distance(height, target) + 2,
        height != target ==> distance(smooth_height(height, target), target) < distance(
            height,
            target,
        ),
{
}

/// After `ticks` smoothing steps towards the same target, the distance to
/// the target, times `5^ticks`, is at most the first distance plus half of
/// `5^ticks`.
pub proof fn lemma_smooth_repeated_converges(height: int, target: int, ticks: nat)
    ensures
        pow5(ticks) >= 1,
        2 * pow5(ticks) * distance(smooth_repeated(height, target, ticks), target) <= 2
            * distance(height, target) + pow5(ticks) - 1,
        distance(smooth_repeated(height, target, ticks), target) <= distance(height, target),
    decreases ticks,
{
    if ticks > 0 {
        let before = smooth_repeated(height, target, (ticks - 1) as nat);
        lemma_smooth_repeated_converges(height, target, (ticks - 1) as nat);
        lemma_smooth_height_contracts(before, target);
        let p = pow5((ticks - 1) as nat);
        let e0 = distance(height, target);
        let e1 = distance(before, target);
        let e2 = distance(smooth_repeated(height, target, ticks), target);
        assert(2 * (5 * p) * e2 <= 2 * e0 + 5 * p - 1) by (nonlinear_arith)
            requires
                p >= 1,
                2 * p * e1 <= 2 * e0 + p - 1,
                5 * e2 <= e1 + 2,
                e2 >= 0,
        ;
    }
}

/// Smoothing converges: from any height on the display, `SETTLE_TICKS`
/// steps towards the same target on the display end exactly on the target,
/// and further steps stay there.
pub proof fn lemma_smooth_repeated_settles(height: int, target: int, ticks: nat)
    requires
        MIN_BAR_HEIGHT <= height <= MAX_DISPLAY_HEIGHT,
        MIN_BAR_HEIGHT <= target <= MAX_DISPLAY_HEIGHT,
        ticks >= SETTLE_TICKS,
    ensures
        smooth_repeated(height, target, ticks) == target,
    decreases ticks,
{
    if ticks == SETTLE_TICKS {
        lemma_smooth_repeated_converges(height, target, ticks);
        assert(pow5(8) == 390625) by {
            reveal_with_fuel(pow5, 9);
        }
        let e = distance(smooth_repeated(height, target, ticks), target);
        assert(e == 0) by (nonlinear_arith)
            requires
                2 * 390625 * e <= 2 * 146000 + 390625 - 1,
                e >= 0,
        ;
    } else {
        lemma_smooth_repeated_settles(height, target, (ticks - 1) as nat);
    }
}

/// Smoothed rows keep their length, and each bar follows `smooth_repeated`
/// on its own.
pub proof fn lemma_smooth_bars_repeated_pointwise(bars: Seq<u32>, target: Seq<u32>, ticks: nat)
    requires
        bars.len() == target.len(),
        heights_in_range(bars),
        heights_in_range(target),
    ensures
        smooth_bars_repeated(bars, target, ticks).len() == bars.len(),
        heights_in_range(smooth_bars_repeated(bars, target, ticks)),
        forall|i: int|
            0 <= i < bars.len() ==> #[trigger] smooth_bars_repeated(bars, target, ticks)[i]
                == smooth_repeated(bars[i] as int, target[i] as int, ticks),
    decreases ticks,
{
    if ticks > 0 {
        let before = smooth_bars_repeated(bars, target, (ticks - 1) as nat);
        lemma_smooth_bars_repeated_pointwise(bars, target, (ticks - 1) as nat);
        assert forall|i: int| 0 <= i < bars.len() implies MIN_BAR_HEIGHT <= smooth_height(
            #[trigger] before[i] as int,
            target[i] as int,
        ) <= MAX_DISPLAY_HEIGHT by {
            lemma_smooth_height_contracts(before[i] as int, target[i] as int);
        }
    }
}

/// Smoothing convergence for rows: a row on the display that gets the same
/// target row for `SETTLE_TICKS` ticks or more equals the target.
pub proof fn lemma_smooth_bars_settle(bars: Seq<u32>, target: Seq<u32>, ticks: nat)
    requires
        bars.len() == target.len(),
        heights_in_range(bars),
        heights_in_range(target),
        ticks >= SETTLE_TICKS,
    ensures
        smooth_bars_repeated(bars, target, ticks) == target,
{
    lemma_smooth_bars_repeated_pointwise(bars, target, ticks);
    assert forall|i: int| 0 <= i < bars.len() implies smooth_bars_repeated(bars, target, ticks)[i]
        == target[i] by {
        lemma_smooth_repeated_settles(bars[i] as int, target[i] as int, ticks);
    }
    assert(smooth_bars_repeated(bars, target, ticks) =~= target);
}

/// Decay is monotone: a tick of decay raises no bar that stands at or above
/// the height at rest, keeps the row on the display, and lowers every bar
/// by the decay step or to the height at rest.
pub proof fn lemma_decay_bars_pointwise(bars: Seq<u32>)
    requires
        heights_in_range(bars),
    ensures
        decay_bars(bars).len() == bars.len(),
        heights_in_range(decay_bars(bars)),
        forall|i: int| 0 <= i < bars.len() ==> #[trigger] decay_bars(bars)[i] <= bars[i],
        forall|i: int|
            0 <= i < bars.len() ==> #[trigger] decay_bars(bars)[i] == decay_height(bars[i] as int),
        any_above_rest(bars) ==> decay_bars(bars) != bars,
        all_at_rest(bars) ==> decay_bars(bars) == bars,
{
    if any_above_rest(bars) {
        let i = choose|i: int| 0 <= i < bars.len() && #[trigger] bars[i] > MIN_BAR_HEIGHT;
        assert(decay_bars(bars)[i] < bars[i]);
    }
    if all_at_rest(bars) {
        assert(decay_bars(bars) =~= bars);
    }
}

/// After `ticks` ticks of decay each bar has lost `ticks` decay steps, or
/// stands at the height at rest; no tick raised it.
pub proof fn lemma_decay_bars_repeated_pointwise(bars: Seq<u32>, ticks: nat)
    requires
        heights_in_range(bars),
    ensures
        decay_bars_repeated(bars, ticks).len() == bars.len(),
        heights_in_range(decay_bars_repeated(bars, ticks)),
        forall|i: int|
            0 <= i < bars.len() ==> #[trigger] decay_bars_repeated(bars, ticks)[i] == (if bars[i]
                - ticks * DECAY_STEP > MIN_BAR_HEIGHT {
                bars[i] - ticks * DECAY_STEP
            } else {
                MIN_BAR_HEIGHT as int
            }),
        ticks > 0 ==> forall|i: int|
            0 <= i < bars.len() ==> #[trigger] decay_bars_repeated(bars, ticks)[i]
                <= decay_bars_repeated(bars, (ticks - 1) as nat)[i],
    decreases ticks,
{
    if ticks > 0 {
        let before = decay_bars_repeated(bars, (ticks - 1) as nat);
        lemma_decay_bars_repeated_pointwise(bars, (ticks - 1) as nat);
        lemma_decay_bars_pointwise(before);
        assert(ticks * DECAY_STEP == (ticks - 1) * DECAY_STEP + DECAY_STEP) by (nonlinear_arith);
    }
}

/// Decay ends: a row on the display is at rest after `DECAY_TICKS` ticks of
/// decay, and stays at rest.
pub proof fn lemma_decay_bars_reach_rest(bars: Seq<u32>, ticks: nat)
    requires
        heights_in_range(bars),
        ticks >= DECAY_TICKS,
    ensures
        all_at_rest(decay_bars_repeated(bars, ticks)),
        !any_above_rest(decay_bars_repeated(bars, ticks)),
{
    lemma_decay_bars_repeated_pointwise(bars, ticks);
    assert(ticks * DECAY_STEP >= 19 * 8000) by (nonlinear_arith)
        requires
            ticks >= 19,
            DECAY_STEP == 8000,
    ;
}

/// Moves every bar one smoothing step towards the bar of `target` at the
/// same place.
pub fn smooth_towards(bars: &mut Vec<u32>, target: &Vec<u32>)
    ensures
        final(bars)@ == smooth_bars(old(bars)@, target@),
        final(bars)@.len() == old(bars)@.len(),
        heights_in_range(old(bars)@) && heights_in_range(target@) ==> heights_in_range(
            final(bars)@,
        ),
{
    let ghost before = bars@;
    let count: usize = if bars.len() < target.len() {
        bars.len()
    } else {
        target.len()
    };
    let mut i: usize = 0;
    while i < count
        invariant
            0 <= i <= count,
            count <= target@.len(),
            count <= before.len(),
            bars@.len() == before.len(),
            forall|k: int| 0 <= k < i ==> #[trigger] bars@[k] == smooth_bars(before, target@)[k],
            forall|k: int| i <= k < before.len() ==> #[trigger] bars@[k] == before[k],
        decreases count - i,
    {
        let height: u64 = bars[i] as u64;
        let goal: u64 = target[i] as u64;
        proof {
            lemma_smooth_height_contracts(height as int, goal as int);
        }
        let mean: u64 = (height * (SMOOTHING as u64) + goal * ((1000 - SMOOTHING) as u64) + 500)
            / 1000;
        bars.set(i, mean as u32);
        i = i + 1;
    }
    proof {
        assert(bars@ =~= smooth_bars(before, target@));
        if heights_in_range(before) && heights_in_range(target@) {
            assert forall|k: int| 0 <= k < bars@.len() implies MIN_BAR_HEIGHT <= #[trigger] bars@[k]
                <= MAX_DISPLAY_HEIGHT by {
                if k < target@.len() {
                    lemma_smooth_height_contracts(before[k] as int, target@[k] as int);
                }
            }
        }
    }
}

/// Lowers every bar by one tick of decay.
pub fn decay(bars: &mut Vec<u32>)
    ensures
        final(bars)@ == decay_bars(old(bars)@),
        final(bars)@.len() == old(bars)@.len(),
        heights_in_range(old(bars)@) ==> heights_in_range(final(bars)@),
{
    let ghost before = bars@;
    let mut i: usize = 0;
    while i < bars.len()
        invariant
            0 <= i <= bars@.len(),
            bars@.len() == before.len(),
            forall|k: int| 0 <= k < i ==> #[trigger] bars@[k] == decay_bars(before)[k],
            forall|k: int| i <= k < before.len() ==> #[trigger] bars@[k] == before[k],
        decreases bars@.len() - i,
    {
        let height: u32 = bars[i];
        let lowered: u32 = if height > MIN_BAR_HEIGHT + DECAY_STEP {
            height - DECAY_STEP
        } else {
            MIN_BAR_HEIGHT
        };
        bars.set(i, lowered);
        i = i + 1;
    }
    proof {
        assert(bars@ =~= decay_bars(before));
        if heights_in_range(before) {
            lemma_decay_bars_pointwise(before);
        }
    }
}

/// Whether some bar stands above the height at rest.
pub fn any_bar_above_rest(bars: &Vec<u32>) -> (above: bool)
    ensures
        above == any_above_rest(bars@),
{
    let mut i: usize = 0;
    while i < bars.len()
        invariant
            0 <= i <= bars@.len(),
            forall|k: int| 0 <= k < i ==> #[trigger] bars@[k] <= MIN_BAR_HEIGHT,
        decreases bars@.len() - i,
    {
        if bars[i] > MIN_BAR_HEIGHT {
            return true;
        }
        i = i + 1;
    }
    false
}

} // verus!
