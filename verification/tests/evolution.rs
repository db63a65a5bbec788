use audio_visualizer::evolution::{
    any_bar_above_rest, decay, smooth_towards, DECAY_STEP, DECAY_TICKS, SETTLE_TICKS, SMOOTHING,
};
use audio_visualizer::scale::{MAX_DISPLAY_HEIGHT, MIN_BAR_HEIGHT};

#[test]
fn evolution_constants() {
    assert_eq!(SMOOTHING, 200);
    assert_eq!(DECAY_STEP, 8_000);
    assert_eq!(SETTLE_TICKS, 8);
    assert_eq!(DECAY_TICKS, 19);
}

#[test]
fn smoothing_keeps_a_fifth_of_the_old_height() {
    let mut bars = vec![4_000, 150_000, 10_000, 77_000];
    smooth_towards(&mut bars, &vec![150_000, 4_000, 20_000, 77_000]);
    // 0.2 * old + 0.8 * new
    assert_eq!(bars, vec![120_800, 33_200, 18_000, 77_000]);
}

#[test]
fn smoothing_rounds_to_the_nearest_thousandth() {
    let mut bars = vec![4_001, 4_002, 4_003, 4_004, 4_005, 4_000, 4_000, 4_000];
    smooth_towards(
        &mut bars,
        &vec![4_000, 4_000, 4_000, 4_000, 4_000, 4_001, 4_002, 4_003],
    );
    // 4000.2, 4000.4, 4000.6, 4000.8, 4001.0, 4000.8, 4001.6, 4002.4
    assert_eq!(bars, vec![4_000, 4_000, 4_001, 4_001, 4_001, 4_001, 4_002, 4_002]);
}

#[test]
fn smoothing_moves_only_bars_that_have_a_target() {
    let mut bars = vec![10_000, 10_000, 10_000];
    smooth_towards(&mut bars, &vec![20_000]);
    assert_eq!(bars, vec![18_000, 10_000, 10_000]);
    let mut short = vec![10_000];
    smooth_towards(&mut short, &vec![20_000, 30_000, 40_000]);
    assert_eq!(short, vec![18_000]);
    let mut none: Vec<u32> = Vec::new();
    smooth_towards(&mut none, &vec![20_000]);
    assert!(none.is_empty());
}

#[test]
fn smoothing_takes_the_largest_heights() {
    let mut bars = vec![u32::MAX, 0, u32::MAX];
    smooth_towards(&mut bars, &vec![u32::MAX, u32::MAX, 0]);
    assert_eq!(bars, vec![u32::MAX, 3_435_973_836, 858_993_459]);
}

#[test]
fn smoothing_reaches_the_target_within_eight_ticks() {
    let starts = [4_000u32, 4_001, 77_000, 149_999, 150_000];
    let targets = [4_000u32, 4_003, 50_123, 150_000, 149_998];
    for start in starts {
        for target in targets {
            let mut bars = vec![start];
            let goal = vec![target];
            let mut gap = start.abs_diff(target);
            for _ in 0..SETTLE_TICKS {
                smooth_towards(&mut bars, &goal);
                let now = bars[0].abs_diff(target);
                assert!(now <= gap);
                assert!(5 * now <= gap + 2);
                assert!(bars[0] >= start.min(target) && bars[0] <= start.max(target));
                gap = now;
            }
            assert_eq!(bars[0], target);
            smooth_towards(&mut bars, &goal);
            assert_eq!(bars[0], target);
        }
    }
}

#[test]
fn smoothing_needs_all_eight_ticks_across_the_display() {
    let mut bars = vec![MIN_BAR_HEIGHT];
    let goal = vec![MAX_DISPLAY_HEIGHT];
    let mut seen = Vec::new();
    for _ in 0..8 {
        smooth_towards(&mut bars, &goal);
        seen.push(bars[0]);
    }
    assert_eq!(
        seen,
        vec![120_800, 144_160, 148_832, 149_766, 149_953, 149_991, 149_998, 150_000]
    );
}

#[test]
fn decay_takes_eight_units_off_and_stops_at_rest() {
    let mut bars = vec![150_000, 12_001, 12_000, 11_999, 4_001, 4_000];
    decay(&mut bars);
    assert_eq!(bars, vec![142_000, 4_001, 4_000, 4_000, 4_000, 4_000]);
}

#[test]
fn decay_lifts_a_bar_below_rest_to_rest() {
    let mut bars = vec![0, 3_999];
    decay(&mut bars);
    assert_eq!(bars, vec![4_000, 4_000]);
}

#[test]
fn decay_of_an_empty_row() {
    let mut bars: Vec<u32> = Vec::new();
    decay(&mut bars);
    assert!(bars.is_empty());
    assert!(!any_bar_above_rest(&bars));
}

#[test]
fn decay_never_raises_a_bar_and_ends_after_nineteen_ticks() {
    let mut bars: Vec<u32> = (0..75).map(|k| 4_000 + (k * 146_000) / 74).collect();
    assert_eq!(bars[74], MAX_DISPLAY_HEIGHT);
    let start = bars.clone();
    for tick in 1..=DECAY_TICKS {
        let before = bars.clone();
        decay(&mut bars);
        for i in 0..bars.len() {
            assert!(bars[i] <= before[i]);
            assert!(bars[i] >= MIN_BAR_HEIGHT);
            let lowered = start[i].saturating_sub(tick * DECAY_STEP).max(MIN_BAR_HEIGHT);
            assert_eq!(bars[i], lowered);
        }
        if tick == DECAY_TICKS - 1 {
            assert!(any_bar_above_rest(&bars));
        }
    }
    assert_eq!(bars, vec![MIN_BAR_HEIGHT; 75]);
    assert!(!any_bar_above_rest(&bars));
    decay(&mut bars);
    assert_eq!(bars, vec![MIN_BAR_HEIGHT; 75]);
}

#[test]
fn any_bar_above_rest_finds_a_single_raised_bar() {
    assert!(!any_bar_above_rest(&vec![4_000; 75]));
    let mut bars = vec![4_000; 75];
    bars[74] = 4_001;
    assert!(any_bar_above_rest(&bars));
    assert!(!any_bar_above_rest(&vec![3_999, 0]));
}
