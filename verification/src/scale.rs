//! Fixed-point scales and the linear remapping between them.

use vstd::prelude::*;

verus! {

/// Lowest level that is told apart, in thousandths of a decibel (-90 dB).
pub const MIN_DECIBEL: i32 = -90_000;

/// Highest level that is told apart, in thousandths of a decibel (-10 dB).
pub const MAX_DECIBEL: i32 = -10_000;

/// Height of a bar at rest, in thousandths of a display unit (4.0).
pub const MIN_BAR_HEIGHT: u32 = 4_000;

/// Height of a bar at the highest level, in thousandths of a display unit (150.0).
pub const MAX_DISPLAY_HEIGHT: u32 = 150_000;

/// The point of `[to_min, to_max]` that lies as far along it as `value` lies
/// along `[from_min, from_max]`, rounded down.
pub open spec fn map_range_spec(
    value: int,
    from_min: int,
    from_max: int,
    to_min: int,
    to_max: int,
) -> int {
    to_min + ((value - from_min) * (to_max - to_min)) / (from_max - from_min)
}

/// `map_range_spec` stays inside the target interval and carries each end of
/// the source interval to the same end of the target interval.
pub proof fn lemma_map_range_bounds(
    value: int,
    from_min: int,
    from_max: int,
    to_min: int,
    to_max: int,
)
    requires
        from_min < from_max,
        from_min <= value <= from_max,
        to_min <= to_max,
    ensures
        to_min <= map_range_spec(value, from_min, from_max, to_min, to_max) <= to_max,
        value == from_min ==> map_range_spec(value, from_min, from_max, to_min, to_max) == to_min,
        value == from_max ==> map_range_spec(value, from_min, from_max, to_min, to_max) == to_max,
{
    let d = value - from_min;
    let w = to_max - to_min;
    let r = from_max - from_min;
    assert(0 <= d * w <= r * w) by (nonlinear_arith)
        requires
            0 <= d <= r,
            0 <= w,
    ;
    assert(0 <= (d * w) / r <= w) by (nonlinear_arith)
        requires
            0 <= d * w <= r * w,
            0 < r,
    ;
    assert(d == 0 ==> (d * w) / r == 0) by (nonlinear_arith)
        requires
            0 < r,
    ;
    assert(d == r ==> (d * w) / r == w) by (nonlinear_arith)
        requires
            0 < r,
    ;
}

/// Remaps `value` linearly from `[from_min, from_max]` to `[to_min, to_max]`.
pub fn map_range(
    value: i32,
    from_min: i32,
    from_max: i32,
    to_min: u32,
    to_max: u32,
) -> (mapped: u32)
    requires
        from_min < from_max,
        from_min <= value <= from_max,
        to_min <= to_max,
    ensures
        mapped == map_range_spec(
            value as int,
            from_min as int,
            from_max as int,
            to_min as int,
            to_max as int,
        ),
        to_min <= mapped <= to_max,
{
    proof {
        lemma_map_range_bounds(
            value as int,
            from_min as int,
            from_max as int,
            to_min as int,
            to_max as int,
        );
    }
    let from_range: u64 = (from_max as i64 - from_min as i64) as u64;
    let offset: u64 = (value as i64 - from_min as i64) as u64;
    let to_range: u64 = (to_max - to_min) as u64;
    assert(offset * to_range <= 0xffff_ffff * 0xffff_ffff) by (nonlinear_arith)
        requires
            offset <= 0xffff_ffff,
            to_range <= 0xffff_ffff,
    ;
    let scaled: u64 = offset * to_range / from_range;
    to_min + scaled as u32
}

} // verus!
