//! Edge handling for neighbourhood sampling along a line of `max` pixels.

use vstd::prelude::*;

verus! {

/// `value` limited to the closed range `[lo, hi]` (the behaviour of `clamp`).
pub open spec fn clamped(value: int, lo: int, hi: int) -> int {
    if value < lo {
        lo
    } else if value > hi {
        hi
    } else {
        value
    }
}

/// Mirror `value` at both ends of a line of `max` samples (`-1` maps to `1`,
/// `max` maps to `max - 1`), then clamp into `[0, max - 1]`.
pub open spec fn reflected(max: int, value: int) -> int {
    let mirrored = if value < 0 {
        -value
    } else if value >= max {
        max - (value - max) - 1
    } else {
        value
    };
    clamped(mirrored, 0, max - 1)
}

/// Index of the sample read for position `value` on a line of `max` samples,
/// mirroring positions that fall off either end.
pub fn reflect_index(max: i32, value: i32) -> (r: i32)
    requires
        max >= 1,
        value > i32::MIN,
    ensures
        r == reflected(max as int, value as int),
        0 <= r < max,
        0 <= value < max ==> r == value,
        -max < value < 0 ==> r == -value,
        max <= value < 2 * max ==> r == 2 * max - 1 - value,
{
    let mirrored = if value < 0 {
        -value
    } else if value >= max {
        max - (value - max) - 1
    } else {
        value
    };
    let upper = max - 1;
    if mirrored < 0 {
        0
    } else if mirrored > upper {
        upper
    } else {
        mirrored
    }
}

/// Index of the sample read for position `value` on a line of `max` samples,
/// repeating the edge sample for positions that fall off either end.
pub fn clamp_edges(value: i32, max: i32) -> (r: i32)
    requires
        max >= 1,
    ensures
        r == clamped(value as int, 0, max - 1),
        0 <= r < max,
        0 <= value < max ==> r == value,
        value < 0 ==> r == 0,
        value >= max ==> r == max - 1,
{
    let upper = max - 1;
    if value < 0 {
        0
    } else if value > upper {
        upper
    } else {
        value
    }
}

/// Sampling a position that is already inside the line reads that position,
/// whichever edge rule is used.
pub proof fn law_edge_rules_agree_inside(max: int, value: int)
    requires
        0 <= value < max,
    ensures
        reflected(max, value) == value,
        clamped(value, 0, max - 1) == value,
{
}

/// Reflecting an index that reflection produced changes nothing.
pub proof fn law_reflect_idempotent(max: int, value: int)
    requires
        max >= 1,
    ensures
        0 <= reflected(max, value) < max,
        reflected(max, reflected(max, value)) == reflected(max, value),
{
}

/// Clamping an index that clamping produced changes nothing.
pub proof fn law_clamp_idempotent(max: int, value: int)
    requires
        max >= 1,
    ensures
        0 <= clamped(value, 0, max - 1) < max,
        clamped(clamped(value, 0, max - 1), 0, max - 1) == clamped(value, 0, max - 1),
{
}

} // verus!
