//! The easing curve that shapes every transition.
use vstd::prelude::*;
use vstd::arithmetic::div_mod::lemma_div_is_ordered;

verus! {

/// One whole unit of a normalized quantity (offset, zoom, progress).
pub const SCALE: u64 = 1_000_000;

/// Clamps a progress value to the unit interval `[0, SCALE]`.
pub open spec fn unit_clamp(t: int) -> int {
    if t < 0 {
        0
    } else if t > SCALE as int {
        SCALE as int
    } else {
        t
    }
}

/// The cubic Hermite ease `t^2 (3 - 2t)` on `[0, SCALE]`, rounded down.
pub open spec fn smooth(t: int) -> int {
    let c = unit_clamp(t);
    c * c * (3 * SCALE - 2 * c) / (SCALE * SCALE)
}

proof fn lemma_cubic_bounds(c: int)
    by (nonlinear_arith)
    requires
        0 <= c <= 1_000_000,
    ensures
        0 <= c * c <= 1_000_000_000_000,
        0 <= c * c * (3 * 1_000_000 - 2 * c),
        c * c * (3 * 1_000_000 - 2 * c) <= 1_000_000 * 1_000_000 * 1_000_000,
        c * c * (3 * 1_000_000 - 2 * c) <= 3_000_000_000_000_000_000,
{
    assert(1_000_000 * 1_000_000 * 1_000_000 - c * c * (3 * 1_000_000 - 2 * c)
        == (1_000_000 - c) * (1_000_000 - c) * (1_000_000 + 2 * c));
}

proof fn lemma_cubic_monotone(a: int, b: int)
    by (nonlinear_arith)
    requires
        0 <= a <= b <= 1_000_000,
    ensures
        a * a * (3 * 1_000_000 - 2 * a) <= b * b * (3 * 1_000_000 - 2 * b),
{
    let s = 1_000_000int;
    assert(a * a <= s * a);
    assert(b * b <= s * b);
    assert(a * b <= s * b);
    assert(2 * (a * a + a * b + b * b) <= 3 * s * (a + b));
    assert(b * b * (3 * s - 2 * b) - a * a * (3 * s - 2 * a) == (b - a) * (3 * s * (a + b) - 2 * (
    a * a + a * b + b * b)));
}

/// The ease stays in the unit interval and fixes both of its ends.
pub proof fn lemma_smooth_range(t: int)
    ensures
        0 <= smooth(t) <= SCALE,
        smooth(0) == 0,
        smooth(SCALE as int) == SCALE,
        smooth(SCALE as int / 2) == SCALE as int / 2,
{
    let c = unit_clamp(t);
    lemma_cubic_bounds(c);
    let d = SCALE * SCALE;
    lemma_div_is_ordered(0, c * c * (3 * SCALE - 2 * c), d as int);
    lemma_div_is_ordered(c * c * (3 * SCALE - 2 * c), d * SCALE, d as int);
    assert(unit_clamp(0) == 0);
    assert(0int * 0 * (3 * SCALE - 0) == 0);
    assert(unit_clamp(SCALE as int) == 1_000_000);
    assert(1_000_000int * 1_000_000 * (3 * 1_000_000 - 2 * 1_000_000) == 1_000_000_000_000_000_000);
    assert(unit_clamp(SCALE as int / 2) == 500_000);
    assert(500_000int * 500_000 * (3 * 1_000_000 - 2 * 500_000) == 500_000_000_000_000_000);
}

/// The ease never decreases: a later progress is never shown closer to the start.
pub proof fn lemma_smooth_monotone(a: int, b: int)
    requires
        a <= b,
    ensures
        smooth(a) <= smooth(b),
{
    let ca = unit_clamp(a);
    let cb = unit_clamp(b);
    lemma_cubic_monotone(ca, cb);
    lemma_div_is_ordered(
        ca * ca * (3 * SCALE - 2 * ca),
        cb * cb * (3 * SCALE - 2 * cb),
        (SCALE * SCALE) as int,
    );
}

/// Eases a progress value given in units of `1 / SCALE`; inputs above
/// `SCALE` count as a finished transition.
pub fn smooth_step(progress: u64) -> (r: u64)
    ensures
        r == smooth(progress as int),
        r <= SCALE,
{
    let t: u64 = if progress > SCALE { SCALE } else { progress };
    proof {
        lemma_cubic_bounds(t as int);
        lemma_smooth_range(progress as int);
    }
    t * t * (3 * SCALE - 2 * t) / (SCALE * SCALE)
}

} // verus!
