use vstd::prelude::*;

use crate::wheels::{is_isqrt, isqrt, isqrt_spec};

verus! {

/// Largest suspension travel, in micrometres.
pub const SUSPENSION_MAX: u64 = 300_000;
/// Wheel radius, in micrometres.
pub const WHEEL_RADIUS: u64 = 318_327;
/// Length of a wheel's probe ray: full travel plus radius, in micrometres.
pub const PROBE_LENGTH: u64 = 618_327;
/// Spring force of a fully compressed suspension, in impulse units.
pub const SUSPENSION_STIFFNESS: u64 = 1_800;
/// Fraction scale of compressions and curve values: parts per million.
pub const UNIT: u64 = 1_000_000;
/// Drag coefficient, in thousandths.
pub const DRAG_COEFFICIENT_MILLI: u64 = 4;
/// Downforce per m/s of speed and per tick, in impulse units.
pub const DOWNFORCE_COEFFICIENT: u64 = 17;

/// Fraction of the travel used when the ray met ground at `hit` micrometres.
pub open spec fn compression_spec(hit: int) -> int {
    let h = if hit < PROBE_LENGTH {
        hit
    } else {
        PROBE_LENGTH as int
    };
    (PROBE_LENGTH - h) * UNIT / (PROBE_LENGTH as int)
}

/// The spring curve `x^2.5` on parts per million, rounded down.
pub open spec fn curve_spec(c: int) -> int {
    c * c * isqrt_spec(c * UNIT) / (UNIT * UNIT) as int
}

/// Compression of a suspension whose ray met ground `hit` micrometres from
/// its origin, in parts per million: 0 at full extension, one whole when
/// the ground touches the origin.
pub fn suspension_compression(hit: u64) -> (r: u64)
    ensures
        r == compression_spec(hit as int),
        r <= UNIT,
{
    let h = if hit < PROBE_LENGTH {
        hit
    } else {
        PROBE_LENGTH
    };
    assert((PROBE_LENGTH - h) * UNIT / (PROBE_LENGTH as int) <= UNIT) by (nonlinear_arith)
        requires
            0 <= h <= PROBE_LENGTH,
    ;
    (PROBE_LENGTH - h) * UNIT / PROBE_LENGTH
}

/// Soft-at-top, hard-at-bottom spring curve `x^2.5`, on parts per million.
pub fn suspension_compression_curve(c: u64) -> (r: u64)
    requires
        c <= UNIT,
    ensures
        r == curve_spec(c as int),
        r <= c,
{
    assert(c * UNIT <= UNIT * UNIT) by (nonlinear_arith)
        requires
            c <= UNIT,
    ;
    let s = isqrt(c * UNIT);
    assert(c * c <= UNIT * UNIT) by (nonlinear_arith)
        requires
            c <= UNIT,
    ;
    proof {
        assert(is_isqrt((c * UNIT) as int, isqrt_spec(c * UNIT))) by {
            assert(is_isqrt((c * UNIT) as int, s as int));
        }
        lemma_isqrt_unique_root((c * UNIT) as int, s as int);
        assert(s <= UNIT) by (nonlinear_arith)
            requires
                s * s <= c * UNIT,
                c * UNIT <= UNIT * UNIT,
                s >= 0,
        ;
        assert(c * c * s <= c * UNIT * UNIT) by (nonlinear_arith)
            requires
                c <= UNIT,
                s <= UNIT,
                s >= 0,
        ;
        assert(c * c * s / ((UNIT * UNIT) as int) <= c) by (nonlinear_arith)
            requires
                0 <= c * c * s <= c * UNIT * UNIT,
                0 <= c,
        ;
    }
    c * c * s / (UNIT * UNIT)
}

proof fn lemma_isqrt_unique_root(n: int, s: int)
    requires
        is_isqrt(n, s),
    ensures
        isqrt_spec(n) == s,
{
    let t = isqrt_spec(n);
    assert(is_isqrt(n, t));
    if t < s {
        assert((t + 1) * (t + 1) <= s * s) by (nonlinear_arith)
            requires
                0 <= t < s,
        ;
    } else if s < t {
        assert((s + 1) * (s + 1) <= t * t) by (nonlinear_arith)
            requires
                0 <= s < t,
        ;
    }
}

proof fn lemma_isqrt_monotone(a: int, b: int)
    requires
        0 <= a <= b,
    ensures
        0 <= isqrt_spec(a) <= isqrt_spec(b),
{
    let x = isqrt_spec(a);
    let y = isqrt_spec(b);
    assert(is_isqrt(a, x)) by {
        lemma_isqrt_exists(a);
    }
    assert(is_isqrt(b, y)) by {
        lemma_isqrt_exists(b);
    }
    if y < x {
        assert((y + 1) * (y + 1) <= x * x) by (nonlinear_arith)
            requires
                0 <= y < x,
        ;
    }
}

proof fn lemma_isqrt_exists(n: int)
    requires
        0 <= n,
    ensures
        is_isqrt(n, isqrt_spec(n)),
    decreases n,
{
    if n == 0 {
        assert(is_isqrt(0, 0));
    } else {
        lemma_isqrt_exists(n - 1);
        let m = isqrt_spec(n - 1);
        if (m + 1) * (m + 1) <= n {
            assert(n < (m + 2) * (m + 2)) by (nonlinear_arith)
                requires
                    n - 1 < (m + 1) * (m + 1),
                    m >= 0,
            ;
            assert(is_isqrt(n, m + 1));
        } else {
            assert(is_isqrt(n, m));
        }
    }
}

/// The spring curve has the shape the suspension needs: it starts at
/// (0, 0), ends at (1, 1), stays on or below the diagonal (softer than a
/// linear spring at small compression) and never decreases.
pub proof fn lemma_curve_shape(a: int, b: int)
    requires
        0 <= a <= b <= UNIT,
    ensures
        curve_spec(0) == 0,
        curve_spec(UNIT as int) == UNIT,
        0 <= curve_spec(a) <= a,
        curve_spec(a) <= curve_spec(b),
{
    lemma_isqrt_unique_root(0, 0);
    lemma_isqrt_unique_root((UNIT * UNIT) as int, UNIT as int);
    lemma_isqrt_monotone(a * UNIT, b * UNIT);
    lemma_isqrt_monotone(a * UNIT, UNIT * UNIT);
    let sa = isqrt_spec(a * UNIT);
    let sb = isqrt_spec(b * UNIT);
    assert(0 <= a * UNIT <= b * UNIT <= UNIT * UNIT) by (nonlinear_arith)
        requires
            0 <= a <= b <= UNIT,
    ;
    assert(0 <= a * a * sa <= b * b * sb) by (nonlinear_arith)
        requires
            0 <= a <= b,
            0 <= sa <= sb,
    ;
    assert(a * a * sa <= a * UNIT * UNIT) by (nonlinear_arith)
        requires
            0 <= a <= UNIT,
            0 <= sa <= UNIT,
    ;
    let d = (UNIT * UNIT) as int;
    assert(0 <= (a * a * sa) / d <= (b * b * sb) / d) by (nonlinear_arith)
        requires
            0 <= a * a * sa <= b * b * sb,
            d > 0,
    ;
    assert((a * a * sa) / d <= a) by (nonlinear_arith)
        requires
            0 <= a * a * sa <= a * d,
            d > 0,
    ;
}

/// Spring impulse of a grounded wheel whose ray met ground at `hit`
/// micrometres, per tick, in thousandths of an impulse unit.
pub fn spring_impulse(hit: u64) -> (r: u64)
    ensures
        r == curve_spec(compression_spec(hit as int)) * SUSPENSION_STIFFNESS * 1000 / (UNIT as int),
        r <= SUSPENSION_STIFFNESS * 1000,
{
    let c = suspension_compression(hit);
    let v = suspension_compression_curve(c);
    assert(v * SUSPENSION_STIFFNESS * 1000 / (UNIT as int) <= SUSPENSION_STIFFNESS * 1000)
        by (nonlinear_arith)
        requires
            0 <= v <= UNIT,
    ;
    v * SUSPENSION_STIFFNESS * 1000 / UNIT
}

/// The drag factor `|v|^2 * DRAG_COEFFICIENT * adjusted_dt` for a chassis
/// speed in mm/s and an adjusted frame time in millionths of a tick, in
/// parts per million; the drag impulse is the velocity scaled by minus it.
pub fn drag_factor(speed_mm_per_s: u32, adjusted_dt: u64) -> (r: u128)
    requires
        adjusted_dt <= 6_000_000,
    ensures
        r == speed_mm_per_s * speed_mm_per_s * DRAG_COEFFICIENT_MILLI * adjusted_dt / 1_000_000_000,
{
    let v = speed_mm_per_s as u128;
    assert(v * v <= 0x1_0000_0000u128 * 0x1_0000_0000u128 && v * v * 4 <= 0x1_0000_0000u128
        * 0x1_0000_0000u128 * 4) by (nonlinear_arith)
        requires
            v < 0x1_0000_0000,
    ;
    assert(v * v * 4 * (adjusted_dt as u128) <= 0x1_0000_0000u128 * 0x1_0000_0000u128 * 4 * 6_000_000)
        by (nonlinear_arith)
        requires
            v < 0x1_0000_0000,
            adjusted_dt <= 6_000_000,
    ;
    v * v * (DRAG_COEFFICIENT_MILLI as u128) * (adjusted_dt as u128) / 1_000_000_000
}

/// Downforce impulse along the car's down axis, in thousandths of an impulse
/// unit: proportional to speed, and only while a wheel touches the ground.
pub fn downforce(wheels_grounded: u32, speed_mm_per_s: u32, adjusted_dt: u64) -> (r: u128)
    requires
        adjusted_dt <= 6_000_000,
    ensures
        r == if wheels_grounded > 0 {
            speed_mm_per_s * DOWNFORCE_COEFFICIENT * adjusted_dt / 1_000_000
        } else {
            0
        },
{
    if wheels_grounded == 0 {
        0
    } else {
        let v = speed_mm_per_s as u128;
        assert(v * 17 * (adjusted_dt as u128) <= 0x1_0000_0000u128 * 17 * 6_000_000)
            by (nonlinear_arith)
            requires
                v < 0x1_0000_0000,
                adjusted_dt <= 6_000_000,
        ;
        v * (DOWNFORCE_COEFFICIENT as u128) * (adjusted_dt as u128) / 1_000_000
    }
}

} // verus!
