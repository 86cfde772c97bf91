use vstd::prelude::*;

verus! {

/// One whole in parts per million: the unit of every smoothing fraction.
pub const SCALE: i64 = 1_000_000;

/// Division that rounds toward zero, as integer division does in Rust.
pub open spec fn trunc_div(a: int, b: int) -> int {
    if a >= 0 {
        a / b
    } else {
        -((-a) / b)
    }
}

/// Absolute value.
pub open spec fn abs(a: int) -> int {
    if a >= 0 {
        a
    } else {
        -a
    }
}

/// Exponential smoothing step `a * (1 - r) + b * r`, with `r` in parts per
/// million, rounded toward zero.
pub open spec fn lerp_spec(a: int, b: int, r: int) -> int {
    trunc_div(a * (SCALE - r) + b * r, SCALE as int)
}

/// A smoothing step between two values of magnitude at most `m` stays within `m`.
pub proof fn lemma_lerp_bounded(a: int, b: int, r: int, m: int)
    requires
        0 <= r <= SCALE,
        abs(a) <= m,
        abs(b) <= m,
    ensures
        abs(lerp_spec(a, b, r)) <= m,
{
    let n = a * (SCALE - r) + b * r;
    assert(abs(n) <= m * SCALE) by (nonlinear_arith)
        requires
            n == a * (SCALE - r) + b * r,
            0 <= r <= SCALE,
            abs(a) <= m,
            abs(b) <= m,
    ;
    if n >= 0 {
        assert(n / (SCALE as int) <= m) by (nonlinear_arith)
            requires
                0 <= n <= m * SCALE,
        ;
    } else {
        assert((-n) / (SCALE as int) <= m) by (nonlinear_arith)
            requires
                0 < -n <= m * SCALE,
        ;
    }
}

/// Smoothing step on values whose magnitude is at most `m <= 10^9`.
pub fn lerp_ppm(a: i64, b: i64, r: i64, m: i64) -> (out: i64)
    requires
        0 <= r <= SCALE,
        0 <= m <= 1_000_000_000,
        abs(a as int) <= m,
        abs(b as int) <= m,
    ensures
        out == lerp_spec(a as int, b as int, r as int),
        abs(out as int) <= m,
{
    proof {
        lemma_lerp_bounded(a as int, b as int, r as int, m as int);
        assert(abs(a * (SCALE - r)) <= m * SCALE) by (nonlinear_arith)
            requires
                0 <= r <= SCALE,
                abs(a as int) <= m,
        ;
        assert(abs(b * r) <= m * SCALE) by (nonlinear_arith)
            requires
                0 <= r <= SCALE,
                abs(b as int) <= m,
        ;
    }
    (a * (SCALE - r) + b * r) / SCALE
}

} // verus!
