use vstd::prelude::*;

use crate::arith::{abs, trunc_div};
use crate::car::CarState;

verus! {

/// Largest friction force a tire can carry, thousandths of an impulse unit.
pub const MAX_FRICTION: i64 = 180_000;
/// Share of the friction limit that a slipping tire keeps, in hundredths.
pub const SLIP_FRICTION_PERCENT: i64 = 95;
/// Longitudinal boost of a slipping tire, in tenths (one and a tenth).
pub const DRIFT_LONGITUDINAL_BOOST_TENTHS: i64 = 11;
/// Speed above which a slipping tire leaves skid marks, in mm/s.
pub const SKID_MIN_SPEED: u64 = 1_500;

/// How many entries of `s` are present.
pub open spec fn count_some<T>(s: Seq<Option<T>>) -> nat
    decreases s.len(),
{
    if s.len() == 0 {
        0
    } else {
        count_some(s.drop_last()) + if s.last() is Some {
            1nat
        } else {
            0nat
        }
    }
}

/// Longitudinal force of wheel `wheel`: the rear pair (2 and 3) drives.
pub open spec fn drive_force(throttle: int, wheel: int) -> int {
    if wheel >= 2 {
        throttle
    } else {
        0
    }
}

/// Friction lost by a tire that slipped on the previous frame under the
/// sticky slip model, in thousandths of an impulse unit.
pub const STICKY_FRICTION_REDUCTION: i64 = 30_000;

/// How a tire's friction limit depends on its history.
#[derive(Clone, Copy, Debug, PartialEq, Eq, Structural)]
pub enum SlipModel {
    /// The same limit every frame.
    Stateless,
    /// A tire that slipped last frame has a lower limit, so slides persist.
    Sticky,
}

/// The friction limit of a tire under `model` given whether it slipped on
/// the previous frame.
pub open spec fn friction_limit(model: SlipModel, slipped_before: bool) -> int {
    if model == SlipModel::Sticky && slipped_before {
        MAX_FRICTION - STICKY_FRICTION_REDUCTION
    } else {
        MAX_FRICTION as int
    }
}

/// A tire slips when its combined demand exceeds its friction limit.
pub open spec fn slips(lat: int, long: int, limit: int) -> bool {
    lat * lat + long * long > limit * limit
}

/// `r` is the integer square root of `n`.
pub open spec fn is_isqrt(n: int, r: int) -> bool {
    0 <= r && r * r <= n && n < (r + 1) * (r + 1)
}

/// The rounded-down square root of `n`.
pub open spec fn isqrt_spec(n: int) -> int {
    choose|m: int| is_isqrt(n, m)
}

/// Rounded-down square root.
pub fn isqrt(n: u64) -> (r: u64)
    ensures
        is_isqrt(n as int, r as int),
        r < 0x1_0000_0000,
{
    let mut lo: u64 = 0;
    let mut hi: u64 = 0x1_0000_0000;
    assert(n < hi * hi) by (nonlinear_arith)
        requires
            hi == 0x1_0000_0000,
    ;
    while hi - lo > 1
        invariant
            lo < hi <= 0x1_0000_0000,
            lo * lo <= n,
            n < hi * hi,
        decreases hi - lo,
    {
        let mid = lo + (hi - lo) / 2;
        assert((mid as u128) * (mid as u128) <= 0x1_0000_0000u128 * 0x1_0000_0000u128)
            by (nonlinear_arith)
            requires
                mid <= 0x1_0000_0000,
        ;
        if (mid as u128) * (mid as u128) <= n as u128 {
            lo = mid;
        } else {
            hi = mid;
        }
    }
    lo
}

/// Counts the wheels whose ray found ground.
pub fn count_grounded<T>(hits: &[Option<T>; 4]) -> (r: u32)
    ensures
        r == count_some(hits@),
        r <= 4,
{
    let mut n: u32 = 0;
    let mut i: usize = 0;
    while i < 4
        invariant
            0 <= i <= 4,
            n == count_some(hits@.subrange(0, i as int)),
            n <= i,
        decreases 4 - i,
    {
        assert(hits@.subrange(0, i + 1).drop_last() =~= hits@.subrange(0, i as int));
        if hits[i].is_some() {
            n = n + 1;
        }
        i = i + 1;
    }
    assert(hits@.subrange(0, 4) =~= hits@);
    n
}

/// Tire forces after the friction limit, as (lateral, longitudinal).
pub open spec fn clamped_forces(lat: int, long: int, mag: int, limit: int) -> (int, int) {
    if slips(lat, long, limit) {
        let keep = limit * SLIP_FRICTION_PERCENT / 100;
        (
            trunc_div(lat * keep, mag),
            trunc_div(trunc_div(long * keep, mag) * DRIFT_LONGITUDINAL_BOOST_TENTHS, 10),
        )
    } else {
        (lat, long)
    }
}

/// Clamps a tire's (lateral, longitudinal) demand against the friction
/// limit `limit`: a slipping tire keeps 95% of the limit along the same
/// direction, and its longitudinal part is then boosted by a tenth.
pub fn clamp_wheel_forces(lat: i32, long: i32, limit: i64) -> (r: (i64, i64))
    requires
        0 < limit <= MAX_FRICTION,
    ensures
        (r.0 as int, r.1 as int) == clamped_forces(
            lat as int,
            long as int,
            isqrt_spec(lat * lat + long * long),
            limit as int,
        ),
        slips(lat as int, long as int, limit as int) ==> abs(r.0 as int) <= limit,
{
    let l = lat as i64;
    let g = long as i64;
    assert(l * l <= 0x4000_0000_0000_0000 && g * g <= 0x4000_0000_0000_0000) by (nonlinear_arith)
        requires
            -0x8000_0000 <= l < 0x8000_0000,
            -0x8000_0000 <= g < 0x8000_0000,
    ;
    assert(l * l >= 0 && g * g >= 0) by (nonlinear_arith);
    let n: u64 = (l * l) as u64 + (g * g) as u64;
    assert(limit * limit <= MAX_FRICTION * MAX_FRICTION) by (nonlinear_arith)
        requires
            0 < limit <= MAX_FRICTION,
    ;
    if n <= (limit * limit) as u64 {
        (l, g)
    } else {
        let mag = isqrt(n);
        proof {
            let m = isqrt_spec(n as int);
            assert(is_isqrt(n as int, mag as int));
            lemma_isqrt_unique(n as int, m, mag as int);
            assert(mag >= limit) by (nonlinear_arith)
                requires
                    n < (mag + 1) * (mag + 1),
                    n > limit * limit,
                    mag >= 0,
                    limit > 0,
            ;
            assert(abs(l as int) <= mag) by (nonlinear_arith)
                requires
                    l * l <= n,
                    n < (mag + 1) * (mag + 1),
                    g * g >= 0,
                    mag >= 0,
            ;
            assert(abs(g as int) <= mag) by (nonlinear_arith)
                requires
                    g * g <= n,
                    n < (mag + 1) * (mag + 1),
                    mag >= 0,
            ;
        }
        let keep: i64 = limit * SLIP_FRICTION_PERCENT / 100;
        let m = mag as i64;
        assert(abs(l * keep) <= 0x8000_0000 * 171_000 && abs(g * keep) <= 0x8000_0000 * 171_000)
            by (nonlinear_arith)
            requires
                -0x8000_0000 <= l < 0x8000_0000,
                -0x8000_0000 <= g < 0x8000_0000,
                0 <= keep <= 171_000,
        ;
        assert(keep <= limit);
        let x = l * keep / m;
        let y0 = g * keep / m;
        proof {
            lemma_scaled_within(l as int, keep as int, m as int);
            lemma_scaled_within(g as int, keep as int, m as int);
        }
        (x, y0 * DRIFT_LONGITUDINAL_BOOST_TENTHS / 10)
    }
}

proof fn lemma_isqrt_unique(n: int, a: int, b: int)
    requires
        is_isqrt(n, a),
        is_isqrt(n, b),
    ensures
        a == b,
{
    if a < b {
        assert((a + 1) * (a + 1) <= b * b) by (nonlinear_arith)
            requires
                0 <= a < b,
        ;
    } else if b < a {
        assert((b + 1) * (b + 1) <= a * a) by (nonlinear_arith)
            requires
                0 <= b < a,
        ;
    }
}

/// `v * k / m` stays within `k` when `|v| <= m`.
proof fn lemma_scaled_within(v: int, k: int, m: int)
    requires
        0 < m,
        0 <= k,
        abs(v) <= m,
    ensures
        abs(trunc_div(v * k, m)) <= k,
{
    if v >= 0 {
        assert(v * k <= m * k) by (nonlinear_arith)
            requires
                0 <= v <= m,
                0 <= k,
        ;
        assert((v * k) / m <= k) by (nonlinear_arith)
            requires
                0 <= v * k <= m * k,
                0 < m,
        ;
    } else {
        assert(0 <= -(v * k) <= m * k) by (nonlinear_arith)
            requires
                0 < -v <= m,
                0 <= k,
        ;
        assert((-(v * k)) / m <= k) by (nonlinear_arith)
            requires
                0 <= -(v * k) <= m * k,
                0 < m,
        ;
    }
}

impl CarState {
    /// Records this frame's ray probe: `wheels_grounded` becomes the number
    /// of wheels whose ray hit.
    pub fn record_ground_hits<T>(&mut self, hits: &[Option<T>; 4])
        requires
            old(self).wf(),
        ensures
            final(self).wf(),
            final(self).wheels_grounded == count_some(hits@),
            final(self).throttle == old(self).throttle,
            final(self).turn_angle == old(self).turn_angle,
            final(self).wheels_slipping == old(self).wheels_slipping,
            final(self).drive_input == old(self).drive_input,
            final(self).turn_input == old(self).turn_input,
            final(self).slip_model == old(self).slip_model,
    {
        self.wheels_grounded = count_grounded(hits);
    }

    /// Friction of wheel `wheel` this frame. `lateral` is the lateral force
    /// its tire carries when its ray hit the ground, `None` when it is in the
    /// air. A grounded wheel records whether it slips and gets the clamped
    /// (lateral, longitudinal) forces and whether it leaves a skid mark; a
    /// wheel in the air gets no force, no mark, and keeps its slip flag.
    pub fn tire_contact(&mut self, wheel: usize, lateral: Option<i32>, speed_mm_per_s: u64) -> (r: (
        i64,
        i64,
        bool,
    ))
        requires
            old(self).wf(),
            wheel < 4,
        ensures
            final(self).wf(),
            lateral is None ==> final(self).wheels_slipping == old(self).wheels_slipping && r == (
            0i64, 0i64, false),
            lateral is Some ==> final(self).wheels_slipping@ == old(self).wheels_slipping@.update(
                wheel as int,
                slips(
                    lateral.unwrap() as int,
                    drive_force(old(self).throttle as int, wheel as int),
                    friction_limit(old(self).slip_model, old(self).wheels_slipping[wheel as int]),
                ),
            ),
            lateral is Some ==> (r.0 as int, r.1 as int) == clamped_forces(
                lateral.unwrap() as int,
                drive_force(old(self).throttle as int, wheel as int),
                isqrt_spec(
                    lateral.unwrap() * lateral.unwrap() + drive_force(
                        old(self).throttle as int,
                        wheel as int,
                    ) * drive_force(old(self).throttle as int, wheel as int),
                ),
                friction_limit(old(self).slip_model, old(self).wheels_slipping[wheel as int]),
            ),
            r.2 == (lateral is Some && final(self).wheels_slipping[wheel as int] && speed_mm_per_s
                > SKID_MIN_SPEED),
            final(self).throttle == old(self).throttle,
            final(self).turn_angle == old(self).turn_angle,
            final(self).wheels_grounded == old(self).wheels_grounded,
            final(self).drive_input == old(self).drive_input,
            final(self).turn_input == old(self).turn_input,
            final(self).slip_model == old(self).slip_model,
    {
        let lateral = match lateral {
            Some(l) => l,
            None => return (0, 0, false),
        };
        let long: i32 = if wheel >= 2 {
            self.throttle as i32
        } else {
            0
        };
        let limit = if self.slip_model == SlipModel::Sticky && self.wheels_slipping[wheel] {
            MAX_FRICTION - STICKY_FRICTION_REDUCTION
        } else {
            MAX_FRICTION
        };
        let (x, y) = clamp_wheel_forces(lateral, long, limit);
        let l = lateral as i64;
        let g = long as i64;
        assert(l * l <= 0x4000_0000_0000_0000 && g * g <= 0x4000_0000_0000_0000 && l * l >= 0 && g
            * g >= 0) by (nonlinear_arith)
            requires
                -0x8000_0000 <= l < 0x8000_0000,
                -0x8000_0000 <= g < 0x8000_0000,
        ;
        let slipping = (l * l) as i128 + (g * g) as i128 > (limit * limit) as i128;
        self.wheels_slipping[wheel] = slipping;
        (x, y, slipping && speed_mm_per_s > SKID_MIN_SPEED)
    }
}

} // verus!
