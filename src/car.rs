use vstd::prelude::*;

use crate::arith::{abs, lemma_lerp_bounded, lerp_ppm, lerp_spec, SCALE};
use crate::controller::CarController;
use crate::wheels::SlipModel;
use crate::input::{
    drive_intent, resolve_drive_input, resolve_turn_input, turn_intent, DriveInputState,
    TurnInputState,
};

verus! {

/// Full forward drive force, in thousandths of an impulse unit.
pub const ACCELERATION: i64 = 120_000;
/// Reverse drive force: four fifths of the forward one.
pub const REVERSE_ACCELERATION: i64 = 96_000;
/// Largest steer angle at low speed (17 degrees), in microradians.
pub const TURN_RADIUS_SLOW: i64 = 296_706;
/// Largest steer angle at high speed (11 degrees), in microradians.
pub const TURN_RADIUS_FAST: i64 = 191_986;
/// Steering response per 60 Hz tick at low speed (2.5 degrees), parts per million.
pub const TURN_RESPONSIVENESS_SLOW: i64 = 43_633;
/// Steering response per 60 Hz tick at high speed (1.2 degrees), parts per million.
pub const TURN_RESPONSIVENESS_FAST: i64 = 20_944;
/// Return to centre is this many halves of the steering response (one and a half).
pub const TURN_CENTERING_HALVES: i64 = 3;
/// Throttle response per 60 Hz tick, parts per million.
pub const THROTTLE_RESPONSIVENESS: i64 = 100_000;
/// Speed times adjusted time above which steering uses the fast set, in m/s ticks.
pub const SLOW_FAST_THRESH: u128 = 22;
/// Steer angle up to which front tires push along the chassis heading, in
/// microradians (0.01 rad).
pub const STEER_DEAD_BAND: i64 = 10_000;
/// Largest adjusted frame time: 0.1 s, i.e. six 60 Hz ticks, in parts per million.
pub const MAX_ADJUSTED_DT: u64 = 6_000_000;

/// Whether steering uses the fast set: speed (mm/s) times adjusted time
/// (ppm of a tick) above the threshold.
pub open spec fn is_fast(speed_mm_per_s: int, adjusted_dt: int) -> bool {
    speed_mm_per_s * adjusted_dt > SLOW_FAST_THRESH * 1000 * SCALE
}

pub open spec fn turn_limit(fast: bool) -> int {
    if fast {
        TURN_RADIUS_FAST as int
    } else {
        TURN_RADIUS_SLOW as int
    }
}

/// Steering response fraction for one frame, in parts per million.
pub open spec fn turn_response(fast: bool, adjusted_dt: int) -> int {
    (if fast {
        TURN_RESPONSIVENESS_FAST as int
    } else {
        TURN_RESPONSIVENESS_SLOW as int
    }) * adjusted_dt / (SCALE as int)
}

/// The steer angle after one frame.
pub open spec fn next_turn_angle(
    turn: int,
    input: TurnInputState,
    fast: bool,
    adjusted_dt: int,
) -> int {
    let r = turn_response(fast, adjusted_dt);
    match input {
        TurnInputState::Left => lerp_spec(turn, turn_limit(fast), r),
        TurnInputState::Right => lerp_spec(turn, -turn_limit(fast), r),
        TurnInputState::Straight => lerp_spec(turn, 0, r * TURN_CENTERING_HALVES / 2),
    }
}

/// The drive force that the throttle moves toward.
pub open spec fn throttle_target(input: DriveInputState) -> int {
    match input {
        DriveInputState::Accelerating => ACCELERATION as int,
        DriveInputState::Reversing => -REVERSE_ACCELERATION,
        _ => 0,
    }
}

/// The throttle after one frame.
pub open spec fn next_throttle(throttle: int, input: DriveInputState, adjusted_dt: int) -> int {
    lerp_spec(throttle, throttle_target(input), THROTTLE_RESPONSIVENESS * adjusted_dt / (SCALE as int))
}

/// Throttle and steer angle never leave their ranges: from any throttle of
/// magnitude at most `ACCELERATION` and any steer angle of magnitude at most
/// the larger steering radius, one frame of smoothing under any intents, any
/// speed and any frame time up to 0.1 s stays within the same bounds. By
/// induction this holds after every sequence of frames from rest.
pub proof fn lemma_smoothing_stays_bounded(
    throttle: int,
    turn: int,
    drive: DriveInputState,
    steer: TurnInputState,
    fast: bool,
    adjusted_dt: int,
)
    requires
        abs(throttle) <= ACCELERATION,
        abs(turn) <= TURN_RADIUS_SLOW,
        0 <= adjusted_dt <= MAX_ADJUSTED_DT,
    ensures
        abs(next_throttle(throttle, drive, adjusted_dt)) <= ACCELERATION,
        abs(next_turn_angle(turn, steer, fast, adjusted_dt)) <= TURN_RADIUS_SLOW,
        TURN_RADIUS_FAST <= TURN_RADIUS_SLOW,
{
    let rt = THROTTLE_RESPONSIVENESS * adjusted_dt / (SCALE as int);
    assert(0 <= rt <= SCALE) by (nonlinear_arith)
        requires
            rt == THROTTLE_RESPONSIVENESS * adjusted_dt / (SCALE as int),
            0 <= adjusted_dt <= MAX_ADJUSTED_DT,
    ;
    lemma_lerp_bounded(throttle, throttle_target(drive), rt, ACCELERATION as int);
    let resp = if fast {
        TURN_RESPONSIVENESS_FAST as int
    } else {
        TURN_RESPONSIVENESS_SLOW as int
    };
    let r = turn_response(fast, adjusted_dt);
    assert(0 <= r <= 261_798) by (nonlinear_arith)
        requires
            r == resp * adjusted_dt / (SCALE as int),
            0 <= resp <= TURN_RESPONSIVENESS_SLOW,
            0 <= adjusted_dt <= MAX_ADJUSTED_DT,
    ;
    lemma_lerp_bounded(turn, turn_limit(fast), r, TURN_RADIUS_SLOW as int);
    lemma_lerp_bounded(turn, -turn_limit(fast), r, TURN_RADIUS_SLOW as int);
    lemma_lerp_bounded(turn, 0, r * TURN_CENTERING_HALVES / 2, TURN_RADIUS_SLOW as int);
}

pub open spec fn opt_ref(c: Option<&CarController>) -> Option<CarController> {
    match c {
        Option::Some(c) => Option::Some(*c),
        Option::None => Option::None,
    }
}

/// The car model's own state between frames.
#[derive(Clone, Copy, Debug)]
pub struct CarState {
    /// Smoothed drive force, thousandths of an impulse unit; negative reverses.
    pub throttle: i64,
    /// Smoothed steer angle in microradians; positive steers left.
    pub turn_angle: i64,
    /// Whether each wheel slipped when it last touched the ground.
    pub wheels_slipping: [bool; 4],
    /// How many wheels touched the ground this frame.
    pub wheels_grounded: u32,
    pub drive_input: DriveInputState,
    pub turn_input: TurnInputState,
    /// Whether a slip lowers the tire's friction limit on the next frame.
    pub slip_model: SlipModel,
}

impl CarState {
    /// Throttle and steer angle stay within their largest magnitudes.
    pub open spec fn wf(&self) -> bool {
        &&& abs(self.throttle as int) <= ACCELERATION
        &&& abs(self.turn_angle as int) <= TURN_RADIUS_SLOW
        &&& self.wheels_grounded <= 4
    }

    /// A car at rest with nothing held.
    pub fn new() -> (r: CarState)
        ensures
            r.wf(),
            r.throttle == 0,
            r.turn_angle == 0,
            r.wheels_slipping@ == seq![false, false, false, false],
            r.wheels_grounded == 0,
            r.drive_input == DriveInputState::Coasting,
            r.turn_input == TurnInputState::Straight,
            r.slip_model == SlipModel::Stateless,
    {
        let r = CarState {
            throttle: 0,
            turn_angle: 0,
            wheels_slipping: [false, false, false, false],
            wheels_grounded: 0,
            drive_input: DriveInputState::Coasting,
            turn_input: TurnInputState::Straight,
            slip_model: SlipModel::Stateless,
        };
        assert(r.wheels_slipping@ =~= seq![false, false, false, false]);
        r
    }

    /// Reads the driver's intents and moves throttle and steer angle one
    /// frame toward them. `speed_mm_per_s` is the chassis speed and
    /// `adjusted_dt` the frame time in millionths of a 60 Hz tick.
    pub fn update_inputs(
        &mut self,
        adjusted_dt: u64,
        speed_mm_per_s: u64,
        controller: Option<&CarController>,
    )
        requires
            old(self).wf(),
            adjusted_dt <= MAX_ADJUSTED_DT,
        ensures
            final(self).wf(),
            abs(final(self).throttle as int) <= ACCELERATION,
            abs(final(self).turn_angle as int) <= TURN_RADIUS_SLOW,
            final(self).drive_input == drive_intent(opt_ref(controller)),
            final(self).turn_input == turn_intent(opt_ref(controller)),
            final(self).turn_angle == next_turn_angle(
                old(self).turn_angle as int,
                final(self).turn_input,
                is_fast(speed_mm_per_s as int, adjusted_dt as int),
                adjusted_dt as int,
            ),
            final(self).throttle == next_throttle(
                old(self).throttle as int,
                final(self).drive_input,
                adjusted_dt as int,
            ),
            final(self).wheels_slipping == old(self).wheels_slipping,
            final(self).wheels_grounded == old(self).wheels_grounded,
            final(self).slip_model == old(self).slip_model,
    {
        self.drive_input = resolve_drive_input(controller);
        self.turn_input = resolve_turn_input(controller);

        assert((speed_mm_per_s as u128) * (adjusted_dt as u128) <= 0xffff_ffff_ffff_ffffu128
            * 6_000_000u128) by (nonlinear_arith)
            requires
                adjusted_dt <= 6_000_000,
        ;
        let fast = (speed_mm_per_s as u128) * (adjusted_dt as u128) > SLOW_FAST_THRESH
            * 1_000_000_000u128;
        let (max_turn, responsiveness) = if fast {
            (TURN_RADIUS_FAST, TURN_RESPONSIVENESS_FAST)
        } else {
            (TURN_RADIUS_SLOW, TURN_RESPONSIVENESS_SLOW)
        };
        let adj = adjusted_dt as i64;
        assert(responsiveness * adj <= TURN_RESPONSIVENESS_SLOW * 6_000_000) by (nonlinear_arith)
            requires
                0 <= responsiveness <= TURN_RESPONSIVENESS_SLOW,
                0 <= adj <= 6_000_000,
        ;
        let r = responsiveness * adj / SCALE;
        assert(r <= 261_798) by (nonlinear_arith)
            requires
                r == responsiveness * adj / (SCALE as int),
                0 <= responsiveness <= TURN_RESPONSIVENESS_SLOW,
                0 <= adj <= 6_000_000,
        ;
        self.turn_angle = match self.turn_input {
            TurnInputState::Left => lerp_ppm(self.turn_angle, max_turn, r, TURN_RADIUS_SLOW),
            TurnInputState::Right => lerp_ppm(self.turn_angle, -max_turn, r, TURN_RADIUS_SLOW),
            TurnInputState::Straight => lerp_ppm(
                self.turn_angle,
                0,
                r * TURN_CENTERING_HALVES / 2,
                TURN_RADIUS_SLOW,
            ),
        };

        let target = match self.drive_input {
            DriveInputState::Accelerating => ACCELERATION,
            DriveInputState::Reversing => -REVERSE_ACCELERATION,
            _ => 0,
        };
        assert(THROTTLE_RESPONSIVENESS * adj / (SCALE as int) <= 600_000) by (nonlinear_arith)
            requires
                0 <= adj <= 6_000_000,
        ;
        self.throttle = lerp_ppm(
            self.throttle,
            target,
            THROTTLE_RESPONSIVENESS * adj / SCALE,
            ACCELERATION,
        );
    }
    /// Whether wheel `wheel`'s tire pushes along the steered heading: only
    /// the front pair (0 and 1) steers, and only outside the dead band.
    pub fn steers_wheel(&self, wheel: usize) -> (r: bool)
        requires
            self.wf(),
        ensures
            r == (wheel < 2 && abs(self.turn_angle as int) > STEER_DEAD_BAND),
    {
        wheel < 2 && (self.turn_angle > STEER_DEAD_BAND || self.turn_angle < -STEER_DEAD_BAND)
    }
}

} // verus!
