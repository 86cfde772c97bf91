use vstd::prelude::*;

use crate::controller::CarController;

verus! {

/// What the driver asks of the drivetrain this frame.
#[derive(Clone, Copy, Debug, PartialEq, Eq, Structural)]
pub enum DriveInputState {
    Coasting,
    Accelerating,
    HardBraking,
    Reversing,
}

/// Which way the driver steers this frame.
#[derive(Clone, Copy, Debug, PartialEq, Eq, Structural)]
pub enum TurnInputState {
    Left,
    Straight,
    Right,
}

/// Drive intent from the held keys: shift, or W together with S, brakes hard;
/// else W accelerates, S reverses, and nothing held coasts.
pub open spec fn drive_intent(c: Option<CarController>) -> DriveInputState {
    match c {
        Option::None => DriveInputState::Coasting,
        Option::Some(c) => if c.shift_pressed || (c.w_pressed && c.s_pressed) {
            DriveInputState::HardBraking
        } else if c.w_pressed {
            DriveInputState::Accelerating
        } else if c.s_pressed {
            DriveInputState::Reversing
        } else {
            DriveInputState::Coasting
        },
    }
}

/// Turn intent from the held keys: A alone steers left, D alone right.
pub open spec fn turn_intent(c: Option<CarController>) -> TurnInputState {
    match c {
        Option::None => TurnInputState::Straight,
        Option::Some(c) => if c.a_pressed && !c.d_pressed {
            TurnInputState::Left
        } else if !c.a_pressed && c.d_pressed {
            TurnInputState::Right
        } else {
            TurnInputState::Straight
        },
    }
}

/// Resolves the drive intent; without a controller (the car is not driven
/// by the player) the car coasts.
pub fn resolve_drive_input(controller: Option<&CarController>) -> (r: DriveInputState)
    ensures
        r == drive_intent(
            match controller {
                Option::Some(c) => Option::Some(*c),
                Option::None => Option::None,
            },
        ),
{
    match controller {
        Some(c) => {
            if c.shift_pressed || (c.w_pressed && c.s_pressed) {
                DriveInputState::HardBraking
            } else if c.w_pressed {
                DriveInputState::Accelerating
            } else if c.s_pressed {
                DriveInputState::Reversing
            } else {
                DriveInputState::Coasting
            }
        },
        None => DriveInputState::Coasting,
    }
}

/// Resolves the turn intent; without a controller the wheels centre.
pub fn resolve_turn_input(controller: Option<&CarController>) -> (r: TurnInputState)
    ensures
        r == turn_intent(
            match controller {
                Option::Some(c) => Option::Some(*c),
                Option::None => Option::None,
            },
        ),
{
    match controller {
        Some(c) => {
            if c.a_pressed && !c.d_pressed {
                TurnInputState::Left
            } else if !c.a_pressed && c.d_pressed {
                TurnInputState::Right
            } else {
                TurnInputState::Straight
            }
        },
        None => TurnInputState::Straight,
    }
}

} // verus!
