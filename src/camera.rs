use vstd::prelude::*;

use crate::controller::{is_shift, Key};

verus! {

/// Height of the follow camera's eye above the car, in mm.
pub const CAM_EYE_HEIGHT: u64 = 5_000;
/// Largest distance of the follow camera's eye behind the car, in mm.
pub const CAM_EYE_DIST: u64 = 6_250;
/// Height of the follow camera's target above the car, in mm.
pub const CAM_TARGET_HEIGHT: u64 = 2_000;
/// Horizontal speed below which the camera follows the car's heading, in mm/s.
pub const CAM_HEADING_MIN_SPEED: u64 = 500;

/// Whether the follow camera looks along the car's own heading (true) or
/// along its horizontal velocity (false, in flight): more than one wheel on
/// the ground, or barely moving, keeps the heading.
pub fn use_car_heading(wheels_grounded: u32, horizontal_speed_mm_per_s: u64) -> (r: bool)
    ensures
        r == (wheels_grounded > 1 || horizontal_speed_mm_per_s < CAM_HEADING_MIN_SPEED),
{
    wheels_grounded > 1 || horizontal_speed_mm_per_s < CAM_HEADING_MIN_SPEED
}

/// Distance of the eye behind the car: the distance at which the backward
/// ray met an occluder, never more than `CAM_EYE_DIST`; the full distance
/// when nothing was hit.
pub fn camera_distance(hit_mm: Option<u64>) -> (r: u64)
    ensures
        r == match hit_mm {
            Option::Some(d) => if d < CAM_EYE_DIST {
                d
            } else {
                CAM_EYE_DIST
            },
            Option::None => CAM_EYE_DIST,
        },
        r <= CAM_EYE_DIST,
{
    match hit_mm {
        Some(d) => {
            if d < CAM_EYE_DIST {
                d
            } else {
                CAM_EYE_DIST
            }
        },
        None => CAM_EYE_DIST,
    }
}

/// Signed direction of one movement axis: +1, -1 or 0 when both or neither
/// of its keys are held.
pub open spec fn axis(plus: bool, minus: bool) -> int {
    (if plus {
        1int
    } else {
        0int
    }) - (if minus {
        1int
    } else {
        0int
    })
}

/// Held keys of the free-flying debug camera.
#[derive(Clone, Copy, Debug, PartialEq, Eq, Structural)]
pub struct DebugCameraController {
    w_pressed: bool,
    a_pressed: bool,
    s_pressed: bool,
    d_pressed: bool,
    shift_pressed: bool,
    space_pressed: bool,
    up_pressed: bool,
    down_pressed: bool,
    left_pressed: bool,
    right_pressed: bool,
}

/// Per-frame movement of the debug camera, each axis in {-1, 0, 1}.
#[derive(Clone, Copy, Debug, PartialEq, Eq, Structural)]
pub struct FlyIntent {
    /// Along the horizontal facing (W forward, S back).
    pub forward: i8,
    /// Sideways (D right, A left).
    pub right: i8,
    /// Vertical (space up, shift down).
    pub lift: i8,
    /// Turn about the vertical axis (left arrow positive).
    pub yaw: i8,
    /// Tilt about the right axis (up arrow positive).
    pub pitch: i8,
}

impl DebugCameraController {
    /// Whether `key` is latched as held.
    pub closed spec fn held(&self, key: Key) -> bool {
        match key {
            Key::W => self.w_pressed,
            Key::A => self.a_pressed,
            Key::S => self.s_pressed,
            Key::D => self.d_pressed,
            Key::ShiftLeft | Key::ShiftRight => self.shift_pressed,
            Key::Space => self.space_pressed,
            Key::ArrowUp => self.up_pressed,
            Key::ArrowDown => self.down_pressed,
            Key::ArrowLeft => self.left_pressed,
            Key::ArrowRight => self.right_pressed,
            _ => false,
        }
    }

    /// Whether the debug camera reacts to `key`.
    pub open spec fn is_bound(key: Key) -> bool {
        !(key == Key::Tab || key == Key::Escape || key == Key::F1 || key == Key::Other)
    }

    /// No key held.
    pub fn new() -> (r: DebugCameraController)
        ensures
            forall|k: Key| !r.held(k),
    {
        DebugCameraController {
            w_pressed: false,
            a_pressed: false,
            s_pressed: false,
            d_pressed: false,
            shift_pressed: false,
            space_pressed: false,
            up_pressed: false,
            down_pressed: false,
            left_pressed: false,
            right_pressed: false,
        }
    }

    /// Latches a key press or release; keys it does not use change nothing.
    pub fn handle_key_event(&mut self, key: Key, pressed: bool)
        ensures
            forall|k: Key|
                #![trigger final(self).held(k)]
                final(self).held(k) == if Self::is_bound(k) && (k == key || (is_shift(k)
                    && is_shift(key))) {
                    pressed
                } else {
                    old(self).held(k)
                },
    {
        match key {
            Key::W => self.w_pressed = pressed,
            Key::A => self.a_pressed = pressed,
            Key::S => self.s_pressed = pressed,
            Key::D => self.d_pressed = pressed,
            Key::Space => self.space_pressed = pressed,
            Key::ShiftLeft | Key::ShiftRight => self.shift_pressed = pressed,
            Key::ArrowUp => self.up_pressed = pressed,
            Key::ArrowLeft => self.left_pressed = pressed,
            Key::ArrowDown => self.down_pressed = pressed,
            Key::ArrowRight => self.right_pressed = pressed,
            _ => {},
        }
    }

    /// The movement asked for by the held keys.
    pub fn intent(&self) -> (r: FlyIntent)
        ensures
            r.forward == axis(self.held(Key::W), self.held(Key::S)),
            r.right == axis(self.held(Key::D), self.held(Key::A)),
            r.lift == axis(self.held(Key::Space), self.held(Key::ShiftLeft)),
            r.yaw == axis(self.held(Key::ArrowLeft), self.held(Key::ArrowRight)),
            r.pitch == axis(self.held(Key::ArrowUp), self.held(Key::ArrowDown)),
    {
        FlyIntent {
            forward: axis_of(self.w_pressed, self.s_pressed),
            right: axis_of(self.d_pressed, self.a_pressed),
            lift: axis_of(self.space_pressed, self.shift_pressed),
            yaw: axis_of(self.left_pressed, self.right_pressed),
            pitch: axis_of(self.up_pressed, self.down_pressed),
        }
    }
}

fn axis_of(plus: bool, minus: bool) -> (r: i8)
    ensures
        r == axis(plus, minus),
{
    if plus == minus {
        0
    } else if plus {
        1
    } else {
        -1
    }
}

} // verus!
