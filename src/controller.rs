use vstd::prelude::*;

verus! {

/// The physical keys that the game reacts to; every other key is `Other`.
#[derive(Clone, Copy, Debug, PartialEq, Eq, Structural)]
pub enum Key {
    W,
    A,
    S,
    D,
    ShiftLeft,
    ShiftRight,
    Space,
    Tab,
    Escape,
    F1,
    ArrowUp,
    ArrowDown,
    ArrowLeft,
    ArrowRight,
    Other,
}

/// Whether a key is one of the two shift keys.
pub open spec fn is_shift(key: Key) -> bool {
    key == Key::ShiftLeft || key == Key::ShiftRight
}

/// Latched held state of the driving keys.
#[derive(Clone, Copy, Debug, PartialEq, Eq, Structural)]
pub struct CarController {
    pub w_pressed: bool,
    pub a_pressed: bool,
    pub s_pressed: bool,
    pub d_pressed: bool,
    pub shift_pressed: bool,
}

impl CarController {
    /// No key held.
    pub fn new() -> (r: CarController)
        ensures
            !r.w_pressed,
            !r.a_pressed,
            !r.s_pressed,
            !r.d_pressed,
            !r.shift_pressed,
    {
        CarController {
            w_pressed: false,
            a_pressed: false,
            s_pressed: false,
            d_pressed: false,
            shift_pressed: false,
        }
    }

    /// Records that `key` is now held (`pressed`) or released; keys that do
    /// not drive the car leave the state as it was.
    pub fn handle_key_event(&mut self, key: Key, pressed: bool)
        ensures
            final(self).w_pressed == (if key == Key::W { pressed } else { old(self).w_pressed }),
            final(self).a_pressed == (if key == Key::A { pressed } else { old(self).a_pressed }),
            final(self).s_pressed == (if key == Key::S { pressed } else { old(self).s_pressed }),
            final(self).d_pressed == (if key == Key::D { pressed } else { old(self).d_pressed }),
            final(self).shift_pressed == (if is_shift(key) { pressed } else {
                old(self).shift_pressed
            }),
    {
        match key {
            Key::W => self.w_pressed = pressed,
            Key::A => self.a_pressed = pressed,
            Key::S => self.s_pressed = pressed,
            Key::D => self.d_pressed = pressed,
            Key::ShiftLeft | Key::ShiftRight => self.shift_pressed = pressed,
            _ => {},
        }
    }
}

} // verus!
