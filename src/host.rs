use vstd::prelude::*;

use crate::controller::Key;

verus! {

/// What the host page is asked to show after an event.
#[derive(Clone, Copy, Debug, PartialEq, Eq, Structural)]
pub enum HostAction {
    Nothing,
    ShowPauseMenu(bool),
    ShowDebugText(bool),
}

/// The game's own toggles, driven by key presses and focus changes.
#[derive(Clone, Copy, Debug, PartialEq, Eq, Structural)]
pub struct HostState {
    pub paused: bool,
    pub debug_camera_activated: bool,
    pub debug_text_shown: bool,
}

impl HostState {
    /// Running, following the car, without debug text.
    pub fn new() -> (r: HostState)
        ensures
            !r.paused,
            !r.debug_camera_activated,
            !r.debug_text_shown,
    {
        HostState { paused: false, debug_camera_activated: false, debug_text_shown: false }
    }

    /// A key went down (`pressed`) or up: Escape toggles pause, Tab the
    /// camera mode, F1 the debug text; releases and other keys change nothing.
    pub fn handle_key(&mut self, key: Key, pressed: bool) -> (r: HostAction)
        ensures
            final(self).paused == (old(self).paused != (pressed && key == Key::Escape)),
            final(self).debug_camera_activated == (old(self).debug_camera_activated != (pressed
                && key == Key::Tab)),
            final(self).debug_text_shown == (old(self).debug_text_shown != (pressed && key
                == Key::F1)),
            r == if pressed && key == Key::Escape {
                HostAction::ShowPauseMenu(final(self).paused)
            } else if pressed && key == Key::F1 {
                HostAction::ShowDebugText(final(self).debug_text_shown)
            } else {
                HostAction::Nothing
            },
    {
        if !pressed {
            return HostAction::Nothing;
        }
        match key {
            Key::Escape => {
                self.paused = !self.paused;
                HostAction::ShowPauseMenu(self.paused)
            },
            Key::Tab => {
                self.debug_camera_activated = !self.debug_camera_activated;
                HostAction::Nothing
            },
            Key::F1 => {
                self.debug_text_shown = !self.debug_text_shown;
                HostAction::ShowDebugText(self.debug_text_shown)
            },
            _ => HostAction::Nothing,
        }
    }

    /// The window gained or lost focus: losing it pauses a running game.
    pub fn handle_focus(&mut self, focused: bool) -> (r: HostAction)
        ensures
            final(self).paused == (old(self).paused || !focused),
            final(self).debug_camera_activated == old(self).debug_camera_activated,
            final(self).debug_text_shown == old(self).debug_text_shown,
            r == if !focused && !old(self).paused {
                HostAction::ShowPauseMenu(true)
            } else {
                HostAction::Nothing
            },
    {
        if !focused && !self.paused {
            self.paused = true;
            HostAction::ShowPauseMenu(true)
        } else {
            HostAction::Nothing
        }
    }

    /// Whether a frame runs the simulation (it does unless paused).
    pub fn simulates(&self) -> (r: bool)
        ensures
            r == !self.paused,
    {
        !self.paused
    }

    /// Whether the player's keys drive the car (they do unless the free
    /// camera is active).
    pub fn car_controls_active(&self) -> (r: bool)
        ensures
            r == !self.debug_camera_activated,
    {
        !self.debug_camera_activated
    }
}

} // verus!
