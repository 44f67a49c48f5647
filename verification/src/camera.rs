//! The camera controller: discrete input state for per-frame camera
//! integration.
//!
//! The controller holds the six directional press-states.  The host
//! keeps the movement speed and the camera's floating-point geometry
//! beside it and integrates the eye position each frame from these
//! booleans.

use vstd::prelude::*;

use crate::input::{is_camera_key, Key, WindowEvent};

verus! {

/// Six directional press-states, pure input-to-intent state.
#[derive(Clone, Copy, PartialEq, Eq, Structural, Debug)]
pub struct CameraController {
    pub is_up_pressed: bool,
    pub is_down_pressed: bool,
    pub is_forward_pressed: bool,
    pub is_backward_pressed: bool,
    pub is_left_pressed: bool,
    pub is_right_pressed: bool,
}

impl CameraController {
    /// The controller the event loop starts with: no key held.
    pub open spec fn initial() -> CameraController {
        CameraController {
            is_up_pressed: false,
            is_down_pressed: false,
            is_forward_pressed: false,
            is_backward_pressed: false,
            is_left_pressed: false,
            is_right_pressed: false,
        }
    }

    /// The controller after one key changed state: the direction the
    /// key drives takes the key's new state, every other direction is
    /// kept.  A key that drives no direction changes nothing.
    pub open spec fn updated(self, key: Key, pressed: bool) -> CameraController {
        match key {
            Key::J => CameraController { is_up_pressed: pressed, ..self },
            Key::K => CameraController { is_down_pressed: pressed, ..self },
            Key::W | Key::Up => CameraController { is_forward_pressed: pressed, ..self },
            Key::S | Key::Down => CameraController { is_backward_pressed: pressed, ..self },
            Key::A | Key::Left => CameraController { is_left_pressed: pressed, ..self },
            Key::D | Key::Right => CameraController { is_right_pressed: pressed, ..self },
            _ => self,
        }
    }

    pub fn new() -> (c: CameraController)
        ensures
            c == CameraController::initial(),
    {
        CameraController {
            is_up_pressed: false,
            is_down_pressed: false,
            is_forward_pressed: false,
            is_backward_pressed: false,
            is_left_pressed: false,
            is_right_pressed: false,
        }
    }

    /// Routes a key press or release to the directional booleans and
    /// reports whether the event was consumed.  Exactly the keyboard
    /// events of the ten camera keys are consumed; the booleans always
    /// track the key's own pressed state, whatever they held before.
    pub fn process_events(&mut self, event: &WindowEvent) -> (consumed: bool)
        ensures
            consumed == (*event matches WindowEvent::Keyboard { key, .. } && is_camera_key(
                key,
            )),
            *event matches WindowEvent::Keyboard { key, pressed } ==> *final(self) == old(
                self,
            ).updated(key, pressed),
            !(*event matches WindowEvent::Keyboard { .. }) ==> *final(self) == *old(self),
    {
        match event {
            WindowEvent::Keyboard { key, pressed } => {
                let is_pressed = *pressed;
                match key {
                    Key::J => {
                        self.is_up_pressed = is_pressed;
                        true
                    },
                    Key::K => {
                        self.is_down_pressed = is_pressed;
                        true
                    },
                    Key::W | Key::Up => {
                        self.is_forward_pressed = is_pressed;
                        true
                    },
                    Key::S | Key::Down => {
                        self.is_backward_pressed = is_pressed;
                        true
                    },
                    Key::A | Key::Left => {
                        self.is_left_pressed = is_pressed;
                        true
                    },
                    Key::D | Key::Right => {
                        self.is_right_pressed = is_pressed;
                        true
                    },
                    _ => false,
                }
            },
            _ => false,
        }
    }
}

} // verus!
