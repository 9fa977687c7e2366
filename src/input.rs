//! Window events as the library sees them, and the press state of the
//! camera's movement keys.

use crate::surface::PhysicalSize;
use vstd::prelude::*;

verus! {

/// The keys that the viewer tells apart.
#[derive(Clone, Copy, Debug, PartialEq, Eq, Structural)]
pub enum Key {
    W,
    A,
    S,
    D,
    Up,
    Down,
    Left,
    Right,
    Escape,
    Other,
}

/// A direction in which the camera's eye can be moved.
#[derive(Clone, Copy, Debug, PartialEq, Eq, Structural)]
pub enum Direction {
    Forward,
    Backward,
    StrafeLeft,
    StrafeRight,
}

/// The movement direction a key drives, if any: W/Up forward, S/Down
/// backward, A/Left strafe left, D/Right strafe right.
pub open spec fn direction_of(key: Key) -> Option<Direction> {
    match key {
        Key::W | Key::Up => Some(Direction::Forward),
        Key::S | Key::Down => Some(Direction::Backward),
        Key::A | Key::Left => Some(Direction::StrafeLeft),
        Key::D | Key::Right => Some(Direction::StrafeRight),
        _ => None,
    }
}

pub fn direction_for_key(key: Key) -> (r: Option<Direction>)
    ensures
        r == direction_of(key),
{
    match key {
        Key::W | Key::Up => Some(Direction::Forward),
        Key::S | Key::Down => Some(Direction::Backward),
        Key::A | Key::Left => Some(Direction::StrafeLeft),
        Key::D | Key::Right => Some(Direction::StrafeRight),
        _ => None,
    }
}

/// A window event, reduced to what the viewer acts on.
#[derive(Clone, Copy, Debug, PartialEq, Eq, Structural)]
pub enum WindowEvent {
    Resized(PhysicalSize),
    ScaleFactorChanged(PhysicalSize),
    CloseRequested,
    KeyboardInput { key: Key, pressed: bool },
    CursorMoved,
    Other,
}

/// Which movement keys are held down.
#[derive(Clone, Copy, Debug, PartialEq, Eq, Structural)]
pub struct CameraController {
    pub is_forward_pressed: bool,
    pub is_backward_pressed: bool,
    pub is_left_pressed: bool,
    pub is_right_pressed: bool,
}

impl CameraController {
    /// Whether the key for direction `d` is held.
    pub open spec fn held(self, d: Direction) -> bool {
        match d {
            Direction::Forward => self.is_forward_pressed,
            Direction::Backward => self.is_backward_pressed,
            Direction::StrafeLeft => self.is_left_pressed,
            Direction::StrafeRight => self.is_right_pressed,
        }
    }

    /// This press state with direction `d` set to `pressed`.
    pub open spec fn with_held(self, d: Direction, pressed: bool) -> CameraController {
        match d {
            Direction::Forward => CameraController { is_forward_pressed: pressed, ..self },
            Direction::Backward => CameraController { is_backward_pressed: pressed, ..self },
            Direction::StrafeLeft => CameraController { is_left_pressed: pressed, ..self },
            Direction::StrafeRight => CameraController { is_right_pressed: pressed, ..self },
        }
    }

    /// A controller with no key held.
    pub fn new() -> (r: CameraController)
        ensures
            forall|d: Direction| !#[trigger] r.held(d),
    {
        CameraController {
            is_forward_pressed: false,
            is_backward_pressed: false,
            is_left_pressed: false,
            is_right_pressed: false,
        }
    }

    /// Records a press or release of `key`. Returns whether the key is one
    /// that moves the camera; any other key leaves the state unchanged.
    pub fn process_key(&mut self, key: Key, pressed: bool) -> (r: bool)
        ensures
            r == direction_of(key) is Some,
            match direction_of(key) {
                Some(d) => *final(self) == old(self).with_held(d, pressed),
                None => *final(self) == *old(self),
            },
    {
        match direction_for_key(key) {
            Some(Direction::Forward) => {
                self.is_forward_pressed = pressed;
                true
            },
            Some(Direction::Backward) => {
                self.is_backward_pressed = pressed;
                true
            },
            Some(Direction::StrafeLeft) => {
                self.is_left_pressed = pressed;
                true
            },
            Some(Direction::StrafeRight) => {
                self.is_right_pressed = pressed;
                true
            },
            None => false,
        }
    }

    /// Whether direction `d` is held.
    pub fn is_held(&self, d: Direction) -> (r: bool)
        ensures
            r == self.held(d),
    {
        match d {
            Direction::Forward => self.is_forward_pressed,
            Direction::Backward => self.is_backward_pressed,
            Direction::StrafeLeft => self.is_left_pressed,
            Direction::StrafeRight => self.is_right_pressed,
        }
    }
}

/// After a press or release of a movement key, its direction is held
/// exactly when it was pressed, and every other direction is as before.
pub proof fn lemma_key_sets_only_its_direction(
    c: CameraController,
    key: Key,
    pressed: bool,
    d: Direction,
)
    requires
        direction_of(key) is Some,
    ensures
        c.with_held(direction_of(key)->0, pressed).held(d) == if d == direction_of(key)->0 {
            pressed
        } else {
            c.held(d)
        },
{
}

} // verus!
