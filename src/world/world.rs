use vstd::prelude::*;

use crate::models::cube::{self, is_cube_at};
use crate::models::object::Object;

verus! {

/// A physical key, as far as the controls tell keys apart.
#[derive(Clone, Copy, Debug, PartialEq, Eq, Structural)]
pub enum Key {
    Escape,
    W,
    S,
    A,
    D,
    E,
    Q,
    ArrowUp,
    ArrowDown,
    ArrowLeft,
    ArrowRight,
    Other,
    Unidentified,
}

/// What the window system reports, reduced to what the world reacts to.
#[derive(Clone, Copy, Debug, PartialEq, Eq, Structural)]
pub enum Event {
    CloseRequested,
    RedrawRequested,
    Resized(u32, u32),
    Key { key: Key, pressed: bool },
    AboutToWait,
    Ignored,
}

/// A camera movement, relative to where the camera looks.
#[derive(Clone, Copy, Debug, PartialEq, Eq, Structural)]
pub enum Motion {
    Forward,
    Backward,
    Left,
    Right,
    Up,
    Down,
}

/// A camera rotation by one angle step.
#[derive(Clone, Copy, Debug, PartialEq, Eq, Structural)]
pub enum Turn {
    PitchDown,
    PitchUp,
    YawLeft,
    YawRight,
}

/// What the event loop does in answer to an event.
#[derive(Clone, Copy, Debug, PartialEq, Eq, Structural)]
pub enum Action {
    Exit,
    Render,
    Resize(u32, u32),
    RequestRedraw,
    Move(Motion),
    Rotate(Turn),
    UnknownKey,
    UnidentifiedKey,
    Nothing,
}

/// The action bound to a pressed key.
pub open spec fn key_action(k: Key) -> Action {
    match k {
        Key::Escape => Action::Exit,
        Key::W => Action::Move(Motion::Forward),
        Key::S => Action::Move(Motion::Backward),
        Key::A => Action::Move(Motion::Left),
        Key::D => Action::Move(Motion::Right),
        Key::E => Action::Move(Motion::Up),
        Key::Q => Action::Move(Motion::Down),
        Key::ArrowUp => Action::Rotate(Turn::PitchUp),
        Key::ArrowDown => Action::Rotate(Turn::PitchDown),
        Key::ArrowLeft => Action::Rotate(Turn::YawLeft),
        Key::ArrowRight => Action::Rotate(Turn::YawRight),
        Key::Other => Action::UnknownKey,
        Key::Unidentified => Action::UnidentifiedKey,
    }
}

/// The action answering an event: closing exits, a redraw request renders,
/// a resize resizes, a pressed key acts, a released key does nothing, and
/// the loop asks for a redraw whenever it is about to wait.
pub open spec fn event_action(e: Event) -> Action {
    match e {
        Event::CloseRequested => Action::Exit,
        Event::RedrawRequested => Action::Render,
        Event::Resized(w, h) => Action::Resize(w, h),
        Event::Key { key, pressed } => if pressed {
            key_action(key)
        } else {
            Action::Nothing
        },
        Event::AboutToWait => Action::RequestRedraw,
        Event::Ignored => Action::Nothing,
    }
}

/// Decides what the event loop does with one event.
pub fn decide(event: Event) -> (r: Action)
    ensures
        r == event_action(event),
{
    match event {
        Event::CloseRequested => Action::Exit,
        Event::RedrawRequested => Action::Render,
        Event::Resized(w, h) => Action::Resize(w, h),
        Event::Key { key, pressed } => {
            if pressed {
                match key {
                    Key::Escape => Action::Exit,
                    Key::W => Action::Move(Motion::Forward),
                    Key::S => Action::Move(Motion::Backward),
                    Key::A => Action::Move(Motion::Left),
                    Key::D => Action::Move(Motion::Right),
                    Key::E => Action::Move(Motion::Up),
                    Key::Q => Action::Move(Motion::Down),
                    Key::ArrowUp => Action::Rotate(Turn::PitchUp),
                    Key::ArrowDown => Action::Rotate(Turn::PitchDown),
                    Key::ArrowLeft => Action::Rotate(Turn::YawLeft),
                    Key::ArrowRight => Action::Rotate(Turn::YawRight),
                    Key::Other => Action::UnknownKey,
                    Key::Unidentified => Action::UnidentifiedKey,
                }
            } else {
                Action::Nothing
            }
        },
        Event::AboutToWait => Action::RequestRedraw,
        Event::Ignored => Action::Nothing,
    }
}

/// The weights of a motion on the camera's forward, right and up vectors.
pub open spec fn motion_weights(m: Motion) -> (int, int, int) {
    match m {
        Motion::Forward => (1, 0, 0),
        Motion::Backward => (-1, 0, 0),
        Motion::Right => (0, 1, 0),
        Motion::Left => (0, -1, 0),
        Motion::Up => (0, 0, 1),
        Motion::Down => (0, 0, -1),
    }
}

impl Motion {
    /// The direction to move in, as weights `(forward, right, up)` on the
    /// camera's own axes: exactly one is non-zero, and it is 1 or -1.
    pub fn weights(&self) -> (r: (i8, i8, i8))
        ensures
            (r.0 as int, r.1 as int, r.2 as int) == motion_weights(*self),
    {
        match self {
            Motion::Forward => (1, 0, 0),
            Motion::Backward => (-1, 0, 0),
            Motion::Right => (0, 1, 0),
            Motion::Left => (0, -1, 0),
            Motion::Up => (0, 0, 1),
            Motion::Down => (0, 0, -1),
        }
    }
}

impl Turn {
    /// Whether the turn is about the horizontal axis across the view (pitch)
    /// rather than the vertical axis (yaw).
    pub fn is_pitch(&self) -> (r: bool)
        ensures
            r == (*self == Turn::PitchDown || *self == Turn::PitchUp),
    {
        match self {
            Turn::PitchDown | Turn::PitchUp => true,
            Turn::YawLeft | Turn::YawRight => false,
        }
    }

    /// The sign of the turn's angle step: pitching down and yawing right turn
    /// by a positive angle, the other two by a negative one.
    pub fn sign(&self) -> (r: i8)
        ensures
            r == (if *self == Turn::PitchDown || *self == Turn::YawRight {
                1i8
            } else {
                -1i8
            }),
    {
        match self {
            Turn::PitchDown | Turn::YawRight => 1,
            Turn::PitchUp | Turn::YawLeft => -1,
        }
    }
}

/// The standalone cubes the world draws: one at the origin and one 100 units
/// along x.
pub fn scene_objects() -> (r: Vec<Object>)
    ensures
        r@.len() == 2,
        is_cube_at(r@[0]@, (0, 0, 0)),
        is_cube_at(r@[1]@, (100, 0, 0)),
{
    let mut r: Vec<Object> = Vec::new();
    r.push(cube::new([0, 0, 0]));
    r.push(cube::new([100, 0, 0]));
    r
}

} // verus!
