//! User Interface. Objects used to display the GB Screen, get user
//! input etc...

use vstd::prelude::*;
use crate::gpu::Color;

pub mod controller;

verus! {

/// GB screen. Screen resolution is always 160x144
pub trait Display {
    /// Clear the display
    fn clear(&mut self);

    /// Paint pixel at (x, y) using `color`. (0, 0) is top left.
    fn set_pixel(&mut self, x: u32, y: u32, color: Color);

    /// Current frame is done and can be displayed.
    fn flip(&mut self);
}

/// GB controller
pub trait Controller {
    /// Sample the controller input and update internal state.
    fn update(&mut self) -> Event;

    /// Current state of the buttons for use by the emulator code
    fn buttons(&self) -> Buttons;
}

/// Special events that need to be handled synchronously (instead of
/// waiting for the GB program to come check the INPUT register)
#[derive(Clone, Copy, PartialEq, Eq, Structural, Debug)]
pub enum Event {
    /// No event
    NoEvent,
    /// Shutdown the emulator
    PowerOff,
}

/// Description of a button's state
#[derive(Clone, Copy, PartialEq, Eq, Structural, Debug)]
pub enum ButtonState {
    /// Key is pushed down
    Down,
    /// Key is up
    Up,
}

impl ButtonState {
    pub fn is_down(self) -> (r: bool)
        ensures
            r == (self == ButtonState::Down),
    {
        match self {
            ButtonState::Down => true,
            _ => false,
        }
    }
}

/// State of all the GB buttons
#[derive(Clone, Copy, PartialEq, Eq, Structural, Debug)]
pub struct Buttons {
    pub up: ButtonState,
    pub down: ButtonState,
    pub left: ButtonState,
    pub right: ButtonState,
    pub a: ButtonState,
    pub b: ButtonState,
    pub start: ButtonState,
    pub select: ButtonState,
}

/// Every button in state `s`
pub open spec fn spec_buttons_all(s: ButtonState) -> Buttons {
    Buttons { up: s, down: s, left: s, right: s, a: s, b: s, start: s, select: s }
}

impl Buttons {
    pub fn new(default_state: ButtonState) -> (b: Buttons)
        ensures
            b == spec_buttons_all(default_state),
    {
        Buttons {
            a: default_state,
            b: default_state,
            start: default_state,
            select: default_state,
            up: default_state,
            down: default_state,
            left: default_state,
            right: default_state,
        }
    }
}

} // verus!
