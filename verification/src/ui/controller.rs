//! Hardcoded bindings of keyboard keys and game controller buttons to
//! the GB buttons

use vstd::prelude::*;
use crate::ui::{ButtonState, Buttons, Event, spec_buttons_all};

verus! {

/// Keyboard keys the emulator reacts to
#[derive(Clone, Copy, PartialEq, Eq, Structural, Debug)]
pub enum Key {
    Up,
    Down,
    Left,
    Right,
    LAlt,
    LCtrl,
    Return,
    RShift,
    Escape,
    /// Any other key
    Other,
}

/// Game controller buttons the emulator reacts to
#[derive(Clone, Copy, PartialEq, Eq, Structural, Debug)]
pub enum PadButton {
    A,
    B,
    DPadLeft,
    DPadRight,
    DPadUp,
    DPadDown,
    Start,
    Back,
    /// Any other button
    Other,
}

/// Game controller axes
#[derive(Clone, Copy, PartialEq, Eq, Structural, Debug)]
pub enum Axis {
    LeftX,
    LeftY,
    /// Any other axis
    Other,
}

/// Input events, as the frontend reports them
#[derive(Clone, Copy, PartialEq, Eq, Structural, Debug)]
pub enum InputEvent {
    KeyDown(Key),
    KeyUp(Key),
    ButtonDown(PadButton),
    ButtonUp(PadButton),
    /// The axis moved to the given position, from -32768 to 32767
    AxisMotion(Axis, i16),
    /// The window was closed
    Quit,
    /// Any other event
    Other,
}

/// Position of an axis
#[derive(Clone, Copy, PartialEq, Eq, Structural, Debug)]
pub enum AxisState {
    Neutral,
    Negative,
    Positive,
}

/// The controller axis moves in a range from -32768 to +32767. To
/// avoid spurious events this constant says how far from 0 the axis
/// has to move for us to register the event.
pub const AXIS_DEAD_ZONE: i16 = 10000;

/// Position of an axis at value `val`
pub open spec fn spec_axis_state(val: i16) -> AxisState {
    if val > AXIS_DEAD_ZONE {
        AxisState::Positive
    } else if val < -AXIS_DEAD_ZONE {
        AxisState::Negative
    } else {
        AxisState::Neutral
    }
}

/// `Down` exactly when `b` holds
pub open spec fn spec_down_if(b: bool) -> ButtonState {
    if b {
        ButtonState::Down
    } else {
        ButtonState::Up
    }
}

impl AxisState {
    /// Position of an axis at value `val`
    pub fn from_value(val: i16) -> (r: AxisState)
        ensures
            r == spec_axis_state(val),
    {
        if val > AXIS_DEAD_ZONE {
            AxisState::Positive
        } else if val < -AXIS_DEAD_ZONE {
            AxisState::Negative
        } else {
            AxisState::Neutral
        }
    }

    /// Button state of the direction towards negative values
    pub fn down_if_negative(self) -> (r: ButtonState)
        ensures
            r == spec_down_if(self == AxisState::Negative),
    {
        if self == AxisState::Negative {
            ButtonState::Down
        } else {
            ButtonState::Up
        }
    }

    /// Button state of the direction towards positive values
    pub fn down_if_positive(self) -> (r: ButtonState)
        ensures
            r == spec_down_if(self == AxisState::Positive),
    {
        if self == AxisState::Positive {
            ButtonState::Down
        } else {
            ButtonState::Up
        }
    }
}

/// State of the input mapping: the GB buttons and the position of
/// the left stick
pub struct ControllerView {
    pub buttons: Buttons,
    pub x_axis_state: AxisState,
    pub y_axis_state: AxisState,
}

/// Buttons after `key` goes to `state`
pub open spec fn spec_update_key(b: Buttons, key: Key, state: ButtonState) -> Buttons {
    match key {
        Key::Up => Buttons { up: state, ..b },
        Key::Down => Buttons { down: state, ..b },
        Key::Left => Buttons { left: state, ..b },
        Key::Right => Buttons { right: state, ..b },
        Key::LAlt => Buttons { a: state, ..b },
        Key::LCtrl => Buttons { b: state, ..b },
        Key::Return => Buttons { start: state, ..b },
        Key::RShift => Buttons { select: state, ..b },
        _ => b,
    }
}

/// Buttons after controller button `button` goes to `state`
pub open spec fn spec_update_button(b: Buttons, button: PadButton, state: ButtonState) -> Buttons {
    match button {
        PadButton::A => Buttons { a: state, ..b },
        PadButton::B => Buttons { b: state, ..b },
        PadButton::DPadLeft => Buttons { left: state, ..b },
        PadButton::DPadRight => Buttons { right: state, ..b },
        PadButton::DPadUp => Buttons { up: state, ..b },
        PadButton::DPadDown => Buttons { down: state, ..b },
        PadButton::Start => Buttons { start: state, ..b },
        PadButton::Back => Buttons { select: state, ..b },
        _ => b,
    }
}

/// Left stick moving to `val` on `axis`: when the position changes,
/// the two directions of that axis follow it
pub open spec fn spec_update_axis(s: ControllerView, axis: Axis, val: i16) -> ControllerView {
    let state = spec_axis_state(val);
    match axis {
        Axis::LeftX => if state != s.x_axis_state {
            ControllerView {
                buttons: Buttons {
                    left: spec_down_if(state == AxisState::Negative),
                    right: spec_down_if(state == AxisState::Positive),
                    ..s.buttons
                },
                x_axis_state: state,
                ..s
            }
        } else {
            s
        },
        Axis::LeftY => if state != s.y_axis_state {
            ControllerView {
                buttons: Buttons {
                    up: spec_down_if(state == AxisState::Negative),
                    down: spec_down_if(state == AxisState::Positive),
                    ..s.buttons
                },
                y_axis_state: state,
                ..s
            }
        } else {
            s
        },
        _ => s,
    }
}

/// State after event `ev`, and whether it asks to power off (Escape
/// or closing the window)
pub open spec fn spec_handle(s: ControllerView, ev: InputEvent) -> (ControllerView, bool) {
    match ev {
        InputEvent::KeyDown(Key::Escape) => (s, true),
        InputEvent::KeyDown(key) => (
            ControllerView { buttons: spec_update_key(s.buttons, key, ButtonState::Down), ..s },
            false,
        ),
        InputEvent::KeyUp(key) => (
            ControllerView { buttons: spec_update_key(s.buttons, key, ButtonState::Up), ..s },
            false,
        ),
        InputEvent::ButtonDown(b) => (
            ControllerView { buttons: spec_update_button(s.buttons, b, ButtonState::Down), ..s },
            false,
        ),
        InputEvent::ButtonUp(b) => (
            ControllerView { buttons: spec_update_button(s.buttons, b, ButtonState::Up), ..s },
            false,
        ),
        InputEvent::AxisMotion(axis, val) => (spec_update_axis(s, axis, val), false),
        InputEvent::Quit => (s, true),
        InputEvent::Other => (s, false),
    }
}

/// State after the events `evs` in order, and whether one of them asks
/// to power off
pub open spec fn spec_handle_all(s: ControllerView, evs: Seq<InputEvent>) -> (ControllerView, bool)
    decreases evs.len(),
{
    if evs.len() == 0 {
        (s, false)
    } else {
        let (s1, off) = spec_handle_all(s, evs.drop_last());
        let (s2, off2) = spec_handle(s1, evs.last());
        (s2, off || off2)
    }
}

/// Keyboard and game controller input, mapped to the GB buttons
pub struct Controller {
    buttons: Buttons,
    x_axis_state: AxisState,
    y_axis_state: AxisState,
}

impl Controller {
    /// Abstract state
    pub closed spec fn view(&self) -> ControllerView {
        ControllerView {
            buttons: self.buttons,
            x_axis_state: self.x_axis_state,
            y_axis_state: self.y_axis_state,
        }
    }

    /// Every button up and the stick in the middle
    pub fn new() -> (c: Controller)
        ensures
            c@ == (ControllerView {
                buttons: spec_buttons_all(ButtonState::Up),
                x_axis_state: AxisState::Neutral,
                y_axis_state: AxisState::Neutral,
            }),
    {
        Controller {
            buttons: Buttons::new(ButtonState::Up),
            x_axis_state: AxisState::Neutral,
            y_axis_state: AxisState::Neutral,
        }
    }

    /// Current state of the buttons for use by the emulator code
    pub fn buttons(&self) -> (b: Buttons)
        ensures
            b == self@.buttons,
    {
        self.buttons
    }

    /// Update key state. For now keybindings are hardcoded.
    pub fn update_key(&mut self, key: Key, state: ButtonState)
        ensures
            final(self)@ == (ControllerView {
                buttons: spec_update_key(old(self)@.buttons, key, state),
                ..old(self)@
            }),
    {
        let mut b = self.buttons;
        match key {
            Key::Up => b.up = state,
            Key::Down => b.down = state,
            Key::Left => b.left = state,
            Key::Right => b.right = state,
            Key::LAlt => b.a = state,
            Key::LCtrl => b.b = state,
            Key::Return => b.start = state,
            Key::RShift => b.select = state,
            _ => {},
        }
        self.buttons = b;
    }

    /// Same as `update_key` but for controller buttons
    pub fn update_button(&mut self, button: PadButton, state: ButtonState)
        ensures
            final(self)@ == (ControllerView {
                buttons: spec_update_button(old(self)@.buttons, button, state),
                ..old(self)@
            }),
    {
        let mut b = self.buttons;
        match button {
            PadButton::A => b.a = state,
            PadButton::B => b.b = state,
            PadButton::DPadLeft => b.left = state,
            PadButton::DPadRight => b.right = state,
            PadButton::DPadUp => b.up = state,
            PadButton::DPadDown => b.down = state,
            PadButton::Start => b.start = state,
            PadButton::Back => b.select = state,
            _ => {},
        }
        self.buttons = b;
    }

    /// Map left stick X/Y to directional buttons
    pub fn update_axis(&mut self, axis: Axis, val: i16)
        ensures
            final(self)@ == spec_update_axis(old(self)@, axis, val),
    {
        let mut b = self.buttons;
        let state = AxisState::from_value(val);
        match axis {
            Axis::LeftX => {
                if state != self.x_axis_state {
                    self.x_axis_state = state;
                    b.left = state.down_if_negative();
                    b.right = state.down_if_positive();
                }
            },
            Axis::LeftY => {
                if state != self.y_axis_state {
                    self.y_axis_state = state;
                    b.up = state.down_if_negative();
                    b.down = state.down_if_positive();
                }
            },
            _ => {},
        }
        self.buttons = b;
    }

    /// Apply one input event; `true` when it asks to power off
    pub fn handle_event(&mut self, ev: InputEvent) -> (off: bool)
        ensures
            (final(self)@, off) == spec_handle(old(self)@, ev),
    {
        match ev {
            InputEvent::KeyDown(Key::Escape) => true,
            InputEvent::KeyDown(key) => {
                self.update_key(key, ButtonState::Down);
                false
            },
            InputEvent::KeyUp(key) => {
                self.update_key(key, ButtonState::Up);
                false
            },
            InputEvent::ButtonDown(button) => {
                self.update_button(button, ButtonState::Down);
                false
            },
            InputEvent::ButtonUp(button) => {
                self.update_button(button, ButtonState::Up);
                false
            },
            InputEvent::AxisMotion(axis, val) => {
                self.update_axis(axis, val);
                false
            },
            InputEvent::Quit => true,
            InputEvent::Other => false,
        }
    }

    /// Apply the events polled from the frontend, in order. The result
    /// is `PowerOff` if one of them asks to shut the emulator down.
    pub fn update(&mut self, events: &Vec<InputEvent>) -> (e: Event)
        ensures
            final(self)@ == spec_handle_all(old(self)@, events@).0,
            e == (if spec_handle_all(old(self)@, events@).1 {
                Event::PowerOff
            } else {
                Event::NoEvent
            }),
    {
        let mut event = Event::NoEvent;
        let mut i: usize = 0;
        while i < events.len()
            invariant
                i <= events@.len(),
                self@ == spec_handle_all(old(self)@, events@.take(i as int)).0,
                event == (if spec_handle_all(old(self)@, events@.take(i as int)).1 {
                    Event::PowerOff
                } else {
                    Event::NoEvent
                }),
            decreases events@.len() - i,
        {
            proof {
                assert(events@.take(i + 1).drop_last() =~= events@.take(i as int));
            }
            if self.handle_event(events[i]) {
                event = Event::PowerOff;
            }
            i = i + 1;
        }
        proof {
            assert(events@.take(events@.len() as int) =~= events@);
        }
        event
    }
}

/// A key pressed and then released leaves the buttons as they were
/// before, if its button was up: the bindings are undone by the
/// opposite event.
pub proof fn lemma_key_press_release(b: Buttons, key: Key)
    requires
        b == spec_update_key(b, key, ButtonState::Up),
    ensures
        spec_update_key(spec_update_key(b, key, ButtonState::Down), key, ButtonState::Up) == b,
{
}

} // verus!
