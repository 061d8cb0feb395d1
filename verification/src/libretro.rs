//! Constants of the libretro API used by the frontend

use vstd::prelude::*;

verus! {

/// RETRO_ENVIRONMENT_* commands
#[derive(Clone, Copy, PartialEq, Eq, Structural, Debug)]
pub enum Environment {
    GetVariable,
    SetVariables,
    GetVariableUpdate,
}

/// RETRO_DEVICE_* input device types
#[derive(Clone, Copy, PartialEq, Eq, Structural, Debug)]
pub enum InputDevice {
    NoDevice,
    JoyPad,
    Mouse,
    Keyboard,
    LightGun,
    Analog,
    Pointer,
}

/// RETRO_DEVICE_ID_JOYPAD_* constants
#[derive(Clone, Copy, PartialEq, Eq, Structural, Debug)]
pub enum JoyPadButton {
    B,
    Y,
    Select,
    Start,
    Up,
    Down,
    Left,
    Right,
    A,
    X,
    L,
    R,
    L2,
    R2,
    L3,
    R3,
}

/// Command number of an environment call
pub open spec fn spec_environment_code(e: Environment) -> u32 {
    match e {
        Environment::GetVariable => 15,
        Environment::SetVariables => 16,
        Environment::GetVariableUpdate => 17,
    }
}

/// Device type number
pub open spec fn spec_device_code(d: InputDevice) -> u32 {
    match d {
        InputDevice::NoDevice => 0,
        InputDevice::JoyPad => 1,
        InputDevice::Mouse => 2,
        InputDevice::Keyboard => 3,
        InputDevice::LightGun => 4,
        InputDevice::Analog => 5,
        InputDevice::Pointer => 6,
    }
}

/// Button id number
pub open spec fn spec_button_code(b: JoyPadButton) -> u32 {
    match b {
        JoyPadButton::B => 0,
        JoyPadButton::Y => 1,
        JoyPadButton::Select => 2,
        JoyPadButton::Start => 3,
        JoyPadButton::Up => 4,
        JoyPadButton::Down => 5,
        JoyPadButton::Left => 6,
        JoyPadButton::Right => 7,
        JoyPadButton::A => 8,
        JoyPadButton::X => 9,
        JoyPadButton::L => 10,
        JoyPadButton::R => 11,
        JoyPadButton::L2 => 12,
        JoyPadButton::R2 => 13,
        JoyPadButton::L3 => 14,
        JoyPadButton::R3 => 15,
    }
}

impl Environment {
    /// Command number passed to the frontend's environment callback
    pub fn code(self) -> (r: u32)
        ensures
            r == spec_environment_code(self),
    {
        match self {
            Environment::GetVariable => 15,
            Environment::SetVariables => 16,
            Environment::GetVariableUpdate => 17,
        }
    }
}

impl InputDevice {
    /// Device type number used by the frontend
    pub fn code(self) -> (r: u32)
        ensures
            r == spec_device_code(self),
    {
        match self {
            InputDevice::NoDevice => 0,
            InputDevice::JoyPad => 1,
            InputDevice::Mouse => 2,
            InputDevice::Keyboard => 3,
            InputDevice::LightGun => 4,
            InputDevice::Analog => 5,
            InputDevice::Pointer => 6,
        }
    }

    /// Device of type number `code`, if there is one
    pub fn from_code(code: u32) -> (r: Option<InputDevice>)
        ensures
            r matches Some(d) ==> spec_device_code(d) == code,
            r is None <==> code > 6,
    {
        match code {
            0 => Some(InputDevice::NoDevice),
            1 => Some(InputDevice::JoyPad),
            2 => Some(InputDevice::Mouse),
            3 => Some(InputDevice::Keyboard),
            4 => Some(InputDevice::LightGun),
            5 => Some(InputDevice::Analog),
            6 => Some(InputDevice::Pointer),
            _ => None,
        }
    }
}

impl JoyPadButton {
    /// Button id number used by the frontend
    pub fn code(self) -> (r: u32)
        ensures
            r == spec_button_code(self),
    {
        match self {
            JoyPadButton::B => 0,
            JoyPadButton::Y => 1,
            JoyPadButton::Select => 2,
            JoyPadButton::Start => 3,
            JoyPadButton::Up => 4,
            JoyPadButton::Down => 5,
            JoyPadButton::Left => 6,
            JoyPadButton::Right => 7,
            JoyPadButton::A => 8,
            JoyPadButton::X => 9,
            JoyPadButton::L => 10,
            JoyPadButton::R => 11,
            JoyPadButton::L2 => 12,
            JoyPadButton::R2 => 13,
            JoyPadButton::L3 => 14,
            JoyPadButton::R3 => 15,
        }
    }
}

/// Distinct buttons have distinct ids, so the frontend can tell them
/// apart.
pub proof fn lemma_button_codes_distinct(a: JoyPadButton, b: JoyPadButton)
    ensures
        spec_button_code(a) == spec_button_code(b) <==> a == b,
{
}

} // verus!
