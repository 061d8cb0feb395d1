use gb_rs::libretro::{Environment, InputDevice, JoyPadButton};

#[test]
fn libretro_codes() {
    assert_eq!(Environment::GetVariable.code(), 15);
    assert_eq!(Environment::SetVariables.code(), 16);
    assert_eq!(Environment::GetVariableUpdate.code(), 17);
    assert_eq!(InputDevice::JoyPad.code(), 1);
    assert_eq!(InputDevice::Pointer.code(), 6);
    assert_eq!(JoyPadButton::B.code(), 0);
    assert_eq!(JoyPadButton::A.code(), 8);
    assert_eq!(JoyPadButton::R3.code(), 15);
}

#[test]
fn libretro_device_from_code() {
    assert_eq!(InputDevice::from_code(1), Some(InputDevice::JoyPad));
    assert_eq!(InputDevice::from_code(0), Some(InputDevice::NoDevice));
    assert_eq!(InputDevice::from_code(7), None);
}
