use gb_rs::ui::controller::{Axis, AxisState, Controller, InputEvent, Key, PadButton};
use gb_rs::ui::{ButtonState, Event};

#[test]
fn key_bindings() {
    let mut c = Controller::new();
    c.update_key(Key::LAlt, ButtonState::Down);
    c.update_key(Key::Return, ButtonState::Down);
    let b = c.buttons();
    assert_eq!(b.a, ButtonState::Down);
    assert_eq!(b.start, ButtonState::Down);
    assert_eq!(b.b, ButtonState::Up);
    c.update_key(Key::LAlt, ButtonState::Up);
    assert_eq!(c.buttons().a, ButtonState::Up);
    // Other keys are ignored
    c.update_key(Key::Other, ButtonState::Down);
    assert_eq!(c.buttons().select, ButtonState::Up);
}

#[test]
fn pad_bindings() {
    let mut c = Controller::new();
    c.update_button(PadButton::Back, ButtonState::Down);
    c.update_button(PadButton::DPadLeft, ButtonState::Down);
    assert_eq!(c.buttons().select, ButtonState::Down);
    assert_eq!(c.buttons().left, ButtonState::Down);
}

#[test]
fn axis_dead_zone() {
    assert_eq!(AxisState::from_value(10000), AxisState::Neutral);
    assert_eq!(AxisState::from_value(10001), AxisState::Positive);
    assert_eq!(AxisState::from_value(-10000), AxisState::Neutral);
    assert_eq!(AxisState::from_value(-10001), AxisState::Negative);
    assert_eq!(AxisState::from_value(-32768), AxisState::Negative);
}

#[test]
fn axis_moves_directions() {
    let mut c = Controller::new();
    c.update_axis(Axis::LeftX, -20000);
    assert_eq!(c.buttons().left, ButtonState::Down);
    assert_eq!(c.buttons().right, ButtonState::Up);
    c.update_axis(Axis::LeftX, 20000);
    assert_eq!(c.buttons().left, ButtonState::Up);
    assert_eq!(c.buttons().right, ButtonState::Down);
    c.update_axis(Axis::LeftY, 20000);
    assert_eq!(c.buttons().down, ButtonState::Down);
    c.update_axis(Axis::LeftY, 0);
    assert_eq!(c.buttons().down, ButtonState::Up);
    assert_eq!(c.buttons().up, ButtonState::Up);
}

#[test]
fn update_reports_power_off() {
    let mut c = Controller::new();
    let evs = vec![InputEvent::KeyDown(Key::Up), InputEvent::Other];
    assert_eq!(c.update(&evs), Event::NoEvent);
    assert_eq!(c.buttons().up, ButtonState::Down);
    let evs = vec![InputEvent::KeyDown(Key::Escape), InputEvent::KeyUp(Key::Up)];
    assert_eq!(c.update(&evs), Event::PowerOff);
    // Events after the power off request are still applied
    assert_eq!(c.buttons().up, ButtonState::Up);
    assert_eq!(c.update(&vec![InputEvent::Quit]), Event::PowerOff);
}

#[test]
fn button_state_is_down() {
    assert!(ButtonState::Down.is_down());
    assert!(!ButtonState::Up.is_down());
}

/// The default bindings: Left Alt, Left Control, Return, Right Shift
/// and the arrows
#[test]
fn default_keybindings_table() {
    let table = [
        (Key::LAlt, 0),
        (Key::LCtrl, 1),
        (Key::Return, 2),
        (Key::RShift, 3),
        (Key::Up, 4),
        (Key::Down, 5),
        (Key::Left, 6),
        (Key::Right, 7),
    ];
    for &(key, button) in table.iter() {
        let mut c = Controller::new();
        c.update_key(key, ButtonState::Down);
        let b = c.buttons();
        let states = [b.a, b.b, b.start, b.select, b.up, b.down, b.left, b.right];
        for (i, s) in states.iter().enumerate() {
            let expected = if i == button { ButtonState::Down } else { ButtonState::Up };
            assert_eq!(*s, expected);
        }
    }
}
