//! Controller input handling
//!
//! Game boy controls are sampled by setting one of two lines
//! "high". One is connected to the four direction cross, the other to
//! the other four buttons. When the user presses a button it connects
//! one of those two lines with a pin of the gameboy and sets one bit
//! in the INPUT register (if the line is selected).

use vstd::prelude::*;
use crate::ui;

verus! {

#[derive(Clone, Copy, Debug)]
pub struct Buttons {
    /// `true` if the "directions" line is active
    pub directions_selected: bool,
    /// `true` if the "buttons" line is active
    pub buttons_selected: bool,
    /// State of the controller
    pub buttons: ui::Buttons,
}

/// Input bit pulled by a pressed key on one of the selected lines
pub open spec fn spec_line_bit(
    dir_sel: bool,
    dir: ui::ButtonState,
    btn_sel: bool,
    btn: ui::ButtonState,
) -> int {
    if (dir_sel && dir == ui::ButtonState::Down) || (btn_sel && btn == ui::ButtonState::Down) {
        1
    } else {
        0
    }
}

/// Active bits of the INPUT register: the selected lines in bits 4
/// and 5, the pressed keys of the selected lines in bits [3:0]
pub open spec fn spec_active(s: Buttons) -> int {
    let b = s.buttons;
    let d = s.directions_selected;
    let p = s.buttons_selected;
    (if d { 0x10int } else { 0 }) + (if p { 0x20int } else { 0 })
        + spec_line_bit(d, b.right, p, b.a)
        + 2 * spec_line_bit(d, b.left, p, b.b)
        + 4 * spec_line_bit(d, b.up, p, b.select)
        + 8 * spec_line_bit(d, b.down, p, b.start)
}

/// Value of the INPUT register: lines are at 1 when inactive
pub open spec fn spec_input(s: Buttons) -> u8 {
    (0xff - spec_active(s)) as u8
}

/// Input bit of a key pair: 1 if a key of a selected line is pressed
fn line_bit(dir_sel: bool, dir: ui::ButtonState, btn_sel: bool, btn: ui::ButtonState) -> (r: u8)
    ensures
        r == spec_line_bit(dir_sel, dir, btn_sel, btn),
        r <= 1,
{
    if (dir_sel && dir.is_down()) || (btn_sel && btn.is_down()) {
        1
    } else {
        0
    }
}

impl Buttons {
    pub fn new() -> (b: Buttons)
        ensures
            b == (Buttons {
                directions_selected: false,
                buttons_selected: false,
                buttons: ui::spec_buttons_all(ui::ButtonState::Up),
            }),
    {
        Buttons {
            directions_selected: false,
            buttons_selected: false,
            buttons: ui::Buttons::new(ui::ButtonState::Up),
        }
    }

    /// Return the value of the INPUT register. Lines are to 1 when
    /// inactive.
    pub fn input(&self) -> (r: u8)
        ensures
            r == spec_input(*self),
    {
        let b = self.buttons;
        let d = self.directions_selected;
        let p = self.buttons_selected;
        // For simplicity the active lines are marked with 1 and the
        // value is complemented at the end
        let b0 = line_bit(d, b.right, p, b.a);
        let b1 = line_bit(d, b.left, p, b.b);
        let b2 = line_bit(d, b.up, p, b.select);
        let b3 = line_bit(d, b.down, p, b.start);
        let lines: u8 = if d {
            0x10
        } else {
            0
        } + if p {
            0x20
        } else {
            0
        };
        let active: u8 = lines + b0 + 2 * b1 + 4 * b2 + 8 * b3;
        0xff - active
    }

    /// Select the lines: a line is selected by setting its bit to 0
    pub fn set_input(&mut self, val: u8)
        ensures
            *final(self) == (Buttons {
                directions_selected: val & 0x10 == 0,
                buttons_selected: val & 0x20 == 0,
                ..*old(self)
            }),
    {
        self.directions_selected = val & 0x10 == 0;
        self.buttons_selected = val & 0x20 == 0;
    }

    /// Update the state of the controller
    pub fn set_buttons(&mut self, buttons: ui::Buttons)
        ensures
            *final(self) == (Buttons { buttons: buttons, ..*old(self) }),
    {
        self.buttons = buttons;
    }
}

} // verus!
