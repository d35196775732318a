//! The joypad register: two select lines choose whether the action or the
//! direction buttons appear in the low nibble, active-low.

use vstd::prelude::*;

verus! {

/// The eight buttons.
#[derive(Debug, Clone, Copy, PartialEq, Eq, Structural)]
pub enum Button {
    Start,
    Select,
    A,
    B,
    Up,
    Down,
    Left,
    Right,
}

/// Joypad state: which button group is selected and which buttons are
/// held down.
#[derive(Debug, Clone, Copy, PartialEq, Eq, Structural)]
pub struct Joypad {
    pub action_selected: bool,
    pub direction_selected: bool,
    pub select_pressed: bool,
    pub start_pressed: bool,
    pub a_pressed: bool,
    pub b_pressed: bool,
    pub up_pressed: bool,
    pub down_pressed: bool,
    pub left_pressed: bool,
    pub right_pressed: bool,
}

/// The value the joypad register reads: all ones except that, with a
/// group selected, each of its held buttons pulls its bit low.
pub open spec fn spec_joypad_read(j: Joypad) -> u8 {
    if j.action_selected {
        (0xF0u8 | (if !j.a_pressed { 0x01u8 } else { 0u8 }) | (if !j.b_pressed {
            0x02u8
        } else {
            0u8
        }) | (if !j.select_pressed { 0x04u8 } else { 0u8 }) | (if !j.start_pressed {
            0x08u8
        } else {
            0u8
        })) as u8
    } else if j.direction_selected {
        (0xF0u8 | (if !j.right_pressed { 0x01u8 } else { 0u8 }) | (if !j.left_pressed {
            0x02u8
        } else {
            0u8
        }) | (if !j.up_pressed { 0x04u8 } else { 0u8 }) | (if !j.down_pressed {
            0x08u8
        } else {
            0u8
        })) as u8
    } else {
        0xFF
    }
}

/// The joypad with one button's held state changed.
pub open spec fn spec_set_button(j: Joypad, button: Button, is_pressed: bool) -> Joypad {
    match button {
        Button::Start => Joypad { start_pressed: is_pressed, ..j },
        Button::Select => Joypad { select_pressed: is_pressed, ..j },
        Button::A => Joypad { a_pressed: is_pressed, ..j },
        Button::B => Joypad { b_pressed: is_pressed, ..j },
        Button::Up => Joypad { up_pressed: is_pressed, ..j },
        Button::Down => Joypad { down_pressed: is_pressed, ..j },
        Button::Left => Joypad { left_pressed: is_pressed, ..j },
        Button::Right => Joypad { right_pressed: is_pressed, ..j },
    }
}

impl Default for Joypad {
    /// Nothing selected, nothing pressed.
    fn default() -> (j: Joypad)
        ensures
            j == (Joypad {
                action_selected: false,
                direction_selected: false,
                select_pressed: false,
                start_pressed: false,
                a_pressed: false,
                b_pressed: false,
                up_pressed: false,
                down_pressed: false,
                left_pressed: false,
                right_pressed: false,
            }),
    {
        Joypad {
            action_selected: false,
            direction_selected: false,
            select_pressed: false,
            start_pressed: false,
            a_pressed: false,
            b_pressed: false,
            up_pressed: false,
            down_pressed: false,
            left_pressed: false,
            right_pressed: false,
        }
    }
}

impl Joypad {
    /// Reads the register, active-low, for the selected group.
    pub fn read(&self) -> (value: u8)
        ensures
            value == spec_joypad_read(*self),
    {
        if self.action_selected {
            0xF0u8 | (if !self.a_pressed { 0x01u8 } else { 0u8 }) | (if !self.b_pressed {
                0x02u8
            } else {
                0u8
            }) | (if !self.select_pressed { 0x04u8 } else { 0u8 }) | (if !self.start_pressed {
                0x08u8
            } else {
                0u8
            })
        } else if self.direction_selected {
            0xF0u8 | (if !self.right_pressed { 0x01u8 } else { 0u8 }) | (if !self.left_pressed {
                0x02u8
            } else {
                0u8
            }) | (if !self.up_pressed { 0x04u8 } else { 0u8 }) | (if !self.down_pressed {
                0x08u8
            } else {
                0u8
            })
        } else {
            0xFF
        }
    }

    /// Writes the register: bits 4 and 5, active-low, select the
    /// direction and the action group.
    pub fn write(&mut self, b: u8)
        ensures
            *final(self) == (Joypad {
                direction_selected: b & 0x10 == 0,
                action_selected: b & 0x20 == 0,
                ..*old(self)
            }),
    {
        self.direction_selected = b & 0x10 == 0;
        self.action_selected = b & 0x20 == 0;
    }

    /// Presses or releases one button; true when the change is visible in
    /// the register as currently selected (the visible edge that raises
    /// the joypad interrupt).
    #[verifier::rlimit(60)]
    #[verifier::spinoff_prover]
    pub fn set_button(&mut self, button: Button, is_pressed: bool) -> (changed: bool)
        ensures
            *final(self) == spec_set_button(*old(self), button, is_pressed),
            changed == (spec_joypad_read(spec_set_button(*old(self), button, is_pressed))
                != spec_joypad_read(*old(self))),
    {
        let orig_state = self.read();
        match button {
            Button::Start => self.start_pressed = is_pressed,
            Button::Select => self.select_pressed = is_pressed,
            Button::A => self.a_pressed = is_pressed,
            Button::B => self.b_pressed = is_pressed,
            Button::Up => self.up_pressed = is_pressed,
            Button::Down => self.down_pressed = is_pressed,
            Button::Left => self.left_pressed = is_pressed,
            Button::Right => self.right_pressed = is_pressed,
        }
        self.read() != orig_state
    }
}

} // verus!
