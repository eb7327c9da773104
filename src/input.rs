use vstd::prelude::*;
use crate::alu::{bit_of, test_bit};

verus! {

/// Which of the eight buttons are held.
#[derive(Clone, Copy, Debug, PartialEq, Eq, Structural)]
pub struct Input {
    pub a: bool,
    pub b: bool,
    pub select: bool,
    pub start: bool,
    pub right: bool,
    pub left: bool,
    pub up: bool,
    pub down: bool,
}

/// The joypad register's view of the buttons: the selected rows and the last input.
pub struct InputManager {
    pub d_pad_mode: bool,
    pub button_mode: bool,
    pub last_input: Input,
}

pub open spec fn low_bit_held(m: InputManager, k: int) -> bool {
    let i = m.last_input;
    if k == 0 {
        (m.button_mode && i.a) || (m.d_pad_mode && i.right)
    } else if k == 1 {
        (m.button_mode && i.b) || (m.d_pad_mode && i.left)
    } else if k == 2 {
        (m.button_mode && i.select) || (m.d_pad_mode && i.up)
    } else {
        (m.button_mode && i.start) || (m.d_pad_mode && i.down)
    }
}

/// The value of `FF00`: `0xCF` with the bit of each held button of a selected row cleared
/// (bit 0: A / Right, 1: B / Left, 2: Select / Up, 3: Start / Down).
pub open spec fn joypad_output(m: InputManager) -> u8 {
    (0xCF - (if low_bit_held(m, 0) { 1int } else { 0 }) - (if low_bit_held(m, 1) { 2int } else { 0 })
        - (if low_bit_held(m, 2) { 4int } else { 0 }) - (if low_bit_held(m, 3) { 8int } else { 0 })) as u8
}

/// The snapshot with no button held.
pub open spec fn no_buttons() -> Input {
    Input { a: false, b: false, select: false, start: false, right: false, left: false, up: false, down: false }
}

impl Input {
    /// No button held.
    pub fn new() -> (r: Input)
        ensures
            r == no_buttons(),
    {
        Input {
            a: false,
            b: false,
            select: false,
            start: false,
            right: false,
            left: false,
            up: false,
            down: false,
        }
    }
}

impl InputManager {
    /// No row selected, no button held.
    pub fn new() -> (r: InputManager)
        ensures
            !r.d_pad_mode,
            !r.button_mode,
            r.last_input == no_buttons(),
    {
        InputManager { d_pad_mode: false, button_mode: false, last_input: Input::new() }
    }

    /// A write of `FF00`: a clear bit 5 selects the action buttons, a clear bit 4 the pad.
    pub fn set_mode(&mut self, mode: u8)
        ensures
            final(self).button_mode == !bit_of(mode, 5),
            final(self).d_pad_mode == !bit_of(mode, 4),
            final(self).last_input == old(self).last_input,
    {
        self.button_mode = !test_bit(mode, 5);
        self.d_pad_mode = !test_bit(mode, 4);
    }

    /// A read of `FF00`.
    pub fn gamepad_get_output(&self) -> (r: u8)
        ensures
            r == joypad_output(*self),
    {
        let i = self.last_input;
        let mut output: u8 = 0xCF;
        if (self.button_mode && i.a) || (self.d_pad_mode && i.right) {
            output = output - 1;
        }
        if (self.button_mode && i.b) || (self.d_pad_mode && i.left) {
            output = output - 2;
        }
        if (self.button_mode && i.select) || (self.d_pad_mode && i.up) {
            output = output - 4;
        }
        if (self.button_mode && i.start) || (self.d_pad_mode && i.down) {
            output = output - 8;
        }
        output
    }
}

} // verus!
