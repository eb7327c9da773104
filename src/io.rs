use vstd::prelude::*;
use crate::alu::{bit_of, bit_set, res_value, set_value};
use crate::input::{Input, InputManager, joypad_output, no_buttons};
use crate::interrupts::{InterruptType, interrupt_index};

verus! {

/// The small I/O registers: joypad, serial cells and the interrupt flag register `IF`.
pub struct IOManager {
    pub input: InputManager,
    pub input_requested: bool,
    /// `FF01` (serial data) and `FF02` (serial control), kept as plain cells.
    pub serial_data: u8,
    pub serial_control: u8,
    /// `IF`; bits 5..7 are always zero.
    pub interrupt_flags: u8,
}

/// Setting one of the five interrupt bits keeps a value below 32.
pub proof fn lemma_set_interrupt_bit(v: u8, n: nat)
    requires
        v < 32,
        n < 5,
    ensures
        set_value(n, v) < 32,
        bit_of(set_value(n, v), n),
        forall|k: nat| k < 8 && k != n ==> bit_of(set_value(n, v), k) == #[trigger] bit_of(v, k),
{
    if n == 0 {
    } else if n == 1 {
    } else if n == 2 {
    } else if n == 3 {
    } else {
    }
}

/// Clearing one of the five interrupt bits clears it and keeps the others.
pub proof fn lemma_clear_interrupt_bit(v: u8, n: nat)
    requires
        v < 32,
        n < 5,
    ensures
        res_value(n, v) < 32,
        !bit_of(res_value(n, v), n),
        forall|k: nat| k < 8 && k != n ==> bit_of(res_value(n, v), k) == #[trigger] bit_of(v, k),
{
    if n == 0 {
    } else if n == 1 {
    } else if n == 2 {
    } else if n == 3 {
    } else {
    }
}

impl IOManager {
    pub open spec fn wf(&self) -> bool {
        self.interrupt_flags < 32
    }

    pub open spec fn read_spec(&self, address: usize) -> u8 {
        if address == 0xFF00 {
            joypad_output(self.input)
        } else if address == 0xFF01 {
            self.serial_data
        } else if address == 0xFF02 {
            self.serial_control
        } else if address == 0xFF0F {
            self.interrupt_flags
        } else {
            0
        }
    }

    pub fn new() -> (r: IOManager)
        ensures
            r.wf(),
            r.interrupt_flags == 0,
            r.input.last_input == no_buttons(),
    {
        IOManager {
            input: InputManager::new(),
            input_requested: false,
            serial_data: 0,
            serial_control: 0,
            interrupt_flags: 0,
        }
    }

    /// Writes `FF00` (row select), `FF01`, `FF02` or `FF0F` (bits 5..7 dropped); other
    /// addresses are ignored.
    pub fn write(&mut self, address: usize, value: u8)
        requires
            old(self).wf(),
        ensures
            final(self).wf(),
            address == 0xFF00 ==> final(self).input.button_mode == !bit_of(value, 5)
                && final(self).input.d_pad_mode == !bit_of(value, 4),
            final(self).input.last_input == old(self).input.last_input,
            address != 0xFF00 ==> final(self).input == old(self).input,
            final(self).serial_data == (if address == 0xFF01 { value } else { old(self).serial_data }),
            final(self).serial_control == (if address == 0xFF02 { value } else { old(self).serial_control }),
            final(self).interrupt_flags == (if address == 0xFF0F { value % 32 } else { old(self).interrupt_flags }),
    {
        if address == 0xFF00 {
            self.input.set_mode(value);
        } else if address == 0xFF01 {
            self.serial_data = value;
        } else if address == 0xFF02 {
            self.serial_control = value;
        } else if address == 0xFF0F {
            self.interrupt_flags = value % 32;
        }
    }

    /// Reads `FF00`, `FF01`, `FF02` or `FF0F`; other addresses read 0.
    pub fn read(&self, address: usize) -> (r: u8)
        ensures
            r == self.read_spec(address),
    {
        if address == 0xFF00 {
            self.input.gamepad_get_output()
        } else if address == 0xFF01 {
            self.serial_data
        } else if address == 0xFF02 {
            self.serial_control
        } else if address == 0xFF0F {
            self.interrupt_flags
        } else {
            0
        }
    }

    /// Takes a new snapshot of the buttons.
    pub fn update_input(&mut self, input: Input)
        ensures
            final(self).input.last_input == input,
            final(self).input.button_mode == old(self).input.button_mode,
            final(self).input.d_pad_mode == old(self).input.d_pad_mode,
            final(self).interrupt_flags == old(self).interrupt_flags,
            final(self).serial_data == old(self).serial_data,
            final(self).serial_control == old(self).serial_control,
    {
        self.input.last_input = input;
    }

    /// Raises the bit of `t` in `IF`.
    pub fn request_interrupt(&mut self, t: InterruptType)
        requires
            old(self).wf(),
        ensures
            final(self).wf(),
            final(self).interrupt_flags == set_value(interrupt_index(t), old(self).interrupt_flags),
            final(self).input == old(self).input,
            final(self).serial_data == old(self).serial_data,
            final(self).serial_control == old(self).serial_control,
    {
        let n: u8 = match t {
            InterruptType::VBLANK => 0,
            InterruptType::LCD_STAT => 1,
            InterruptType::TIMER => 2,
            InterruptType::SERIAL => 3,
            InterruptType::JOYPAD => 4,
        };
        proof {
            lemma_set_interrupt_bit(self.interrupt_flags, n as nat);
        }
        self.interrupt_flags = bit_set(n, self.interrupt_flags);
    }
}

} // verus!
