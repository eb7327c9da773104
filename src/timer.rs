use vstd::prelude::*;

verus! {

/// The divider and the programmable timer (`FF04..FF07`).
pub struct Timer {
    /// The full 16-bit divider; `FF04` shows its high byte.
    pub div: u16,
    pub tima: u8,
    pub tma: u8,
    /// Bit 2 enables the timer, bits 0..1 select the divider bit it follows.
    pub tac: u8,
}

/// The divider bit that clocks `TIMA` for a given `TAC` (00: bit 9, 01: bit 3, 10: bit 5, 11: bit 7).
pub open spec fn timer_bit(div: u16, tac: u8) -> bool {
    if tac % 4 == 0 {
        (div / 512) % 2 == 1
    } else if tac % 4 == 1 {
        (div / 8) % 2 == 1
    } else if tac % 4 == 2 {
        (div / 32) % 2 == 1
    } else {
        (div / 128) % 2 == 1
    }
}

/// Whether a divider step from `prev` to `next` clocks `TIMA`: the timer is enabled and the
/// selected bit falls from 1 to 0.
pub open spec fn timer_clocked(prev: u16, next: u16, tac: u8) -> bool {
    (tac / 4) % 2 == 1 && timer_bit(prev, tac) && !timer_bit(next, tac)
}

/// Whether `address` is one of the timer registers.
pub open spec fn is_timer_address(address: usize) -> bool {
    0xFF04 <= address <= 0xFF07
}

impl Timer {
    pub open spec fn read_spec(&self, address: usize) -> u8 {
        if address == 0xFF04 {
            (self.div / 256) as u8
        } else if address == 0xFF05 {
            self.tima
        } else if address == 0xFF06 {
            self.tma
        } else {
            self.tac
        }
    }

    /// The timer at power-on.
    pub fn new() -> (r: Timer)
        ensures
            r.div == 0xABCC,
            r.tima == 0,
            r.tma == 0,
            r.tac == 0,
    {
        Timer { div: 0xABCC, tima: 0, tma: 0, tac: 0 }
    }

    fn selected_bit(div: u16, tac: u8) -> (r: bool)
        ensures
            r == timer_bit(div, tac),
    {
        let sel = tac % 4;
        if sel == 0 {
            (div / 512) % 2 == 1
        } else if sel == 1 {
            (div / 8) % 2 == 1
        } else if sel == 2 {
            (div / 32) % 2 == 1
        } else {
            (div / 128) % 2 == 1
        }
    }

    /// One clock sub-cycle: the divider counts up (wrapping), and `TIMA` counts on a falling
    /// edge of the selected divider bit; when it overflows it is reloaded from `TMA` and the
    /// result is `true`, a request for the timer interrupt.
    pub fn tick(&mut self) -> (r: bool)
        ensures
            final(self).div == (old(self).div + 1) % 65536,
            final(self).tma == old(self).tma,
            final(self).tac == old(self).tac,
            final(self).tima == (if !timer_clocked(old(self).div, final(self).div, old(self).tac) {
                old(self).tima
            } else if old(self).tima == 255 {
                old(self).tma
            } else {
                (old(self).tima + 1) as u8
            }),
            r == (timer_clocked(old(self).div, final(self).div, old(self).tac) && old(self).tima == 255),
    {
        let prev = self.div;
        self.div = if prev == 0xFFFF { 0 } else { prev + 1 };
        let clocked = (self.tac / 4) % 2 == 1 && Timer::selected_bit(prev, self.tac)
            && !Timer::selected_bit(self.div, self.tac);
        if clocked {
            if self.tima == 255 {
                self.tima = self.tma;
                return true;
            }
            self.tima = self.tima + 1;
        }
        false
    }

    /// Reads `FF04` (the divider's high byte), `FF05`, `FF06` or `FF07`.
    pub fn read_byte(&self, address: usize) -> (r: u8)
        requires
            is_timer_address(address),
        ensures
            r == self.read_spec(address),
    {
        if address == 0xFF04 {
            (self.div / 256) as u8
        } else if address == 0xFF05 {
            self.tima
        } else if address == 0xFF06 {
            self.tma
        } else {
            self.tac
        }
    }

    /// Writes a timer register; any write to `FF04` clears the divider, and only the low
    /// three bits of `TAC` are kept.
    pub fn write_byte(&mut self, address: usize, value: u8)
        requires
            is_timer_address(address),
        ensures
            final(self).div == (if address == 0xFF04 { 0 } else { old(self).div }),
            final(self).tima == (if address == 0xFF05 { value } else { old(self).tima }),
            final(self).tma == (if address == 0xFF06 { value } else { old(self).tma }),
            final(self).tac == (if address == 0xFF07 { value % 8 } else { old(self).tac }),
    {
        if address == 0xFF04 {
            self.div = 0;
        } else if address == 0xFF05 {
            self.tima = value;
        } else if address == 0xFF06 {
            self.tma = value;
        } else {
            self.tac = value % 8;
        }
    }

    /// Clears every timer register.
    pub fn reset(&mut self)
        ensures
            final(self).div == 0,
            final(self).tima == 0,
            final(self).tma == 0,
            final(self).tac == 0,
    {
        self.div = 0;
        self.tima = 0;
        self.tma = 0;
        self.tac = 0;
    }
}

} // verus!
