use vstd::prelude::*;

verus! {

/// Bytes of work RAM.
pub const WRAM_SIZE: usize = 0x2000;
/// Bytes of high RAM (`FF80..FFFE`, one spare).
pub const HRAM_SIZE: usize = 0x80;

/// The contents of the console's RAM: work RAM, high RAM, `IE`.
pub type RamView = (Seq<u8>, Seq<u8>, u8);

/// The console's own RAM: work RAM, high RAM and the interrupt enable register `IE`.
pub struct Memory {
    pub wram: Vec<u8>,
    pub hram: Vec<u8>,
    pub ie_register: u8,
}

impl View for Memory {
    type V = RamView;

    open spec fn view(&self) -> RamView {
        (self.wram@, self.hram@, self.ie_register)
    }
}

/// Addresses backed by plain RAM cells: work RAM, high RAM and `IE`.
pub open spec fn is_ram(a: u16) -> bool {
    (0xC000 <= a < 0xE000) || 0xFF80 <= a
}

/// `sp - k`, wrapping.
pub open spec fn sp_minus(sp: u16, k: int) -> u16 {
    ((sp - k + 0x10000) % 0x10000) as u16
}

/// `sp + k`, wrapping.
pub open spec fn sp_plus(sp: u16, k: int) -> u16 {
    ((sp + k) % 0x10000) as u16
}

/// The two bytes a 16-bit push from `sp` writes are RAM.
pub open spec fn stack_in_ram(sp: u16) -> bool {
    is_ram(sp_minus(sp, 1)) && is_ram(sp_minus(sp, 2))
}

pub open spec fn ram_wf(m: RamView) -> bool {
    m.0.len() == WRAM_SIZE && m.1.len() == HRAM_SIZE
}

/// The byte at a RAM address.
pub open spec fn ram_byte(m: RamView, a: u16) -> u8 {
    if 0xC000 <= a < 0xE000 {
        m.0[a - 0xC000]
    } else if a == 0xFFFF {
        m.2
    } else {
        m.1[a - 0xFF80]
    }
}

/// The RAM after writing `v` at RAM address `a`.
pub open spec fn ram_with(m: RamView, a: u16, v: u8) -> RamView {
    if 0xC000 <= a < 0xE000 {
        (m.0.update(a - 0xC000, v), m.1, m.2)
    } else if a == 0xFFFF {
        (m.0, m.1, v)
    } else {
        (m.0, m.1.update(a - 0xFF80, v), m.2)
    }
}

/// The RAM after pushing `v` from `sp`: high byte at `sp - 1`, low byte at `sp - 2`.
pub open spec fn ram_push16(m: RamView, sp: u16, v: u16) -> RamView {
    ram_with(ram_with(m, sp_minus(sp, 1), (v / 256) as u8), sp_minus(sp, 2), (v % 256) as u8)
}

/// The 16-bit value a pop from `sp` reads: low byte at `sp`, high byte at `sp + 1`.
pub open spec fn ram_pop16(m: RamView, sp: u16) -> u16 {
    (ram_byte(m, sp) + 256 * ram_byte(m, sp_plus(sp, 1))) as u16
}

/// Writing a RAM byte and reading it back gives the byte; other addresses keep theirs.
pub proof fn lemma_ram_with(m: RamView, a: u16, v: u8, b: u16)
    requires
        ram_wf(m),
        is_ram(a),
        is_ram(b),
    ensures
        ram_wf(ram_with(m, a, v)),
        ram_byte(ram_with(m, a, v), b) == (if a == b { v } else { ram_byte(m, b) }),
{
}

/// Pushing a 16-bit value on a stack in RAM and popping it at once gives the value back, with
/// the stack pointer where it started.
pub proof fn lemma_stack_round_trip(m: RamView, sp: u16, v: u16)
    requires
        ram_wf(m),
        stack_in_ram(sp),
    ensures
        ram_pop16(ram_push16(m, sp, v), sp_minus(sp, 2)) == v,
        sp_plus(sp_minus(sp, 2), 2) == sp,
{
    let lo_addr = sp_minus(sp, 2);
    let hi_addr = sp_minus(sp, 1);
    assert(sp_plus(lo_addr, 1) == hi_addr);
    let m1 = ram_with(m, hi_addr, (v / 256) as u8);
    lemma_ram_with(m, hi_addr, (v / 256) as u8, hi_addr);
    lemma_ram_with(m1, lo_addr, (v % 256) as u8, lo_addr);
    lemma_ram_with(m1, lo_addr, (v % 256) as u8, hi_addr);
}

impl Memory {
    pub open spec fn wf(&self) -> bool {
        ram_wf(self@)
    }

    /// Zeroed RAM, `IE` clear.
    pub fn new() -> (r: Memory)
        ensures
            r.wf(),
            r.ie_register == 0,
    {
        let mut wram: Vec<u8> = Vec::new();
        let mut i: usize = 0;
        while i < WRAM_SIZE
            invariant
                i <= WRAM_SIZE,
                wram@.len() == i,
            decreases WRAM_SIZE - i,
        {
            wram.push(0);
            i = i + 1;
        }
        let mut hram: Vec<u8> = Vec::new();
        let mut j: usize = 0;
        while j < HRAM_SIZE
            invariant
                j <= HRAM_SIZE,
                hram@.len() == j,
            decreases HRAM_SIZE - j,
        {
            hram.push(0);
            j = j + 1;
        }
        Memory { wram, hram, ie_register: 0 }
    }

    /// Reads work RAM at `address` (`C000..DFFF`).
    pub fn wram_read(&self, address: usize) -> (r: u8)
        requires
            self.wf(),
            0xC000 <= address < 0xE000,
        ensures
            r == self.wram@[address - 0xC000],
    {
        self.wram[address - 0xC000]
    }

    /// Writes work RAM at `address` (`C000..DFFF`).
    pub fn wram_write(&mut self, address: usize, value: u8)
        requires
            old(self).wf(),
            0xC000 <= address < 0xE000,
        ensures
            final(self)@ == ram_with(old(self)@, address as u16, value),
    {
        self.wram.set(address - 0xC000, value);
    }

    /// Reads high RAM at `address` (`FF80..FFFE`).
    pub fn hram_read(&self, address: usize) -> (r: u8)
        requires
            self.wf(),
            0xFF80 <= address < 0xFFFF,
        ensures
            r == self.hram@[address - 0xFF80],
    {
        self.hram[address - 0xFF80]
    }

    /// Writes high RAM at `address` (`FF80..FFFE`).
    pub fn hram_write(&mut self, address: usize, value: u8)
        requires
            old(self).wf(),
            0xFF80 <= address < 0xFFFF,
        ensures
            final(self)@ == ram_with(old(self)@, address as u16, value),
    {
        self.hram.set(address - 0xFF80, value);
    }

    pub fn get_ie_register(&self) -> (r: u8)
        ensures
            r == self.ie_register,
    {
        self.ie_register
    }

    pub fn set_ie_register(&mut self, val: u8)
        ensures
            final(self)@ == (old(self)@.0, old(self)@.1, val),
    {
        self.ie_register = val;
    }

    /// Reads a RAM address.
    pub fn read(&self, address: u16) -> (r: u8)
        requires
            self.wf(),
            is_ram(address),
        ensures
            r == ram_byte(self@, address),
    {
        if address < 0xE000 {
            self.wram_read(address as usize)
        } else if address == 0xFFFF {
            self.ie_register
        } else {
            self.hram_read(address as usize)
        }
    }

    /// Writes a RAM address.
    pub fn write(&mut self, address: u16, value: u8)
        requires
            old(self).wf(),
            is_ram(address),
        ensures
            final(self)@ == ram_with(old(self)@, address, value),
            final(self).wf(),
    {
        if address < 0xE000 {
            self.wram_write(address as usize, value);
        } else if address == 0xFFFF {
            self.ie_register = value;
        } else {
            self.hram_write(address as usize, value);
        }
    }

    /// Little-endian 16-bit read of two RAM addresses.
    pub fn read16(&self, address: u16) -> (r: u16)
        requires
            self.wf(),
            is_ram(address),
            is_ram(sp_plus(address, 1)),
        ensures
            r == ram_pop16(self@, address),
    {
        let lo = self.read(address);
        let next = if address == 0xFFFF { 0 } else { address + 1 };
        let hi = self.read(next);
        lo as u16 + 256 * hi as u16
    }

    /// Decrements `sp` (wrapping) and writes `value` there.
    pub fn stack_push(&mut self, sp: &mut u16, value: u8)
        requires
            old(self).wf(),
            is_ram(sp_minus(*old(sp), 1)),
        ensures
            final(self).wf(),
            *final(sp) == sp_minus(*old(sp), 1),
            final(self)@ == ram_with(old(self)@, *final(sp), value),
    {
        *sp = if *sp == 0 { 0xFFFF } else { *sp - 1 };
        self.write(*sp, value);
    }

    /// Reads at `sp` and increments it (wrapping).
    pub fn stack_pop(&self, sp: &mut u16) -> (r: u8)
        requires
            self.wf(),
            is_ram(*old(sp)),
        ensures
            r == ram_byte(self@, *old(sp)),
            *final(sp) == sp_plus(*old(sp), 1),
    {
        let v = self.read(*sp);
        *sp = if *sp == 0xFFFF { 0 } else { *sp + 1 };
        v
    }

    /// Pushes the high byte, then the low byte.
    pub fn stack_push16(&mut self, sp: &mut u16, value: u16)
        requires
            old(self).wf(),
            stack_in_ram(*old(sp)),
        ensures
            final(self).wf(),
            *final(sp) == sp_minus(*old(sp), 2),
            final(self)@ == ram_push16(old(self)@, *old(sp), value),
    {
        self.stack_push(sp, (value / 256) as u8);
        self.stack_push(sp, (value % 256) as u8);
    }

    /// Pops the low byte, then the high byte.
    pub fn stack_pop16(&self, sp: &mut u16) -> (r: u16)
        requires
            self.wf(),
            is_ram(*old(sp)),
            is_ram(sp_plus(*old(sp), 1)),
        ensures
            r == ram_pop16(self@, *old(sp)),
            *final(sp) == sp_plus(*old(sp), 2),
    {
        let lo = self.stack_pop(sp);
        let hi = self.stack_pop(sp);
        lo as u16 + 256 * hi as u16
    }
}

} // verus!
