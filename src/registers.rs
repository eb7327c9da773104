use vstd::prelude::*;
use vstd::string::*;
use crate::alu::{Flags, flags_byte, flags_of, pack_flags, unpack_flags};
use crate::instruction::RegisterType;

verus! {

/// The CPU register file.
#[derive(Clone, Copy, Debug, PartialEq, Eq, Structural)]
pub struct Registers {
    pub a: u8,
    pub b: u8,
    pub c: u8,
    pub d: u8,
    pub e: u8,
    /// Flags: Z, N, H, C in the high nibble; the low nibble is always zero.
    pub f: u8,
    pub h: u8,
    pub l: u8,
    pub pc: u16,
    pub sp: u16,
}

/// A byte of `F` with its low nibble cleared.
pub open spec fn f_masked(v: u8) -> u8 {
    (v - v % 16) as u8
}

/// The value of a register or pair (big-endian pairs; 0 for `NONE`).
pub open spec fn reg_value(r: Registers, rt: RegisterType) -> u16 {
    match rt {
        RegisterType::A => r.a as u16,
        RegisterType::F => r.f as u16,
        RegisterType::B => r.b as u16,
        RegisterType::C => r.c as u16,
        RegisterType::D => r.d as u16,
        RegisterType::E => r.e as u16,
        RegisterType::H => r.h as u16,
        RegisterType::L => r.l as u16,
        RegisterType::AF => (r.a * 256 + r.f) as u16,
        RegisterType::BC => (r.b * 256 + r.c) as u16,
        RegisterType::DE => (r.d * 256 + r.e) as u16,
        RegisterType::HL => (r.h * 256 + r.l) as u16,
        RegisterType::SP => r.sp,
        RegisterType::PC => r.pc,
        RegisterType::NONE => 0,
    }
}

/// The register file after writing `v` to a register or pair (an 8-bit register takes the
/// low byte; `F` keeps only its high nibble).
pub open spec fn with_reg(r: Registers, rt: RegisterType, v: u16) -> Registers {
    let hi = (v / 256) as u8;
    let lo = (v % 256) as u8;
    match rt {
        RegisterType::A => Registers { a: lo, ..r },
        RegisterType::F => Registers { f: f_masked(lo), ..r },
        RegisterType::B => Registers { b: lo, ..r },
        RegisterType::C => Registers { c: lo, ..r },
        RegisterType::D => Registers { d: lo, ..r },
        RegisterType::E => Registers { e: lo, ..r },
        RegisterType::H => Registers { h: lo, ..r },
        RegisterType::L => Registers { l: lo, ..r },
        RegisterType::AF => Registers { a: hi, f: f_masked(lo), ..r },
        RegisterType::BC => Registers { b: hi, c: lo, ..r },
        RegisterType::DE => Registers { d: hi, e: lo, ..r },
        RegisterType::HL => Registers { h: hi, l: lo, ..r },
        RegisterType::SP => Registers { sp: v, ..r },
        RegisterType::PC => Registers { pc: v, ..r },
        RegisterType::NONE => r,
    }
}

/// The mnemonic of the flags: `Z`, `N`, `H`, `C` where set, `-` where clear.
pub open spec fn flags_mnemonic(fl: Flags) -> Seq<char> {
    seq![
        if fl.z { 'Z' } else { '-' },
        if fl.n { 'N' } else { '-' },
        if fl.h { 'H' } else { '-' },
        if fl.c { 'C' } else { '-' },
    ]
}

/// The low nibble of `F` is zero exactly when `F % 16` is.
pub proof fn lemma_low_nibble(f: u8)
    ensures
        (f % 16 == 0) == (f & 0x0F == 0),
{
    assert((f % 16 == 0) == (f & 0x0F == 0)) by (bit_vector);
}

fn flag_str(on: bool, name: &'static str) -> (r: &'static str)
    requires
        name@.len() == 1,
    ensures
        r@ == (if on { name@ } else { "-"@ }),
{
    if on { name } else { "-" }
}

impl Registers {
    pub open spec fn wf(&self) -> bool {
        self.f % 16 == 0
    }

    /// The register file after power-on.
    pub fn new() -> (r: Registers)
        ensures
            r.wf(),
            r == (Registers { a: 0x01, f: 0xB0, b: 0x00, c: 0x13, d: 0x00, e: 0xD8, h: 0x01, l: 0x4D, sp: 0xFFFE, pc: 0x100 }),
    {
        Registers { a: 0x01, f: 0xB0, b: 0x00, c: 0x13, d: 0x00, e: 0xD8, h: 0x01, l: 0x4D, sp: 0xFFFE, pc: 0x100 }
    }

    /// The flags as text, e.g. `Z-HC`.
    pub fn get_flags_mnemonic(&self) -> (r: String)
        ensures
            r@ == flags_mnemonic(flags_of(self.f)),
    {
        let fl = unpack_flags(self.f);
        proof {
            reveal_strlit("Z");
            reveal_strlit("N");
            reveal_strlit("H");
            reveal_strlit("C");
            reveal_strlit("-");
        }
        let mut s = String::from_str(flag_str(fl.z, "Z"));
        s.append(flag_str(fl.n, "N"));
        s.append(flag_str(fl.h, "H"));
        s.append(flag_str(fl.c, "C"));
        proof {
            assert(s@ =~= flags_mnemonic(fl));
        }
        s
    }

    pub fn flags(&self) -> (r: Flags)
        ensures
            r == flags_of(self.f),
    {
        unpack_flags(self.f)
    }

    pub fn set_flags(&mut self, fl: Flags)
        ensures
            *final(self) == (Registers { f: flags_byte(fl), ..*old(self) }),
            final(self).wf(),
            flags_of(final(self).f) == fl,
    {
        self.f = pack_flags(fl);
    }

    /// Reads a register or pair.
    pub fn read_reg(&self, rt: RegisterType) -> (r: u16)
        ensures
            r == reg_value(*self, rt),
    {
        match rt {
            RegisterType::A => self.a as u16,
            RegisterType::F => self.f as u16,
            RegisterType::B => self.b as u16,
            RegisterType::C => self.c as u16,
            RegisterType::D => self.d as u16,
            RegisterType::E => self.e as u16,
            RegisterType::H => self.h as u16,
            RegisterType::L => self.l as u16,
            RegisterType::AF => self.a as u16 * 256 + self.f as u16,
            RegisterType::BC => self.b as u16 * 256 + self.c as u16,
            RegisterType::DE => self.d as u16 * 256 + self.e as u16,
            RegisterType::HL => self.h as u16 * 256 + self.l as u16,
            RegisterType::SP => self.sp,
            RegisterType::PC => self.pc,
            RegisterType::NONE => 0,
        }
    }

    /// Writes a register or pair.
    pub fn set_reg(&mut self, rt: RegisterType, v: u16)
        ensures
            *final(self) == with_reg(*old(self), rt, v),
            old(self).wf() ==> final(self).wf(),
    {
        let hi = (v / 256) as u8;
        let lo = (v % 256) as u8;
        match rt {
            RegisterType::A => self.a = lo,
            RegisterType::F => self.f = lo - lo % 16,
            RegisterType::B => self.b = lo,
            RegisterType::C => self.c = lo,
            RegisterType::D => self.d = lo,
            RegisterType::E => self.e = lo,
            RegisterType::H => self.h = lo,
            RegisterType::L => self.l = lo,
            RegisterType::AF => {
                self.a = hi;
                self.f = lo - lo % 16;
            },
            RegisterType::BC => {
                self.b = hi;
                self.c = lo;
            },
            RegisterType::DE => {
                self.d = hi;
                self.e = lo;
            },
            RegisterType::HL => {
                self.h = hi;
                self.l = lo;
            },
            RegisterType::SP => self.sp = v,
            RegisterType::PC => self.pc = v,
            RegisterType::NONE => {},
        }
    }
}

} // verus!
