use vstd::prelude::*;

verus! {

/// The five interrupt sources, each owning one bit of `IF` and `IE`.
#[allow(non_camel_case_types)]
#[derive(Clone, Copy, Debug, PartialEq, Eq, Structural)]
pub enum InterruptType {
    VBLANK,
    LCD_STAT,
    TIMER,
    SERIAL,
    JOYPAD,
}

/// Bit index of an interrupt source (V-Blank = 0 ... Joypad = 4).
pub open spec fn interrupt_index(t: InterruptType) -> nat {
    match t {
        InterruptType::VBLANK => 0,
        InterruptType::LCD_STAT => 1,
        InterruptType::TIMER => 2,
        InterruptType::SERIAL => 3,
        InterruptType::JOYPAD => 4,
    }
}

/// Mask of an interrupt source within `IF` / `IE`.
pub open spec fn interrupt_mask(t: InterruptType) -> u8 {
    match t {
        InterruptType::VBLANK => 1,
        InterruptType::LCD_STAT => 2,
        InterruptType::TIMER => 4,
        InterruptType::SERIAL => 8,
        InterruptType::JOYPAD => 16,
    }
}

/// Dispatch vector of an interrupt source.
pub open spec fn interrupt_vector(t: InterruptType) -> u16 {
    match t {
        InterruptType::VBLANK => 0x40,
        InterruptType::LCD_STAT => 0x48,
        InterruptType::TIMER => 0x50,
        InterruptType::SERIAL => 0x58,
        InterruptType::JOYPAD => 0x60,
    }
}

impl InterruptType {
    /// The bit this source owns in `IF` and `IE`.
    pub fn mask(self) -> (r: u8)
        ensures
            r == interrupt_mask(self),
    {
        match self {
            InterruptType::VBLANK => 1,
            InterruptType::LCD_STAT => 2,
            InterruptType::TIMER => 4,
            InterruptType::SERIAL => 8,
            InterruptType::JOYPAD => 16,
        }
    }

    /// The address the CPU jumps to when dispatching this source.
    pub fn vector(self) -> (r: u16)
        ensures
            r == interrupt_vector(self),
    {
        match self {
            InterruptType::VBLANK => 0x40,
            InterruptType::LCD_STAT => 0x48,
            InterruptType::TIMER => 0x50,
            InterruptType::SERIAL => 0x58,
            InterruptType::JOYPAD => 0x60,
        }
    }

    /// The source whose vector is `addr`; any other address names the joypad.
    pub fn from_address(addr: u16) -> (r: InterruptType)
        ensures
            addr == 0x40 ==> r == InterruptType::VBLANK,
            addr == 0x48 ==> r == InterruptType::LCD_STAT,
            addr == 0x50 ==> r == InterruptType::TIMER,
            addr == 0x58 ==> r == InterruptType::SERIAL,
            !(addr == 0x40 || addr == 0x48 || addr == 0x50 || addr == 0x58) ==> r == InterruptType::JOYPAD,
    {
        if addr == 0x40 {
            InterruptType::VBLANK
        } else if addr == 0x48 {
            InterruptType::LCD_STAT
        } else if addr == 0x50 {
            InterruptType::TIMER
        } else if addr == 0x58 {
            InterruptType::SERIAL
        } else {
            InterruptType::JOYPAD
        }
    }
}

} // verus!
