use vstd::prelude::*;
use crate::cartridge::Cartridge;
use crate::io::IOManager;
use crate::lcd::is_lcd_address;
use crate::memory::{Memory, is_ram, ram_byte, ram_push16, ram_with, sp_minus, sp_plus, stack_in_ram};
use crate::ppu::{PPU, PpuRequests};
use crate::timer::{Timer, is_timer_address, timer_clocked};
use crate::interrupts::InterruptType;

verus! {

/// The address decoder: every device of the machine, held by value.
pub struct Bus {
    pub cart: Cartridge,
    pub ppu: PPU,
    pub timer: Timer,
    pub memory: Memory,
    pub ioram: IOManager,
}

impl Bus {
    pub open spec fn wf(&self) -> bool {
        &&& self.cart.wf()
        &&& self.ppu.wf()
        &&& self.memory.wf()
        &&& self.ioram.wf()
    }

    /// What a CPU read of `address` returns.
    pub open spec fn read_spec(&self, address: u16) -> u8 {
        if 0x8000 <= address < 0xA000 {
            self.ppu.vram@[address - 0x8000]
        } else if address < 0xC000 {
            self.cart.mbc.read_spec(address as usize)
        } else if address < 0xE000 {
            ram_byte(self.memory@, address)
        } else if address < 0xFE00 {
            0
        } else if address < 0xFEA0 {
            if self.ppu.lcd.dma.active {
                0xFF
            } else {
                self.ppu.oam_byte(address - 0xFE00)
            }
        } else if address < 0xFF00 {
            0
        } else if is_lcd_address(address as usize) {
            self.ppu.lcd.read_spec(address as usize)
        } else if is_timer_address(address as usize) {
            self.timer.read_spec(address as usize)
        } else if address < 0xFF80 {
            self.ioram.read_spec(address as usize)
        } else {
            ram_byte(self.memory@, address)
        }
    }

    /// A machine around a cartridge, every other device at power-on.
    pub fn new(cart: Cartridge) -> (r: Bus)
        requires
            cart.wf(),
        ensures
            r.wf(),
            r.cart == cart,
            r.ioram.interrupt_flags == 0,
            r.memory.ie_register == 0,
            r.timer.div == 0xABCC,
            !r.ppu.lcd.dma.active,
    {
        Bus { cart, ppu: PPU::new(), timer: Timer::new(), memory: Memory::new(), ioram: IOManager::new() }
    }

    pub fn get_ie_register(&self) -> (r: u8)
        ensures
            r == self.memory.ie_register,
    {
        self.memory.get_ie_register()
    }

    /// Reads one byte. The sprite table reads `FF` while a DMA is copying.
    pub fn read8(&self, address: u16) -> (r: u8)
        requires
            self.wf(),
        ensures
            r == self.read_spec(address),
    {
        if 0x8000 <= address && address < 0xA000 {
            self.ppu.vram_read(address as usize)
        } else if address < 0xC000 {
            self.cart.read(address as usize)
        } else if address < 0xE000 {
            self.memory.read(address)
        } else if address < 0xFE00 {
            0
        } else if address < 0xFEA0 {
            if self.ppu.lcd.dma_active() {
                0xFF
            } else {
                self.ppu.oam_read(address as usize)
            }
        } else if address < 0xFF00 {
            0
        } else if 0xFF40 <= address && address <= 0xFF4B {
            self.ppu.lcd.read(address as usize)
        } else if 0xFF04 <= address && address <= 0xFF07 {
            self.timer.read_byte(address as usize)
        } else if address < 0xFF80 {
            self.ioram.read(address as usize)
        } else {
            self.memory.read(address)
        }
    }

    /// Little-endian 16-bit read: the byte at `address`, then the one after it (wrapping).
    pub fn read16(&self, address: u16) -> (r: u16)
        requires
            self.wf(),
        ensures
            r == self.read_spec(address) + 256 * self.read_spec(sp_plus(address, 1)),
    {
        let lo = self.read8(address);
        let hi = self.read8(if address == 0xFFFF { 0 } else { address + 1 });
        lo as u16 + 256 * hi as u16
    }

    /// Writes one byte. Writes to ROM go to the cartridge's controller registers; the echo
    /// and unusable areas ignore writes, and so does the sprite table during a DMA.
    pub fn write8(&mut self, address: u16, value: u8)
        requires
            old(self).wf(),
        ensures
            final(self).wf(),
            is_ram(address) ==> final(self).memory@ == ram_with(old(self).memory@, address, value),
            !is_ram(address) ==> final(self).memory@ == old(self).memory@,
            is_ram(address) ==> final(self).ppu == old(self).ppu && final(self).cart == old(self).cart
                && final(self).timer == old(self).timer && final(self).ioram == old(self).ioram,
            final(self).cart.mbc.rom() == old(self).cart.mbc.rom(),
            final(self).ppu.lcd.ly == old(self).ppu.lcd.ly,
            final(self).ppu.line_ticks == old(self).ppu.line_ticks,
            final(self).ppu.lcd.dma.active ==> old(self).ppu.lcd.dma.active || address == 0xFF46,
            final(self).ppu.have_update == old(self).ppu.have_update,
            stored(*old(self), *final(self), address, value),
            (address == 0xFF01 || address == 0xFF02) ==> final(self).read_spec(address) == value,
            0x8000 <= address < 0xA000 ==> final(self).ppu.vram@ == old(self).ppu.vram@.update(address - 0x8000, value),
            address == 0xFF46 ==> final(self).ppu.lcd.dma.active && final(self).ppu.lcd.dma.value == value
                && final(self).ppu.lcd.dma.byte_address == 0,
            address == 0xFF0F ==> final(self).ioram.interrupt_flags == value % 32,
            0xFF40 <= address <= 0xFF4B && address != 0xFF41 && address != 0xFF44 ==> final(self).ppu.lcd.read_spec(
                address as usize,
            ) == value,
            address == 0xFF04 ==> final(self).timer.div == 0,
            address == 0xFF05 ==> final(self).timer.tima == value,
            address == 0xFF06 ==> final(self).timer.tma == value,
            address == 0xFF07 ==> final(self).timer.tac == value % 8,
            (address < 0x8000 || 0xA000 <= address < 0xC000) ==> final(self).ppu == old(self).ppu && final(self).cart.info
                == old(self).cart.info && (old(self).cart.mbc.ram_writable() && 0xA000 <= address ==> final(self).cart.mbc.read_spec(address as usize) == value),
            0xFE00 <= address < 0xFEA0 && old(self).ppu.lcd.dma.active ==> final(self).ppu == old(self).ppu,
            0xFE00 <= address < 0xFEA0 && !old(self).ppu.lcd.dma.active ==> forall|i: int|
                0 <= i < 160 ==> #[trigger] final(self).ppu.oam_byte(i) == (if i == address - 0xFE00 {
                    value
                } else {
                    old(self).ppu.oam_byte(i)
                }),
    {
        if 0x8000 <= address && address < 0xA000 {
            self.ppu.vram_write(address as usize, value);
        } else if address < 0xC000 {
            self.cart.write(address as usize, value);
        } else if address < 0xE000 {
            self.memory.write(address, value);
        } else if address < 0xFE00 {
        } else if address < 0xFEA0 {
            if !self.ppu.lcd.dma_active() {
                self.ppu.oam_write(address as usize, value);
            }
        } else if address < 0xFF00 {
        } else if 0xFF40 <= address && address <= 0xFF4B {
            self.ppu.lcd.write(address as usize, value);
        } else if 0xFF04 <= address && address <= 0xFF07 {
            self.timer.write_byte(address as usize, value);
        } else if address < 0xFF80 {
            self.ioram.write(address as usize, value);
        } else {
            self.memory.write(address, value);
        }
    }

    /// Writes both bytes of a 16-bit value, low byte first.
    pub fn write16(&mut self, address: u16, value: u16)
        requires
            old(self).wf(),
        ensures
            final(self).wf(),
            is_ram(address) && is_ram(sp_plus(address, 1)) ==> final(self).memory@ == ram_with(
                ram_with(old(self).memory@, address, (value % 256) as u8),
                sp_plus(address, 1),
                (value / 256) as u8,
            ),
    {
        self.write8(address, (value % 256) as u8);
        self.write8(if address == 0xFFFF { 0 } else { address + 1 }, (value / 256) as u8);
    }

    /// Decrements `sp` (wrapping), then writes `value` there.
    pub fn stack_push8(&mut self, sp: &mut u16, value: u8)
        requires
            old(self).wf(),
        ensures
            final(self).wf(),
            *final(sp) == sp_minus(*old(sp), 1),
            is_ram(*final(sp)) ==> final(self).memory@ == ram_with(old(self).memory@, *final(sp), value)
                && final(self).ppu == old(self).ppu && final(self).cart == old(self).cart
                && final(self).timer == old(self).timer && final(self).ioram == old(self).ioram,
            final(self).ppu.lcd.ly == old(self).ppu.lcd.ly,
            final(self).ppu.line_ticks == old(self).ppu.line_ticks,
            final(self).ppu.have_update == old(self).ppu.have_update,
            final(self).cart.mbc.rom() == old(self).cart.mbc.rom(),
    {
        *sp = if *sp == 0 { 0xFFFF } else { *sp - 1 };
        self.write8(*sp, value);
    }

    /// Reads at `sp`, then increments it (wrapping).
    pub fn stack_pop8(&self, sp: &mut u16) -> (r: u8)
        requires
            self.wf(),
        ensures
            r == self.read_spec(*old(sp)),
            *final(sp) == sp_plus(*old(sp), 1),
    {
        let v = self.read8(*sp);
        *sp = if *sp == 0xFFFF { 0 } else { *sp + 1 };
        v
    }

    /// Pushes the high byte, then the low byte (which ends up at the new `sp`).
    pub fn stack_push16(&mut self, sp: &mut u16, value: u16)
        requires
            old(self).wf(),
        ensures
            final(self).wf(),
            *final(sp) == sp_minus(*old(sp), 2),
            stack_in_ram(*old(sp)) ==> final(self).memory@ == ram_push16(old(self).memory@, *old(sp), value)
                && final(self).ppu == old(self).ppu && final(self).cart == old(self).cart
                && final(self).timer == old(self).timer && final(self).ioram == old(self).ioram,
            final(self).ppu.lcd.ly == old(self).ppu.lcd.ly,
            final(self).ppu.line_ticks == old(self).ppu.line_ticks,
            final(self).ppu.have_update == old(self).ppu.have_update,
            final(self).cart.mbc.rom() == old(self).cart.mbc.rom(),
    {
        self.stack_push8(sp, (value / 256) as u8);
        self.stack_push8(sp, (value % 256) as u8);
    }

    /// Pops the low byte, then the high byte.
    pub fn stack_pop16(&self, sp: &mut u16) -> (r: u16)
        requires
            self.wf(),
        ensures
            r == self.read_spec(*old(sp)) + 256 * self.read_spec(sp_plus(*old(sp), 1)),
            *final(sp) == sp_plus(*old(sp), 2),
    {
        let lo = self.stack_pop8(sp);
        let hi = self.stack_pop8(sp);
        lo as u16 + 256 * hi as u16
    }

    /// Writes the sprite table directly (the DMA's own path).
    pub fn write_oam(&mut self, address: usize, value: u8)
        requires
            old(self).wf(),
        ensures
            final(self).wf(),
            final(self).memory == old(self).memory,
            final(self).cart == old(self).cart,
            final(self).timer == old(self).timer,
            final(self).ioram == old(self).ioram,
            final(self).ppu.lcd == old(self).ppu.lcd,
            final(self).ppu.line_ticks == old(self).ppu.line_ticks,
            final(self).ppu.vram == old(self).ppu.vram,
            final(self).ppu.same_outside_oam(&old(self).ppu),
            address < 160 ==> forall|i: int| 0 <= i < 160 ==> #[trigger] final(self).ppu.oam_byte(i) == (if i
                == address {
                value
            } else {
                old(self).ppu.oam_byte(i)
            }),
    {
        self.ppu.oam_write(address, value);
    }

    /// One machine cycle of the DMA: copies the next byte from its source to the sprite table.
    pub fn dma_tick(&mut self)
        requires
            old(self).wf(),
        ensures
            final(self).wf(),
            final(self).memory == old(self).memory,
            final(self).cart == old(self).cart,
            final(self).timer == old(self).timer,
            final(self).ioram == old(self).ioram,
            final(self).ppu.lcd.ly == old(self).ppu.lcd.ly,
            final(self).ppu.line_ticks == old(self).ppu.line_ticks,
            final(self).ppu.vram == old(self).ppu.vram,
            final(self).ppu.lcd.dma == crate::dma::dma_step(old(self).ppu.lcd.dma),
            final(self).ppu.have_update == old(self).ppu.have_update,
            final(self).ppu.lcd.lcds == old(self).ppu.lcd.lcds,
            !old(self).ppu.lcd.dma.active ==> final(self).ppu.oam_ram == old(self).ppu.oam_ram,
            old(self).ppu.lcd.dma.active ==> forall|i: int|
                0 <= i < 160 ==> #[trigger] final(self).ppu.oam_byte(i) == (if i == old(self).ppu.lcd.dma.byte_address {
                    old(self).read_spec((old(self).ppu.lcd.dma.value * 0x100 + old(self).ppu.lcd.dma.byte_address) as u16)
                } else {
                    old(self).ppu.oam_byte(i)
                }),
    {
        // the source byte is read on the bus as it stands before this cycle
        let dma = &self.ppu.lcd.dma;
        let val = if dma.active {
            self.read8((dma.value as usize * 0x100 + dma.byte_address) as u16)
        } else {
            0
        };
        let next = self.ppu.lcd.dma.tick();
        match next {
            Some((_src, dest)) => {
                self.write_oam(dest, val);
            },
            None => {},
        }
    }

    /// Raises an interrupt request bit in `IF`.
    pub fn request_interrupt(&mut self, t: InterruptType)
        requires
            old(self).wf(),
        ensures
            final(self).wf(),
            final(self).ioram.interrupt_flags == crate::alu::set_value(
                crate::interrupts::interrupt_index(t),
                old(self).ioram.interrupt_flags,
            ),
            final(self).memory == old(self).memory,
            final(self).cart == old(self).cart,
            final(self).timer == old(self).timer,
            final(self).ppu == old(self).ppu,
    {
        self.ioram.request_interrupt(t);
    }

    /// One clock sub-cycle of the timer and the PPU, with their interrupt requests.
    pub fn tick_devices(&mut self) -> (r: PpuRequests)
        requires
            old(self).wf(),
        ensures
            final(self).wf(),
            final(self).memory == old(self).memory,
            final(self).cart == old(self).cart,
            final(self).timer.div == (old(self).timer.div + 1) % 65536,
            final(self).timer.tma == old(self).timer.tma,
            final(self).timer.tac == old(self).timer.tac,
            final(self).timer.tima == (if !timer_clocked(old(self).timer.div, final(self).timer.div, old(self).timer.tac) {
                old(self).timer.tima
            } else if old(self).timer.tima == 255 {
                old(self).timer.tma
            } else {
                (old(self).timer.tima + 1) as u8
            }),
            timer_clocked(old(self).timer.div, final(self).timer.div, old(self).timer.tac) && old(self).timer.tima == 255
                ==> crate::alu::bit_of(final(self).ioram.interrupt_flags, 2),
            forall|k: nat| k < 5 && #[trigger] crate::alu::bit_of(old(self).ioram.interrupt_flags, k) ==> crate::alu::bit_of(
                final(self).ioram.interrupt_flags,
                k,
            ),
            final(self).ppu.lcd.dma == old(self).ppu.lcd.dma,
            final(self).ppu.vram == old(self).ppu.vram,
            crate::ppu::frame_position(final(self).ppu.lcd.ly, final(self).ppu.line_ticks) == (crate::ppu::frame_position(
                old(self).ppu.lcd.ly,
                old(self).ppu.line_ticks,
            ) + 1) % crate::ppu::frame_ticks(),
            r.vblank == (old(self).ppu.line_ticks == 455 && final(self).ppu.lcd.ly == 144),
            r.vblank ==> crate::alu::bit_of(final(self).ioram.interrupt_flags, 0),
            r.stat ==> crate::alu::bit_of(final(self).ioram.interrupt_flags, 1),
            final(self).ppu.have_update == (old(self).ppu.have_update || r.vblank),
            crate::ppu::ppu_progress(old(self).ppu, final(self).ppu, 1),
    {
        let ghost if0 = self.ioram.interrupt_flags;
        if self.timer.tick() {
            self.request_interrupt(InterruptType::TIMER);
            proof {
                crate::io::lemma_set_interrupt_bit(if0, 2);
            }
        }
        let ghost if1 = self.ioram.interrupt_flags;
        let r: PpuRequests = self.ppu.tick();
        if r.vblank {
            self.request_interrupt(InterruptType::VBLANK);
            proof {
                crate::io::lemma_set_interrupt_bit(if1, 0);
            }
        }
        let ghost if2 = self.ioram.interrupt_flags;
        if r.stat {
            self.request_interrupt(InterruptType::LCD_STAT);
            proof {
                crate::io::lemma_set_interrupt_bit(if2, 1);
            }
        }
        r
    }
}

/// A bus write of `v` at `addr` took effect, where its effect outlasts the devices' clock:
/// in RAM, in video RAM, and in writable cartridge RAM.
pub open spec fn stored(a: Bus, b: Bus, addr: u16, v: u8) -> bool {
    &&& is_ram(addr) ==> b.memory@ == ram_with(a.memory@, addr, v)
    &&& 0x8000 <= addr < 0xA000 ==> b.ppu.vram@ == a.ppu.vram@.update(addr - 0x8000, v)
    &&& (0xA000 <= addr < 0xC000 && a.cart.mbc.ram_writable()) ==> b.cart.mbc.read_spec(addr as usize) == v
}

/// Addresses whose reads depend on the cartridge and the RAM alone, not on device state.
pub open spec fn is_stable(a: u16) -> bool {
    a < 0x8000 || (0xA000 <= a < 0xE000) || 0xFF80 <= a
}

/// While a DMA is copying, every bus read of the sprite table yields `FF`.
pub proof fn lemma_oam_locked_during_dma(b: Bus, address: u16)
    requires
        b.ppu.lcd.dma.active,
        0xFE00 <= address < 0xFEA0,
    ensures
        b.read_spec(address) == 0xFF,
{
}

} // verus!
