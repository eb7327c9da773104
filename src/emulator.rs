use vstd::prelude::*;
use crate::bus::Bus;
use crate::cartridge::Cartridge;
use crate::cpu::CPU;
use crate::input::Input;
use crate::ppu::{lemma_vblank_distance_bounds, vblank_distance};

verus! {

/// The emulated machine as the presenter sees it: run it frame by frame, hand it the
/// buttons, take its frames and its save data.
pub struct GBCore {
    pub cpu: CPU,
    pub running: bool,
    /// Instructions run so far (wrapping).
    pub steps: u64,
    /// Frames the PPU has completed so far (wrapping).
    pub frames_completed: u64,
}

/// Machine cycles of one frame (154 lines of 456 ticks, four ticks a cycle): a frame is
/// always completed within this many instructions.
pub const FRAME_CYCLES: u64 = 17556;

/// Counters wrap at 2^64.
pub const COUNTER_WRAP: u128 = 0x1_0000_0000_0000_0000;

impl GBCore {
    pub open spec fn wf(&self) -> bool {
        self.cpu.wf()
    }

    /// A machine at power-on around a loaded cartridge.
    pub fn new(cart: Cartridge) -> (r: GBCore)
        requires
            cart.wf(),
        ensures
            r.wf(),
            r.running,
            r.cpu.bus.cart == cart,
            r.cpu.ticks == 0,
            r.steps == 0,
            r.frames_completed == 0,
    {
        GBCore { cpu: CPU::new(Bus::new(cart)), running: true, steps: 0, frames_completed: 0 }
    }

    /// Runs instructions until the PPU completes a frame, at most `max_steps` of them.
    /// `true` when the last instruction run completed a frame (its frame-ready flag is
    /// consumed and counted); `false` when `max_steps` instructions ran without one.
    pub fn run_frame(&mut self, max_steps: u64) -> (r: bool)
        requires
            old(self).wf(),
        ensures
            final(self).wf(),
            final(self).running == old(self).running,
            r ==> final(self).frames_completed == (old(self).frames_completed + 1) % (COUNTER_WRAP as int)
                && !final(self).cpu.bus.ppu.have_update,
            max_steps >= FRAME_CYCLES ==> r,
            !r ==> final(self).frames_completed == old(self).frames_completed && final(self).steps == (old(self).steps
                + max_steps) % (COUNTER_WRAP as int),
    {
        let mut i: u64 = 0;
        while i < max_steps
            invariant
                self.wf(),
                self.running == old(self).running,
                i <= max_steps,
                self.frames_completed == old(self).frames_completed,
                self.steps == (old(self).steps + i) % (COUNTER_WRAP as int),
                i == 0 ==> self.cpu == old(self).cpu,
                i > 0 ==> !self.cpu.bus.ppu.have_update && vblank_distance(self.cpu.bus.ppu.lcd.ly, self.cpu.bus.ppu.line_ticks)
                    + 4 * i <= vblank_distance(old(self).cpu.bus.ppu.lcd.ly, old(self).cpu.bus.ppu.line_ticks),
            decreases max_steps - i,
        {
            let ghost before = self.cpu.bus.ppu;
            self.cpu.cpu_step();
            self.steps = ((self.steps as u128 + 1) % COUNTER_WRAP) as u64;
            proof {
                crate::cpu::lemma_mod_inc(old(self).steps + i, COUNTER_WRAP as int);
            }
            if self.cpu.bus.ppu.have_update() {
                self.frames_completed = ((self.frames_completed as u128 + 1) % COUNTER_WRAP) as u64;
                return true;
            }
            i = i + 1;
        }
        proof {
            lemma_vblank_distance_bounds(old(self).cpu.bus.ppu.lcd.ly, old(self).cpu.bus.ppu.line_ticks);
            lemma_vblank_distance_bounds(self.cpu.bus.ppu.lcd.ly, self.cpu.bus.ppu.line_ticks);
        }
        false
    }

    /// The last completed frame: one shade (0..3) per pixel, row after row.
    pub fn frame(&self) -> (r: Vec<u8>)
        ensures
            r@ == self.cpu.bus.ppu.video_buffer@,
    {
        self.cpu.bus.ppu.get_video_buffer()
    }

    /// The presenter's latest button snapshot.
    pub fn set_input(&mut self, input: Input)
        requires
            old(self).wf(),
        ensures
            final(self).wf(),
            final(self).cpu.bus.ioram.input.last_input == input,
    {
        self.cpu.bus.ioram.update_input(input);
    }

    /// Bytes to write to the save file, when the cartridge keeps battery-backed RAM.
    pub fn save_data(&self) -> (r: Option<Vec<u8>>)
        ensures
            r.is_some() <==> (self.cpu.bus.cart.info.battery && self.cpu.bus.cart.mbc.ram().len() > 0),
    {
        self.cpu.bus.cart.save_ram()
    }

    /// Stops the machine; the caller then flushes the save data.
    pub fn stop(&mut self)
        ensures
            !final(self).running,
            final(self).cpu == old(self).cpu,
    {
        self.running = false;
    }
}

} // verus!
