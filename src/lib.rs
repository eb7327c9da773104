//! An emulator core for the monochrome handheld console: CPU, memory bus, cartridge
//! controllers, timer, DMA and the pixel-processing unit, with their contracts.
use vstd::prelude::*;

pub mod alu;
pub mod bus;
pub mod bytes;
pub mod cart_info;
pub mod cartridge;
pub mod cpu;
pub mod cpu_execute;
pub mod dma;
pub mod emu_debug;
pub mod emulator;
pub mod input;
pub mod instruction;
pub mod interrupts;
pub mod io;
pub mod lcd;
pub mod mbc;
pub mod memory;
pub mod oam_entry;
pub mod ppu;
pub mod ppu_pipeline;
pub mod registers;
pub mod timer;

verus! {

} // verus!
