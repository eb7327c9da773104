use vstd::prelude::*;
use crate::bus::Bus;
use crate::cart_info::{CartridgeInfo, ascii_chars};

verus! {

/// Collects what a program sends over the serial port (test ROMs report there): a byte is
/// taken when the control register `FF02` reads `0x81`, and the transfer is acknowledged.
pub struct EmuDebug {
    pub dbg_msg_bytes: Vec<u8>,
    pub should_print: bool,
}

impl EmuDebug {
    pub fn new() -> (r: EmuDebug)
        ensures
            r.dbg_msg_bytes@.len() == 0,
            !r.should_print,
    {
        EmuDebug { dbg_msg_bytes: Vec::new(), should_print: false }
    }

    /// Takes the pending serial byte, if a transfer was started.
    pub fn update(&mut self, bus: &mut Bus) -> (r: Option<u8>)
        requires
            old(bus).wf(),
        ensures
            final(bus).wf(),
            old(bus).read_spec(0xFF02) == 0x81 ==> r == Some(old(bus).read_spec(0xFF01))
                && final(self).dbg_msg_bytes@ == old(self).dbg_msg_bytes@.push(old(bus).read_spec(0xFF01))
                && final(bus).read_spec(0xFF02) == 0,
            old(bus).read_spec(0xFF02) != 0x81 ==> r.is_none() && *final(bus) == *old(bus)
                && final(self).dbg_msg_bytes@ == old(self).dbg_msg_bytes@,
    {
        if bus.read8(0xFF02) == 0x81 {
            let c = bus.read8(0xFF01);
            self.dbg_msg_bytes.push(c);
            bus.write8(0xFF02, 0);
            self.should_print = true;
            Some(c)
        } else {
            self.should_print = false;
            None
        }
    }

    /// The text received so far.
    pub fn print(&self) -> (r: String)
        ensures
            (forall|i: int| 0 <= i < self.dbg_msg_bytes@.len() ==> self.dbg_msg_bytes@[i] < 128) ==> r@ == ascii_chars(
                self.dbg_msg_bytes@,
            ),
    {
        CartridgeInfo::read_to_str(self.dbg_msg_bytes.as_slice())
    }
}

} // verus!
