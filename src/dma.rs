use vstd::prelude::*;

verus! {

/// Bytes one transfer copies into the sprite attribute table.
pub const DMA_LENGTH: usize = 0xA0;

/// The sprite-table DMA controller.
pub struct DMA {
    pub active: bool,
    /// Offset of the next byte to copy.
    pub byte_address: usize,
    /// Source page: the transfer reads from `value * 0x100`.
    pub value: u8,
}

/// The controller after one machine cycle.
pub open spec fn dma_step(d: DMA) -> DMA {
    if !d.active {
        d
    } else {
        DMA { active: d.byte_address + 1 < DMA_LENGTH, byte_address: (d.byte_address + 1) as usize, value: d.value }
    }
}

/// The controller after `n` machine cycles.
pub open spec fn dma_after(d: DMA, n: nat) -> DMA
    decreases n,
{
    if n == 0 {
        d
    } else {
        dma_step(dma_after(d, (n - 1) as nat))
    }
}

/// A transfer started on page `v` copies byte `n` on its `n`-th cycle (counting from 0): after
/// `n <= 160` cycles it has copied bytes `0..n`, and it stops after the 160th.
pub proof fn lemma_dma_transfer(v: u8, n: nat)
    requires
        n <= DMA_LENGTH,
    ensures
        dma_after(DMA { active: true, byte_address: 0, value: v }, n) == (DMA {
            active: n < DMA_LENGTH,
            byte_address: n as usize,
            value: v,
        }),
    decreases n,
{
    if n > 0 {
        lemma_dma_transfer(v, (n - 1) as nat);
    }
}

impl DMA {
    pub open spec fn wf(&self) -> bool {
        &&& self.byte_address <= DMA_LENGTH
        &&& self.active ==> self.byte_address < DMA_LENGTH
    }

    /// An idle controller.
    pub fn new() -> (r: DMA)
        ensures
            r.wf(),
            !r.active,
    {
        DMA { active: false, byte_address: 0, value: 0 }
    }

    /// Starts a transfer from page `start`. The two-sub-cycle startup delay elapses within
    /// the machine cycle of the write, so the first byte moves on the next DMA cycle.
    pub fn start(&mut self, start: u8)
        ensures
            final(self).wf(),
            final(self).active,
            final(self).byte_address == 0,
            final(self).value == start,
    {
        self.active = true;
        self.byte_address = 0;
        self.value = start;
    }

    /// One machine cycle: hands out the next (source, offset) pair to copy, and stops after
    /// the 160th byte.
    pub fn tick(&mut self) -> (r: Option<(usize, usize)>)
        requires
            old(self).wf(),
        ensures
            final(self).wf(),
            *final(self) == dma_step(*old(self)),
            !old(self).active ==> r.is_none(),
            old(self).active ==> r == Some(
                ((old(self).value * 0x100 + old(self).byte_address) as usize, old(self).byte_address),
            ),
    {
        if !self.active {
            return None;
        }
        let source_address = self.value as usize * 0x100 + self.byte_address;
        let dest_address = self.byte_address;
        self.byte_address = self.byte_address + 1;
        self.active = self.byte_address < DMA_LENGTH;
        Some((source_address, dest_address))
    }

    /// Whether a transfer is in progress.
    pub fn transferring(&self) -> (r: bool)
        ensures
            r == self.active,
    {
        self.active
    }
}

} // verus!
