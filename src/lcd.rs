use vstd::prelude::*;
use crate::alu::{bit_of, bit_reset, bit_set, res_value, set_value, test_bit};
use crate::dma::DMA;

verus! {

/// Scanlines per frame, visible or not.
pub const LINES_PER_FRAME: u8 = 154;
/// Clock ticks per scanline.
pub const TICKS_PER_LINE: u16 = 456;
/// Visible lines.
pub const YRES: u8 = 144;
/// Visible columns.
pub const XRES: u8 = 160;

/// The PPU mode shown in bits 0..1 of `STAT`.
#[derive(Clone, Copy, Debug, PartialEq, Eq, Structural)]
pub enum Mode {
    HBlank,
    VBlank,
    OAM,
    XFER,
}

/// The interrupt-select bits of `STAT`.
#[derive(Clone, Copy, Debug, PartialEq, Eq, Structural)]
pub enum StatType {
    HBLANK,
    VBLANK,
    OAM,
    LYC,
}

pub open spec fn mode_value(m: Mode) -> u8 {
    match m {
        Mode::HBlank => 0,
        Mode::VBlank => 1,
        Mode::OAM => 2,
        Mode::XFER => 3,
    }
}

pub open spec fn mode_of(stat: u8) -> Mode {
    if stat % 4 == 0 {
        Mode::HBlank
    } else if stat % 4 == 1 {
        Mode::VBlank
    } else if stat % 4 == 2 {
        Mode::OAM
    } else {
        Mode::XFER
    }
}

pub open spec fn stat_bit(src: StatType) -> nat {
    match src {
        StatType::HBLANK => 3,
        StatType::VBLANK => 4,
        StatType::OAM => 5,
        StatType::LYC => 6,
    }
}

/// The shade (0..3) that palette byte `pal` gives colour index `idx`.
pub open spec fn shade_of(pal: u8, idx: u8) -> u8 {
    if idx == 0 {
        pal % 4
    } else if idx == 1 {
        (pal / 4) % 4
    } else if idx == 2 {
        (pal / 16) % 4
    } else {
        pal / 64
    }
}

/// The LCD register block `FF40..FF4B` and the DMA controller it starts.
pub struct LCD {
    pub lcdc: u8,
    pub lcds: u8,
    pub scroll_y: u8,
    pub scroll_x: u8,
    pub ly: u8,
    pub ly_compare: u8,
    pub dma_address: u8,
    pub bg_pallete: u8,
    pub obj_pallete_0: u8,
    pub obj_pallete_1: u8,
    pub win_y: u8,
    pub win_x: u8,
    pub dma: DMA,
}

/// Whether `address` is in the LCD register block.
pub open spec fn is_lcd_address(address: usize) -> bool {
    0xFF40 <= address <= 0xFF4B
}

impl LCD {
    pub open spec fn wf(&self) -> bool {
        self.ly < LINES_PER_FRAME && self.dma.wf()
    }

    pub open spec fn read_spec(&self, address: usize) -> u8 {
        if address == 0xFF40 {
            self.lcdc
        } else if address == 0xFF41 {
            self.lcds
        } else if address == 0xFF42 {
            self.scroll_y
        } else if address == 0xFF43 {
            self.scroll_x
        } else if address == 0xFF44 {
            self.ly
        } else if address == 0xFF45 {
            self.ly_compare
        } else if address == 0xFF46 {
            self.dma_address
        } else if address == 0xFF47 {
            self.bg_pallete
        } else if address == 0xFF48 {
            self.obj_pallete_0
        } else if address == 0xFF49 {
            self.obj_pallete_1
        } else if address == 0xFF4A {
            self.win_y
        } else {
            self.win_x
        }
    }

    pub fn new() -> (r: LCD)
        ensures
            r.wf(),
            r.ly == 0,
            !r.dma.active,
            mode_of(r.lcds) == Mode::HBlank,
    {
        LCD {
            lcdc: 0x91,
            lcds: 0,
            scroll_y: 0,
            scroll_x: 0,
            ly: 0,
            ly_compare: 0,
            dma_address: 0,
            bg_pallete: 0xFC,
            obj_pallete_0: 0xFF,
            obj_pallete_1: 0xFF,
            win_y: 0,
            win_x: 0,
            dma: DMA::new(),
        }
    }

    /// LCDC bit 0: background and window drawn.
    pub fn lcdc_bgw_enabled(&self) -> (r: bool)
        ensures
            r == bit_of(self.lcdc, 0),
    {
        test_bit(self.lcdc, 0)
    }

    /// LCDC bit 1: sprites drawn.
    pub fn lcdc_obj_enabled(&self) -> (r: bool)
        ensures
            r == bit_of(self.lcdc, 1),
    {
        test_bit(self.lcdc, 1)
    }

    /// LCDC bit 2: 8x16 sprites.
    pub fn lcdc_obj_double_size(&self) -> (r: bool)
        ensures
            r == bit_of(self.lcdc, 2),
    {
        test_bit(self.lcdc, 2)
    }

    /// Sprite height in pixels: 8 or 16.
    pub fn lcdc_obj_height(&self) -> (r: u8)
        ensures
            r == (if bit_of(self.lcdc, 2) { 16u8 } else { 8u8 }),
    {
        if self.lcdc_obj_double_size() { 16 } else { 8 }
    }

    /// LCDC bit 3: background tile map at `9C00` instead of `9800`.
    pub fn lcdc_bg_map_area(&self) -> (r: usize)
        ensures
            r == (if bit_of(self.lcdc, 3) { 0x9C00usize } else { 0x9800usize }),
    {
        if test_bit(self.lcdc, 3) { 0x9C00 } else { 0x9800 }
    }

    /// LCDC bit 4: tile data at `8000` (unsigned indices) instead of `8800`.
    pub fn lcdc_bg_data_area(&self) -> (r: usize)
        ensures
            r == (if bit_of(self.lcdc, 4) { 0x8000usize } else { 0x8800usize }),
    {
        if test_bit(self.lcdc, 4) { 0x8000 } else { 0x8800 }
    }

    /// LCDC bit 5: window drawn.
    pub fn lcdc_window_enabled(&self) -> (r: bool)
        ensures
            r == bit_of(self.lcdc, 5),
    {
        test_bit(self.lcdc, 5)
    }

    /// LCDC bit 6: window tile map at `9C00` instead of `9800`.
    pub fn lcdc_window_tile_map_area(&self) -> (r: usize)
        ensures
            r == (if bit_of(self.lcdc, 6) { 0x9C00usize } else { 0x9800usize }),
    {
        if test_bit(self.lcdc, 6) { 0x9C00 } else { 0x9800 }
    }

    /// LCDC bit 7: display on.
    pub fn lcdc_ppu_enabled(&self) -> (r: bool)
        ensures
            r == bit_of(self.lcdc, 7),
    {
        test_bit(self.lcdc, 7)
    }

    /// The current mode (`STAT` bits 0..1).
    pub fn lcds_mode(&self) -> (r: Mode)
        ensures
            r == mode_of(self.lcds),
    {
        let m = self.lcds % 4;
        if m == 0 {
            Mode::HBlank
        } else if m == 1 {
            Mode::VBlank
        } else if m == 2 {
            Mode::OAM
        } else {
            Mode::XFER
        }
    }

    /// Sets the mode bits of `STAT`, keeping the others.
    pub fn lcds_mode_set(&mut self, mode: Mode)
        ensures
            mode_of(final(self).lcds) == mode,
            final(self).lcds / 4 == old(self).lcds / 4,
            forall|k: nat| 2 <= k < 8 ==> #[trigger] bit_of(final(self).lcds, k) == bit_of(old(self).lcds, k),
            final(self).ly_compare == old(self).ly_compare,
            final(self).ly == old(self).ly,
            final(self).dma == old(self).dma,
            final(self).lcdc == old(self).lcdc,
    {
        let v: u8 = match mode {
            Mode::HBlank => 0,
            Mode::VBlank => 1,
            Mode::OAM => 2,
            Mode::XFER => 3,
        };
        let ghost before = self.lcds;
        self.lcds = self.lcds - self.lcds % 4 + v;
        proof {
            lemma_high_bits_by_quarter(self.lcds, before);
        }
    }

    /// Sets or clears the LY=LYC flag (`STAT` bit 2).
    pub fn lcds_lyc_set(&mut self, on: bool)
        ensures
            final(self).lcds == (if on { set_value(2, old(self).lcds) } else { res_value(2, old(self).lcds) }),
            mode_of(final(self).lcds) == mode_of(old(self).lcds),
            final(self).ly == old(self).ly,
            final(self).dma == old(self).dma,
            final(self).lcdc == old(self).lcdc,
            final(self).ly_compare == old(self).ly_compare,
            forall|k: nat| 3 <= k < 8 ==> #[trigger] bit_of(final(self).lcds, k) == bit_of(old(self).lcds, k),
    {
        proof {
            lemma_bit2_keeps_mode(self.lcds);
            lemma_bit2_keeps_high(self.lcds);
        }
        if on {
            self.lcds = bit_set(2, self.lcds);
        } else {
            self.lcds = bit_reset(2, self.lcds);
        }
    }

    /// Whether the `STAT` interrupt source `src` is selected.
    pub fn lcds_stat_int(&self, src: StatType) -> (r: bool)
        ensures
            r == bit_of(self.lcds, stat_bit(src)),
    {
        let n: u8 = match src {
            StatType::HBLANK => 3,
            StatType::VBLANK => 4,
            StatType::OAM => 5,
            StatType::LYC => 6,
        };
        test_bit(self.lcds, n)
    }

    /// Whether a sprite DMA is copying.
    pub fn dma_active(&self) -> (r: bool)
        ensures
            r == self.dma.active,
    {
        self.dma.transferring()
    }

    /// Reads a register of the block.
    pub fn read(&self, address: usize) -> (r: u8)
        requires
            is_lcd_address(address),
        ensures
            r == self.read_spec(address),
    {
        if address == 0xFF40 {
            self.lcdc
        } else if address == 0xFF41 {
            self.lcds
        } else if address == 0xFF42 {
            self.scroll_y
        } else if address == 0xFF43 {
            self.scroll_x
        } else if address == 0xFF44 {
            self.ly
        } else if address == 0xFF45 {
            self.ly_compare
        } else if address == 0xFF46 {
            self.dma_address
        } else if address == 0xFF47 {
            self.bg_pallete
        } else if address == 0xFF48 {
            self.obj_pallete_0
        } else if address == 0xFF49 {
            self.obj_pallete_1
        } else if address == 0xFF4A {
            self.win_y
        } else {
            self.win_x
        }
    }

    /// Writes a register of the block. `LY` is read-only; of `STAT` only the interrupt
    /// selects (bits 3..6) are writable; a write of `FF46` starts a DMA from that page.
    pub fn write(&mut self, address: usize, value: u8)
        requires
            old(self).wf(),
            is_lcd_address(address),
        ensures
            final(self).wf(),
            final(self).ly == old(self).ly,
            mode_of(final(self).lcds) == mode_of(old(self).lcds),
            address != 0xFF46 ==> final(self).dma == old(self).dma,
            address == 0xFF46 ==> final(self).dma.active && final(self).dma.value == value
                && final(self).dma.byte_address == 0,
            address != 0xFF41 && address != 0xFF44 ==> final(self).read_spec(address) == value,
    {
        if address == 0xFF40 {
            self.lcdc = value;
        } else if address == 0xFF41 {
            self.lcds = ((value / 8) % 16) * 8 + self.lcds % 8;
        } else if address == 0xFF42 {
            self.scroll_y = value;
        } else if address == 0xFF43 {
            self.scroll_x = value;
        } else if address == 0xFF44 {
        } else if address == 0xFF45 {
            self.ly_compare = value;
        } else if address == 0xFF46 {
            self.dma_address = value;
            self.dma.start(value);
        } else if address == 0xFF47 {
            self.bg_pallete = value;
        } else if address == 0xFF48 {
            self.obj_pallete_0 = value;
        } else if address == 0xFF49 {
            self.obj_pallete_1 = value;
        } else if address == 0xFF4A {
            self.win_y = value;
        } else {
            self.win_x = value;
        }
    }
}

/// Shade of a colour index under a palette byte.
pub fn palette_shade(pal: u8, idx: u8) -> (r: u8)
    requires
        idx < 4,
    ensures
        r == shade_of(pal, idx),
        r < 4,
{
    if idx == 0 {
        pal % 4
    } else if idx == 1 {
        (pal / 4) % 4
    } else if idx == 2 {
        (pal / 16) % 4
    } else {
        pal / 64
    }
}

/// Bits 2..7 of a byte depend on its value divided by 4 alone.
pub proof fn lemma_high_bits_by_quarter(a: u8, b: u8)
    requires
        a / 4 == b / 4,
    ensures
        forall|k: nat| 2 <= k < 8 ==> #[trigger] bit_of(a, k) == bit_of(b, k),
{
    assert forall|k: nat| 2 <= k < 8 implies #[trigger] bit_of(a, k) == bit_of(b, k) by {
        if k == 2 {
        } else if k == 3 {
        } else if k == 4 {
        } else if k == 5 {
        } else if k == 6 {
        } else {
        }
    }
}

/// Setting or clearing bit 2 leaves bits 3..7.
pub proof fn lemma_bit2_keeps_high(v: u8)
    ensures
        forall|k: nat| 3 <= k < 8 ==> #[trigger] bit_of(set_value(2, v), k) == bit_of(v, k),
        forall|k: nat| 3 <= k < 8 ==> #[trigger] bit_of(res_value(2, v), k) == bit_of(v, k),
{
    assert((set_value(2, v) as int) / 8 == v as int / 8);
    assert((res_value(2, v) as int) / 8 == v as int / 8);
    assert forall|k: nat| 3 <= k < 8 implies #[trigger] bit_of(set_value(2, v), k) == bit_of(v, k) by {
        if k == 3 {
        } else if k == 4 {
        } else if k == 5 {
        } else if k == 6 {
        } else {
        }
    }
    assert forall|k: nat| 3 <= k < 8 implies #[trigger] bit_of(res_value(2, v), k) == bit_of(v, k) by {
        if k == 3 {
        } else if k == 4 {
        } else if k == 5 {
        } else if k == 6 {
        } else {
        }
    }
}

proof fn lemma_bit2_keeps_mode(v: u8)
    ensures
        mode_of(set_value(2, v)) == mode_of(v),
        mode_of(res_value(2, v)) == mode_of(v),
{
}

} // verus!
