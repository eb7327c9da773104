use vstd::prelude::*;
use crate::lcd::{LCD, LINES_PER_FRAME, Mode, StatType, TICKS_PER_LINE, XRES, YRES, mode_of};
use crate::oam_entry::OamEntry;
use crate::alu::bit_of;

verus! {

/// Bytes of video RAM.
pub const VRAM_SIZE: usize = 0x2000;
/// Sprites in the attribute table.
pub const OAM_ENTRIES: usize = 40;
/// Pixels of one frame.
pub const FRAME_PIXELS: usize = 23040;

/// The five steps of the background fetcher.
#[derive(Clone, Copy, Debug, PartialEq, Eq, Structural)]
pub enum FetchState {
    TILE,
    DATA0,
    DATA1,
    SLEEP,
    PUSH,
}

/// The fetcher's registers and the pixel FIFO of the current line.
pub struct PixelFifo {
    pub cur_fetch_state: FetchState,
    /// Pending shades (0..3), oldest first.
    pub pixel_fifo: Vec<u8>,
    pub line_x: u8,
    pub pushed_x: u8,
    pub fetch_x: u8,
    /// Fetched tile index, then the low and high byte of its row.
    pub bgw_fetch_data: Vec<u8>,
    /// Two row bytes for each of up to three fetched sprites.
    pub fetch_entry_data: Vec<u8>,
    pub map_y: u8,
    pub map_x: u8,
    pub tile_y: u8,
    pub fifo_x: u8,
}

impl PixelFifo {
    pub open spec fn wf(&self) -> bool {
        &&& self.pixel_fifo.len() <= 16
        &&& self.bgw_fetch_data.len() == 3
        &&& self.fetch_entry_data.len() == 6
        &&& self.tile_y < 16
    }

    pub fn new() -> (r: PixelFifo)
        ensures
            r.wf(),
            r.pixel_fifo@.len() == 0,
            r.cur_fetch_state == FetchState::TILE,
    {
        PixelFifo {
            cur_fetch_state: FetchState::TILE,
            pixel_fifo: Vec::new(),
            line_x: 0,
            pushed_x: 0,
            fetch_x: 0,
            bgw_fetch_data: vec![0u8, 0u8, 0u8],
            fetch_entry_data: vec![0u8, 0u8, 0u8, 0u8, 0u8, 0u8],
            map_y: 0,
            map_x: 0,
            tile_y: 0,
            fifo_x: 0,
        }
    }

    /// Rewinds the fetcher to the start of a line.
    pub fn reset_x(&mut self)
        requires
            old(self).wf(),
        ensures
            final(self).wf(),
            final(self).cur_fetch_state == FetchState::TILE,
            final(self).line_x == 0 && final(self).fetch_x == 0 && final(self).pushed_x == 0
                && final(self).fifo_x == 0,
            final(self).pixel_fifo@ == old(self).pixel_fifo@,
    {
        self.cur_fetch_state = FetchState::TILE;
        self.line_x = 0;
        self.fetch_x = 0;
        self.pushed_x = 0;
        self.fifo_x = 0;
    }
}

/// Position within the frame, in ticks: 456 per line, 154 lines.
pub open spec fn frame_position(ly: u8, line_ticks: u16) -> int {
    ly as int * 456 + line_ticks as int
}

/// Ticks of one frame.
pub open spec fn frame_ticks() -> int {
    154int * 456
}

/// Ticks from a frame position until the next V-Blank begins (LY reaching 144): 1..=70224.
pub open spec fn vblank_distance(ly: u8, line_ticks: u16) -> int {
    (144 * 456 - 1 - frame_position(ly, line_ticks) + frame_ticks()) % frame_ticks() + 1
}

/// From `a` to `b` the PPU moved at least `m` ticks closer to V-Blank, or raised the
/// frame-ready flag; a raised flag stays raised.
pub open spec fn ppu_progress(a: PPU, b: PPU, m: int) -> bool {
    &&& a.have_update ==> b.have_update
    &&& b.have_update || vblank_distance(b.lcd.ly, b.line_ticks) + m <= vblank_distance(a.lcd.ly, a.line_ticks)
}

/// A scanline lasts exactly 456 ticks: from the start of line `l`, each of the next 455
/// positions is still on line `l`, and the 456th tick starts the following line (line 0
/// after line 153).
pub proof fn lemma_scanline_length(l: u8, k: int)
    requires
        l < 154,
        0 <= k <= 456,
    ensures
        k < 456 ==> (frame_position(l, 0) + k) % frame_ticks() == frame_position(l, k as u16),
        k == 456 ==> (frame_position(l, 0) + k) % frame_ticks() == frame_position(((l + 1) % 154) as u8, 0),
{
    assert(l as int * 456 <= 153 * 456) by (nonlinear_arith)
        requires l <= 153;
    let p = frame_position(l, 0) + k;
    if p < frame_ticks() {
        vstd::arithmetic::div_mod::lemma_small_mod(p as nat, frame_ticks() as nat);
    } else {
        assert(l == 153 && k == 456);
        vstd::arithmetic::div_mod::lemma_mod_self_0(frame_ticks());
    }
}

/// A frame lasts exactly 154 * 456 ticks: from any position, no fewer ticks return to it,
/// and that many do.
pub proof fn lemma_frame_length(p: int, k: int)
    requires
        0 <= p < frame_ticks(),
        0 < k < frame_ticks(),
    ensures
        (p + k) % frame_ticks() != p,
        (p + frame_ticks()) % frame_ticks() == p,
{
    let ft = frame_ticks();
    if p + k < ft {
        vstd::arithmetic::div_mod::lemma_small_mod((p + k) as nat, ft as nat);
    } else {
        vstd::arithmetic::div_mod::lemma_small_mod((p + k - ft) as nat, ft as nat);
        vstd::arithmetic::div_mod::lemma_mod_sub_multiples_vanish(p + k - ft, ft);
    }
    vstd::arithmetic::div_mod::lemma_small_mod(p as nat, ft as nat);
    vstd::arithmetic::div_mod::lemma_mod_sub_multiples_vanish(p, ft);
}

/// The distance to V-Blank is between 1 and one frame.
pub proof fn lemma_vblank_distance_bounds(ly: u8, t: u16)
    requires
        ly < 154,
        t < 456,
    ensures
        1 <= vblank_distance(ly, t) <= frame_ticks(),
{
    assert(ly as int * 456 <= 153 * 456) by (nonlinear_arith)
        requires ly <= 153;
}

/// One tick either starts V-Blank (distance 1) or brings it one tick closer.
proof fn lemma_vblank_step(ly: u8, t: u16, ly2: u8, t2: u16)
    requires
        ly < 154,
        t < 456,
        ly2 < 154,
        t2 < 456,
        frame_position(ly2, t2) == (frame_position(ly, t) + 1) % frame_ticks(),
    ensures
        (ly2 == 144 && t2 == 0) == (vblank_distance(ly, t) == 1),
        vblank_distance(ly, t) != 1 ==> vblank_distance(ly2, t2) == vblank_distance(ly, t) - 1,
        1 <= vblank_distance(ly, t) <= frame_ticks(),
{
    assert(ly as int * 456 <= 153 * 456) by (nonlinear_arith)
        requires ly <= 153;
    assert(ly2 as int * 456 <= 153 * 456) by (nonlinear_arith)
        requires ly2 <= 153;
    let f = frame_position(ly, t);
    let f2 = frame_position(ly2, t2);
    assert((ly2 == 144 && t2 == 0) == (f2 == 144 * 456)) by (nonlinear_arith)
        requires
            f2 == ly2 as int * 456 + t2 as int,
            t2 < 456,
            ly2 < 154,
    ;
    let ft = frame_ticks();
    let v = 144 * 456 - 1;
    assert(0 <= f < ft);
    if f <= v {
        assert((v - f + ft) % ft == v - f) by {
            vstd::arithmetic::div_mod::lemma_mod_sub_multiples_vanish(v - f, ft);
        }
    } else {
        assert((v - f + ft) % ft == v - f + ft) by {
            vstd::arithmetic::div_mod::lemma_small_mod((v - f + ft) as nat, ft as nat);
        }
    }
    if f + 1 < ft {
        assert(f2 == f + 1) by {
            vstd::arithmetic::div_mod::lemma_small_mod((f + 1) as nat, ft as nat);
        }
        if f + 1 <= v {
            assert((v - f2 + ft) % ft == v - f2) by {
                vstd::arithmetic::div_mod::lemma_mod_sub_multiples_vanish(v - f2, ft);
            }
        } else {
            assert((v - f2 + ft) % ft == v - f2 + ft) by {
                vstd::arithmetic::div_mod::lemma_small_mod((v - f2 + ft) as nat, ft as nat);
            }
        }
    } else {
        assert(f2 == 0) by {
            vstd::arithmetic::div_mod::lemma_mod_self_0(ft);
        }
        assert((v - f2 + ft) % ft == v) by {
            vstd::arithmetic::div_mod::lemma_small_mod((v + ft - ft) as nat, ft as nat);
            vstd::arithmetic::div_mod::lemma_mod_sub_multiples_vanish(v, ft);
        }
    }
}

proof fn lemma_frame_step(ly: u8, t: u16)
    requires
        ly < LINES_PER_FRAME,
        t < TICKS_PER_LINE,
    ensures
        t + 1 < TICKS_PER_LINE ==> frame_position(ly, (t + 1) as u16) == (frame_position(ly, t) + 1) % frame_ticks(),
        t + 1 == TICKS_PER_LINE ==> frame_position(((ly + 1) % 154) as u8, 0) == (frame_position(ly, t) + 1) % frame_ticks(),
{
    assert(ly as int * 456 <= 153 * 456) by (nonlinear_arith)
        requires ly <= 153;
    let p = frame_position(ly, t);
    assert(0 <= p + 1 <= frame_ticks());
    if t + 1 == TICKS_PER_LINE {
        if ly == 153 {
            assert(p + 1 == frame_ticks());
        } else {
            assert(((ly + 1) % 154) as u8 == ly + 1);
            assert(frame_position(((ly + 1) % 154) as u8, 0) == (ly as int + 1) * 456);
        }
    }
}

/// The graphics unit: video memory, sprite table, LCD registers, line state and frame buffer.
pub struct PPU {
    pub oam_ram: Vec<OamEntry>,
    pub vram: Vec<u8>,
    pub window_line: u8,
    pub lcd: LCD,
    pub line_entries: Vec<OamEntry>,
    pub fetched_entries: Vec<OamEntry>,
    pub line_ticks: u16,
    /// One shade (0..3) per pixel, row after row.
    pub video_buffer: Vec<u8>,
    pub pf_control: PixelFifo,
    pub have_update: bool,
}

/// Interrupt requests raised during one PPU tick.
#[derive(Clone, Copy, Debug, PartialEq, Eq, Structural)]
pub struct PpuRequests {
    pub vblank: bool,
    pub stat: bool,
}

impl PPU {
    /// Everything but the line pipeline (FIFO, fetcher, sprite lists, frame buffer) is as in
    /// `other`.
    pub open spec fn same_outside_pipeline(&self, other: &PPU) -> bool {
        &&& self.lcd == other.lcd
        &&& self.line_ticks == other.line_ticks
        &&& self.oam_ram == other.oam_ram
        &&& self.vram == other.vram
        &&& self.have_update == other.have_update
    }

    /// Everything but the sprite table is as in `other`.
    pub open spec fn same_outside_oam(&self, other: &PPU) -> bool {
        &&& self.lcd == other.lcd
        &&& self.line_ticks == other.line_ticks
        &&& self.vram == other.vram
        &&& self.have_update == other.have_update
        &&& self.window_line == other.window_line
        &&& self.line_entries == other.line_entries
        &&& self.fetched_entries == other.fetched_entries
        &&& self.video_buffer == other.video_buffer
        &&& self.pf_control == other.pf_control
    }

    pub open spec fn wf(&self) -> bool {
        &&& self.oam_ram.len() == OAM_ENTRIES
        &&& self.vram.len() == VRAM_SIZE
        &&& self.video_buffer.len() == FRAME_PIXELS
        &&& self.lcd.wf()
        &&& self.line_ticks < TICKS_PER_LINE
        &&& self.line_entries.len() <= 10
        &&& self.fetched_entries.len() <= 3
        &&& self.pf_control.wf()
    }

    /// The byte of the sprite table at offset `i` (0..160).
    pub open spec fn oam_byte(&self, i: int) -> u8 {
        let e = self.oam_ram[i / 4];
        if i % 4 == 0 {
            e.y
        } else if i % 4 == 1 {
            e.x
        } else if i % 4 == 2 {
            e.tile_idx
        } else {
            e.attributes
        }
    }

    pub fn new() -> (r: PPU)
        ensures
            r.wf(),
            r.line_ticks == 0,
            r.lcd.ly == 0,
            !r.lcd.dma.active,
            forall|i: int| 0 <= i < 160 ==> r.oam_byte(i) == 0,
    {
        let mut oam_ram: Vec<OamEntry> = Vec::new();
        let mut i: usize = 0;
        while i < OAM_ENTRIES
            invariant
                i <= OAM_ENTRIES,
                oam_ram.len() == i,
                forall|k: int| 0 <= k < i ==> oam_ram[k] == (OamEntry { y: 0, x: 0, tile_idx: 0, attributes: 0 }),
            decreases OAM_ENTRIES - i,
        {
            oam_ram.push(OamEntry::empty());
            i = i + 1;
        }
        let mut vram: Vec<u8> = Vec::new();
        let mut j: usize = 0;
        while j < VRAM_SIZE
            invariant
                j <= VRAM_SIZE,
                vram.len() == j,
            decreases VRAM_SIZE - j,
        {
            vram.push(0);
            j = j + 1;
        }
        let mut video_buffer: Vec<u8> = Vec::new();
        let mut k: usize = 0;
        while k < FRAME_PIXELS
            invariant
                k <= FRAME_PIXELS,
                video_buffer.len() == k,
            decreases FRAME_PIXELS - k,
        {
            video_buffer.push(0);
            k = k + 1;
        }
        PPU {
            oam_ram,
            vram,
            window_line: 0,
            lcd: LCD::new(),
            line_entries: Vec::new(),
            fetched_entries: Vec::new(),
            line_ticks: 0,
            video_buffer,
            pf_control: PixelFifo::new(),
            have_update: false,
        }
    }

    /// Whether a frame was completed since the last call; the flag is consumed.
    pub fn have_update(&mut self) -> (r: bool)
        ensures
            r == old(self).have_update,
            !final(self).have_update,
            final(self).oam_ram == old(self).oam_ram,
            final(self).vram == old(self).vram,
            final(self).lcd == old(self).lcd,
            final(self).line_ticks == old(self).line_ticks,
            final(self).video_buffer == old(self).video_buffer,
            final(self).line_entries == old(self).line_entries,
            final(self).fetched_entries == old(self).fetched_entries,
            final(self).pf_control == old(self).pf_control,
            final(self).window_line == old(self).window_line,
    {
        let r = self.have_update;
        self.have_update = false;
        r
    }

    /// Writes the sprite table at `address` (`FE00..FE9F`, or an offset below 160).
    pub fn oam_write(&mut self, address: usize, value: u8)
        requires
            old(self).wf(),
        ensures
            final(self).wf(),
            final(self).same_outside_oam(&*old(self)),
            ({
                let off = if address >= 0xFE00 { address - 0xFE00 } else { address as int };
                forall|i: int| 0 <= i < 160 ==> #[trigger] final(self).oam_byte(i) == (if i == off {
                    value
                } else {
                    old(self).oam_byte(i)
                })
            }),
    {
        let adjusted = if address >= 0xFE00 { address - 0xFE00 } else { address };
        if adjusted < 160 {
            let index = adjusted / 4;
            let mut e = self.oam_ram[index];
            let b = adjusted % 4;
            if b == 0 {
                e.y = value;
            } else if b == 1 {
                e.x = value;
            } else if b == 2 {
                e.tile_idx = value;
            } else {
                e.attributes = value;
            }
            self.oam_ram.set(index, e);
        }
    }

    /// Reads the sprite table at `address` (`FE00..FE9F`, or an offset below 160); other
    /// offsets read 0.
    pub fn oam_read(&self, address: usize) -> (r: u8)
        requires
            self.wf(),
        ensures
            ({
                let off = if address >= 0xFE00 { address - 0xFE00 } else { address as int };
                r == if off < 160 { self.oam_byte(off) } else { 0 }
            }),
    {
        let adjusted = if address >= 0xFE00 { address - 0xFE00 } else { address };
        if adjusted < 160 {
            let e = self.oam_ram[adjusted / 4];
            let b = adjusted % 4;
            if b == 0 {
                e.y
            } else if b == 1 {
                e.x
            } else if b == 2 {
                e.tile_idx
            } else {
                e.attributes
            }
        } else {
            0
        }
    }

    /// Sprite `index` of the table.
    pub fn oam_get_entry_by_index(&self, index: usize) -> (r: OamEntry)
        requires
            self.wf(),
            index < OAM_ENTRIES,
        ensures
            r == self.oam_ram[index as int],
    {
        self.oam_ram[index]
    }

    /// Writes video RAM at `address` (`8000..9FFF`).
    pub fn vram_write(&mut self, address: usize, value: u8)
        requires
            old(self).wf(),
            0x8000 <= address < 0xA000,
        ensures
            final(self).wf(),
            final(self).vram@ == old(self).vram@.update(address - 0x8000, value),
            final(self).have_update == old(self).have_update,
            final(self).oam_ram == old(self).oam_ram,
            final(self).lcd == old(self).lcd,
            final(self).line_ticks == old(self).line_ticks,
    {
        self.vram.set(address - 0x8000, value);
    }

    /// Reads video RAM at `address` (`8000..9FFF`).
    pub fn vram_read(&self, address: usize) -> (r: u8)
        requires
            self.wf(),
            0x8000 <= address < 0xA000,
        ensures
            r == self.vram@[address - 0x8000],
    {
        self.vram[address - 0x8000]
    }

    /// A copy of the frame buffer.
    pub fn get_video_buffer(&self) -> (r: Vec<u8>)
        ensures
            r@ == self.video_buffer@,
    {
        self.video_buffer.clone()
    }

    /// Moves to the next line: `LY` advances (wrapping after 153 to 0), the window line counts
    /// when the window showed on this line, and the LY=LYC flag and its interrupt follow.
    pub fn ly_increment(&mut self) -> (stat: bool)
        requires
            old(self).wf(),
        ensures
            final(self).wf(),
            final(self).lcd.ly == (old(self).lcd.ly + 1) % (LINES_PER_FRAME as int),
            final(self).line_ticks == old(self).line_ticks,
            mode_of(final(self).lcd.lcds) == mode_of(old(self).lcd.lcds),
            final(self).oam_ram == old(self).oam_ram,
            final(self).vram == old(self).vram,
            final(self).lcd.dma == old(self).lcd.dma,
            final(self).lcd.lcdc == old(self).lcd.lcdc,
            final(self).have_update == old(self).have_update,
            stat == (final(self).lcd.ly == final(self).lcd.ly_compare && bit_of(final(self).lcd.lcds, 6)),
            forall|k: nat| 3 <= k < 8 ==> #[trigger] bit_of(final(self).lcd.lcds, k) == bit_of(old(self).lcd.lcds, k),
    {
        if self.window_is_visible() && self.lcd.ly >= self.lcd.win_y {
            self.window_line = if self.window_line == 255 { 255 } else { self.window_line + 1 };
        }
        self.lcd.ly = if self.lcd.ly + 1 >= LINES_PER_FRAME { 0 } else { self.lcd.ly + 1 };
        if self.lcd.ly == self.lcd.ly_compare {
            self.lcd.lcds_lyc_set(true);
            self.lcd.lcds_stat_int(StatType::LYC)
        } else {
            self.lcd.lcds_lyc_set(false);
            false
        }
    }

    /// OAM scan: on the first tick the line's sprites are chosen; at tick 80 pixel transfer
    /// begins.
    pub fn mode_oam(&mut self)
        requires
            old(self).wf(),
        ensures
            final(self).wf(),
            final(self).have_update == old(self).have_update,
            old(self).line_ticks >= 80 ==> mode_of(final(self).lcd.lcds) == Mode::XFER,
            old(self).line_ticks < 80 ==> final(self).lcd == old(self).lcd,
            old(self).line_ticks == 1 ==> final(self).line_entries@.to_multiset() == crate::ppu_pipeline::scan_selection(
                old(self).oam_ram@,
                old(self).lcd.ly,
                if bit_of(old(self).lcd.lcdc, 2) { 16u8 } else { 8u8 },
                OAM_ENTRIES as int,
            ).to_multiset(),
            final(self).lcd.ly == old(self).lcd.ly,
            final(self).line_ticks == old(self).line_ticks,
            final(self).oam_ram == old(self).oam_ram,
            final(self).vram == old(self).vram,
            final(self).lcd.dma == old(self).lcd.dma,
    {
        if self.line_ticks >= 80 {
            self.lcd.lcds_mode_set(Mode::XFER);
            self.pf_control.reset_x();
        }
        if self.line_ticks == 1 {
            self.load_line_sprites();
        }
    }

    /// Pixel transfer: run the pipeline; after 160 pixels enter HBlank. The result is a
    /// request for the `STAT` interrupt.
    pub fn mode_xfer(&mut self) -> (stat: bool)
        requires
            old(self).wf(),
        ensures
            final(self).wf(),
            final(self).have_update == old(self).have_update,
            final(self).pf_control.pushed_x >= XRES ==> mode_of(final(self).lcd.lcds) == Mode::HBlank && stat == bit_of(
                final(self).lcd.lcds,
                3,
            ),
            final(self).pf_control.pushed_x < XRES ==> !stat && final(self).lcd == old(self).lcd,
            final(self).lcd.ly == old(self).lcd.ly,
            final(self).line_ticks == old(self).line_ticks,
            final(self).oam_ram == old(self).oam_ram,
            final(self).vram == old(self).vram,
            final(self).lcd.dma == old(self).lcd.dma,
    {
        self.pipeline_process();
        if self.pf_control.pushed_x >= XRES {
            self.pipeline_fifo_reset();
            self.lcd.lcds_mode_set(Mode::HBlank);
            self.lcd.lcds_stat_int(StatType::HBLANK)
        } else {
            false
        }
    }

    /// The end of a line (tick 456): `LY` advances and the next mode begins: OAM scan on a
    /// visible line, V-Blank from line 144 (raising the V-Blank interrupt and marking a
    /// complete frame). A pixel transfer still running is cut short.
    pub fn end_line(&mut self) -> (r: PpuRequests)
        requires
            old(self).wf(),
        ensures
            final(self).wf(),
            final(self).lcd.ly == (old(self).lcd.ly + 1) % (LINES_PER_FRAME as int),
            final(self).line_ticks == old(self).line_ticks,
            final(self).oam_ram == old(self).oam_ram,
            final(self).vram == old(self).vram,
            final(self).lcd.dma == old(self).lcd.dma,
            r.vblank == (final(self).lcd.ly == YRES),
            mode_of(final(self).lcd.lcds) == (if final(self).lcd.ly < YRES { Mode::OAM } else { Mode::VBlank }),
            final(self).have_update == (old(self).have_update || final(self).lcd.ly == YRES),
            r.stat == ((final(self).lcd.ly == final(self).lcd.ly_compare && bit_of(final(self).lcd.lcds, 6))
                || (final(self).lcd.ly < YRES && bit_of(final(self).lcd.lcds, 5)) || (final(self).lcd.ly == YRES
                && bit_of(final(self).lcd.lcds, 4))),
    {
        if self.lcd.lcds_mode() == Mode::XFER {
            self.pipeline_fifo_reset();
        }
        let lyc = self.ly_increment();
        let mut stat = lyc;
        let mut vblank = false;
        if self.lcd.ly < YRES {
            self.lcd.lcds_mode_set(Mode::OAM);
            if self.lcd.ly == 0 {
                self.window_line = 0;
            }
            if self.lcd.lcds_stat_int(StatType::OAM) {
                stat = true;
            }
        } else {
            self.lcd.lcds_mode_set(Mode::VBlank);
            if self.lcd.ly == YRES {
                vblank = true;
                self.have_update = true;
                if self.lcd.lcds_stat_int(StatType::VBLANK) {
                    stat = true;
                }
            }
        }
        PpuRequests { vblank, stat }
    }

    /// One clock tick. A line lasts exactly 456 ticks and a frame 154 lines: the pair
    /// (`LY`, tick of the line) counts the ticks of the frame, wrapping.
    pub fn tick(&mut self) -> (r: PpuRequests)
        requires
            old(self).wf(),
        ensures
            final(self).wf(),
            frame_position(final(self).lcd.ly, final(self).line_ticks) == (frame_position(
                old(self).lcd.ly,
                old(self).line_ticks,
            ) + 1) % frame_ticks(),
            final(self).lcd.dma == old(self).lcd.dma,
            final(self).vram == old(self).vram,
            final(self).oam_ram == old(self).oam_ram,
            r.vblank == (old(self).line_ticks == 455 && final(self).lcd.ly == YRES),
            final(self).have_update == (old(self).have_update || r.vblank),
            old(self).line_ticks == 455 ==> mode_of(final(self).lcd.lcds) == (if final(self).lcd.ly < YRES {
                Mode::OAM
            } else {
                Mode::VBlank
            }),
            old(self).line_ticks < 455 && mode_of(old(self).lcd.lcds) == Mode::OAM && final(self).line_ticks >= 80
                ==> mode_of(final(self).lcd.lcds) == Mode::XFER,
            ppu_progress(*old(self), *final(self), 1),
            old(self).line_ticks < 455 && (mode_of(old(self).lcd.lcds) == Mode::HBlank || mode_of(old(self).lcd.lcds)
                == Mode::VBlank) ==> final(self).lcd == old(self).lcd && !r.vblank && !r.stat,
    {
        if self.line_ticks + 1 < TICKS_PER_LINE {
            self.line_ticks = self.line_ticks + 1;
            let mode = self.lcd.lcds_mode();
            let mut stat = false;
            if mode == Mode::OAM {
                self.mode_oam();
            } else if mode == Mode::XFER {
                stat = self.mode_xfer();
            }
            proof {
                lemma_frame_step(old(self).lcd.ly, old(self).line_ticks);
                lemma_vblank_step(old(self).lcd.ly, old(self).line_ticks, self.lcd.ly, self.line_ticks);
            }
            PpuRequests { vblank: false, stat }
        } else {
            self.line_ticks = 0;
            let r = self.end_line();
            proof {
                lemma_frame_step(old(self).lcd.ly, old(self).line_ticks);
                lemma_vblank_step(old(self).lcd.ly, old(self).line_ticks, self.lcd.ly, self.line_ticks);
            }
            r
        }
    }
}

} // verus!
