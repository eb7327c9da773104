use vstd::prelude::*;
use crate::alu::{bit_of, test_bit};
use crate::lcd::{LCD, XRES, YRES, palette_shade, shade_of};
use crate::oam_entry::OamEntry;
use crate::ppu::{FetchState, OAM_ENTRIES, PPU};

verus! {

/// Whether a sprite shows on line `ly` for a given sprite height.
pub open spec fn on_line(e: OamEntry, ly: u8, height: u8) -> bool {
    e.x != 0 && e.y <= ly + 16 && e.y + height > ly + 16
}

/// The sprites an OAM scan keeps from the first `k` table entries: in table order, those on
/// the line, at most ten.
pub open spec fn scan_selection(oam: Seq<OamEntry>, ly: u8, height: u8, k: int) -> Seq<OamEntry>
    decreases k,
{
    if k <= 0 {
        Seq::empty()
    } else {
        let s = scan_selection(oam, ly, height, k - 1);
        if s.len() < 10 && on_line(oam[k - 1], ly, height) {
            s.push(oam[k - 1])
        } else {
            s
        }
    }
}

/// How many sprites of `s` have an X of at most `x`.
pub open spec fn count_le(s: Seq<OamEntry>, x: u8) -> nat
    decreases s.len(),
{
    if s.len() == 0 {
        0
    } else {
        count_le(s.drop_last(), x) + (if s.last().x <= x { 1nat } else { 0nat })
    }
}

/// `e` inserted into a list ordered by X after every sprite whose X is not greater: a stable
/// insertion.
pub open spec fn insert_by_x(s: Seq<OamEntry>, e: OamEntry) -> Seq<OamEntry> {
    s.insert(count_le(s, e.x) as int, e)
}

/// The OAM scan's result after the first `k` table entries: the selected sprites, each
/// inserted stably by X, so that equal X keep table order.
pub open spec fn sorted_selection(oam: Seq<OamEntry>, ly: u8, height: u8, k: int) -> Seq<OamEntry>
    decreases k,
{
    if k <= 0 {
        Seq::empty()
    } else {
        let prev = sorted_selection(oam, ly, height, k - 1);
        if scan_selection(oam, ly, height, k - 1).len() < 10 && on_line(oam[k - 1], ly, height) {
            insert_by_x(prev, oam[k - 1])
        } else {
            prev
        }
    }
}

proof fn lemma_count_le(s: Seq<OamEntry>, x: u8, pos: int)
    requires
        0 <= pos <= s.len(),
        forall|i: int, j: int| 0 <= i < j < s.len() ==> (#[trigger] s[i]).x <= (#[trigger] s[j]).x,
        pos == 0 || s[pos - 1].x <= x,
        forall|i: int| pos <= i < s.len() ==> (#[trigger] s[i]).x > x,
    ensures
        count_le(s, x) == pos,
    decreases s.len(),
{
    if s.len() > 0 {
        let t = s.drop_last();
        if pos == s.len() {
            assert(s.last().x <= x);
            if pos - 1 > 0 {
                assert(t[pos - 2].x <= s[pos - 1].x);
            }
            lemma_count_le(t, x, pos - 1);
        } else {
            assert(s.last().x > x);
            lemma_count_le(t, x, pos);
        }
    }
}

/// Colour index (0..3) of pixel `bit` (7 is leftmost) of a tile row given by its two bytes.
pub open spec fn color_index(lo: u8, hi: u8, bit: nat) -> u8 {
    ((if bit_of(hi, bit) { 2int } else { 0 }) + (if bit_of(lo, bit) { 1int } else { 0 })) as u8
}

/// The colour index sprite `e` (row bytes `lo`, `hi`) puts at FIFO column `column`, if the
/// column lies within it.
pub open spec fn sprite_color_index(e: OamEntry, lo: u8, hi: u8, column: int, scx: u8) -> Option<u8> {
    let offset = column - (e.x - 8 + scx % 8);
    if 0 <= offset <= 7 {
        Some(color_index(lo, hi, (if bit_of(e.attributes, 5) { offset } else { 7 - offset }) as nat))
    } else {
        None
    }
}

/// The shade at FIFO column `column` after the fetched sprites from `index` on are laid over
/// background shade `col` of colour index `bg_idx`.
pub open spec fn sprite_shade_from(
    entries: Seq<OamEntry>,
    data: Seq<u8>,
    column: int,
    lcd: LCD,
    col: u8,
    bg_idx: u8,
    index: int,
) -> u8
    decreases entries.len() - index,
{
    if index < 0 || index >= entries.len() {
        col
    } else {
        let e = entries[index];
        let ci = sprite_color_index(e, data[2 * index], data[2 * index + 1], column, lcd.scroll_x);
        if ci.is_some() && ci.unwrap() != 0 && (!bit_of(e.attributes, 7) || bg_idx == 0) {
            shade_of(if bit_of(e.attributes, 4) { lcd.obj_pallete_1 } else { lcd.obj_pallete_0 }, ci.unwrap())
        } else {
            sprite_shade_from(entries, data, column, lcd, col, bg_idx, index + 1)
        }
    }
}

/// The fetcher's state after one step.
pub open spec fn next_fetch_state(p: PPU) -> FetchState {
    match p.pf_control.cur_fetch_state {
        FetchState::TILE => FetchState::DATA0,
        FetchState::DATA0 => FetchState::DATA1,
        FetchState::DATA1 => FetchState::SLEEP,
        FetchState::SLEEP => FetchState::PUSH,
        FetchState::PUSH => if p.pf_control.pixel_fifo@.len() <= 8 {
            FetchState::TILE
        } else {
            FetchState::PUSH
        },
    }
}

/// The background tile index at the fetch position: read from the background map
/// (`map_x / 8`, `map_y / 8`), re-biased by 128 for the `8800` data area.
pub open spec fn bg_tile_index(p: PPU) -> u8 {
    let map = if bit_of(p.lcd.lcdc, 3) { 0x9C00int } else { 0x9800int };
    let raw = p.vram@[map + p.pf_control.map_x / 8 + (p.pf_control.map_y / 8) * 32 - 0x8000];
    if bit_of(p.lcd.lcdc, 4) { raw } else { ((raw + 128) % 256) as u8 }
}

/// Byte `offset` (0 low, 1 high) of the current line's row of sprite `e`: the row counts from
/// the sprite's top (from its bottom when flipped vertically), and an 8x16 sprite uses the
/// even tile of its pair.
pub open spec fn sprite_row_byte(p: PPU, e: OamEntry, offset: int) -> u8 {
    let h: int = if bit_of(p.lcd.lcdc, 2) { 16 } else { 8 };
    let row = ((p.lcd.ly + 16 + 256 - e.y) % 256) % h;
    let ty = if bit_of(e.attributes, 6) { (h - 1 - row) * 2 } else { row * 2 };
    let tile = if h == 16 { e.tile_idx - e.tile_idx % 2 } else { e.tile_idx as int };
    p.vram@[tile * 16 + ty + offset]
}

/// Whether the window shows at the fetch position of the current line.
pub open spec fn window_covers(p: PPU) -> bool {
    &&& bit_of(p.lcd.lcdc, 5) && p.lcd.win_x <= 166 && p.lcd.win_y < YRES
    &&& p.pf_control.fetch_x + 7 >= p.lcd.win_x && p.pf_control.fetch_x < p.lcd.win_x + 174
    &&& p.lcd.ly >= p.lcd.win_y
}

/// The window tile index at the fetch position: from the window map, column
/// `(fetch_x + 7 - WX) / 8`, row `window_line / 8`, re-biased for the `8800` data area.
pub open spec fn window_tile_index(p: PPU) -> u8 {
    let map = if bit_of(p.lcd.lcdc, 6) { 0x9C00int } else { 0x9800int };
    let col = ((p.pf_control.fetch_x + 7 - p.lcd.win_x) / 8) % 32;
    let row = ((p.window_line / 8) as int) % 32;
    let raw = p.vram@[map + col + row * 32 - 0x8000];
    if bit_of(p.lcd.lcdc, 4) { raw } else { ((raw + 128) % 256) as u8 }
}

/// Whether sprite `e` overlaps the 8-pixel slot being fetched at `fetch_x`.
pub open spec fn in_slot(e: OamEntry, fetch_x: u8, scx: u8) -> bool {
    let ox = e.x - 8 + scx % 8;
    (ox >= fetch_x && ox < fetch_x + 8) || (ox + 8 >= fetch_x && ox + 8 < fetch_x + 8)
}

/// The sprites fetched for a slot: in line order, the first three of the first `k` line
/// sprites that overlap it.
pub open spec fn slot_sprites(es: Seq<OamEntry>, fetch_x: u8, scx: u8, k: int) -> Seq<OamEntry>
    decreases k,
{
    if k <= 0 {
        Seq::empty()
    } else {
        let s = slot_sprites(es, fetch_x, scx, k - 1);
        if s.len() < 3 && in_slot(es[k - 1], fetch_x, scx) {
            s.push(es[k - 1])
        } else {
            s
        }
    }
}

/// Byte `k` (0 low, 1 high) of the current row of the fetched tile.
pub open spec fn tile_row_byte(p: PPU, k: int) -> u8 {
    let data = if bit_of(p.lcd.lcdc, 4) { 0x8000int } else { 0x8800int };
    p.vram@[data + p.pf_control.bgw_fetch_data@[0] * 16 + p.pf_control.tile_y + k - 0x8000]
}

/// Background colour index of pixel `k` (0 = leftmost) of the fetched row.
pub open spec fn row_bg_index(p: PPU, k: int) -> u8 {
    if bit_of(p.lcd.lcdc, 0) {
        color_index(p.pf_control.bgw_fetch_data@[1], p.pf_control.bgw_fetch_data@[2], (7 - k) as nat)
    } else {
        0
    }
}

/// The FIFO column at which pixel `k` of the row is pushed.
pub open spec fn fifo_column(p: PPU, k: int) -> u8 {
    if p.pf_control.fifo_x + k > 255 { 255 } else { (p.pf_control.fifo_x + k) as u8 }
}

/// Pixel `k` of the fetched row as it enters the FIFO.
pub open spec fn row_pixel(p: PPU, k: int) -> u8 {
    let bg = shade_of(p.lcd.bg_pallete, row_bg_index(p, k));
    if bit_of(p.lcd.lcdc, 1) {
        sprite_shade_from(
            p.fetched_entries@,
            p.pf_control.fetch_entry_data@,
            fifo_column(p, k) as int,
            p.lcd,
            bg,
            row_bg_index(p, k),
            0,
        )
    } else {
        bg
    }
}

/// Whether the fetched row reaches the screen (it is not entirely left of it).
pub open spec fn row_visible(p: PPU) -> bool {
    p.pf_control.fetch_x - (8 - p.lcd.scroll_x % 8) >= 0
}

fn pixel_index(lo: u8, hi: u8, bit: u8) -> (r: u8)
    requires
        bit < 8,
    ensures
        r == color_index(lo, hi, bit as nat),
        r < 4,
{
    let h: u8 = if test_bit(hi, bit) { 2 } else { 0 };
    let l: u8 = if test_bit(lo, bit) { 1 } else { 0 };
    h + l
}

impl PPU {
    /// The window is on and placed where it can show.
    pub fn window_is_visible(&self) -> (r: bool)
        ensures
            r == (bit_of(self.lcd.lcdc, 5) && self.lcd.win_x <= 166 && self.lcd.win_y < YRES),
    {
        self.lcd.lcdc_window_enabled() && self.lcd.win_x <= 166 && self.lcd.win_y < YRES
    }

    /// Appends a shade to the pixel FIFO.
    pub fn pixel_fifo_push(&mut self, color: u8)
        requires
            old(self).wf(),
            old(self).pf_control.pixel_fifo@.len() < 16,
        ensures
            final(self).wf(),
            final(self).same_outside_pipeline(&*old(self)),
            final(self).pf_control.pixel_fifo@ == old(self).pf_control.pixel_fifo@.push(color),
            final(self).pf_control.cur_fetch_state == old(self).pf_control.cur_fetch_state,
            final(self).pf_control.fifo_x == old(self).pf_control.fifo_x,
            final(self).pf_control.bgw_fetch_data == old(self).pf_control.bgw_fetch_data,
            final(self).pf_control.fetch_entry_data == old(self).pf_control.fetch_entry_data,
            final(self).fetched_entries == old(self).fetched_entries,
    {
        self.pf_control.pixel_fifo.push(color);
    }

    /// Takes the oldest shade from the pixel FIFO, if any.
    pub fn pixel_fifo_pop(&mut self) -> (r: Option<u8>)
        requires
            old(self).wf(),
        ensures
            final(self).wf(),
            final(self).same_outside_pipeline(&*old(self)),
            old(self).pf_control.pixel_fifo@.len() == 0 ==> r.is_none() && final(self).pf_control.pixel_fifo@
                == old(self).pf_control.pixel_fifo@,
            old(self).pf_control.pixel_fifo@.len() > 0 ==> r == Some(old(self).pf_control.pixel_fifo@[0])
                && final(self).pf_control.pixel_fifo@ == old(self).pf_control.pixel_fifo@.subrange(
                1,
                old(self).pf_control.pixel_fifo@.len() as int,
            ),
            final(self).pf_control.line_x == old(self).pf_control.line_x,
            final(self).pf_control.pushed_x == old(self).pf_control.pushed_x,
            final(self).pf_control.cur_fetch_state == old(self).pf_control.cur_fetch_state,
            final(self).video_buffer == old(self).video_buffer,
    {
        if self.pf_control.pixel_fifo.len() == 0 {
            None
        } else {
            Some(self.pf_control.pixel_fifo.remove(0))
        }
    }

    /// Empties the pixel FIFO.
    pub fn pipeline_fifo_reset(&mut self)
        requires
            old(self).wf(),
        ensures
            final(self).wf(),
            final(self).pf_control.pixel_fifo@.len() == 0,
            final(self).same_outside_pipeline(&*old(self)),
            final(self).pf_control.pushed_x == old(self).pf_control.pushed_x,
    {
        self.pf_control.pixel_fifo.clear();
    }

    /// The shade of the current FIFO column after the fetched sprites are laid over a
    /// background shade `col` of colour index `bg_col_index`: the first sprite with a
    /// non-transparent pixel there wins, unless it is behind a non-zero background.
    fn fetch_sprite_pixels(&self, col: u8, bg_col_index: u8) -> (r: u8)
        requires
            self.wf(),
            col < 4,
        ensures
            r < 4,
            r == sprite_shade_from(
                self.fetched_entries@,
                self.pf_control.fetch_entry_data@,
                self.pf_control.fifo_x as int,
                self.lcd,
                col,
                bg_col_index,
                0,
            ),
    {
        let mut result = col;
        let mut found = false;
        let mut index: usize = 0;
        let n = self.fetched_entries.len();
        while index < n && !found
            invariant
                self.wf(),
                n == self.fetched_entries.len(),
                index <= n,
                result < 4,
                col < 4,
                found ==> result == sprite_shade_from(
                    self.fetched_entries@,
                    self.pf_control.fetch_entry_data@,
                    self.pf_control.fifo_x as int,
                    self.lcd,
                    col,
                    bg_col_index,
                    0,
                ),
                !found ==> result == col && sprite_shade_from(
                    self.fetched_entries@,
                    self.pf_control.fetch_entry_data@,
                    self.pf_control.fifo_x as int,
                    self.lcd,
                    col,
                    bg_col_index,
                    0,
                ) == sprite_shade_from(
                    self.fetched_entries@,
                    self.pf_control.fetch_entry_data@,
                    self.pf_control.fifo_x as int,
                    self.lcd,
                    col,
                    bg_col_index,
                    index as int,
                ),
            decreases n - index,
        {
            let entry = self.fetched_entries[index];
            let cur_x = self.pf_control.fifo_x as i32;
            let obj_x = entry.x as i32 - 8 + (self.lcd.scroll_x % 8) as i32;
            let offset = cur_x - obj_x;
            if 0 <= offset && offset <= 7 {
                let bit: u8 = if entry.x_flipped() { offset as u8 } else { (7 - offset) as u8 };
                let lo = self.pf_control.fetch_entry_data[index * 2];
                let hi = self.pf_control.fetch_entry_data[index * 2 + 1];
                let idx = pixel_index(lo, hi, bit);
                if idx != 0 && (!entry.draw_under_bg() || bg_col_index == 0) {
                    let pal = if entry.palette() == 0 {
                        self.lcd.obj_pallete_0
                    } else {
                        self.lcd.obj_pallete_1
                    };
                    result = palette_shade(pal, idx);
                    found = true;
                }
            }
            index = index + 1;
        }
        result
    }

    /// Pushes the eight pixels of the fetched row if the FIFO holds at most 8; `false` when
    /// it is too full. Each pixel is the background shade of its colour index (index 0 when
    /// the background is off), with the fetched sprites laid over it when sprites are on;
    /// nothing is pushed while the row still lies left of the screen.
    pub fn pipeline_fifo_add(&mut self) -> (r: bool)
        requires
            old(self).wf(),
        ensures
            final(self).wf(),
            final(self).same_outside_pipeline(&*old(self)),
            final(self).pf_control.cur_fetch_state == old(self).pf_control.cur_fetch_state,
            r == (old(self).pf_control.pixel_fifo@.len() <= 8),
            !r ==> final(self).pf_control.pixel_fifo@ == old(self).pf_control.pixel_fifo@,
            r && row_visible(*old(self)) ==> final(self).pf_control.pixel_fifo@ == old(self).pf_control.pixel_fifo@
                + Seq::new(8, |k: int| row_pixel(*old(self), k)),
            r && !row_visible(*old(self)) ==> final(self).pf_control.pixel_fifo@ == old(self).pf_control.pixel_fifo@,
    {
        if self.pf_control.pixel_fifo.len() > 8 {
            return false;
        }
        let x: i32 = self.pf_control.fetch_x as i32 - (8 - (self.lcd.scroll_x % 8) as i32);
        let lo = self.pf_control.bgw_fetch_data[1];
        let hi = self.pf_control.bgw_fetch_data[2];
        let ghost start = *self;
        let mut i: u8 = 0;
        while i < 8
            invariant
                self.wf(),
                self.same_outside_pipeline(&*old(self)),
                self.pf_control.cur_fetch_state == old(self).pf_control.cur_fetch_state,
                start == *old(self),
                i <= 8,
                lo == start.pf_control.bgw_fetch_data@[1],
                hi == start.pf_control.bgw_fetch_data@[2],
                self.fetched_entries == start.fetched_entries,
                self.pf_control.fetch_entry_data == start.pf_control.fetch_entry_data,
                x == start.pf_control.fetch_x - (8 - start.lcd.scroll_x % 8),
                x >= 0 ==> self.pf_control.fifo_x == fifo_column(start, i as int),
                x >= 0 ==> self.pf_control.pixel_fifo@ == start.pf_control.pixel_fifo@ + Seq::new(
                    i as nat,
                    |k: int| row_pixel(start, k),
                ),
                x < 0 ==> self.pf_control.pixel_fifo@ == start.pf_control.pixel_fifo@,
                start.pf_control.pixel_fifo@.len() <= 8,
            decreases 8 - i,
        {
            let bit = 7 - i;
            let idx = pixel_index(lo, hi, bit);
            let bg_on = self.lcd.lcdc_bgw_enabled();
            let bg_idx = if bg_on { idx } else { 0 };
            let mut col = palette_shade(self.lcd.bg_pallete, bg_idx);
            if self.lcd.lcdc_obj_enabled() {
                col = self.fetch_sprite_pixels(col, bg_idx);
            }
            if x >= 0 {
                proof {
                    assert(col == row_pixel(start, i as int));
                }
                self.pixel_fifo_push(col);
                self.pf_control.fifo_x = if self.pf_control.fifo_x == 255 { 255 } else { self.pf_control.fifo_x + 1 };
                proof {
                    assert(self.pf_control.pixel_fifo@ =~= start.pf_control.pixel_fifo@ + Seq::new(
                        (i + 1) as nat,
                        |k: int| row_pixel(start, k),
                    ));
                }
            }
            i = i + 1;
        }
        true
    }

    /// One step of the fetcher (tile, data low, data high, sleep, push); the push step
    /// repeats until the FIFO has room.
    pub fn pipeline_fetch(&mut self)
        requires
            old(self).wf(),
        ensures
            final(self).wf(),
            final(self).same_outside_pipeline(&*old(self)),
            final(self).pf_control.cur_fetch_state == next_fetch_state(*old(self)),
            old(self).pf_control.cur_fetch_state == FetchState::TILE ==> final(self).pf_control.fetch_x == (if old(
                self,
            ).pf_control.fetch_x > 247 {
                255
            } else {
                old(self).pf_control.fetch_x + 8
            }) && final(self).pf_control.pixel_fifo == old(self).pf_control.pixel_fifo,
            old(self).pf_control.cur_fetch_state == FetchState::TILE && bit_of(old(self).lcd.lcdc, 0) ==> final(self).pf_control.bgw_fetch_data@[0] == (if window_covers(*old(self)) {
                window_tile_index(*old(self))
            } else {
                bg_tile_index(*old(self))
            }),
            old(self).pf_control.cur_fetch_state == FetchState::TILE ==> final(self).fetched_entries@ == (if bit_of(
                old(self).lcd.lcdc,
                1,
            ) {
                slot_sprites(
                    old(self).line_entries@,
                    old(self).pf_control.fetch_x,
                    old(self).lcd.scroll_x,
                    old(self).line_entries@.len() as int,
                )
            } else {
                Seq::empty()
            }),
            old(self).pf_control.cur_fetch_state == FetchState::TILE && !bit_of(old(self).lcd.lcdc, 0)
                ==> final(self).pf_control.bgw_fetch_data == old(self).pf_control.bgw_fetch_data,
            old(self).pf_control.cur_fetch_state == FetchState::DATA0 ==> final(self).pf_control.bgw_fetch_data@
                == old(self).pf_control.bgw_fetch_data@.update(1, tile_row_byte(*old(self), 0))
                && final(self).pf_control.pixel_fifo == old(self).pf_control.pixel_fifo,
            old(self).pf_control.cur_fetch_state == FetchState::DATA1 ==> final(self).pf_control.bgw_fetch_data@
                == old(self).pf_control.bgw_fetch_data@.update(2, tile_row_byte(*old(self), 1))
                && final(self).pf_control.pixel_fifo == old(self).pf_control.pixel_fifo,
            old(self).pf_control.cur_fetch_state == FetchState::DATA0 ==> forall|i: int|
                0 <= i < old(self).fetched_entries@.len() ==> #[trigger] final(self).pf_control.fetch_entry_data@[2 * i]
                == sprite_row_byte(*old(self), old(self).fetched_entries@[i], 0),
            old(self).pf_control.cur_fetch_state == FetchState::DATA1 ==> forall|i: int|
                0 <= i < old(self).fetched_entries@.len() ==> #[trigger] final(self).pf_control.fetch_entry_data@[2 * i + 1]
                == sprite_row_byte(*old(self), old(self).fetched_entries@[i], 1),
            old(self).pf_control.cur_fetch_state == FetchState::SLEEP ==> final(self).pf_control.pixel_fifo
                == old(self).pf_control.pixel_fifo,
            old(self).pf_control.cur_fetch_state == FetchState::PUSH && old(self).pf_control.pixel_fifo@.len() <= 8
                && row_visible(*old(self)) ==> final(self).pf_control.pixel_fifo@ == old(self).pf_control.pixel_fifo@
                + Seq::new(8, |k: int| row_pixel(*old(self), k)),
            old(self).pf_control.cur_fetch_state == FetchState::PUSH && !(old(self).pf_control.pixel_fifo@.len() <= 8
                && row_visible(*old(self))) ==> final(self).pf_control.pixel_fifo@ == old(self).pf_control.pixel_fifo@,
    {
        match self.pf_control.cur_fetch_state {
            FetchState::TILE => {
                self.fetched_entries.clear();
                if self.lcd.lcdc_bgw_enabled() {
                    let map_start = self.lcd.lcdc_bg_map_area();
                    let addr = map_start + (self.pf_control.map_x as usize / 8) + (self.pf_control.map_y as usize / 8) * 32;
                    let mut idx = self.vram_read(addr);
                    if self.lcd.lcdc_bg_data_area() == 0x8800 {
                        idx = if idx >= 128 { idx - 128 } else { idx + 128 };
                    }
                    self.pf_control.bgw_fetch_data.set(0, idx);
                    self.pipeline_load_window_tile();
                }
                if self.lcd.lcdc_obj_enabled() && self.line_entries.len() > 0 {
                    self.pipeline_load_sprite_tile();
                }
                self.pf_control.cur_fetch_state = FetchState::DATA0;
                self.pf_control.fetch_x = if self.pf_control.fetch_x > 247 { 255 } else { self.pf_control.fetch_x + 8 };
            },
            FetchState::DATA0 => {
                let addr = self.lcd.lcdc_bg_data_area() + (self.pf_control.bgw_fetch_data[0] as usize) * 16
                    + self.pf_control.tile_y as usize;
                let v = self.vram_read(addr);
                self.pf_control.bgw_fetch_data.set(1, v);
                let ghost mid = *self;
                self.pipeline_load_sprite_data(0);
                proof {
                    assert forall|i: int| 0 <= i < old(self).fetched_entries@.len() implies #[trigger] self.pf_control.fetch_entry_data@[2
                        * i] == sprite_row_byte(*old(self), old(self).fetched_entries@[i], 0) by {
                        assert(self.pf_control.fetch_entry_data@[2 * i + 0] == sprite_row_byte(mid, mid.fetched_entries@[i], 0));
                    }
                }
                self.pf_control.cur_fetch_state = FetchState::DATA1;
            },
            FetchState::DATA1 => {
                let addr = self.lcd.lcdc_bg_data_area() + (self.pf_control.bgw_fetch_data[0] as usize) * 16
                    + self.pf_control.tile_y as usize + 1;
                let v = self.vram_read(addr);
                self.pf_control.bgw_fetch_data.set(2, v);
                self.pipeline_load_sprite_data(1);
                self.pf_control.cur_fetch_state = FetchState::SLEEP;
            },
            FetchState::SLEEP => {
                self.pf_control.cur_fetch_state = FetchState::PUSH;
            },
            FetchState::PUSH => {
                if self.pipeline_fifo_add() {
                    self.pf_control.cur_fetch_state = FetchState::TILE;
                }
            },
        }
    }

    /// One tick of pixel transfer: the fetcher runs on every other tick, then one pixel may
    /// leave the FIFO.
    pub fn pipeline_process(&mut self)
        requires
            old(self).wf(),
        ensures
            final(self).wf(),
            final(self).same_outside_pipeline(&*old(self)),
            old(self).line_ticks % 2 == 0 ==> final(self).pf_control.cur_fetch_state == next_fetch_state(*old(self)),
            old(self).line_ticks % 2 == 1 ==> final(self).pf_control.cur_fetch_state == old(self).pf_control.cur_fetch_state
                && final(self).pf_control.pixel_fifo@ == (if old(self).pf_control.pixel_fifo@.len() > 8 {
                old(self).pf_control.pixel_fifo@.subrange(1, old(self).pf_control.pixel_fifo@.len() as int)
            } else {
                old(self).pf_control.pixel_fifo@
            }),
    {
        self.pf_control.map_y = ((self.lcd.ly as u16 + self.lcd.scroll_y as u16) % 256) as u8;
        self.pf_control.map_x = ((self.pf_control.fetch_x as u16 + self.lcd.scroll_x as u16) % 256) as u8;
        self.pf_control.tile_y = (self.pf_control.map_y % 8) * 2;
        if self.line_ticks % 2 == 0 {
            self.pipeline_fetch();
        }
        self.pipeline_push_pixel();
    }

    /// Pops one pixel when the FIFO holds more than 8. The first `SCX mod 8` pixels of a line
    /// are dropped; the others go to the frame buffer at `LY * 160 + pushed_x`.
    pub fn pipeline_push_pixel(&mut self)
        requires
            old(self).wf(),
        ensures
            final(self).wf(),
            final(self).same_outside_pipeline(&*old(self)),
            final(self).pf_control.cur_fetch_state == old(self).pf_control.cur_fetch_state,
            old(self).pf_control.pixel_fifo@.len() > 8 ==> final(self).pf_control.pixel_fifo@
                == old(self).pf_control.pixel_fifo@.subrange(1, old(self).pf_control.pixel_fifo@.len() as int),
            old(self).pf_control.pixel_fifo@.len() <= 8 ==> final(self).pf_control.pixel_fifo@
                == old(self).pf_control.pixel_fifo@ && final(self).video_buffer@ == old(self).video_buffer@,
            ({
                let pf = old(self).pf_control;
                let shown = pf.pixel_fifo@.len() > 8 && pf.line_x >= old(self).lcd.scroll_x % 8 && pf.pushed_x < XRES
                    && old(self).lcd.ly < YRES;
                final(self).video_buffer@ == if shown {
                    old(self).video_buffer@.update(old(self).lcd.ly * 160 + pf.pushed_x, pf.pixel_fifo@[0])
                } else {
                    old(self).video_buffer@
                }
            }),
    {
        if self.pf_control.pixel_fifo.len() > 8 {
            let pixel = match self.pixel_fifo_pop() {
                Some(p) => p,
                None => 0,
            };
            if self.pf_control.line_x >= self.lcd.scroll_x % 8 {
                if self.pf_control.pushed_x < XRES && self.lcd.ly < YRES {
                    let idx = self.pf_control.pushed_x as usize + self.lcd.ly as usize * 160;
                    self.video_buffer.set(idx, pixel);
                }
                self.pf_control.pushed_x = if self.pf_control.pushed_x == 255 { 255 } else { self.pf_control.pushed_x + 1 };
            }
            self.pf_control.line_x = if self.pf_control.line_x == 255 { 255 } else { self.pf_control.line_x + 1 };
        }
    }

    /// Picks, in order, up to three of the line's sprites that overlap the 8-pixel slot
    /// being fetched.
    pub fn pipeline_load_sprite_tile(&mut self)
        requires
            old(self).wf(),
            old(self).fetched_entries@.len() == 0,
        ensures
            final(self).fetched_entries@ == slot_sprites(
                old(self).line_entries@,
                old(self).pf_control.fetch_x,
                old(self).lcd.scroll_x,
                old(self).line_entries@.len() as int,
            ),
            final(self).line_entries == old(self).line_entries,
            final(self).pf_control == old(self).pf_control,
            final(self).wf(),
            final(self).same_outside_pipeline(&*old(self)),
            final(self).pf_control.cur_fetch_state == old(self).pf_control.cur_fetch_state,
    {
        let mut i: usize = 0;
        let n = self.line_entries.len();
        while i < n
            invariant
                self.wf(),
                self.same_outside_pipeline(&*old(self)),
                n == self.line_entries.len(),
                self.pf_control == old(self).pf_control,
                self.pf_control.cur_fetch_state == old(self).pf_control.cur_fetch_state,
                i <= n,
                self.line_entries == old(self).line_entries,
                self.fetched_entries@ == slot_sprites(
                    old(self).line_entries@,
                    old(self).pf_control.fetch_x,
                    old(self).lcd.scroll_x,
                    i as int,
                ),
            decreases n - i,
        {
            let entry = self.line_entries[i];
            let obj_x = entry.x as i32 - 8 + (self.lcd.scroll_x % 8) as i32;
            let cur_x = self.pf_control.fetch_x as i32;
            if self.fetched_entries.len() < 3 && ((obj_x >= cur_x && obj_x < cur_x + 8) || (obj_x + 8 >= cur_x && obj_x
                + 8 < cur_x + 8)) {
                self.fetched_entries.push(entry);
            }
            i = i + 1;
        }
    }

    /// Reads byte `offset` (0 or 1) of the current row of each fetched sprite, honouring
    /// vertical flip and the even tile of 8x16 sprites.
    fn pipeline_load_sprite_data(&mut self, offset: usize)
        requires
            old(self).wf(),
            offset < 2,
        ensures
            final(self).pf_control.bgw_fetch_data == old(self).pf_control.bgw_fetch_data,
            final(self).pf_control.fetch_x == old(self).pf_control.fetch_x,
            final(self).pf_control.pixel_fifo == old(self).pf_control.pixel_fifo,
            final(self).wf(),
            final(self).same_outside_pipeline(&*old(self)),
            final(self).pf_control.cur_fetch_state == old(self).pf_control.cur_fetch_state,
            final(self).fetched_entries == old(self).fetched_entries,
            forall|i: int| 0 <= i < old(self).fetched_entries@.len() ==> #[trigger] final(self).pf_control.fetch_entry_data@[2
                * i + offset] == sprite_row_byte(*old(self), old(self).fetched_entries@[i], offset as int),
            forall|j: int| 0 <= j < 6 && !(j % 2 == offset && j / 2 < old(self).fetched_entries@.len()) ==> #[trigger] final(self).pf_control.fetch_entry_data@[j] == old(self).pf_control.fetch_entry_data@[j],
    {
        let cur_y = self.lcd.ly;
        let height = self.lcd.lcdc_obj_height();
        let mut index: usize = 0;
        let n = self.fetched_entries.len();
        while index < n
            invariant
                self.wf(),
                self.same_outside_pipeline(&*old(self)),
                n == self.fetched_entries.len(),
                self.pf_control.bgw_fetch_data == old(self).pf_control.bgw_fetch_data,
                self.pf_control.fetch_x == old(self).pf_control.fetch_x,
                self.pf_control.pixel_fifo == old(self).pf_control.pixel_fifo,
                self.pf_control.cur_fetch_state == old(self).pf_control.cur_fetch_state,
                index <= n,
                offset < 2,
                height == 8 || height == 16,
                height == (if bit_of(self.lcd.lcdc, 2) { 16u8 } else { 8u8 }),
                cur_y == self.lcd.ly,
                self.fetched_entries == old(self).fetched_entries,
                forall|i: int| 0 <= i < index ==> #[trigger] self.pf_control.fetch_entry_data@[2 * i + offset]
                    == sprite_row_byte(*old(self), old(self).fetched_entries@[i], offset as int),
                forall|j: int| 0 <= j < 6 && !(j % 2 == offset && j / 2 < index) ==> #[trigger] self.pf_control.fetch_entry_data@[j]
                    == old(self).pf_control.fetch_entry_data@[j],
            decreases n - index,
        {
            let entry = self.fetched_entries[index];
            let row = ((cur_y as u16 + 16 + 256 - entry.y as u16) % 256) % height as u16;
            let ty = if entry.y_flipped() { (height as u16 - 1 - row) * 2 } else { row * 2 };
            let mut tile = entry.tile_idx;
            if height == 16 {
                tile = tile - tile % 2;
            }
            let v = self.vram_read(0x8000 + tile as usize * 16 + ty as usize + offset);
            self.pf_control.fetch_entry_data.set(index * 2 + offset, v);
            index = index + 1;
        }
    }

    /// Replaces the fetched tile index by the window's when the window covers this slot.
    fn pipeline_load_window_tile(&mut self)
        requires
            old(self).wf(),
        ensures
            !(bit_of(old(self).lcd.lcdc, 5) && old(self).lcd.win_x <= 166 && old(self).lcd.win_y < YRES)
                ==> final(self).pf_control == old(self).pf_control,
            final(self).pf_control.fetch_x == old(self).pf_control.fetch_x,
            final(self).pf_control.pixel_fifo == old(self).pf_control.pixel_fifo,
            final(self).wf(),
            final(self).same_outside_pipeline(&*old(self)),
            final(self).pf_control.cur_fetch_state == old(self).pf_control.cur_fetch_state,
            final(self).line_entries == old(self).line_entries,
            final(self).fetched_entries == old(self).fetched_entries,
            window_covers(*old(self)) ==> final(self).pf_control.bgw_fetch_data@ == old(self).pf_control.bgw_fetch_data@.update(0, window_tile_index(*old(self))),
            !window_covers(*old(self)) ==> final(self).pf_control == old(self).pf_control,
    {
        if !self.window_is_visible() {
            return;
        }
        let fx = self.pf_control.fetch_x as usize;
        let wx = self.lcd.win_x as usize;
        if fx + 7 >= wx && fx < wx + 174 && self.lcd.ly >= self.lcd.win_y {
            let tile_y = (self.window_line / 8) as usize % 32;
            let col = ((fx + 7 - wx) / 8) % 32;
            let mut idx = self.vram_read(self.lcd.lcdc_window_tile_map_area() + col + tile_y * 32);
            if self.lcd.lcdc_bg_data_area() == 0x8800 {
                idx = if idx >= 128 { idx - 128 } else { idx + 128 };
            }
            self.pf_control.bgw_fetch_data.set(0, idx);
        }
    }

    /// OAM scan: the first ten sprites (in table order) on the current line with a non-zero
    /// X, then ordered by X with ties kept in table order.
    pub fn load_line_sprites(&mut self)
        requires
            old(self).wf(),
        ensures
            final(self).wf(),
            final(self).same_outside_pipeline(&*old(self)),
            forall|i: int| 0 <= i < final(self).line_entries.len() ==> on_line(
                #[trigger] final(self).line_entries[i],
                old(self).lcd.ly,
                if bit_of(old(self).lcd.lcdc, 2) { 16u8 } else { 8u8 },
            ),
            forall|i: int, j: int| 0 <= i < j < final(self).line_entries.len()
                ==> (#[trigger] final(self).line_entries[i]).x <= (#[trigger] final(self).line_entries[j]).x,
            final(self).line_entries@ == sorted_selection(
                old(self).oam_ram@,
                old(self).lcd.ly,
                if bit_of(old(self).lcd.lcdc, 2) { 16u8 } else { 8u8 },
                OAM_ENTRIES as int,
            ),
            final(self).line_entries@.to_multiset() == scan_selection(
                old(self).oam_ram@,
                old(self).lcd.ly,
                if bit_of(old(self).lcd.lcdc, 2) { 16u8 } else { 8u8 },
                OAM_ENTRIES as int,
            ).to_multiset(),
    {
        let ly = self.lcd.ly;
        let height = self.lcd.lcdc_obj_height();
        let mut entries: Vec<OamEntry> = Vec::new();
        let mut k: usize = 0;
        while k < OAM_ENTRIES
            invariant
                self.wf(),
                self.same_outside_pipeline(&*old(self)),
                k <= OAM_ENTRIES,
                entries.len() <= 10,
                ly == self.lcd.ly,
                height == (if bit_of(self.lcd.lcdc, 2) { 16u8 } else { 8u8 }),
                forall|i: int| 0 <= i < entries.len() ==> on_line(#[trigger] entries[i], ly, height),
                forall|i: int, j: int| 0 <= i < j < entries.len() ==> (#[trigger] entries[i]).x <= (#[trigger] entries[j]).x,
                entries@.to_multiset() == scan_selection(self.oam_ram@, ly, height, k as int).to_multiset(),
                entries@.len() == scan_selection(self.oam_ram@, ly, height, k as int).len(),
                entries@ == sorted_selection(self.oam_ram@, ly, height, k as int),
            decreases OAM_ENTRIES - k,
        {
            let e = self.oam_ram[k];
            proof {
                broadcast use vstd::seq_lib::to_multiset_insert, vstd::seq_lib::to_multiset_build, vstd::seq_lib::to_multiset_len;
            }
            if entries.len() < 10 && e.x != 0 && e.y as u16 <= ly as u16 + 16 && e.y as u16 + height as u16 > ly as u16
                + 16 {
                // insert after every entry whose X is not greater: a stable order by X
                let mut pos: usize = entries.len();
                while pos > 0 && entries[pos - 1].x > e.x
                    invariant
                        pos <= entries.len(),
                        forall|i: int| pos <= i < entries.len() ==> (#[trigger] entries[i]).x > e.x,
                    decreases pos,
                {
                    pos = pos - 1;
                }
                proof {
                    assert(pos > 0 ==> entries[pos - 1].x <= e.x);
                }
                let ghost before = entries@;
                proof {
                    lemma_count_le(before, e.x, pos as int);
                }
                entries.insert(pos, e);
                proof {
                    assert forall|i: int, j: int| 0 <= i < j < entries.len() implies (#[trigger] entries[i]).x
                        <= (#[trigger] entries[j]).x by {
                        if i < pos && j < pos {
                            assert(entries[i] == before[i] && entries[j] == before[j]);
                        } else if i < pos && j == pos {
                            assert(entries[i] == before[i]);
                            assert(before[i].x <= before[pos - 1].x || i == pos - 1);
                        } else if i < pos {
                            assert(entries[i] == before[i] && entries[j] == before[j - 1]);
                        } else if i == pos {
                            assert(entries[j] == before[j - 1]);
                        } else {
                            assert(entries[i] == before[i - 1] && entries[j] == before[j - 1]);
                        }
                    }
                    assert forall|i: int| 0 <= i < entries.len() implies on_line(#[trigger] entries[i], ly, height) by {
                        if i < pos {
                            assert(entries[i] == before[i]);
                        } else if i > pos {
                            assert(entries[i] == before[i - 1]);
                        }
                    }
                }
            }
            k = k + 1;
        }
        self.line_entries = entries;
    }
}

} // verus!
