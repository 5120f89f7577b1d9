//! The picture unit: its registers, its memory, and the steps in which it
//! draws a frame.

use crate::ppu_model::{
    backing_table, nametable_index, power_up, bg_pattern_addr, sprite_row, sprite_tile_addr, BACKDROP, HEIGHT, PpuView, WIDTH, after_blit_bg, after_blit_sprite, after_dma, after_evaluate_sprites, after_reg_read, after_reg_write, bg_origin, bg_pixel, bg_step, enters_vblank, group_color, lemma_selection_stays_full, master_color, master_palette, mem_read, mem_write, next_addr, nmi_enabled, nt_base, nt_fetch_addr, pixel_bits, ppu_wf, reg_read_value, run, run_enters_vblank, selected_sprites, sprite_fields, sprite_overlaps, sprite_pixel_bits, sprite_step, sprite_width, tick,
};
use vstd::prelude::*;

verus! {

pub struct NESPpu {
    ctrl: u8,
    mask: u8,
    status: u8,
    oam_addr: u8,
    scroll_x: u8,
    scroll_y: u8,
    addr: u16,
    oam: [u8; 0x100],
    latch: u8,
    scroll_write: bool,
    addr_write: bool,
    vertical_mirror: bool,
    pattern: [u8; 0x2000],
    nametable: [u8; 0x800],
    palette_ram: [u8; 0x20],
    palette: [u32; 0x40],
    vram: Vec<u32>,
    cycles: u32,
    in_progress_cycles: u32,
    current_scanline: u32,
    nt_latch: u8,
    attrib_latch: u8,
    tile_low_latch: u8,
    tile_high_latch: u8,
    scanline_sprite_y: [u8; 8],
    scanline_sprite_tile: [u8; 8],
    scanline_sprite_attrib: [u8; 8],
    scanline_sprite_x: [u8; 8],
}

impl View for NESPpu {
    type V = PpuView;

    closed spec fn view(&self) -> PpuView {
        PpuView {
            ctrl: self.ctrl,
            mask: self.mask,
            status: self.status,
            oam_addr: self.oam_addr,
            scroll_x: self.scroll_x,
            scroll_y: self.scroll_y,
            addr: self.addr,
            oam: self.oam@,
            latch: self.latch,
            scroll_write: self.scroll_write,
            addr_write: self.addr_write,
            vertical_mirror: self.vertical_mirror,
            pattern: self.pattern@,
            nametable: self.nametable@,
            palette_ram: self.palette_ram@,
            vram: self.vram@,
            cycles: self.cycles,
            in_progress_cycles: self.in_progress_cycles,
            current_scanline: self.current_scanline,
            nt_latch: self.nt_latch,
            attrib_latch: self.attrib_latch,
            tile_low_latch: self.tile_low_latch,
            tile_high_latch: self.tile_high_latch,
            scanline_sprite_y: self.scanline_sprite_y@,
            scanline_sprite_tile: self.scanline_sprite_tile@,
            scanline_sprite_attrib: self.scanline_sprite_attrib@,
            scanline_sprite_x: self.scanline_sprite_x@,
        }
    }
}

fn pixel(low: u8, high: u8, shift: u8) -> (r: u8)
    requires
        shift < 8,
    ensures
        r == pixel_bits(low, high, shift),
        r < 4,
{
    let r: u8 = ((low >> shift) & 0x1) | (((high >> shift) & 0x1) << 1);
    assert(((low >> shift) & 0x1) | (((high >> shift) & 0x1) << 1) < 4) by (bit_vector);
    r
}

impl NESPpu {
    /// Whether the unit is in a state that it can be in.
    pub closed spec fn wf(&self) -> bool {
        ppu_wf(self@) && self.palette@ == master_palette()
    }

    /// A unit that is well-formed has a well-formed state.
    pub proof fn lemma_wf(&self)
        requires
            self.wf(),
        ensures
            ppu_wf(self@),
    {
    }

    pub fn new() -> (r: NESPpu)
        ensures
            r.wf(),
            r@ == power_up(),
    {
        let r = NESPpu {
            ctrl: 0,
            mask: 0,
            status: 0b1010_0000,
            oam_addr: 0,
            scroll_x: 0,
            scroll_y: 0,
            addr: 0,
            oam: [25u8;0x100],
            latch: 0,
            scroll_write: false,
            addr_write: false,
            vertical_mirror: false,
            pattern: [0u8;0x2000],
            nametable: [0u8;0x800],
            palette_ram: [0u8;0x20],
            palette: [
                0x6D6D6D,
                0x002491,
                0x0000DA,
                0x6D48DA,
                0x91006D,
                0xB6006D,
                0xB62400,
                0x914800,
                0x6D4800,
                0x244800,
                0x006D24,
                0x009100,
                0x004848,
                0x000000,
                0x000000,
                0x000000,
                0xB6B6B6,
                0x006DDA,
                0x0048FF,
                0x9100FF,
                0xB600FF,
                0xFF0091,
                0xFF0000,
                0xDA6D00,
                0x916D00,
                0x249100,
                0x009100,
                0x00B66D,
                0x009191,
                0x000000,
                0x000000,
                0x000000,
                0xFFFFFF,
                0x6DB6FF,
                0x9191FF,
                0xDA6DFF,
                0xFF00FF,
                0xFF6DFF,
                0xFF9100,
                0xFFB600,
                0xDADA00,
                0x6DDA00,
                0x00FF00,
                0x48FFDA,
                0x00FFFF,
                0x000000,
                0x000000,
                0x000000,
                0xFFFFFF,
                0xB6DAFF,
                0xDAB6FF,
                0xFFB6FF,
                0xFF91FF,
                0xFFB6B6,
                0xFFDA91,
                0xFFFF48,
                0xFFFF6D,
                0xB6FF48,
                0x91FF6D,
                0x48FFDA,
                0x91DAFF,
                0x000000,
                0x000000,
                0x000000,
            ],
            vram: vec![0u32; WIDTH * HEIGHT],
            cycles: 0,
            in_progress_cycles: 0,
            current_scanline: 0,
            nt_latch: 0,
            attrib_latch: 0,
            tile_low_latch: 0,
            tile_high_latch: 0,
            scanline_sprite_y: [0u8;8],
            scanline_sprite_tile: [0u8;8],
            scanline_sprite_attrib: [0u8;8],
            scanline_sprite_x: [0u8;8],
        };
        proof {
            let p = power_up();
            assert(r@.oam =~= p.oam);
            assert(r@.pattern =~= p.pattern);
            assert(r@.nametable =~= p.nametable);
            assert(r@.palette_ram =~= p.palette_ram);
            assert(r@.vram =~= p.vram);
            assert(r@.scanline_sprite_y =~= p.scanline_sprite_y);
            assert(r@.scanline_sprite_tile =~= p.scanline_sprite_tile);
            assert(r@.scanline_sprite_attrib =~= p.scanline_sprite_attrib);
            assert(r@.scanline_sprite_x =~= p.scanline_sprite_x);
            assert(r.palette@ =~= master_palette());
        }
        r
    }

    /// Takes `first` and `second` as the two pattern tables.
    pub fn load_pattern_tables(&mut self, first: &[u8], second: &[u8])
        requires
            first@.len() == 0x1000,
            second@.len() == 0x1000,
        ensures
            final(self)@ == (PpuView { pattern: first@ + second@, ..old(self)@ }),
            old(self).wf() ==> final(self).wf(),
    {
        let ghost before = self@;
        let mut i: usize = 0;
        while i < 0x1000
            invariant
                i <= 0x1000,
                first@.len() == 0x1000,
                second@.len() == 0x1000,
                self@ == (PpuView { pattern: self@.pattern, ..before }),
                self.palette == old(self).palette,
                forall|k: int| 0 <= k < i ==> self@.pattern[k] == first@[k],
                forall|k: int| 0 <= k < i ==> self@.pattern[0x1000 + k] == second@[k],
            decreases 0x1000 - i,
        {
            self.pattern[i] = first[i];
            self.pattern[0x1000 + i] = second[i];
            i += 1;
        }
        assert(self@.pattern =~= first@ + second@);
    }

    pub fn set_mirroring(&mut self, vertical_mirror: bool)
        ensures
            final(self)@ == (PpuView { vertical_mirror, ..old(self)@ }),
            old(self).wf() ==> final(self).wf(),
    {
        self.vertical_mirror = vertical_mirror;
    }

    /// Copies 256 bytes into the object memory, beginning where the object
    /// pointer stands.
    pub fn dma(&mut self, data: &[u8])
        requires
            data@.len() >= 0x100,
        ensures
            final(self)@ == after_dma(old(self)@, data@),
            old(self).wf() ==> final(self).wf(),
    {
        let ghost before = self@;
        let start: u8 = self.oam_addr;
        let mut i: usize = 0;
        while i < 0x100
            invariant
                i <= 0x100,
                data@.len() >= 0x100,
                start == before.oam_addr,
                self@ == (PpuView { oam: self@.oam, ..before }),
                self.palette == old(self).palette,
                forall|k: int|
                    0 <= k < 0x100 ==> self@.oam[k] == if (k - start) % 0x100 < i {
                        data@[(k - start) % 0x100]
                    } else {
                        before.oam[k]
                    },
            decreases 0x100 - i,
        {
            let at: usize = (start as usize + i) % 0x100;
            self.oam[at] = data[i];
            i += 1;
        }
        assert(self@.oam =~= after_dma(before, data@).oam);
    }

    fn nametable_at(&self, addr: u16) -> (r: usize)
        requires
            0x2000 <= addr < 0x3000,
        ensures
            r == nametable_index(self@, addr as int),
            r < 0x800,
    {
        let table: usize = ((addr - 0x2000) / 0x400) as usize;
        let backing: usize = if self.vertical_mirror {
            table % 2
        } else {
            table / 2
        };
        backing * 0x400 + ((addr - 0x2000) % 0x400) as usize
    }

    pub fn read_ppu_data(&self, addr: u16) -> (r: u8)
        ensures
            r == mem_read(self@, addr as int),
    {
        if addr < 0x2000 {
            self.pattern[addr as usize]
        } else if addr < 0x3000 {
            self.nametable[self.nametable_at(addr)]
        } else if addr > 0x3F00 && addr < 0x3F20 && addr % 4 != 0 {
            self.palette_ram[(addr - 0x3F00) as usize]
        } else {
            0
        }
    }

    pub fn write_ppu_data(&mut self, addr: u16, val: u8)
        ensures
            final(self)@ == mem_write(old(self)@, addr as int, val),
            old(self).wf() ==> final(self).wf(),
    {
        if addr < 0x2000 {
            self.pattern[addr as usize] = val;
        } else if addr < 0x3000 {
            let at: usize = self.nametable_at(addr);
            self.nametable[at] = val;
        } else if addr > 0x3F00 && addr < 0x3F20 && addr % 4 != 0 {
            self.palette_ram[(addr - 0x3F00) as usize] = val;
        }
    }

    fn advance_addr(&mut self) -> (at: u16)
        ensures
            at == old(self)@.addr,
            final(self)@ == (PpuView { addr: next_addr(old(self)@), ..old(self)@ }),
            old(self).wf() ==> final(self).wf(),
    {
        let at: u16 = self.addr;
        if (self.ctrl & 0x4) != 0 {
            if at / 32 >= 511 {
                self.addr = at - (32 * 511) + 1;
            } else {
                self.addr = at.wrapping_add(32);
            }
        } else {
            self.addr = at.wrapping_add(1);
        }
        at
    }

    /// Reads register port `addr`, one of 0 to 7.
    pub fn read_ppu(&mut self, addr: usize) -> (r: u8)
        ensures
            r == reg_read_value(old(self)@, addr as int),
            final(self)@ == after_reg_read(old(self)@, addr as int),
            old(self).wf() ==> final(self).wf(),
    {
        if addr == 2 {
            self.status & 0xE0 | self.latch & 0x1F
        } else if addr == 4 {
            self.oam[self.oam_addr as usize]
        } else if addr == 7 {
            let at: u16 = self.advance_addr();
            self.read_ppu_data(at)
        } else if addr < 8 {
            self.latch
        } else {
            0
        }
    }

    /// Writes `val` to register port `addr`, one of 0 to 7, and returns 0.
    pub fn write_ppu(&mut self, addr: usize, val: u8) -> (r: u8)
        ensures
            r == 0,
            final(self)@ == after_reg_write(old(self)@, addr as int, val),
            old(self).wf() ==> final(self).wf(),
    {
        if addr == 0 {
            self.ctrl = val;
            self.latch = val;
        } else if addr == 1 {
            self.mask = val;
            self.latch = val;
        } else if addr == 3 {
            self.oam_addr = val;
            self.latch = val;
        } else if addr == 4 {
            self.oam[self.oam_addr as usize] = val;
            self.oam_addr = self.oam_addr.wrapping_add(1);
            self.latch = val;
        } else if addr == 5 {
            if !self.scroll_write {
                self.scroll_x = val;
            } else {
                self.scroll_y = val % 240;
            }
            self.scroll_write = !self.scroll_write;
            self.latch = val;
        } else if addr == 6 {
            if !self.addr_write {
                self.addr = ((val as u16) * 0x100) % 0x4000;
            } else {
                self.addr = (self.addr / 0x100) * 0x100 + (val as u16);
            }
            self.addr_write = !self.addr_write;
            self.latch = val;
        } else if addr == 7 {
            let at: u16 = self.advance_addr();
            self.write_ppu_data(at, val);
        }
        0
    }

    fn color(&self, index: u8) -> (r: u32)
        requires
            self.wf(),
        ensures
            r == master_color(index),
    {
        self.palette[(index % 64) as usize]
    }

    /// Draws the eight pixels of the fetched background tile.
    pub fn blit_bg(&mut self, bg0: u8, bg1: u8, bg2: u8)
        requires
            old(self).wf(),
            old(self)@.current_scanline < 240,
            1 <= old(self)@.cycles <= 256,
        ensures
            final(self).wf(),
            final(self)@ == after_blit_bg(old(self)@, bg0, bg1, bg2),
    {
        proof {
            reveal(after_blit_bg);
        }
        if (self.mask & 0x8) != 0 {
            let ghost before = self@;
            let origin: usize = (self.cycles - 1) as usize + (self.current_scanline as usize)
                * WIDTH;
            let mut i: usize = 0;
            while i < 8
                invariant
                    i <= 8,
                    self.wf(),
                    ppu_wf(before),
                    before.current_scanline < 240,
                    1 <= before.cycles <= 256,
                    origin == bg_origin(before),
                    self@ == (PpuView { vram: self@.vram, ..before }),
                    forall|k: int|
                        0 <= k < before.vram.len() ==> self@.vram[k] == if origin <= k < origin
                            + i {
                            bg_pixel(before, k - origin, bg0, bg1, bg2)
                        } else {
                            before.vram[k]
                        },
                decreases 8 - i,
            {
                let color: u8 = pixel(self.tile_low_latch, self.tile_high_latch, (7 - i) as u8);
                let px: u32 = if color == 0 {
                    BACKDROP
                } else if color == 1 {
                    self.color(bg0)
                } else if color == 2 {
                    self.color(bg1)
                } else {
                    self.color(bg2)
                };
                self.vram.set(origin + i, px);
                i += 1;
            }
            assert(self@.vram =~= after_blit_bg(before, bg0, bg1, bg2).vram);
        }
    }

    /// Draws the fetched row of a sprite at `x`.
    pub fn blit_sprite(&mut self, sp0: u8, sp1: u8, sp2: u8, x: u8, flip_horizontal: bool)
        requires
            old(self).wf(),
            old(self)@.current_scanline < 240,
        ensures
            final(self).wf(),
            final(self)@ == after_blit_sprite(old(self)@, sp0, sp1, sp2, x, flip_horizontal),
    {
        proof {
            reveal(after_blit_sprite);
        }
        if (self.mask & 0x10) != 0 {
            let ghost before = self@;
            let origin: usize = x as usize + (self.current_scanline as usize) * WIDTH;
            let width: usize = if x as usize + 8 <= WIDTH {
                8
            } else {
                WIDTH - x as usize
            };
            let first: bool = self.cycles == 257;
            let mut hit: bool = false;
            let mut i: usize = 0;
            while i < width
                invariant
                    i <= width,
                    width == sprite_width(x),
                    self.wf(),
                    ppu_wf(before),
                    before.current_scanline < 240,
                    origin == x + before.current_scanline * WIDTH,
                    first == (before.cycles == 257),
                    self@ == (PpuView { vram: self@.vram, ..before }),
                    hit == (first && sprite_overlaps(before, x, flip_horizontal, i as int)),
                    forall|k: int|
                        0 <= k < before.vram.len() ==> self@.vram[k] == if origin <= k < origin + i
                            && sprite_pixel_bits(before, k - origin, flip_horizontal) > 0 {
                            group_color(
                                sprite_pixel_bits(before, k - origin, flip_horizontal),
                                sp0,
                                sp1,
                                sp2,
                            )
                        } else {
                            before.vram[k]
                        },
                decreases width - i,
            {
                let color: u8 = if !flip_horizontal {
                    pixel(self.tile_low_latch, self.tile_high_latch, (7 - i) as u8)
                } else {
                    pixel(self.tile_low_latch, self.tile_high_latch, i as u8)
                };
                if first && self.vram[origin + i] != BACKDROP && color > 0 {
                    hit = true;
                }
                if color == 1 {
                    let px: u32 = self.color(sp0);
                    self.vram.set(origin + i, px);
                } else if color == 2 {
                    let px: u32 = self.color(sp1);
                    self.vram.set(origin + i, px);
                } else if color == 3 {
                    let px: u32 = self.color(sp2);
                    self.vram.set(origin + i, px);
                }
                i += 1;
            }
            if hit {
                self.status = self.status | 0x40;
            }
            assert(self@.vram =~= after_blit_sprite(
                before,
                sp0,
                sp1,
                sp2,
                x,
                flip_horizontal,
            ).vram);
        }
    }

    /// Selects the sprites for the scanline: the first eight of the object
    /// memory that lie on it.
    pub fn evaluate_sprites(&mut self)
        requires
            old(self).wf(),
        ensures
            final(self).wf(),
            final(self)@ == after_evaluate_sprites(old(self)@),
    {
        proof {
            reveal(after_evaluate_sprites);
        }
        let ghost before = self@;
        let ghost line = self.current_scanline as int;
        self.scanline_sprite_y = [0xFFu8;8];
        self.scanline_sprite_tile = [0xFFu8;8];
        self.scanline_sprite_attrib = [0xFFu8;8];
        self.scanline_sprite_x = [0xFFu8;8];
        proof {
            let none = Seq::<int>::empty();
            assert(self@.scanline_sprite_y =~= sprite_fields(before.oam, none, 0));
            assert(self@.scanline_sprite_tile =~= sprite_fields(before.oam, none, 1));
            assert(self@.scanline_sprite_attrib =~= sprite_fields(before.oam, none, 2));
            assert(self@.scanline_sprite_x =~= sprite_fields(before.oam, none, 3));
        }
        let mut found_sprites: usize = 0;
        let mut i: usize = 0;
        while i < 64 && found_sprites < 8
            invariant
                i <= 64,
                found_sprites <= 8,
                self.wf(),
                ppu_wf(before),
                line == before.current_scanline,
                found_sprites == selected_sprites(before.oam, line, i as int).len(),
                self@ == (PpuView {
                    scanline_sprite_y: sprite_fields(
                        before.oam,
                        selected_sprites(before.oam, line, i as int),
                        0,
                    ),
                    scanline_sprite_tile: sprite_fields(
                        before.oam,
                        selected_sprites(before.oam, line, i as int),
                        1,
                    ),
                    scanline_sprite_attrib: sprite_fields(
                        before.oam,
                        selected_sprites(before.oam, line, i as int),
                        2,
                    ),
                    scanline_sprite_x: sprite_fields(
                        before.oam,
                        selected_sprites(before.oam, line, i as int),
                        3,
                    ),
                    ..before
                }),
            decreases 64 - i,
        {
            let y: u8 = self.oam[i * 4];
            let tile: u8 = self.oam[i * 4 + 1];
            let attrib: u8 = self.oam[i * 4 + 2];
            let x: u8 = self.oam[i * 4 + 3];
            let ghost chosen = selected_sprites(before.oam, line, i as int);
            if self.current_scanline >= y as u32 && self.current_scanline <= y as u32 + 8 {
                self.scanline_sprite_y[found_sprites] = y;
                self.scanline_sprite_tile[found_sprites] = tile;
                self.scanline_sprite_attrib[found_sprites] = attrib;
                self.scanline_sprite_x[found_sprites] = x;
                proof {
                    let more = chosen.push(i as int);
                    assert(selected_sprites(before.oam, line, i + 1) == more);
                    assert(self@.scanline_sprite_y =~= sprite_fields(before.oam, more, 0));
                    assert(self@.scanline_sprite_tile =~= sprite_fields(before.oam, more, 1));
                    assert(self@.scanline_sprite_attrib =~= sprite_fields(before.oam, more, 2));
                    assert(self@.scanline_sprite_x =~= sprite_fields(before.oam, more, 3));
                }
                found_sprites += 1;
            } else {
                assert(selected_sprites(before.oam, line, i + 1) == chosen);
            }
            i += 1;
        }
        proof {
            lemma_selection_stays_full(before.oam, line, i as int, 64);
        }
    }

    fn palette_group(&self, base: u16) -> (r: (u8, u8, u8))
        requires
            base <= 0x3F1D,
        ensures
            r.0 == mem_read(self@, base as int),
            r.1 == mem_read(self@, base + 1),
            r.2 == mem_read(self@, base + 2),
    {
        (self.read_ppu_data(base), self.read_ppu_data(base + 1), self.read_ppu_data(base + 2))
    }

    fn nt_offset(&self) -> (r: u16)
        ensures
            r == nt_base(self@),
            0x2000 <= r <= 0x2C00,
    {
        let select: u8 = self.ctrl & 0x3;
        if select == 1 {
            0x2400
        } else if select == 2 {
            0x2800
        } else if select == 3 {
            0x2C00
        } else {
            0x2000
        }
    }

    fn nt_fetch(&self) -> (r: u8)
        requires
            self.wf(),
            self@.current_scanline < 240,
            1 <= self@.cycles <= 320,
        ensures
            r == mem_read(self@, nt_fetch_addr(self@)),
    {
        let at: u16 = self.nt_offset() + ((self.cycles - 1) / 8) as u16 + ((self.current_scanline
            / 8) as u16) * 32;
        self.read_ppu_data(at)
    }

    fn bg_row_addr(&self) -> (r: u16)
        requires
            self.wf(),
            self@.current_scanline < 240,
        ensures
            r == bg_pattern_addr(self@),
            r <= 0x1000 + 255 * 16 + 7,
    {
        let pt_offset: u16 = if (self.ctrl & 0x10) == 0 {
            0
        } else {
            0x1000
        };
        pt_offset + (self.nt_latch as u16) * 16 + (self.current_scanline % 8) as u16
    }

    fn bg_draw(&mut self)
        requires
            old(self).wf(),
            old(self)@.current_scanline < 240,
            1 <= old(self)@.cycles <= 256,
            old(self)@.in_progress_cycles % 8 >= 7,
        ensures
            final(self).wf(),
            final(self)@ == bg_step(old(self)@),
    {
        proof {
            reveal(after_blit_bg);
        }
        let col: u32 = ((self.cycles - 1) / 16) % 2;
        let line: u32 = (self.current_scanline / 16) % 2;
        let group: u8 = if col == 1 && line == 0 {
            (self.attrib_latch >> 2) & 3
        } else if col == 0 && line == 1 {
            (self.attrib_latch >> 4) & 3
        } else if col == 1 && line == 1 {
            (self.attrib_latch >> 6) & 3
        } else {
            self.attrib_latch & 0x3
        };
        let (bg0, bg1, bg2) = self.palette_group(0x3F01 + 4 * ((group % 4) as u16));
        let row: u16 = self.bg_row_addr();
        self.tile_high_latch = self.read_ppu_data(row + 8);
        self.in_progress_cycles = 0;
        self.blit_bg(bg0, bg1, bg2);
        self.cycles = self.cycles + 8;
    }

    fn bg_step(&mut self)
        requires
            old(self).wf(),
            old(self)@.current_scanline < 240,
            1 <= old(self)@.cycles <= 256,
        ensures
            final(self).wf(),
            final(self)@ == bg_step(old(self)@),
    {
        let phase: u32 = self.in_progress_cycles % 8;
        if phase < 2 {
            self.nt_latch = self.nt_fetch();
            self.in_progress_cycles = self.in_progress_cycles + 1;
        } else if phase < 4 {
            let at: u16 = self.nt_offset() + ((self.cycles - 1) / 32) as u16 + ((
            self.current_scanline / 32) as u16) * 8 + 0x3C0;
            self.attrib_latch = self.read_ppu_data(at);
            self.in_progress_cycles = self.in_progress_cycles + 1;
        } else if phase < 6 {
            let row: u16 = self.bg_row_addr();
            self.tile_low_latch = self.read_ppu_data(row);
            self.in_progress_cycles = self.in_progress_cycles + 1;
        } else if phase < 7 {
            let row: u16 = self.bg_row_addr();
            self.tile_high_latch = self.read_ppu_data(row + 8);
            self.in_progress_cycles = self.in_progress_cycles + 1;
        } else {
            self.bg_draw();
        }
    }

    fn sprite_row_addr(&self) -> (r: (u16, u16))
        requires
            self.wf(),
            self@.current_scanline < 240,
            257 <= self@.cycles <= 320,
        ensures
            r.0 == sprite_tile_addr(self@),
            r.1 == sprite_row(self@),
            r.1 <= 256,
    {
        let slot: usize = ((self.cycles - 257) / 8) as usize;
        let tile: u16 = self.scanline_sprite_tile[slot] as u16;
        let attrib: u8 = self.scanline_sprite_attrib[slot];
        let top: u32 = self.scanline_sprite_y[slot] as u32 + 1;
        let distance: u32 = if self.current_scanline >= top {
            self.current_scanline - top
        } else {
            top - self.current_scanline
        };
        let row: u16 = if (attrib & 0x80) != 0 {
            distance as u16
        } else {
            (distance % 8) as u16
        };
        let sprite_pt_offset: u16 = if (self.ctrl & 0x8) == 0 {
            0
        } else {
            0x1000
        };
        (sprite_pt_offset + tile * 16, row)
    }

    fn sprite_draw(&mut self)
        requires
            old(self).wf(),
            old(self)@.current_scanline < 240,
            257 <= old(self)@.cycles <= 320,
            old(self)@.in_progress_cycles % 8 >= 7,
        ensures
            final(self).wf(),
            final(self)@ == sprite_step(old(self)@),
    {
        proof {
            reveal(after_blit_sprite);
        }
        let slot: usize = ((self.cycles - 257) / 8) as usize;
        let attrib: u8 = self.scanline_sprite_attrib[slot];
        let x: u8 = self.scanline_sprite_x[slot];
        let (tile_addr, row) = self.sprite_row_addr();
        let (sp0, sp1, sp2) = self.palette_group(0x3F11 + 4 * (((attrib & 0x3) % 4) as u16));
        self.tile_high_latch = self.read_ppu_data(tile_addr + row + 8);
        self.in_progress_cycles = 0;
        self.blit_sprite(sp0, sp1, sp2, x, (attrib & 0x40) != 0);
        self.cycles = self.cycles + 8;
    }

    fn sprite_step(&mut self)
        requires
            old(self).wf(),
            old(self)@.current_scanline < 240,
            257 <= old(self)@.cycles <= 320,
        ensures
            final(self).wf(),
            final(self)@ == sprite_step(old(self)@),
    {
        let phase: u32 = self.in_progress_cycles % 8;
        if phase < 4 {
            self.nt_latch = self.nt_fetch();
            self.in_progress_cycles = self.in_progress_cycles + 1;
        } else if phase < 6 {
            let (tile_addr, row) = self.sprite_row_addr();
            self.tile_low_latch = self.read_ppu_data(tile_addr + row % 8);
            self.in_progress_cycles = self.in_progress_cycles + 1;
        } else if phase < 7 {
            let (tile_addr, row) = self.sprite_row_addr();
            self.tile_high_latch = self.read_ppu_data(tile_addr + row + 8);
            self.in_progress_cycles = self.in_progress_cycles + 1;
        } else {
            self.sprite_draw();
        }
    }

    /// One step of the unit; the result says whether it entered the vertical
    /// blank.
    pub fn step(&mut self) -> (entered: bool)
        requires
            old(self).wf(),
        ensures
            final(self).wf(),
            final(self)@ == tick(old(self)@),
            entered == enters_vblank(old(self)@),
    {
        proof {
            reveal(after_evaluate_sprites);
        }
        if self.current_scanline < 240 {
            if self.cycles == 0 {
                self.cycles = 1;
                self.status = self.status & 0x30;
            } else if self.cycles <= 256 {
                self.bg_step();
            } else if self.cycles <= 320 {
                if self.cycles == 257 {
                    self.evaluate_sprites();
                }
                self.sprite_step();
            } else if self.cycles == 340 {
                self.cycles = 0;
                self.current_scanline = self.current_scanline + 1;
            } else {
                self.cycles = self.cycles + 1;
            }
            false
        } else {
            self.cycles = self.cycles + 1;
            if self.cycles == 340 {
                self.cycles = 0;
                self.current_scanline = self.current_scanline + 1;
                if self.current_scanline == 241 {
                    self.status = self.status | 0x80;
                    self.oam_addr = 0;
                    return true;
                }
                if self.current_scanline == 260 {
                    self.current_scanline = 0;
                }
            }
            false
        }
    }

    /// Steps the unit for `cycles` cycles of the processor, three steps to a
    /// cycle, but no further than into the vertical blank. The result says
    /// whether it entered the vertical blank with the interrupt enabled.
    pub fn do_cycle(&mut self, cycles: u32) -> (nmi: bool)
        requires
            old(self).wf(),
        ensures
            final(self).wf(),
            final(self)@ == run(old(self)@, (3 * cycles) as nat),
            nmi == (run_enters_vblank(old(self)@, (3 * cycles) as nat) && nmi_enabled(
                final(self)@,
            )),
    {
        let total: u64 = (cycles as u64) * 3;
        let mut done: u64 = 0;
        while done < total
            invariant
                done <= total,
                total == 3 * cycles,
                self.wf(),
                run(old(self)@, total as nat) == run(self@, (total - done) as nat),
                run_enters_vblank(old(self)@, total as nat) == run_enters_vblank(
                    self@,
                    (total - done) as nat,
                ),
            decreases total - done,
        {
            let ghost prev = self@;
            let ghost left = (total - done) as nat;
            let entered: bool = self.step();
            assert(run(prev, left) == if enters_vblank(prev) {
                tick(prev)
            } else {
                run(tick(prev), (left - 1) as nat)
            });
            assert(run_enters_vblank(prev, left) == (enters_vblank(prev) || run_enters_vblank(
                tick(prev),
                (left - 1) as nat,
            )));
            if entered {
                return (self.ctrl & 0x80) != 0;
            }
            done += 1;
        }
        false
    }

    /// The name table that stands at place `num` of the four, and nothing for
    /// another number.
    pub fn name_table(&self, num: usize) -> (r: &[u8])
        ensures
            num < 4 ==> r@ == self@.nametable.subrange(
                0x400 * backing_table(self@.vertical_mirror, num as int),
                0x400 * (backing_table(self@.vertical_mirror, num as int) + 1),
            ),
            num >= 4 ==> r@ == Seq::<u8>::empty(),
    {
        if num < 4 {
            let backing: usize = if self.vertical_mirror {
                num % 2
            } else {
                num / 2
            };
            let r = &self.nametable.as_slice()[0x400 * backing..0x400 * (backing + 1)];
            r
        } else {
            let r = &self.nametable.as_slice()[0..0];
            assert(r@ =~= Seq::<u8>::empty());
            r
        }
    }

    /// The picture, row by row.
    pub fn frame(&self) -> (r: &Vec<u32>)
        ensures
            r@ == self@.vram,
    {
        &self.vram
    }

    pub fn ctrl(&self) -> (r: u8)
        ensures
            r == self@.ctrl,
    {
        self.ctrl
    }

    pub fn mask(&self) -> (r: u8)
        ensures
            r == self@.mask,
    {
        self.mask
    }

    /// The scroll position, across and down.
    pub fn scroll(&self) -> (r: (u8, u8))
        ensures
            r.0 == self@.scroll_x,
            r.1 == self@.scroll_y,
    {
        (self.scroll_x, self.scroll_y)
    }

    /// The memory pointer.
    pub fn addr(&self) -> (r: u16)
        ensures
            r == self@.addr,
    {
        self.addr
    }

    /// The object pointer.
    pub fn oam_addr(&self) -> (r: u8)
        ensures
            r == self@.oam_addr,
    {
        self.oam_addr
    }

    /// The object memory.
    pub fn oam(&self) -> (r: &[u8; 0x100])
        ensures
            r@ == self@.oam,
    {
        &self.oam
    }

    pub fn status(&self) -> (r: u8)
        ensures
            r == self@.status,
    {
        self.status
    }

    /// The scanline that the unit stands on.
    pub fn scanline(&self) -> (r: u32)
        ensures
            r == self@.current_scanline,
    {
        self.current_scanline
    }

    /// The dot of the scanline that the unit stands at.
    pub fn dot(&self) -> (r: u32)
        ensures
            r == self@.cycles,
    {
        self.cycles
    }

    /// The selected sprite in place `slot`, as its four bytes: top, tile,
    /// attributes and left edge.
    pub fn scanline_sprite(&self, slot: usize) -> (r: (u8, u8, u8, u8))
        requires
            slot < 8,
        ensures
            r.0 == self@.scanline_sprite_y[slot as int],
            r.1 == self@.scanline_sprite_tile[slot as int],
            r.2 == self@.scanline_sprite_attrib[slot as int],
            r.3 == self@.scanline_sprite_x[slot as int],
    {
        (
            self.scanline_sprite_y[slot],
            self.scanline_sprite_tile[slot],
            self.scanline_sprite_attrib[slot],
            self.scanline_sprite_x[slot],
        )
    }
}

} // verus!
