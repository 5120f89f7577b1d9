//! What the picture unit is and does, as a model: its state as plain values,
//! and each of its steps as a function from state to state.

use vstd::prelude::*;

verus! {

/// The width of the picture in pixels.
pub const WIDTH: usize = 256;

/// The height of the picture in pixels.
pub const HEIGHT: usize = 240;

/// The pixel that the backdrop leaves in the picture.
pub const BACKDROP: u32 = 1;

/// The state of the picture unit.
pub struct PpuView {
    pub ctrl: u8,
    pub mask: u8,
    pub status: u8,
    pub oam_addr: u8,
    pub scroll_x: u8,
    pub scroll_y: u8,
    pub addr: u16,
    pub oam: Seq<u8>,
    pub latch: u8,
    pub scroll_write: bool,
    pub addr_write: bool,
    pub vertical_mirror: bool,
    /// The two pattern tables.
    pub pattern: Seq<u8>,
    /// The two name tables that are held; the four places show them twice.
    pub nametable: Seq<u8>,
    pub palette_ram: Seq<u8>,
    pub vram: Seq<u32>,
    pub cycles: u32,
    pub in_progress_cycles: u32,
    pub current_scanline: u32,
    pub nt_latch: u8,
    pub attrib_latch: u8,
    pub tile_low_latch: u8,
    pub tile_high_latch: u8,
    pub scanline_sprite_y: Seq<u8>,
    pub scanline_sprite_tile: Seq<u8>,
    pub scanline_sprite_attrib: Seq<u8>,
    pub scanline_sprite_x: Seq<u8>,
}

/// The sixty-four colours that a colour index can stand for.
pub open spec fn master_palette() -> Seq<u32> {
    seq![
        0x6D6D6Du32, 0x002491u32, 0x0000DAu32, 0x6D48DAu32, 0x91006Du32, 0xB6006Du32, 0xB62400u32,
        0x914800u32, 0x6D4800u32, 0x244800u32, 0x006D24u32, 0x009100u32, 0x004848u32, 0x000000u32,
        0x000000u32, 0x000000u32, 0xB6B6B6u32, 0x006DDAu32, 0x0048FFu32, 0x9100FFu32, 0xB600FFu32,
        0xFF0091u32, 0xFF0000u32, 0xDA6D00u32, 0x916D00u32, 0x249100u32, 0x009100u32, 0x00B66Du32,
        0x009191u32, 0x000000u32, 0x000000u32, 0x000000u32, 0xFFFFFFu32, 0x6DB6FFu32, 0x9191FFu32,
        0xDA6DFFu32, 0xFF00FFu32, 0xFF6DFFu32, 0xFF9100u32, 0xFFB600u32, 0xDADA00u32, 0x6DDA00u32,
        0x00FF00u32, 0x48FFDAu32, 0x00FFFFu32, 0x000000u32, 0x000000u32, 0x000000u32, 0xFFFFFFu32,
        0xB6DAFFu32, 0xDAB6FFu32, 0xFFB6FFu32, 0xFF91FFu32, 0xFFB6B6u32, 0xFFDA91u32, 0xFFFF48u32,
        0xFFFF6Du32, 0xB6FF48u32, 0x91FF6Du32, 0x48FFDAu32, 0x91DAFFu32, 0x000000u32, 0x000000u32,
        0x000000u32,
    ]
}

/// The colour that the index `c` stands for; only its low six bits count.
pub open spec fn master_color(c: u8) -> u32 {
    master_palette()[(c % 64) as int]
}

/// The state of the unit when the power comes on.
pub open spec fn power_up() -> PpuView {
    PpuView {
        ctrl: 0,
        mask: 0,
        status: 0xA0,
        oam_addr: 0,
        scroll_x: 0,
        scroll_y: 0,
        addr: 0,
        oam: Seq::new(0x100, |i: int| 25u8),
        latch: 0,
        scroll_write: false,
        addr_write: false,
        vertical_mirror: false,
        pattern: Seq::new(0x2000, |i: int| 0u8),
        nametable: Seq::new(0x800, |i: int| 0u8),
        palette_ram: Seq::new(0x20, |i: int| 0u8),
        vram: Seq::new((WIDTH * HEIGHT) as nat, |i: int| 0u32),
        cycles: 0,
        in_progress_cycles: 0,
        current_scanline: 0,
        nt_latch: 0,
        attrib_latch: 0,
        tile_low_latch: 0,
        tile_high_latch: 0,
        scanline_sprite_y: Seq::new(8, |i: int| 0u8),
        scanline_sprite_tile: Seq::new(8, |i: int| 0u8),
        scanline_sprite_attrib: Seq::new(8, |i: int| 0u8),
        scanline_sprite_x: Seq::new(8, |i: int| 0u8),
    }
}

/// Whether the state is one that the unit can be in: its memories have their
/// sizes, the dot and the scanline lie on the screen or in the blanking after
/// it, and on a visible scanline the dot stands at the start of a group of
/// eight while tiles or sprites are fetched.
pub open spec fn ppu_wf(v: PpuView) -> bool {
    &&& v.oam.len() == 0x100
    &&& v.pattern.len() == 0x2000
    &&& v.nametable.len() == 0x800
    &&& v.palette_ram.len() == 0x20
    &&& v.vram.len() == WIDTH * HEIGHT
    &&& v.scanline_sprite_y.len() == 8
    &&& v.scanline_sprite_tile.len() == 8
    &&& v.scanline_sprite_attrib.len() == 8
    &&& v.scanline_sprite_x.len() == 8
    &&& v.current_scanline < 260
    &&& v.cycles <= 340
    &&& (v.current_scanline >= 240 ==> v.cycles < 340)
    &&& v.in_progress_cycles <= 7
    &&& (v.current_scanline < 240 && 1 <= v.cycles <= 320 ==> v.cycles % 8 == 1)
}

// ---------------------------------------------------------------------------
// The unit's own memory.
// ---------------------------------------------------------------------------
/// Whether `addr` is a palette entry that is held: the three colours of one of
/// the eight groups. The first entry of each group, the backdrop, is not held.
pub open spec fn is_palette_entry(addr: int) -> bool {
    0x3F00 < addr < 0x3F20 && addr % 4 != 0
}

/// Which of the two name tables that are held stands at place `table` of the
/// four: with vertical mirroring the third and fourth place show the first and
/// second table again, else the second place shows the first table again and
/// the fourth place the second.
pub open spec fn backing_table(vertical_mirror: bool, table: int) -> int {
    if vertical_mirror {
        table % 2
    } else {
        table / 2
    }
}

/// Where in the two name tables that are held the byte at `addr` lies, for an
/// `addr` in the four places from 0x2000 on.
pub open spec fn nametable_index(v: PpuView, addr: int) -> int {
    backing_table(v.vertical_mirror, (addr - 0x2000) / 0x400) * 0x400 + (addr - 0x2000) % 0x400
}

/// The byte at `addr` in the unit's memory: the pattern tables from 0, the
/// name tables in their four places from 0x2000, the palette entries from
/// 0x3F00, and 0 elsewhere.
pub open spec fn mem_read(v: PpuView, addr: int) -> u8 {
    if 0 <= addr < 0x2000 {
        v.pattern[addr]
    } else if 0x2000 <= addr < 0x3000 {
        v.nametable[nametable_index(v, addr)]
    } else if is_palette_entry(addr) {
        v.palette_ram[addr - 0x3F00]
    } else {
        0
    }
}

/// The unit after `val` is written to `addr` in its memory; a write to where
/// nothing is held changes nothing.
pub open spec fn mem_write(v: PpuView, addr: int, val: u8) -> PpuView {
    if 0 <= addr < 0x2000 {
        PpuView { pattern: v.pattern.update(addr, val), ..v }
    } else if 0x2000 <= addr < 0x3000 {
        PpuView { nametable: v.nametable.update(nametable_index(v, addr), val), ..v }
    } else if is_palette_entry(addr) {
        PpuView { palette_ram: v.palette_ram.update(addr - 0x3F00, val), ..v }
    } else {
        v
    }
}

// ---------------------------------------------------------------------------
// The eight register ports.
// ---------------------------------------------------------------------------
/// The memory pointer after one access through the data port: 32 further where
/// bit 2 of the control register is set, and from the last row back to the top
/// of the next column; else 1 further.
pub open spec fn next_addr(v: PpuView) -> u16 {
    if v.ctrl & 0x4 != 0 {
        if v.addr / 32 >= 511 {
            (v.addr - 32 * 511 + 1) as u16
        } else {
            ((v.addr + 32) % 0x10000) as u16
        }
    } else {
        ((v.addr + 1) % 0x10000) as u16
    }
}

/// The byte that a read of port `reg` returns: the top three bits of the
/// status with the low five of the last byte written at port 2, the object
/// byte under the object pointer at port 4, the memory byte under the memory
/// pointer at port 7, the last byte written at the write-only ports, and 0 at
/// a port that there is not.
pub open spec fn reg_read_value(v: PpuView, reg: int) -> u8 {
    if reg == 2 {
        v.status & 0xE0 | v.latch & 0x1F
    } else if reg == 4 {
        v.oam[v.oam_addr as int]
    } else if reg == 7 {
        mem_read(v, v.addr as int)
    } else if 0 <= reg < 8 {
        v.latch
    } else {
        0
    }
}

/// The unit after a read of port `reg`: only the data port moves anything, the
/// memory pointer.
pub open spec fn after_reg_read(v: PpuView, reg: int) -> PpuView {
    if reg == 7 {
        PpuView { addr: next_addr(v), ..v }
    } else {
        v
    }
}

/// The unit after `val` is written to port `reg`.
pub open spec fn after_reg_write(v: PpuView, reg: int, val: u8) -> PpuView {
    if reg == 0 {
        PpuView { ctrl: val, latch: val, ..v }
    } else if reg == 1 {
        PpuView { mask: val, latch: val, ..v }
    } else if reg == 3 {
        PpuView { oam_addr: val, latch: val, ..v }
    } else if reg == 4 {
        PpuView {
            oam: v.oam.update(v.oam_addr as int, val),
            oam_addr: ((v.oam_addr + 1) % 0x100) as u8,
            latch: val,
            ..v
        }
    } else if reg == 5 {
        if !v.scroll_write {
            PpuView { scroll_x: val, scroll_write: true, latch: val, ..v }
        } else {
            PpuView { scroll_y: val % 240, scroll_write: false, latch: val, ..v }
        }
    } else if reg == 6 {
        if !v.addr_write {
            PpuView { addr: ((val * 0x100) % 0x4000) as u16, addr_write: true, latch: val, ..v }
        } else {
            PpuView {
                addr: ((v.addr / 0x100) * 0x100 + val) as u16,
                addr_write: false,
                latch: val,
                ..v
            }
        }
    } else if reg == 7 {
        PpuView { addr: next_addr(v), ..mem_write(v, v.addr as int, val) }
    } else {
        v
    }
}

/// The object memory after 256 bytes are copied into it, the first to where
/// the object pointer stands and the others after it, round the end.
pub open spec fn after_dma(v: PpuView, data: Seq<u8>) -> PpuView {
    PpuView { oam: Seq::new(0x100, |k: int| data[(k - v.oam_addr) % 0x100]), ..v }
}

// ---------------------------------------------------------------------------
// Fetching and drawing.
// ---------------------------------------------------------------------------
/// Where the selected name table stands: bits 0 and 1 of the control register
/// select one of the four places.
pub open spec fn nt_base(v: PpuView) -> int {
    let select = v.ctrl & 0x3;
    if select == 1 {
        0x2400
    } else if select == 2 {
        0x2800
    } else if select == 3 {
        0x2C00
    } else {
        0x2000
    }
}

/// Where the pattern table of the background begins.
pub open spec fn bg_pattern_base(v: PpuView) -> int {
    if v.ctrl & 0x10 == 0 {
        0
    } else {
        0x1000
    }
}

/// Where the pattern table of the sprites begins.
pub open spec fn sprite_pattern_base(v: PpuView) -> int {
    if v.ctrl & 0x8 == 0 {
        0
    } else {
        0x1000
    }
}

/// The two-bit colour of a pixel: bit `shift` of the low pattern byte, and the
/// same bit of the high one above it.
pub open spec fn pixel_bits(low: u8, high: u8, shift: u8) -> u8 {
    ((low >> shift) & 0x1) | (((high >> shift) & 0x1) << 1)
}

/// The palette group of the tile being fetched. The attribute byte holds one
/// group for each block of two by two tiles in its square of four by four:
/// bits 0 and 1 for the top left block, 2 and 3 for the top right, 4 and 5
/// for the bottom left, 6 and 7 for the bottom right.
pub open spec fn bg_group(v: PpuView) -> u8 {
    let col = ((v.cycles - 1) / 16) % 2;
    let row = (v.current_scanline / 16) % 2;
    if col == 1 && row == 0 {
        (v.attrib_latch >> 2) & 3
    } else if col == 0 && row == 1 {
        (v.attrib_latch >> 4) & 3
    } else if col == 1 && row == 1 {
        (v.attrib_latch >> 6) & 3
    } else {
        v.attrib_latch & 0x3
    }
}

/// Where the first colour of palette group `group` is held; background groups
/// come first, sprite groups after them.
pub open spec fn group_base(group: u8, sprite: bool) -> int {
    0x3F01 + 4 * (group % 4) + if sprite {
        0x10int
    } else {
        0
    }
}

/// The pixel that a two-bit colour gives with the three colours of a group.
pub open spec fn group_color(color: u8, c0: u8, c1: u8, c2: u8) -> u32 {
    if color == 1 {
        master_color(c0)
    } else if color == 2 {
        master_color(c1)
    } else {
        master_color(c2)
    }
}

/// Pixel `i` of the eight that the fetched background tile gives.
pub open spec fn bg_pixel(v: PpuView, i: int, bg0: u8, bg1: u8, bg2: u8) -> u32 {
    let color = pixel_bits(v.tile_low_latch, v.tile_high_latch, (7 - i) as u8);
    if color == 0 {
        BACKDROP
    } else {
        group_color(color, bg0, bg1, bg2)
    }
}

/// Where in the picture the group of eight dots begins that the unit stands at.
pub open spec fn bg_origin(v: PpuView) -> int {
    (v.cycles - 1) + v.current_scanline * WIDTH
}

/// The unit after the fetched background tile is drawn: its eight pixels stand
/// in the picture, if the mask shows the background.
#[verifier::opaque]
pub open spec fn after_blit_bg(v: PpuView, bg0: u8, bg1: u8, bg2: u8) -> PpuView {
    if v.mask & 0x8 != 0 {
        PpuView {
            vram: Seq::new(
                v.vram.len(),
                |k: int|
                    if bg_origin(v) <= k < bg_origin(v) + 8 {
                        bg_pixel(v, k - bg_origin(v), bg0, bg1, bg2)
                    } else {
                        v.vram[k]
                    },
            ),
            ..v
        }
    } else {
        v
    }
}

/// The two-bit colour of pixel `i` of the fetched sprite row.
pub open spec fn sprite_pixel_bits(v: PpuView, i: int, flip_horizontal: bool) -> u8 {
    if flip_horizontal {
        pixel_bits(v.tile_low_latch, v.tile_high_latch, i as u8)
    } else {
        pixel_bits(v.tile_low_latch, v.tile_high_latch, (7 - i) as u8)
    }
}

/// How many of the eight pixels of a sprite at `x` lie on the screen.
pub open spec fn sprite_width(x: u8) -> int {
    if x + 8 <= WIDTH {
        8
    } else {
        WIDTH - x
    }
}

/// Whether one of the first `n` pixels of the fetched sprite row is opaque where
/// the background is not the backdrop.
pub open spec fn sprite_overlaps(v: PpuView, x: u8, flip_horizontal: bool, n: int) -> bool
    decreases n,
{
    if n <= 0 {
        false
    } else {
        sprite_overlaps(v, x, flip_horizontal, n - 1) || (v.vram[x + (n - 1) + v.current_scanline
            * WIDTH] != BACKDROP && sprite_pixel_bits(v, n - 1, flip_horizontal) > 0)
    }
}

/// The unit after the fetched sprite row is drawn at `x`, if the mask shows
/// sprites: its opaque pixels stand in the picture as far as they lie on the
/// screen, and for the first sprite of the scanline the hit flag is set if it
/// overlaps the background.
#[verifier::opaque]
pub open spec fn after_blit_sprite(
    v: PpuView,
    sp0: u8,
    sp1: u8,
    sp2: u8,
    x: u8,
    flip_horizontal: bool,
) -> PpuView {
    let origin = x + v.current_scanline * WIDTH;
    if v.mask & 0x10 != 0 {
        PpuView {
            vram: Seq::new(
                v.vram.len(),
                |k: int|
                    if origin <= k < origin + sprite_width(x) && sprite_pixel_bits(
                        v,
                        k - origin,
                        flip_horizontal,
                    ) > 0 {
                        group_color(sprite_pixel_bits(v, k - origin, flip_horizontal), sp0, sp1, sp2)
                    } else {
                        v.vram[k]
                    },
            ),
            status: if v.cycles == 257 && sprite_overlaps(v, x, flip_horizontal, sprite_width(x)) {
                v.status | 0x40
            } else {
                v.status
            },
            ..v
        }
    } else {
        v
    }
}

/// Whether sprite `i` of the object memory lies on `scanline`.
pub open spec fn sprite_in_range(oam: Seq<u8>, scanline: int, i: int) -> bool {
    oam[4 * i] <= scanline <= oam[4 * i] + 8
}

/// The sprites among the first `upto` of the object memory that are selected
/// for `scanline`: those that lie on it, in rising order, and eight at most.
pub open spec fn selected_sprites(oam: Seq<u8>, scanline: int, upto: int) -> Seq<int>
    decreases upto,
{
    if upto <= 0 {
        Seq::empty()
    } else {
        let before = selected_sprites(oam, scanline, upto - 1);
        if before.len() < 8 && sprite_in_range(oam, scanline, upto - 1) {
            before.push(upto - 1)
        } else {
            before
        }
    }
}

/// Byte `field` of each selected sprite in turn, and 0xFF in the places that no
/// sprite took.
pub open spec fn sprite_fields(oam: Seq<u8>, selected: Seq<int>, field: int) -> Seq<u8> {
    Seq::new(
        8,
        |k: int|
            if k < selected.len() {
                oam[4 * selected[k] + field]
            } else {
                0xFFu8
            },
    )
}

/// The unit after the sprites for the scanline are selected.
#[verifier::opaque]
pub open spec fn after_evaluate_sprites(v: PpuView) -> PpuView {
    let selected = selected_sprites(v.oam, v.current_scanline as int, 64);
    PpuView {
        scanline_sprite_y: sprite_fields(v.oam, selected, 0),
        scanline_sprite_tile: sprite_fields(v.oam, selected, 1),
        scanline_sprite_attrib: sprite_fields(v.oam, selected, 2),
        scanline_sprite_x: sprite_fields(v.oam, selected, 3),
        ..v
    }
}

/// Where the name-table byte of the tile under the dot is held.
pub open spec fn nt_fetch_addr(v: PpuView) -> int {
    nt_base(v) + (v.cycles - 1) / 8 + (v.current_scanline / 8) * 32
}

/// Where the attribute byte of the tile under the dot is held.
pub open spec fn attrib_fetch_addr(v: PpuView) -> int {
    nt_base(v) + (v.cycles - 1) / 32 + (v.current_scanline / 32) * 8 + 0x3C0
}

/// Where the low pattern byte of the fetched tile's row is held; the high one
/// lies eight bytes after it.
pub open spec fn bg_pattern_addr(v: PpuView) -> int {
    bg_pattern_base(v) + v.nt_latch * 16 + v.current_scanline % 8
}

/// One step of a background fetch. A group has eight steps: steps 1 and 2
/// fetch the name-table byte, 3 and 4 the attribute byte, 5 and 6 the low
/// pattern byte, 7 and 8 the high one; step 8 then draws the tile and moves
/// eight dots on.
pub open spec fn bg_step(v: PpuView) -> PpuView {
    let phase = v.in_progress_cycles % 8;
    let stepped = PpuView { in_progress_cycles: (v.in_progress_cycles + 1) as u32, ..v };
    if phase < 2 {
        PpuView { nt_latch: mem_read(v, nt_fetch_addr(v)), ..stepped }
    } else if phase < 4 {
        PpuView { attrib_latch: mem_read(v, attrib_fetch_addr(v)), ..stepped }
    } else if phase < 6 {
        PpuView { tile_low_latch: mem_read(v, bg_pattern_addr(v)), ..stepped }
    } else if phase < 7 {
        PpuView { tile_high_latch: mem_read(v, bg_pattern_addr(v) + 8), ..stepped }
    } else {
        let fetched = PpuView {
            tile_high_latch: mem_read(v, bg_pattern_addr(v) + 8),
            in_progress_cycles: 0,
            ..v
        };
        let base = group_base(bg_group(v), false);
        let drawn = after_blit_bg(
            fetched,
            mem_read(v, base),
            mem_read(v, base + 1),
            mem_read(v, base + 2),
        );
        PpuView { cycles: (v.cycles + 8) as u32, ..drawn }
    }
}

/// Which of the eight selected sprites is fetched at the dot.
pub open spec fn sprite_slot(v: PpuView) -> int {
    (v.cycles - 257) / 8
}

/// How far the scanline lies from the row after the sprite's top, reduced to a
/// row of the tile unless the sprite is flipped vertically.
pub open spec fn sprite_row(v: PpuView) -> int {
    let top = v.scanline_sprite_y[sprite_slot(v)] + 1;
    let distance = if v.current_scanline >= top {
        v.current_scanline - top
    } else {
        top - v.current_scanline
    };
    if v.scanline_sprite_attrib[sprite_slot(v)] & 0x80 != 0 {
        distance
    } else {
        distance % 8
    }
}

/// Where the pattern bytes of the tile of the sprite being fetched begin.
pub open spec fn sprite_tile_addr(v: PpuView) -> int {
    sprite_pattern_base(v) + v.scanline_sprite_tile[sprite_slot(v)] * 16
}

/// One step of a sprite fetch, after the selection that the first dot of the
/// sprite part makes. A group has eight steps: steps 1 to 4 fetch a name-table
/// byte that is not used, 5 and 6 the low pattern byte of the sprite's row, 7
/// and 8 the high one; step 8 then draws the row and moves eight dots on.
pub open spec fn sprite_step(v: PpuView) -> PpuView {
    let phase = v.in_progress_cycles % 8;
    let stepped = PpuView { in_progress_cycles: (v.in_progress_cycles + 1) as u32, ..v };
    if phase < 4 {
        PpuView { nt_latch: mem_read(v, nt_fetch_addr(v)), ..stepped }
    } else if phase < 6 {
        PpuView { tile_low_latch: mem_read(v, sprite_tile_addr(v) + sprite_row(v) % 8), ..stepped }
    } else if phase < 7 {
        PpuView { tile_high_latch: mem_read(v, sprite_tile_addr(v) + sprite_row(v) + 8), ..stepped }
    } else {
        let attrib = v.scanline_sprite_attrib[sprite_slot(v)];
        let fetched = PpuView {
            tile_high_latch: mem_read(v, sprite_tile_addr(v) + sprite_row(v) + 8),
            in_progress_cycles: 0,
            ..v
        };
        let base = group_base(attrib & 0x3, true);
        let drawn = after_blit_sprite(
            fetched,
            mem_read(v, base),
            mem_read(v, base + 1),
            mem_read(v, base + 2),
            v.scanline_sprite_x[sprite_slot(v)],
            attrib & 0x40 != 0,
        );
        PpuView { cycles: (v.cycles + 8) as u32, ..drawn }
    }
}

/// One step on a visible scanline.
pub open spec fn visible_tick(v: PpuView) -> PpuView {
    if v.cycles == 0 {
        PpuView { cycles: 1, status: v.status & 0x30, ..v }
    } else if v.cycles <= 256 {
        bg_step(v)
    } else if v.cycles <= 320 {
        if v.cycles == 257 {
            sprite_step(after_evaluate_sprites(v))
        } else {
            sprite_step(v)
        }
    } else if v.cycles == 340 {
        PpuView { cycles: 0, current_scanline: (v.current_scanline + 1) as u32, ..v }
    } else {
        PpuView { cycles: (v.cycles + 1) as u32, ..v }
    }
}

/// Whether the step from `v` is the one that enters the vertical blank: the
/// step that reaches scanline 241, dot 0.
pub open spec fn enters_vblank(v: PpuView) -> bool {
    v.current_scanline == 240 && v.cycles == 339
}

/// One step after the visible scanlines: a line has 340 dots, the step onto
/// scanline 241 sets the blanking flag and puts the object pointer back to 0,
/// and after scanline 259 comes scanline 0.
pub open spec fn blank_tick(v: PpuView) -> PpuView {
    if v.cycles + 1 == 340 {
        if v.current_scanline + 1 == 241 {
            PpuView { cycles: 0, current_scanline: 241, status: v.status | 0x80, oam_addr: 0, ..v }
        } else if v.current_scanline + 1 == 260 {
            PpuView { cycles: 0, current_scanline: 0, ..v }
        } else {
            PpuView { cycles: 0, current_scanline: (v.current_scanline + 1) as u32, ..v }
        }
    } else {
        PpuView { cycles: (v.cycles + 1) as u32, ..v }
    }
}

/// One step of the unit.
pub open spec fn tick(v: PpuView) -> PpuView {
    if v.current_scanline < 240 {
        visible_tick(v)
    } else {
        blank_tick(v)
    }
}

/// The unit after at most `n` steps: it stops early after the step that enters
/// the vertical blank.
pub open spec fn run(v: PpuView, n: nat) -> PpuView
    decreases n,
{
    if n == 0 {
        v
    } else if enters_vblank(v) {
        tick(v)
    } else {
        run(tick(v), (n - 1) as nat)
    }
}

/// Whether one of at most `n` steps from `v` enters the vertical blank.
pub open spec fn run_enters_vblank(v: PpuView, n: nat) -> bool
    decreases n,
{
    if n == 0 {
        false
    } else if enters_vblank(v) {
        true
    } else {
        run_enters_vblank(tick(v), (n - 1) as nat)
    }
}

/// Whether the unit asks for an interrupt when it enters the vertical blank:
/// bit 7 of the control register.
pub open spec fn nmi_enabled(v: PpuView) -> bool {
    v.ctrl & 0x80 != 0
}

// ---------------------------------------------------------------------------
// What holds of the selection of sprites.
// ---------------------------------------------------------------------------
/// Once eight sprites are selected, no later one is.
pub proof fn lemma_selection_stays_full(oam: Seq<u8>, scanline: int, from: int, upto: int)
    requires
        0 <= from <= upto,
        from < upto ==> selected_sprites(oam, scanline, from).len() >= 8,
    ensures
        selected_sprites(oam, scanline, upto) == selected_sprites(oam, scanline, from),
    decreases upto - from,
{
    if from < upto {
        lemma_selection_stays_full(oam, scanline, from, upto - 1);
    }
}

/// How many of the first `upto` sprites of the object memory lie on `scanline`.
pub open spec fn sprites_in_range(oam: Seq<u8>, scanline: int, upto: int) -> nat
    decreases upto,
{
    if upto <= 0 {
        0
    } else {
        sprites_in_range(oam, scanline, upto - 1) + if sprite_in_range(oam, scanline, upto - 1) {
            1nat
        } else {
            0nat
        }
    }
}

/// The selection takes the sprites that lie on the scanline, in the order of
/// the object memory, and stops at eight: of nine or more that lie on it, the
/// first eight are selected.
pub proof fn lemma_sprite_selection(oam: Seq<u8>, scanline: int, upto: int)
    requires
        0 <= upto,
    ensures
        ({
            let chosen = selected_sprites(oam, scanline, upto);
            let all = sprites_in_range(oam, scanline, upto);
            &&& chosen.len() == if all <= 8 {
                all
            } else {
                8
            }
            &&& forall|k: int|
                0 <= k < chosen.len() ==> 0 <= #[trigger] chosen[k] < upto && sprite_in_range(
                    oam,
                    scanline,
                    chosen[k],
                )
            &&& forall|j: int, k: int|
                0 <= j < k < chosen.len() ==> #[trigger] chosen[j] < #[trigger] chosen[k]
            &&& forall|i: int|
                0 <= i < upto && sprite_in_range(oam, scanline, i) && sprites_in_range(
                    oam,
                    scanline,
                    i,
                ) < 8 ==> #[trigger] chosen[sprites_in_range(oam, scanline, i) as int] == i
        }),
    decreases upto,
{
    if upto > 0 {
        lemma_sprite_selection(oam, scanline, upto - 1);
        let before = selected_sprites(oam, scanline, upto - 1);
        let chosen = selected_sprites(oam, scanline, upto);
        assert forall|i: int|
            0 <= i < upto && sprite_in_range(oam, scanline, i) && sprites_in_range(oam, scanline, i)
                < 8 implies #[trigger] chosen[sprites_in_range(oam, scanline, i) as int] == i by {
            if i < upto - 1 {
                lemma_sprites_in_range_grows(oam, scanline, i + 1, upto - 1);
                assert(before[sprites_in_range(oam, scanline, i) as int] == i);
            }
        }
    }
}

/// Counting further sprites does not make the count smaller.
pub proof fn lemma_sprites_in_range_grows(oam: Seq<u8>, scanline: int, from: int, upto: int)
    requires
        0 <= from <= upto,
    ensures
        sprites_in_range(oam, scanline, from) <= sprites_in_range(oam, scanline, upto),
    decreases upto - from,
{
    if from < upto {
        lemma_sprites_in_range_grows(oam, scanline, from, upto - 1);
    }
}

// ---------------------------------------------------------------------------
// What holds of the name tables.
// ---------------------------------------------------------------------------
/// Two of the four places show the name tables of the other two: with
/// vertical mirroring a place and the second after it hold the same bytes,
/// else the first and second place do, and the third and fourth.
pub proof fn lemma_name_table_places(v: PpuView, addr: int)
    requires
        0x2000 <= addr < 0x3000,
    ensures
        0 <= nametable_index(v, addr) < 0x800,
        v.vertical_mirror && addr < 0x2800 ==> nametable_index(v, addr + 0x800) == nametable_index(
            v,
            addr,
        ),
        !v.vertical_mirror && (addr - 0x2000) / 0x400 % 2 == 0 ==> nametable_index(v, addr + 0x400)
            == nametable_index(v, addr),
{
}

/// A byte written to a name table is read back at every address that shows
/// the same byte, and the other bytes of the name tables stay as they were.
pub proof fn lemma_name_table_mirrors(v: PpuView, written: int, read: int, val: u8)
    requires
        ppu_wf(v),
        0x2000 <= written < 0x3000,
        0x2000 <= read < 0x3000,
    ensures
        nametable_index(v, written) == nametable_index(v, read) ==> mem_read(
            mem_write(v, written, val),
            read,
        ) == val,
        nametable_index(v, written) != nametable_index(v, read) ==> mem_read(
            mem_write(v, written, val),
            read,
        ) == mem_read(v, read),
{
    lemma_name_table_places(v, written);
    lemma_name_table_places(v, read);
}

// ---------------------------------------------------------------------------
// What holds of the vertical blank.
// ---------------------------------------------------------------------------
/// The step that enters the vertical blank leaves the unit at scanline 241,
/// dot 0, with the blanking flag set; no other step from a state that the unit
/// can be in reaches that place.
pub proof fn lemma_vblank_entry(v: PpuView)
    requires
        ppu_wf(v),
    ensures
        enters_vblank(v) ==> tick(v).status & 0x80 != 0 && tick(v).oam_addr == 0,
        enters_vblank(v) <==> tick(v).current_scanline == 241 && tick(v).cycles == 0,
{
    reveal(after_evaluate_sprites);
    let status = v.status;
    assert((status | 0x80) & 0x80 != 0) by (bit_vector);
}

/// A step leaves the unit in a state that it can be in.
pub proof fn lemma_tick_keeps_wf(v: PpuView)
    requires
        ppu_wf(v),
    ensures
        ppu_wf(tick(v)),
{
    reveal(after_blit_bg);
    reveal(after_blit_sprite);
    reveal(after_evaluate_sprites);
}

/// The steps that are left of the vertical blank that the unit is in, the step
/// to scanline 0 included.
pub open spec fn steps_left_in_vblank(v: PpuView) -> int {
    (260 - v.current_scanline) * 340 - v.cycles
}

/// Within one vertical blank the unit enters the blank once: from scanline
/// 241 on, no step before the next frame begins enters it again.
pub proof fn lemma_one_request_per_vblank(v: PpuView, n: nat)
    requires
        ppu_wf(v),
        v.current_scanline >= 241,
        n <= steps_left_in_vblank(v),
    ensures
        !run_enters_vblank(v, n),
    decreases n,
{
    if n > 0 {
        lemma_tick_keeps_wf(v);
        let next = tick(v);
        if next.current_scanline >= 241 {
            assert(steps_left_in_vblank(next) == steps_left_in_vblank(v) - 1) by (nonlinear_arith)
                requires
                    v.current_scanline >= 241,
                    (next.current_scanline == v.current_scanline && next.cycles == v.cycles + 1)
                        || (next.current_scanline == v.current_scanline + 1 && next.cycles == 0
                        && v.cycles == 339),
            ;
            lemma_one_request_per_vblank(next, (n - 1) as nat);
        } else {
            assert(n == 1);
            assert(!run_enters_vblank(next, 0));
        }
    }
}

} // verus!
