//! What the bus does, as a model: which part of the machine answers at which
//! address, and what a read or a write there changes.

use crate::cart::{CartView, after_ram_write, ram_read, rom_read, pattern_table, vertical_mirroring,
    HEADER_SIZE, CART_RAM_SIZE};
use crate::io::{IoView, io_after_read, io_after_write, io_read_value};
use crate::ppu_model::{PpuView, power_up, after_dma, after_reg_read, after_reg_write, ppu_wf, reg_read_value};
use vstd::prelude::*;

verus! {

/// The bytes of the work RAM.
pub const RAM_SIZE: usize = 0x800;

/// The address at which a write starts a copy into the object memory.
pub const OAM_DMA: u16 = 0x4014;

/// Everything that the bus reaches: the cartridge, the work RAM, the picture
/// unit and the controller port.
pub struct MmuView {
    pub cart: CartView,
    pub ram: Seq<u8>,
    pub ppu: PpuView,
    pub io: IoView,
}

/// Whether the state is one that the machine can be in.
pub open spec fn bus_wf(m: MmuView) -> bool {
    &&& m.ram.len() == RAM_SIZE
    &&& m.cart.ram.len() == CART_RAM_SIZE
    &&& m.io.buttons.len() == 8
    &&& ppu_wf(m.ppu)
}

/// The machine when the power comes on: no cartridge, no button pressed, the
/// work RAM cleared.
pub open spec fn power_up_bus() -> MmuView {
    MmuView {
        cart: CartView {
            data: Seq::empty(),
            ram: Seq::new(CART_RAM_SIZE as nat, |i: int| 0u8),
        },
        ram: Seq::new(RAM_SIZE as nat, |i: int| 0u8),
        ppu: power_up(),
        io: IoView { buttons: Seq::new(8, |i: int| false), read_count: 0, strobe: false },
    }
}

/// The byte that a read of `addr` returns.
///
/// | from   | to     | answers                                        |
/// |--------|--------|------------------------------------------------|
/// | 0x0000 | 0x1FFF | the work RAM, which repeats every 0x800 bytes  |
/// | 0x2000 | 0x3FFF | the picture unit's ports, every 8 bytes        |
/// | 0x4000 | 0x4017 | the controller port, at 0x4016 alone           |
/// | 0x4018 | 0x5FFF | nothing: 0                                     |
/// | 0x6000 | 0x7FFF | the cartridge's RAM                            |
/// | 0x8000 | 0xFFFF | the cartridge's program banks                  |
#[verifier::opaque]
pub open spec fn read_value(m: MmuView, addr: int) -> u8 {
    if addr < 0x2000 {
        m.ram[addr % 0x800]
    } else if addr < 0x4000 {
        reg_read_value(m.ppu, addr % 8)
    } else if addr < 0x4018 {
        io_read_value(m.io, addr)
    } else if addr < 0x6000 {
        0
    } else if addr < 0x8000 {
        ram_read(m.cart, addr - 0x6000)
    } else {
        rom_read(m.cart, addr - 0x8000 + HEADER_SIZE)
    }
}

/// The machine after a read of `addr`: a read changes something only at a port
/// of the picture unit or at the controller port.
#[verifier::opaque]
pub open spec fn after_read(m: MmuView, addr: int) -> MmuView {
    if 0x2000 <= addr < 0x4000 {
        MmuView { ppu: after_reg_read(m.ppu, addr % 8), ..m }
    } else if 0x4000 <= addr < 0x4018 {
        MmuView { io: io_after_read(m.io, addr), ..m }
    } else {
        m
    }
}

/// The 256 bytes that a copy into the object memory takes: page `page` of the
/// first 64 KB as the work RAM repeats in it.
pub open spec fn dma_page(m: MmuView, page: u8) -> Seq<u8> {
    Seq::new(0x100, |i: int| m.ram[(page * 0x100 + i) % 0x800])
}

/// The machine after `val` is written to `addr`. A write to the program banks,
/// or to where nothing answers, changes nothing.
#[verifier::opaque]
pub open spec fn after_write(m: MmuView, addr: int, val: u8) -> MmuView {
    if addr < 0x2000 {
        MmuView { ram: m.ram.update(addr % 0x800, val), ..m }
    } else if addr < 0x4000 {
        MmuView { ppu: after_reg_write(m.ppu, addr % 8, val), ..m }
    } else if addr == OAM_DMA {
        MmuView { ppu: after_dma(m.ppu, dma_page(m, val)), ..m }
    } else if addr < 0x4018 {
        MmuView { io: io_after_write(m.io, addr, val), ..m }
    } else if 0x6000 <= addr < 0x8000 {
        MmuView { cart: after_ram_write(m.cart, addr - 0x6000, val), ..m }
    } else {
        m
    }
}

/// The zero-page address `addr` moved on by `index`, staying in the zero page.
pub open spec fn zero_page_indexed(addr: u8, index: u8) -> int {
    (addr + index) % 0x100
}

/// The address `addr` moved on by `index`, round the end of the address space.
pub open spec fn absolute_indexed(addr: u16, index: u8) -> int {
    (addr + index) % 0x10000
}

/// The address held in the zero page at `at` and in the byte after it, which
/// is again in the zero page.
pub open spec fn zero_page_pointer(m: MmuView, at: int) -> int {
    m.ram[at % 0x100] + 0x100 * m.ram[(at + 1) % 0x100]
}

/// The address that `(addr, x)` points to: the pointer held in the zero page
/// at `addr + x`.
pub open spec fn indexed_indirect_x(m: MmuView, addr: u8, x: u8) -> int {
    zero_page_pointer(m, addr + x)
}

/// The address that `(addr), y` points to: the pointer held in the zero page
/// at `addr`, moved on by `y` round the end of the address space.
pub open spec fn indexed_indirect_y(m: MmuView, addr: u8, y: u8) -> int {
    (zero_page_pointer(m, addr as int) + y) % 0x10000
}

/// The machine after the cartridge with the image `data` is put in: the
/// picture unit holds the cartridge's first two pattern tables and mirrors as
/// the header says.
pub open spec fn after_fill_rom(m: MmuView, data: Seq<u8>) -> MmuView {
    let cart = CartView { data, ram: Seq::new(CART_RAM_SIZE as nat, |i: int| 0u8) };
    MmuView {
        cart,
        ppu: PpuView {
            pattern: pattern_table(cart, 0) + pattern_table(cart, 1),
            vertical_mirror: vertical_mirroring(cart),
            ..m.ppu
        },
        ..m
    }
}

/// What is written to the work RAM is read back at the same place of each of
/// its four repetitions.
pub proof fn lemma_ram_mirrors(m: MmuView, written: u16, read: u16, val: u8)
    requires
        bus_wf(m),
        written < 0x2000,
        read < 0x2000,
        written % 0x800 == read % 0x800,
    ensures
        read_value(after_write(m, written as int, val), read as int) == val,
        after_read(after_write(m, written as int, val), read as int) == after_write(
            m,
            written as int,
            val,
        ),
{
    reveal(read_value);
    reveal(after_read);
    reveal(after_write);
}

/// A write to the work RAM leaves every other place of it as it was.
pub proof fn lemma_ram_write_is_local(m: MmuView, written: u16, read: u16, val: u8)
    requires
        bus_wf(m),
        written < 0x2000,
        read < 0x2000,
        written % 0x800 != read % 0x800,
    ensures
        read_value(after_write(m, written as int, val), read as int) == read_value(m, read as int),
{
    reveal(read_value);
    reveal(after_write);
}

/// A write to the program banks changes nothing.
pub proof fn lemma_rom_is_read_only(m: MmuView, addr: u16, val: u8)
    requires
        addr >= 0x8000,
    ensures
        after_write(m, addr as int, val) == m,
{
    reveal(after_write);
}

} // verus!
