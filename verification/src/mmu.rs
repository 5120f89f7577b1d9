//! The bus: the one place that decides which part of the machine answers at an
//! address.

use crate::bus_model::{MmuView, OAM_DMA, power_up_bus, absolute_indexed, after_fill_rom, after_read,
    after_write, bus_wf, dma_page, indexed_indirect_x, indexed_indirect_y, read_value,
    zero_page_indexed, zero_page_pointer};
use crate::cart::{HEADER_SIZE, NESCart, pattern_table};
use crate::io::{NESIo, NESIoButton, IoView};
use crate::ppu::NESPpu;
use crate::ppu_model::{after_reg_read, backing_table, after_reg_write, mem_read, mem_write, nmi_enabled,
    reg_read_value, run, run_enters_vblank};
use vstd::prelude::*;

verus! {

pub struct NESMmu {
    cart: NESCart,
    cpu_ram: [u8; 0x800],
    ppu: NESPpu,
    io: NESIo,
}

/// The bus by what it does: it connects the processor with everything else.
pub type Interconnect = NESMmu;

impl View for NESMmu {
    type V = MmuView;

    closed spec fn view(&self) -> MmuView {
        MmuView { cart: self.cart@, ram: self.cpu_ram@, ppu: self.ppu@, io: self.io@ }
    }
}

impl NESMmu {
    /// Whether the machine is in a state that it can be in.
    pub closed spec fn wf(&self) -> bool {
        self.ppu.wf() && bus_wf(self@)
    }

    /// A machine that is well-formed has a well-formed state.
    pub proof fn lemma_wf(&self)
        requires
            self.wf(),
        ensures
            bus_wf(self@),
    {
    }

    /// A machine without a cartridge, its work RAM cleared.
    pub fn new() -> (r: NESMmu)
        ensures
            r.wf(),
            r@ == power_up_bus(),
    {
        let r = NESMmu {
            cart: NESCart::none(),
            cpu_ram: [0u8;0x800],
            ppu: NESPpu::new(),
            io: NESIo::new(),
        };
        proof {
            r.ppu.lemma_wf();
            assert(r@.ram =~= power_up_bus().ram);
        }
        r
    }

    /// Puts in the cartridge with the image `rom_data`.
    pub fn fill_rom(&mut self, rom_data: Vec<u8>)
        requires
            old(self).wf(),
        ensures
            final(self).wf(),
            final(self)@ == after_fill_rom(old(self)@, rom_data@),
    {
        self.cart = NESCart::new(rom_data);
        self.ppu.load_pattern_tables(
            self.cart.get_pattern_table(0),
            self.cart.get_pattern_table(1),
        );
        self.ppu.set_mirroring(self.cart.get_mirroring());
        proof {
            self.ppu.lemma_wf();
        }
    }

    /// The work RAM.
    pub fn ram(&self) -> (r: &[u8; 0x800])
        ensures
            r@ == self@.ram,
    {
        &self.cpu_ram
    }

    /// The picture unit.
    pub fn ppu(&self) -> (r: &NESPpu)
        ensures
            r@ == self@.ppu,
            self.wf() ==> r.wf(),
    {
        &self.ppu
    }

    /// The cartridge.
    pub fn cart(&self) -> (r: &NESCart)
        ensures
            r@ == self@.cart,
    {
        &self.cart
    }

    pub fn get_pattern_table(&self, num: usize) -> (r: &[u8])
        ensures
            r@ == pattern_table(self@.cart, num as int),
    {
        self.cart.get_pattern_table(num)
    }

    /// The name table that stands at place `num` of the picture unit's four,
    /// and nothing for another number.
    pub fn get_name_table(&self, num: usize) -> (r: &[u8])
        ensures
            num < 4 ==> r@ == self@.ppu.nametable.subrange(
                0x400 * backing_table(self@.ppu.vertical_mirror, num as int),
                0x400 * (backing_table(self@.ppu.vertical_mirror, num as int) + 1),
            ),
            num >= 4 ==> r@ == Seq::<u8>::empty(),
    {
        self.ppu.name_table(num)
    }

    /// Sets whether `btn` is pressed.
    pub fn set_controller_button(&mut self, btn: NESIoButton, pressed: bool)
        ensures
            final(self)@ == (MmuView {
                io: IoView {
                    buttons: old(self)@.io.buttons.update(btn.index(), pressed),
                    ..old(self)@.io
                },
                ..old(self)@
            }),
            old(self).wf() ==> final(self).wf(),
    {
        self.io.set_controller_button(btn, pressed);
    }

    /// Steps the picture unit for `cycles` cycles of the processor; the result
    /// says whether it asks for an interrupt.
    pub fn do_ppu_cycle(&mut self, cycles: u32) -> (nmi: bool)
        requires
            old(self).wf(),
        ensures
            final(self).wf(),
            final(self)@ == (MmuView {
                ppu: run(old(self)@.ppu, (3 * cycles) as nat),
                ..old(self)@
            }),
            nmi == (run_enters_vblank(old(self)@.ppu, (3 * cycles) as nat) && nmi_enabled(
                final(self)@.ppu,
            )),
    {
        let nmi = self.ppu.do_cycle(cycles);
        proof {
            self.ppu.lemma_wf();
        }
        nmi
    }

    pub fn read_zero_page(&mut self, addr: u8) -> (r: u8)
        requires
            old(self).wf(),
        ensures
            final(self).wf(),
            r == read_value(old(self)@, addr as int),
            final(self)@ == old(self)@,
    {
        proof {
            reveal(after_read);
        }
        self.read_mem(addr as u16)
    }

    pub fn read_absolute(&mut self, addr: u16) -> (r: u8)
        requires
            old(self).wf(),
        ensures
            final(self).wf(),
            r == read_value(old(self)@, addr as int),
            final(self)@ == after_read(old(self)@, addr as int),
    {
        self.read_mem(addr)
    }

    pub fn read_zero_paged_indexed_x(&mut self, addr: u8, x: u8) -> (r: u8)
        requires
            old(self).wf(),
        ensures
            final(self).wf(),
            r == read_value(old(self)@, zero_page_indexed(addr, x)),
            final(self)@ == old(self)@,
    {
        proof {
            reveal(after_read);
        }
        self.read_mem(addr.wrapping_add(x) as u16)
    }

    pub fn read_zero_paged_indexed_y(&mut self, addr: u8, y: u8) -> (r: u8)
        requires
            old(self).wf(),
        ensures
            final(self).wf(),
            r == read_value(old(self)@, zero_page_indexed(addr, y)),
            final(self)@ == old(self)@,
    {
        proof {
            reveal(after_read);
        }
        self.read_mem(addr.wrapping_add(y) as u16)
    }

    pub fn read_absolute_indexed_x(&mut self, addr: u16, x: u8) -> (r: u8)
        requires
            old(self).wf(),
        ensures
            final(self).wf(),
            r == read_value(old(self)@, absolute_indexed(addr, x)),
            final(self)@ == after_read(old(self)@, absolute_indexed(addr, x)),
    {
        self.read_mem(addr.wrapping_add(x as u16))
    }

    pub fn read_absolute_indexed_y(&mut self, addr: u16, y: u8) -> (r: u8)
        requires
            old(self).wf(),
        ensures
            final(self).wf(),
            r == read_value(old(self)@, absolute_indexed(addr, y)),
            final(self)@ == after_read(old(self)@, absolute_indexed(addr, y)),
    {
        self.read_mem(addr.wrapping_add(y as u16))
    }

    fn pointer(&mut self, at: u8) -> (r: u16)
        requires
            old(self).wf(),
        ensures
            final(self).wf(),
            r == zero_page_pointer(old(self)@, at as int),
            final(self)@ == old(self)@,
    {
        proof {
            reveal(after_read);
            reveal(read_value);
        }
        let lo: u8 = self.read_mem(at as u16);
        let hi: u8 = self.read_mem(at.wrapping_add(1) as u16);
        (lo as u16) + (hi as u16) * 0x100
    }

    pub fn read_indexed_indirect_x(&mut self, addr: u8, x: u8) -> (r: u8)
        requires
            old(self).wf(),
        ensures
            final(self).wf(),
            r == read_value(old(self)@, indexed_indirect_x(old(self)@, addr, x)),
            final(self)@ == after_read(old(self)@, indexed_indirect_x(old(self)@, addr, x)),
    {
        let pointer: u16 = self.pointer(addr.wrapping_add(x));
        self.read_mem(pointer)
    }

    pub fn read_indexed_indirect_y(&mut self, addr: u8, y: u8) -> (r: u8)
        requires
            old(self).wf(),
        ensures
            final(self).wf(),
            r == read_value(old(self)@, indexed_indirect_y(old(self)@, addr, y)),
            final(self)@ == after_read(old(self)@, indexed_indirect_y(old(self)@, addr, y)),
    {
        let pointer: u16 = self.pointer(addr);
        self.read_mem(pointer.wrapping_add(y as u16))
    }

    pub fn write_zero_page(&mut self, addr: u8, val: u8)
        requires
            old(self).wf(),
        ensures
            final(self).wf(),
            final(self)@ == after_write(old(self)@, addr as int, val),
    {
        self.write_mem(addr as u16, val);
    }

    pub fn write_absolute(&mut self, addr: u16, val: u8)
        requires
            old(self).wf(),
        ensures
            final(self).wf(),
            final(self)@ == after_write(old(self)@, addr as int, val),
    {
        self.write_mem(addr, val);
    }

    pub fn write_zero_paged_indexed_x(&mut self, addr: u8, x: u8, val: u8)
        requires
            old(self).wf(),
        ensures
            final(self).wf(),
            final(self)@ == after_write(old(self)@, zero_page_indexed(addr, x), val),
    {
        self.write_mem(addr.wrapping_add(x) as u16, val);
    }

    pub fn write_zero_paged_indexed_y(&mut self, addr: u8, y: u8, val: u8)
        requires
            old(self).wf(),
        ensures
            final(self).wf(),
            final(self)@ == after_write(old(self)@, zero_page_indexed(addr, y), val),
    {
        self.write_mem(addr.wrapping_add(y) as u16, val);
    }

    pub fn write_absolute_indexed_x(&mut self, addr: u16, x: u8, val: u8)
        requires
            old(self).wf(),
        ensures
            final(self).wf(),
            final(self)@ == after_write(old(self)@, absolute_indexed(addr, x), val),
    {
        self.write_mem(addr.wrapping_add(x as u16), val);
    }

    pub fn write_absolute_indexed_y(&mut self, addr: u16, y: u8, val: u8)
        requires
            old(self).wf(),
        ensures
            final(self).wf(),
            final(self)@ == after_write(old(self)@, absolute_indexed(addr, y), val),
    {
        self.write_mem(addr.wrapping_add(y as u16), val);
    }

    pub fn write_indexed_indirect_x(&mut self, addr: u8, x: u8, val: u8)
        requires
            old(self).wf(),
        ensures
            final(self).wf(),
            final(self)@ == after_write(
                old(self)@,
                indexed_indirect_x(old(self)@, addr, x),
                val,
            ),
    {
        let pointer: u16 = self.pointer(addr.wrapping_add(x));
        self.write_mem(pointer, val);
    }

    pub fn write_indexed_indirect_y(&mut self, addr: u8, y: u8, val: u8)
        requires
            old(self).wf(),
        ensures
            final(self).wf(),
            final(self)@ == after_write(
                old(self)@,
                indexed_indirect_y(old(self)@, addr, y),
                val,
            ),
    {
        let pointer: u16 = self.pointer(addr);
        self.write_mem(pointer.wrapping_add(y as u16), val);
    }

    /// Reads the byte at `addr`.
    pub fn read_mem(&mut self, addr: u16) -> (r: u8)
        requires
            old(self).wf(),
        ensures
            final(self).wf(),
            r == read_value(old(self)@, addr as int),
            final(self)@ == after_read(old(self)@, addr as int),
    {
        proof {
            reveal(after_read);
            reveal(read_value);
        }
        proof {
            self.ppu.lemma_wf();
        }
        if addr < 0x2000 {
            self.cpu_ram[(addr % 0x800) as usize]
        } else if addr < 0x4000 {
            let r = self.read_ppu((addr % 8) as usize);
            r
        } else if addr < 0x4018 {
            self.io.read(addr as usize)
        } else if addr < 0x6000 {
            0
        } else if addr < 0x8000 {
            self.cart.read_ram((addr - 0x6000) as usize)
        } else {
            self.cart.read((addr - 0x8000) as usize + HEADER_SIZE)
        }
    }

    /// Writes `val` to `addr`.
    pub fn write_mem(&mut self, addr: u16, val: u8)
        requires
            old(self).wf(),
        ensures
            final(self).wf(),
            final(self)@ == after_write(old(self)@, addr as int, val),
    {
        proof {
            reveal(after_write);
        }
        proof {
            self.ppu.lemma_wf();
        }
        if addr < 0x2000 {
            self.cpu_ram[(addr % 0x800) as usize] = val;
        } else if addr < 0x4000 {
            self.write_ppu((addr % 8) as usize, val);
        } else if addr == OAM_DMA {
            let mut page: Vec<u8> = Vec::new();
            let mut i: usize = 0;
            while i < 0x100
                invariant
                    i <= 0x100,
                    page@.len() == i,
                    forall|k: int|
                        0 <= k < i ==> page@[k] == self.cpu_ram@[(val * 0x100 + k) % 0x800],
                decreases 0x100 - i,
            {
                page.push(self.cpu_ram[((val as usize) * 0x100 + i) % 0x800]);
                i += 1;
            }
            assert(page@ =~= dma_page(self@, val));
            self.ppu.dma(page.as_slice());
        } else if addr < 0x4018 {
            self.io.write(addr as usize, val);
        } else if addr >= 0x6000 && addr < 0x8000 {
            self.cart.write_ram((addr - 0x6000) as usize, val);
        }
        proof {
            self.ppu.lemma_wf();
        }
    }

    /// Reads port `addr` of the picture unit.
    pub fn read_ppu(&mut self, addr: usize) -> (r: u8)
        requires
            old(self).wf(),
        ensures
            final(self).wf(),
            r == reg_read_value(old(self)@.ppu, addr as int),
            final(self)@ == (MmuView { ppu: after_reg_read(old(self)@.ppu, addr as int), ..old(self)@ }),
    {
        let r = self.ppu.read_ppu(addr);
        proof {
            self.ppu.lemma_wf();
        }
        r
    }

    /// Reads the byte at `addr` in the picture unit's memory.
    pub fn read_ppu_data(&mut self, addr: u16) -> (r: u8)
        ensures
            r == mem_read(old(self)@.ppu, addr as int),
            final(self)@ == old(self)@,
            old(self).wf() ==> final(self).wf(),
    {
        self.ppu.read_ppu_data(addr)
    }

    /// Writes `val` to port `addr` of the picture unit, and returns 0.
    pub fn write_ppu(&mut self, addr: usize, val: u8) -> (r: u8)
        requires
            old(self).wf(),
        ensures
            final(self).wf(),
            r == 0,
            final(self)@ == (MmuView {
                ppu: after_reg_write(old(self)@.ppu, addr as int, val),
                ..old(self)@
            }),
    {
        let r = self.ppu.write_ppu(addr, val);
        proof {
            self.ppu.lemma_wf();
        }
        r
    }

    /// Writes `val` to `addr` in the picture unit's memory.
    pub fn write_ppu_data(&mut self, addr: u16, val: u8)
        requires
            old(self).wf(),
        ensures
            final(self).wf(),
            final(self)@ == (MmuView {
                ppu: mem_write(old(self)@.ppu, addr as int, val),
                ..old(self)@
            }),
    {
        self.ppu.write_ppu_data(addr, val);
        proof {
            self.ppu.lemma_wf();
        }
    }
}

} // verus!
