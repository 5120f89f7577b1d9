//! The cartridge: the bytes of its image, what its header says, and its RAM.

use vstd::prelude::*;

verus! {

/// The bytes of the header that comes before the program banks.
pub const HEADER_SIZE: usize = 0x10;

/// The bytes of one program bank.
pub const PRG_BANK_SIZE: usize = 0x4000;

/// The bytes of one pattern table.
pub const PATTERN_TABLE_SIZE: usize = 0x1000;

/// The bytes of the cartridge's RAM.
pub const CART_RAM_SIZE: usize = 0x9000;

pub struct NESCart {
    data: Vec<u8>,
    ram: [u8; 0x9000],
}

/// What a cartridge holds: the bytes of its image, header first, and its RAM.
pub struct CartView {
    pub data: Seq<u8>,
    pub ram: Seq<u8>,
}

impl View for NESCart {
    type V = CartView;

    closed spec fn view(&self) -> CartView {
        CartView { data: self.data@, ram: self.ram@ }
    }
}

/// The byte of the header at `i`, or 0 where the image ends before it.
pub open spec fn header_byte(c: CartView, i: int) -> u8 {
    if 0 <= i < c.data.len() {
        c.data[i]
    } else {
        0
    }
}

/// The number of 16 KB program banks.
pub open spec fn prg_banks(c: CartView) -> u8 {
    header_byte(c, 4)
}

/// The number of 8 KB character banks.
pub open spec fn chr_banks(c: CartView) -> u8 {
    header_byte(c, 5)
}

/// Whether the name tables are mirrored vertically.
pub open spec fn vertical_mirroring(c: CartView) -> bool {
    header_byte(c, 6) & 0x1 != 0
}

/// Whether the cartridge keeps its RAM when the power is off.
pub open spec fn battery_backed(c: CartView) -> bool {
    header_byte(c, 6) & 0x2 != 0
}

/// Whether a trainer comes before the program banks.
pub open spec fn trainer_present(c: CartView) -> bool {
    header_byte(c, 6) & 0x4 != 0
}

/// Whether the cartridge brings name tables of its own for all four places;
/// the mirroring bit then says nothing.
pub open spec fn four_screen(c: CartView) -> bool {
    header_byte(c, 6) & 0x8 != 0
}

/// The number of the mapper: its low four bits are the high four of byte 6, its
/// high four bits those of byte 7.
pub open spec fn mapper_number(c: CartView) -> u8 {
    (header_byte(c, 6) >> 4) | (header_byte(c, 7) & 0xF0)
}

/// Where in the image the read of `addr` lands. With a single program bank the
/// second bank is the first one again.
pub open spec fn rom_offset(c: CartView, addr: int) -> int {
    if prg_banks(c) == 1 && addr >= HEADER_SIZE + PRG_BANK_SIZE {
        addr - PRG_BANK_SIZE
    } else {
        addr
    }
}

/// The byte that a read of the image at `addr` returns: 0 past its end.
pub open spec fn rom_read(c: CartView, addr: int) -> u8 {
    if 0 <= rom_offset(c, addr) < c.data.len() {
        c.data[rom_offset(c, addr)]
    } else {
        0
    }
}

/// The byte that a read of the RAM at `addr` returns: 0 past its end.
pub open spec fn ram_read(c: CartView, addr: int) -> u8 {
    if 0 <= addr < c.ram.len() {
        c.ram[addr]
    } else {
        0
    }
}

/// The cartridge after `val` is written to its RAM at `addr`: unchanged where
/// `addr` lies past the end.
pub open spec fn after_ram_write(c: CartView, addr: int, val: u8) -> CartView {
    if 0 <= addr < c.ram.len() {
        CartView { ram: c.ram.update(addr, val), ..c }
    } else {
        c
    }
}

/// Where the character data begins: after the header and the program banks.
pub open spec fn chr_start(c: CartView) -> int {
    HEADER_SIZE + prg_banks(c) * PRG_BANK_SIZE
}

/// Pattern table `num`: that part of the character data where the image holds
/// all of it, else that part of the RAM, and nothing where the RAM ends before
/// it.
pub open spec fn pattern_table(c: CartView, num: int) -> Seq<u8> {
    let start = chr_start(c) + PATTERN_TABLE_SIZE * num;
    if num >= 0 && start + PATTERN_TABLE_SIZE <= c.data.len() {
        c.data.subrange(start, start + PATTERN_TABLE_SIZE)
    } else if 0 <= num && PATTERN_TABLE_SIZE * (num + 1) <= c.ram.len() {
        c.ram.subrange(PATTERN_TABLE_SIZE * num, PATTERN_TABLE_SIZE * (num + 1))
    } else {
        Seq::empty()
    }
}

impl NESCart {
    /// A cartridge with the image `data` and its RAM cleared.
    pub fn new(data: Vec<u8>) -> (r: NESCart)
        ensures
            r@.data == data@,
            r@.ram == Seq::new(CART_RAM_SIZE as nat, |i: int| 0u8),
    {
        let r = NESCart { data: data, ram: [0x0u8;0x9000] };
        assert(r@.ram =~= Seq::new(CART_RAM_SIZE as nat, |i: int| 0u8));
        r
    }

    /// No cartridge: an empty image, of which every read returns 0.
    pub fn none() -> (r: NESCart)
        ensures
            r@.data == Seq::<u8>::empty(),
            r@.ram == Seq::new(CART_RAM_SIZE as nat, |i: int| 0u8),
    {
        NESCart::new(Vec::new())
    }

    /// The length of the image in bytes.
    pub fn len(&self) -> (r: usize)
        ensures
            r == self@.data.len(),
    {
        self.data.len()
    }

    fn header(&self, i: usize) -> (r: u8)
        ensures
            r == header_byte(self@, i as int),
    {
        if i < self.data.len() {
            self.data[i]
        } else {
            0
        }
    }

    pub fn prg_banks(&self) -> (r: u8)
        ensures
            r == prg_banks(self@),
    {
        self.header(4)
    }

    pub fn chr_banks(&self) -> (r: u8)
        ensures
            r == chr_banks(self@),
    {
        self.header(5)
    }

    pub fn get_mirroring(&self) -> (r: bool)
        ensures
            r == vertical_mirroring(self@),
    {
        (self.header(6) & 0x1) != 0
    }

    pub fn has_battery(&self) -> (r: bool)
        ensures
            r == battery_backed(self@),
    {
        (self.header(6) & 0x2) != 0
    }

    pub fn has_trainer(&self) -> (r: bool)
        ensures
            r == trainer_present(self@),
    {
        (self.header(6) & 0x4) != 0
    }

    pub fn has_four_screen(&self) -> (r: bool)
        ensures
            r == four_screen(self@),
    {
        (self.header(6) & 0x8) != 0
    }

    pub fn mapper(&self) -> (r: u8)
        ensures
            r == mapper_number(self@),
    {
        (self.header(6) >> 4) | (self.header(7) & 0xF0)
    }

    pub fn get_pattern_table(&self, num: usize) -> (r: &[u8])
        ensures
            r@ == pattern_table(self@, num as int),
    {
        let start: usize = HEADER_SIZE + (self.prg_banks() as usize) * PRG_BANK_SIZE;
        let len: usize = self.data.len();
        if len >= start + PATTERN_TABLE_SIZE && num <= (len - start - PATTERN_TABLE_SIZE)
            / PATTERN_TABLE_SIZE {
            let from: usize = start + PATTERN_TABLE_SIZE * num;
            let r = &self.data.as_slice()[from..from + PATTERN_TABLE_SIZE];
            return r;
        }
        if num < 9 {
            let from: usize = PATTERN_TABLE_SIZE * num;
            let r = &self.ram.as_slice()[from..from + PATTERN_TABLE_SIZE];
            return r;
        }
        let r = &self.ram.as_slice()[0..0];
        assert(r@ =~= Seq::<u8>::empty());
        r
    }

    pub fn read(&self, addr: usize) -> (r: u8)
        ensures
            r == rom_read(self@, addr as int),
    {
        let offset: usize = if self.prg_banks() == 1 && addr >= HEADER_SIZE + PRG_BANK_SIZE {
            addr - PRG_BANK_SIZE
        } else {
            addr
        };
        if offset >= self.data.len() {
            return 0;
        }
        self.data[offset]
    }

    pub fn read_ram(&self, addr: usize) -> (r: u8)
        ensures
            r == ram_read(self@, addr as int),
    {
        if addr >= CART_RAM_SIZE {
            return 0;
        }
        self.ram[addr]
    }

    pub fn write_ram(&mut self, addr: usize, val: u8)
        ensures
            final(self)@ == after_ram_write(old(self)@, addr as int, val),
    {
        if addr >= CART_RAM_SIZE {
            return ;
        }
        self.ram[addr] = val;
    }
}

} // verus!
