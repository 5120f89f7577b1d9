use nes_emulator::cart::NESCart;
use nes_emulator::controller_scanner::Controller;
use nes_emulator::io::{NESIo, NESIoButton};
use nes_emulator::mmu::{Interconnect, NESMmu};

fn image(prg_banks: u8, flags6: u8, chr: &[u8]) -> Vec<u8> {
    let mut rom = vec![0u8; 0x10];
    rom[0] = 0x4E;
    rom[1] = 0x45;
    rom[2] = 0x53;
    rom[3] = 0x1A;
    rom[4] = prg_banks;
    rom[5] = (chr.len() / 0x2000) as u8;
    rom[6] = flags6;
    for bank in 0..prg_banks as usize {
        for i in 0..0x4000usize {
            rom.push(((i + bank * 3) % 251) as u8);
        }
    }
    rom.extend_from_slice(chr);
    rom
}

#[test]
fn work_ram_is_mirrored_four_times() {
    for v in [0x00u8, 0x01, 0x7F, 0x80, 0xFF].iter() {
        let mut mmu = NESMmu::new();
        mmu.write_mem(0x0000, *v);
        assert_eq!(mmu.read_mem(0x0000), *v);
        assert_eq!(mmu.read_mem(0x0800), *v);
        assert_eq!(mmu.read_mem(0x1000), *v);
        assert_eq!(mmu.read_mem(0x1800), *v);
    }
    let mut mmu = NESMmu::new();
    mmu.write_mem(0x1FFF, 0x5A);
    assert_eq!(mmu.read_mem(0x07FF), 0x5A);
    assert_eq!(mmu.ram()[0x7FF], 0x5A);
    assert_eq!(mmu.read_mem(0x07FE), 0x00);
}

#[test]
fn unmapped_addresses_read_zero_and_drop_writes() {
    let mut mmu = NESMmu::new();
    for addr in [0x4018u16, 0x4020, 0x5000, 0x5FFF, 0x4000, 0x4015, 0x4017].iter() {
        mmu.write_mem(*addr, 0xEE);
        assert_eq!(mmu.read_mem(*addr), 0);
    }
}

#[test]
fn rom_reads_without_a_cartridge_are_zero() {
    let mut mmu = NESMmu::new();
    assert_eq!(mmu.read_mem(0x8000), 0);
    assert_eq!(mmu.read_mem(0xC000), 0);
    assert_eq!(mmu.read_mem(0xFFFF), 0);
}

#[test]
fn single_bank_is_mirrored_into_the_upper_half() {
    let mut mmu = NESMmu::new();
    mmu.fill_rom(image(1, 0, &[]));
    for offset in [0x0000u16, 0x0001, 0x1234, 0x3FF1, 0x3FFF].iter() {
        let expected = ((*offset as usize) % 251) as u8;
        assert_eq!(mmu.read_mem(0x8000 + offset), expected);
        assert_eq!(mmu.read_mem(0xC000 + offset), expected);
    }
}

#[test]
fn two_banks_are_not_mirrored() {
    let mut mmu = NESMmu::new();
    mmu.fill_rom(image(2, 0, &[]));
    for offset in [0x0000u16, 0x0001, 0x1234, 0x3FFF].iter() {
        assert_eq!(mmu.read_mem(0x8000 + offset), ((*offset as usize) % 251) as u8);
        assert_eq!(mmu.read_mem(0xC000 + offset), ((*offset as usize + 3) % 251) as u8);
    }
}

#[test]
fn reads_past_the_image_are_zero() {
    let mut rom = image(1, 0, &[]);
    rom.truncate(0x10 + 0x100);
    let mut mmu = NESMmu::new();
    mmu.fill_rom(rom);
    assert_eq!(mmu.read_mem(0x80FF), (0xFFusize % 251) as u8);
    assert_eq!(mmu.read_mem(0x8100), 0);
    assert_eq!(mmu.read_mem(0xBFFF), 0);
}

#[test]
fn writes_to_rom_change_nothing() {
    let mut mmu = NESMmu::new();
    mmu.fill_rom(image(1, 0, &[]));
    let before = mmu.read_mem(0x8005);
    mmu.write_mem(0x8005, before.wrapping_add(1));
    assert_eq!(mmu.read_mem(0x8005), before);
    mmu.write_absolute(0xFFFF, 0x12);
    assert_eq!(mmu.read_mem(0xFFFF), ((0x3FFFusize) % 251) as u8);
}

#[test]
fn cartridge_ram_window() {
    let mut mmu = NESMmu::new();
    mmu.write_mem(0x6000, 0x11);
    mmu.write_mem(0x7FFF, 0x22);
    assert_eq!(mmu.read_mem(0x6000), 0x11);
    assert_eq!(mmu.read_mem(0x7FFF), 0x22);
    assert_eq!(mmu.read_mem(0x6001), 0x00);
    assert_eq!(mmu.cart().read_ram(0x0000), 0x11);
    assert_eq!(mmu.cart().read_ram(0x1FFF), 0x22);
}

#[test]
fn ppu_ports_are_mirrored_every_eight_bytes() {
    let mut mmu = NESMmu::new();
    mmu.write_mem(0x2000, 0x84);
    assert_eq!(mmu.ppu().ctrl(), 0x84);
    mmu.write_mem(0x3FF9, 0x1E);
    assert_eq!(mmu.ppu().mask(), 0x1E);
    mmu.write_mem(0x2008, 0x00);
    assert_eq!(mmu.ppu().ctrl(), 0x00);
    assert_eq!(mmu.read_mem(0x2002), 0xA0);
    assert_eq!(mmu.read_mem(0x3FFA), 0xA0);
    mmu.write_mem(0x2001, 0x1F);
    assert_eq!(mmu.read_mem(0x200A), 0xBF);
    assert_eq!(mmu.read_mem(0x2000), 0x1F);
}

#[test]
fn ppu_data_port_through_the_bus() {
    let mut mmu = NESMmu::new();
    mmu.write_mem(0x2006, 0x21);
    mmu.write_mem(0x2006, 0x08);
    mmu.write_mem(0x2007, 0xAB);
    mmu.write_mem(0x2007, 0xCD);
    assert_eq!(mmu.read_ppu_data(0x2108), 0xAB);
    assert_eq!(mmu.read_ppu_data(0x2109), 0xCD);
    mmu.write_mem(0x2006, 0x21);
    mmu.write_mem(0x2006, 0x08);
    assert_eq!(mmu.read_mem(0x2007), 0xAB);
    assert_eq!(mmu.read_mem(0x2007), 0xCD);
    assert_eq!(mmu.ppu().addr(), 0x210A);
    mmu.write_ppu_data(0x0123, 0x45);
    assert_eq!(mmu.read_ppu_data(0x0123), 0x45);
    assert_eq!(mmu.read_ppu(2), 0xA0 | (0x08 & 0x1F));
    assert_eq!(mmu.write_ppu(0, 0x80), 0);
    assert_eq!(mmu.ppu().ctrl(), 0x80);
}

#[test]
fn oam_dma_copies_a_page_of_work_ram() {
    let mut mmu = NESMmu::new();
    for i in 0..256u16 {
        mmu.write_mem(0x0300 + i, (i as u8) ^ 0x5A);
    }
    mmu.write_mem(0x4014, 0x03);
    for i in 0..256usize {
        assert_eq!(mmu.ppu().oam()[i], (i as u8) ^ 0x5A);
    }
    mmu.write_mem(0x2003, 0x10);
    mmu.write_mem(0x4014, 0x0B);
    for i in 0..256usize {
        assert_eq!(mmu.ppu().oam()[(i + 0x10) % 256], (i as u8) ^ 0x5A);
    }
}

#[test]
fn controller_port_hands_out_buttons_in_order() {
    let mut mmu = NESMmu::new();
    mmu.set_controller_button(NESIoButton::A, true);
    mmu.set_controller_button(NESIoButton::Start, true);
    mmu.set_controller_button(NESIoButton::Right, true);
    let expected = [1u8, 0, 0, 1, 0, 0, 0, 1];
    for round in 0..2 {
        for e in expected.iter() {
            assert_eq!(mmu.read_mem(0x4016), *e, "round {}", round);
        }
    }
    assert_eq!(mmu.read_mem(0x4017), 0);
    assert_eq!(mmu.read_mem(0x4016), 1);
    mmu.write_mem(0x4016, 1);
    assert_eq!(mmu.read_mem(0x4016), 1);
    assert_eq!(mmu.read_mem(0x4016), 1);
    mmu.write_mem(0x4016, 0);
    assert_eq!(mmu.read_mem(0x4016), 0);
    assert_eq!(mmu.read_mem(0x4016), 0);
    assert_eq!(mmu.read_mem(0x4016), 1);
}

#[test]
fn io_port_alone() {
    let mut io = NESIo::new();
    assert_eq!(io.read(0x4016), 0);
    io.set_controller_button(NESIoButton::B, true);
    assert_eq!(io.read(0x4016), 1);
    assert_eq!(io.read(0x4000), 0);
    io.write(0x4000, 1);
    assert_eq!(io.read(0x4016), 0);
    io.write(0x4016, 0x03);
    assert_eq!(io.read(0x4016), 0);
    io.set_controller_button(NESIoButton::A, true);
    assert_eq!(io.read(0x4016), 1);
    assert_eq!(NESIoButton::Select.to_index(), 2);
    assert_eq!(NESIoButton::Right.to_index(), 7);
}

#[test]
fn addressing_helpers_wrap_as_they_should() {
    let mut mmu = NESMmu::new();
    mmu.write_zero_page(0x10, 0x01);
    assert_eq!(mmu.read_zero_page(0x10), 0x01);
    mmu.write_zero_paged_indexed_x(0xFF, 0x02, 0x02);
    assert_eq!(mmu.read_mem(0x0001), 0x02);
    assert_eq!(mmu.read_zero_paged_indexed_x(0xFF, 0x02), 0x02);
    mmu.write_zero_paged_indexed_y(0x80, 0x90, 0x03);
    assert_eq!(mmu.read_mem(0x0010), 0x03);
    assert_eq!(mmu.read_zero_paged_indexed_y(0x80, 0x90), 0x03);
    mmu.write_absolute_indexed_x(0x00FF, 0x02, 0x04);
    assert_eq!(mmu.read_mem(0x0101), 0x04);
    assert_eq!(mmu.read_absolute_indexed_x(0x00FF, 0x02), 0x04);
    mmu.write_absolute_indexed_y(0xFFFF, 0x03, 0x05);
    assert_eq!(mmu.read_mem(0x0002), 0x05);
    assert_eq!(mmu.read_absolute_indexed_y(0xFFFF, 0x03), 0x05);
    assert_eq!(mmu.read_absolute(0x0802), 0x05);
    mmu.write_mem(0x00FF, 0x00);
    mmu.write_mem(0x0000, 0x04);
    mmu.write_indexed_indirect_x(0xF0, 0x0F, 0x06);
    assert_eq!(mmu.read_mem(0x0400), 0x06);
    assert_eq!(mmu.read_indexed_indirect_x(0xF0, 0x0F), 0x06);
    mmu.write_indexed_indirect_y(0xFF, 0x20, 0x07);
    assert_eq!(mmu.read_mem(0x0420), 0x07);
    assert_eq!(mmu.read_indexed_indirect_y(0xFF, 0x20), 0x07);
}

#[test]
fn cartridge_header_facts() {
    let mut rom = image(2, 0x13, &[0u8; 0x2000]);
    rom[7] = 0x40;
    let cart = NESCart::new(rom);
    assert_eq!(cart.prg_banks(), 2);
    assert_eq!(cart.chr_banks(), 1);
    assert!(cart.get_mirroring());
    assert!(cart.has_battery());
    assert!(!cart.has_trainer());
    assert!(!cart.has_four_screen());
    assert!(NESCart::new(image(1, 0x08, &[])).has_four_screen());
    assert!(!NESCart::new(image(1, 0x08, &[])).get_mirroring());
    assert_eq!(cart.mapper(), 0x41);
    assert_eq!(cart.len(), 0x10 + 0x8000 + 0x2000);
    let none = NESCart::none();
    assert_eq!(none.prg_banks(), 0);
    assert!(!none.get_mirroring());
    assert!(!none.has_four_screen());
    assert_eq!(none.mapper(), 0);
    assert_eq!(none.read(0), 0);
    assert_eq!(none.read(0x4010), 0);
    assert_eq!(none.len(), 0);
}

#[test]
fn cartridge_reads_by_offset() {
    let cart = NESCart::new(image(1, 0, &[]));
    assert_eq!(cart.read(4), 1);
    assert_eq!(cart.read(0x10), 0);
    assert_eq!(cart.read(0x11), 1);
    assert_eq!(cart.read(0x400F), (0x3FFFusize % 251) as u8);
    assert_eq!(cart.read(0x4010), 0);
    assert_eq!(cart.read(0x4011), 1);
    assert_eq!(cart.read(0x10 + 0x4000 + 0x4000), 0);
}

#[test]
fn cartridge_ram_is_bounded() {
    let mut cart = NESCart::none();
    cart.write_ram(0x8FFF, 0x77);
    assert_eq!(cart.read_ram(0x8FFF), 0x77);
    cart.write_ram(0x9000, 0x78);
    assert_eq!(cart.read_ram(0x9000), 0);
    assert_eq!(cart.read_ram(usize::MAX), 0);
}

#[test]
fn pattern_tables_come_from_character_data_or_ram() {
    let mut chr = vec![0u8; 0x2000];
    for (i, b) in chr.iter_mut().enumerate() {
        *b = (i % 253) as u8;
    }
    let cart = NESCart::new(image(1, 0, &chr));
    assert_eq!(cart.get_pattern_table(0), &chr[0..0x1000]);
    assert_eq!(cart.get_pattern_table(1), &chr[0x1000..0x2000]);
    assert_eq!(cart.get_pattern_table(2), &[0u8; 0x1000][..]);
    assert_eq!(cart.get_pattern_table(9).len(), 0);
    let mut bare = NESCart::new(image(1, 0, &[]));
    bare.write_ram(0x1001, 0x99);
    assert_eq!(bare.get_pattern_table(1)[1], 0x99);
    assert_eq!(bare.get_pattern_table(1).len(), 0x1000);
}

#[test]
fn inserting_a_cartridge_loads_the_pattern_tables() {
    let mut chr = vec![0u8; 0x2000];
    for (i, b) in chr.iter_mut().enumerate() {
        *b = (i % 253) as u8;
    }
    let mut mmu = NESMmu::new();
    mmu.fill_rom(image(1, 1, &chr));
    assert_eq!(mmu.read_ppu_data(0x0000), 0);
    assert_eq!(mmu.read_ppu_data(0x0005), 5);
    assert_eq!(mmu.read_ppu_data(0x1FFF), (0x1FFFusize % 253) as u8);
    assert_eq!(mmu.get_pattern_table(1)[2], (0x1002usize % 253) as u8);
    assert_eq!(mmu.cart().prg_banks(), 1);
}

#[test]
fn name_tables_by_number() {
    let mut mmu = NESMmu::new();
    mmu.write_ppu_data(0x2400, 0x11);
    mmu.write_ppu_data(0x27FF, 0x22);
    mmu.write_ppu_data(0x2C01, 0x33);
    let table = mmu.get_name_table(1);
    assert_eq!(table.len(), 0x400);
    assert_eq!(table[0], 0x11);
    assert_eq!(table[0x3FF], 0x22);
    assert_eq!(mmu.get_name_table(0), mmu.get_name_table(1));
    assert_eq!(mmu.get_name_table(2), mmu.get_name_table(3));
    assert_eq!(mmu.get_name_table(2)[1], 0x33);
    assert_eq!(mmu.get_name_table(2)[0], 0x00);
    assert_eq!(mmu.ppu().name_table(1)[0x3FF], 0x22);
    assert_eq!(mmu.get_name_table(4).len(), 0);
}

#[test]
fn name_tables_follow_the_cartridge_mirroring() {
    let mut mmu = NESMmu::new();
    mmu.fill_rom(image(1, 1, &[]));
    mmu.write_ppu_data(0x2800, 0x44);
    mmu.write_ppu_data(0x2C02, 0x55);
    assert_eq!(mmu.read_ppu_data(0x2000), 0x44);
    assert_eq!(mmu.read_ppu_data(0x2402), 0x55);
    assert_eq!(mmu.get_name_table(0), mmu.get_name_table(2));
    assert_eq!(mmu.get_name_table(1), mmu.get_name_table(3));
    assert_eq!(mmu.get_name_table(0)[0], 0x44);
    assert_eq!(mmu.get_name_table(1)[2], 0x55);
    assert_eq!(mmu.get_name_table(1)[0], 0x00);
}

#[test]
fn controller_report_is_parsed() {
    assert_eq!(Controller::parse(&[]), None);
    assert_eq!(Controller::parse(&[0, 0]), None);
    let idle = Controller::parse(&[0, 0, 8]).unwrap();
    assert_eq!(
        idle,
        Controller {
            a: false,
            b: false,
            select: false,
            start: false,
            up: false,
            down: false,
            left: false,
            right: false
        }
    );
    let c = Controller::parse(&[0x02, 0x01, 1, 0xFF]).unwrap();
    assert!(c.a && !c.b && c.select && !c.start && c.up && c.right && !c.down && !c.left);
    let c = Controller::parse(&[0x01, 0x02, 5]).unwrap();
    assert!(!c.a && c.b && !c.select && c.start && !c.up && !c.right && c.down && c.left);
    let c = Controller::parse(&[0x03, 0x03, 0]).unwrap();
    assert!(c.a && c.b && c.select && c.start && c.up && !c.right && !c.down && !c.left);
    let c = Controller::parse(&[0, 0, 7]).unwrap();
    assert!(c.up && c.left && !c.down && !c.right);
}

#[test]
fn the_bus_answers_to_both_names() {
    let mut bus = Interconnect::new();
    bus.write_absolute(0x0042, 0x24);
    assert_eq!(bus.read_zero_page(0x42), 0x24);
}
