use nes_emulator::ppu::NESPpu;

#[test]
fn ppu_power_up_state() {
    let ppu = NESPpu::new();
    assert_eq!(ppu.ctrl(), 0);
    assert_eq!(ppu.mask(), 0);
    assert_eq!(ppu.status(), 0xA0);
    assert_eq!(ppu.scanline(), 0);
    assert_eq!(ppu.dot(), 0);
    assert_eq!(ppu.frame().len(), 256 * 240);
    assert!(ppu.frame().iter().all(|p| *p == 0));
    assert!(ppu.oam().iter().all(|b| *b == 25));
}

#[test]
fn write_only_ports_read_back_the_last_byte() {
    let mut ppu = NESPpu::new();
    assert_eq!(ppu.write_ppu(0, 0x12), 0);
    assert_eq!(ppu.read_ppu(0), 0x12);
    assert_eq!(ppu.read_ppu(1), 0x12);
    assert_eq!(ppu.read_ppu(3), 0x12);
    assert_eq!(ppu.read_ppu(5), 0x12);
    assert_eq!(ppu.read_ppu(6), 0x12);
    ppu.write_ppu(2, 0xFF);
    assert_eq!(ppu.read_ppu(0), 0x12);
    assert_eq!(ppu.read_ppu(2), 0xA0 | 0x12);
    assert_eq!(ppu.read_ppu(8), 0);
    ppu.write_ppu(8, 0x55);
    assert_eq!(ppu.read_ppu(0), 0x12);
}

#[test]
fn oam_port_auto_increments() {
    let mut ppu = NESPpu::new();
    ppu.write_ppu(3, 0xFE);
    ppu.write_ppu(4, 0x01);
    ppu.write_ppu(4, 0x02);
    ppu.write_ppu(4, 0x03);
    assert_eq!(ppu.oam_addr(), 0x01);
    assert_eq!(ppu.oam()[0xFE], 0x01);
    assert_eq!(ppu.oam()[0xFF], 0x02);
    assert_eq!(ppu.oam()[0x00], 0x03);
    assert_eq!(ppu.read_ppu(4), 25);
    ppu.write_ppu(3, 0xFF);
    assert_eq!(ppu.read_ppu(4), 0x02);
    assert_eq!(ppu.oam_addr(), 0xFF);
}

#[test]
fn scroll_takes_two_writes() {
    let mut ppu = NESPpu::new();
    ppu.write_ppu(5, 10);
    assert_eq!(ppu.scroll(), (10, 0));
    ppu.write_ppu(5, 250);
    assert_eq!(ppu.scroll(), (10, 10));
    ppu.write_ppu(5, 239);
    assert_eq!(ppu.scroll(), (239, 10));
    ppu.write_ppu(5, 240);
    assert_eq!(ppu.scroll(), (239, 0));
}

#[test]
fn address_takes_two_writes_and_is_cut_to_fourteen_bits() {
    let mut ppu = NESPpu::new();
    ppu.write_ppu(6, 0xE3);
    assert_eq!(ppu.addr(), 0x2300);
    ppu.write_ppu(6, 0x45);
    assert_eq!(ppu.addr(), 0x2345);
    ppu.write_ppu(6, 0x3F);
    assert_eq!(ppu.addr(), 0x3F00);
    ppu.write_ppu(6, 0x01);
    assert_eq!(ppu.addr(), 0x3F01);
}

#[test]
fn data_port_steps_by_one_or_thirty_two() {
    let mut ppu = NESPpu::new();
    ppu.write_ppu(6, 0x20);
    ppu.write_ppu(6, 0x00);
    ppu.write_ppu(7, 0x11);
    assert_eq!(ppu.addr(), 0x2001);
    ppu.write_ppu(0, 0x04);
    ppu.write_ppu(7, 0x22);
    assert_eq!(ppu.addr(), 0x2021);
    assert_eq!(ppu.read_ppu_data(0x2000), 0x11);
    assert_eq!(ppu.read_ppu_data(0x2001), 0x22);
    ppu.write_ppu(6, 0x3F);
    ppu.write_ppu(6, 0xE0);
    assert_eq!(ppu.read_ppu(7), 0);
    assert_eq!(ppu.addr(), 0x3FE0 - 32 * 511 + 1);
    assert_eq!(ppu.read_ppu(0), 0xE0);
}

#[test]
fn ppu_memory_map() {
    let mut ppu = NESPpu::new();
    ppu.write_ppu_data(0x0000, 0x01);
    ppu.write_ppu_data(0x1FFF, 0x02);
    ppu.write_ppu_data(0x2000, 0x03);
    ppu.write_ppu_data(0x2FFF, 0x04);
    ppu.write_ppu_data(0x3000, 0x05);
    ppu.write_ppu_data(0x3F00, 0x06);
    ppu.write_ppu_data(0x3F01, 0x07);
    ppu.write_ppu_data(0x3F03, 0x08);
    ppu.write_ppu_data(0x3F04, 0x09);
    ppu.write_ppu_data(0x3F10, 0x0A);
    ppu.write_ppu_data(0x3F1F, 0x0B);
    ppu.write_ppu_data(0x3F20, 0x0C);
    assert_eq!(ppu.read_ppu_data(0x0000), 0x01);
    assert_eq!(ppu.read_ppu_data(0x1FFF), 0x02);
    assert_eq!(ppu.read_ppu_data(0x2000), 0x03);
    assert_eq!(ppu.read_ppu_data(0x2FFF), 0x04);
    assert_eq!(ppu.read_ppu_data(0x3000), 0);
    assert_eq!(ppu.read_ppu_data(0x3F00), 0);
    assert_eq!(ppu.read_ppu_data(0x3F01), 0x07);
    assert_eq!(ppu.read_ppu_data(0x3F03), 0x08);
    assert_eq!(ppu.read_ppu_data(0x3F04), 0);
    assert_eq!(ppu.read_ppu_data(0x3F10), 0);
    assert_eq!(ppu.read_ppu_data(0x3F1F), 0x0B);
    assert_eq!(ppu.read_ppu_data(0x3F20), 0);
    assert_eq!(ppu.read_ppu_data(0xFFFF), 0);
}

#[test]
fn dma_starts_at_the_object_pointer() {
    let mut ppu = NESPpu::new();
    let data: Vec<u8> = (0..=255u16).map(|i| i as u8).collect();
    ppu.write_ppu(3, 0x80);
    ppu.dma(&data);
    assert_eq!(ppu.oam()[0x80], 0);
    assert_eq!(ppu.oam()[0xFF], 0x7F);
    assert_eq!(ppu.oam()[0x00], 0x80);
    assert_eq!(ppu.oam()[0x7F], 0xFF);
    assert_eq!(ppu.oam_addr(), 0x80);
}

fn oam_with_sprites_on_line_zero(on_line: &[usize]) -> Vec<u8> {
    let mut data = vec![0u8; 256];
    for i in 0..64 {
        data[i * 4] = if on_line.contains(&i) { 0 } else { 100 };
        data[i * 4 + 1] = i as u8;
        data[i * 4 + 2] = (i as u8) | 0x40;
        data[i * 4 + 3] = (i as u8) * 2;
    }
    data
}

#[test]
fn at_most_eight_sprites_are_selected_in_oam_order() {
    let on_line = [3usize, 5, 6, 10, 11, 12, 20, 21, 22, 30];
    let mut ppu = NESPpu::new();
    ppu.dma(&oam_with_sprites_on_line_zero(&on_line));
    ppu.evaluate_sprites();
    for slot in 0..8 {
        let i = on_line[slot] as u8;
        assert_eq!(ppu.scanline_sprite(slot), (0, i, i | 0x40, i * 2));
    }
}

#[test]
fn fewer_than_eight_sprites_leave_empty_slots() {
    let on_line = [63usize, 0, 31];
    let mut ppu = NESPpu::new();
    ppu.dma(&oam_with_sprites_on_line_zero(&on_line));
    ppu.evaluate_sprites();
    assert_eq!(ppu.scanline_sprite(0), (0, 0, 0x40, 0));
    assert_eq!(ppu.scanline_sprite(1), (0, 31, 31 | 0x40, 62));
    assert_eq!(ppu.scanline_sprite(2), (0, 63, 63 | 0x40, 126));
    for slot in 3..8 {
        assert_eq!(ppu.scanline_sprite(slot), (0xFF, 0xFF, 0xFF, 0xFF));
    }
}

#[test]
fn exactly_nine_sprites_drop_the_last() {
    let on_line = [0usize, 1, 2, 3, 4, 5, 6, 7, 8];
    let mut ppu = NESPpu::new();
    ppu.dma(&oam_with_sprites_on_line_zero(&on_line));
    ppu.evaluate_sprites();
    for slot in 0..8 {
        assert_eq!(ppu.scanline_sprite(slot).1, slot as u8);
    }
}

#[test]
fn vblank_is_entered_at_scanline_241_dot_0() {
    let mut ppu = NESPpu::new();
    ppu.write_ppu(0, 0x80);
    let mut calls = 0u32;
    loop {
        let nmi = ppu.do_cycle(1);
        calls += 1;
        if nmi {
            break;
        }
        assert!(calls < 100_000);
    }
    assert_eq!(calls, 27394);
    assert_eq!(ppu.scanline(), 241);
    assert_eq!(ppu.dot(), 0);
    assert_eq!(ppu.status() & 0x80, 0x80);
    assert_eq!(ppu.oam_addr(), 0);
    for _ in 0..2153 {
        assert!(!ppu.do_cycle(1));
        assert!(ppu.scanline() >= 241 || ppu.scanline() == 0);
    }
    assert_eq!((ppu.scanline(), ppu.dot()), (259, 339));
    assert!(!ppu.do_cycle(1));
    assert_eq!((ppu.scanline(), ppu.dot()), (0, 1));
    assert_eq!(ppu.status() & 0x80, 0);
}

#[test]
fn one_interrupt_request_per_frame() {
    let mut ppu = NESPpu::new();
    ppu.write_ppu(0, 0x80);
    let mut requests = Vec::new();
    for call in 1..=60_000u32 {
        if ppu.do_cycle(1) {
            requests.push(call);
        }
    }
    assert_eq!(requests, vec![27394, 27394 + 29547]);
}

#[test]
fn no_interrupt_request_when_disabled() {
    let mut ppu = NESPpu::new();
    let mut entered = 0;
    for _ in 0..30_000u32 {
        assert!(!ppu.do_cycle(1));
        if ppu.scanline() == 241 && ppu.dot() == 0 {
            entered += 1;
            assert_eq!(ppu.status() & 0x80, 0x80);
        }
    }
    assert_eq!(entered, 1);
}

#[test]
fn do_cycle_stops_at_the_vblank() {
    let mut ppu = NESPpu::new();
    ppu.write_ppu(0, 0x80);
    assert!(ppu.do_cycle(1_000_000));
    assert_eq!((ppu.scanline(), ppu.dot()), (241, 0));
    assert!(!ppu.do_cycle(0));
    assert_eq!((ppu.scanline(), ppu.dot()), (241, 0));
}

#[test]
fn single_steps_follow_the_fetch_groups() {
    let mut ppu = NESPpu::new();
    assert!(!ppu.step());
    assert_eq!((ppu.scanline(), ppu.dot()), (0, 1));
    assert_eq!(ppu.status(), 0x20);
    let mut per_line = 1;
    let mut probe = NESPpu::new();
    probe.step();
    while probe.scanline() == 0 {
        probe.step();
        per_line += 1;
    }
    assert_eq!(per_line, 341);
    for _ in 0..7 {
        ppu.step();
        assert_eq!(ppu.dot(), 1);
    }
    ppu.step();
    assert_eq!(ppu.dot(), 9);
    for _ in 0..(31 * 8) {
        ppu.step();
    }
    assert_eq!(ppu.dot(), 257);
    for _ in 0..(8 * 8) {
        ppu.step();
    }
    assert_eq!(ppu.dot(), 321);
    for _ in 0..19 {
        ppu.step();
    }
    assert_eq!(ppu.dot(), 340);
    ppu.step();
    assert_eq!((ppu.scanline(), ppu.dot()), (1, 0));
}

#[test]
fn background_tile_is_drawn_with_its_palette() {
    let mut ppu = NESPpu::new();
    ppu.write_ppu(1, 0x08);
    // tile 1 in the first cell of the first name table
    ppu.write_ppu_data(0x2000, 0x01);
    // attribute byte of the first block: group 2 for its top left quadrant
    ppu.write_ppu_data(0x23C0, 0x02);
    // row 0 of tile 1: low plane 1010_0000, high plane 1100_0000
    ppu.write_ppu_data(0x0010, 0xA0);
    ppu.write_ppu_data(0x0018, 0xC0);
    ppu.write_ppu_data(0x3F09, 0x01);
    ppu.write_ppu_data(0x3F0A, 0x16);
    ppu.write_ppu_data(0x3F0B, 0x20);
    for _ in 0..9 {
        ppu.step();
    }
    assert_eq!(ppu.dot(), 9);
    let frame = ppu.frame();
    assert_eq!(frame[0], 0xFFFFFF);
    assert_eq!(frame[1], 0xFF0000);
    assert_eq!(frame[2], 0x002491);
    assert_eq!(frame[3], 1);
    assert_eq!(frame[7], 1);
    assert_eq!(frame[8], 0);
}

#[test]
fn background_is_not_drawn_when_masked() {
    let mut ppu = NESPpu::new();
    ppu.write_ppu_data(0x0000, 0xFF);
    for _ in 0..9 {
        ppu.step();
    }
    assert!(ppu.frame().iter().all(|p| *p == 0));
}

#[test]
fn blit_bg_writes_eight_pixels_at_the_dot() {
    let mut ppu = NESPpu::new();
    ppu.write_ppu(1, 0x08);
    ppu.step();
    ppu.blit_bg(0x01, 0x02, 0x03);
    let frame = ppu.frame();
    for i in 0..8 {
        assert_eq!(frame[i], 1);
    }
    assert_eq!(frame[8], 0);
}

#[test]
fn sprite_row_is_drawn_and_hits_the_background() {
    let mut ppu = NESPpu::new();
    ppu.write_ppu(1, 0x18);
    let mut oam = vec![0xF0u8; 256];
    // sprite 0: top at line 0, tile 2, group 1, left edge 4
    oam[0] = 0;
    oam[1] = 2;
    oam[2] = 0x01;
    oam[3] = 4;
    ppu.dma(&oam);
    // background tile 0, row 0: pixel 5 has colour 1
    ppu.write_ppu_data(0x0000, 0x04);
    ppu.write_ppu_data(0x3F01, 0x11);
    // sprite tile 2, row 1 (the scanline lies one above the row after the top): colour 3 in pixel 0 and 1
    ppu.write_ppu_data(0x0021, 0xC0);
    ppu.write_ppu_data(0x0029, 0xC0);
    ppu.write_ppu_data(0x3F17, 0x30);
    while ppu.dot() != 265 {
        ppu.step();
    }
    assert_eq!(ppu.scanline_sprite(0), (0, 2, 0x01, 4));
    let frame = ppu.frame();
    assert_eq!(frame[4], 0xFFFFFF);
    assert_eq!(frame[5], 0xFFFFFF);
    assert_eq!(frame[6], 1);
    assert_eq!(frame[3], 1);
    assert_eq!(ppu.status() & 0x40, 0x40);
}

#[test]
fn blit_sprite_stops_at_the_right_edge() {
    let mut ppu = NESPpu::new();
    ppu.write_ppu(1, 0x10);
    ppu.write_ppu_data(0x0000, 0xFF);
    while ppu.dot() != 9 {
        ppu.step();
    }
    ppu.blit_sprite(0x20, 0x20, 0x20, 252, false);
    let frame = ppu.frame();
    assert_eq!(frame[251], 0);
    for i in 252..256 {
        assert_eq!(frame[i], 0xFFFFFF);
    }
    assert_eq!(frame[256], 0);
    assert_eq!(ppu.status() & 0x40, 0);
}

#[test]
fn mirroring_selects_the_name_table() {
    // horizontal: the second table stands for the first, the fourth for the third
    for (vertical, select, base) in [
        (false, 0u8, 0x2000u16),
        (false, 1, 0x2000),
        (false, 2, 0x2800),
        (false, 3, 0x2800),
        (true, 0, 0x2000),
        (true, 1, 0x2400),
        (true, 2, 0x2000),
        (true, 3, 0x2400),
    ]
    .iter()
    {
        let mut ppu = NESPpu::new();
        ppu.set_mirroring(*vertical);
        ppu.write_ppu(0, *select);
        ppu.write_ppu(1, 0x08);
        ppu.write_ppu_data(*base, 0x01);
        ppu.write_ppu_data(0x0010, 0x80);
        ppu.write_ppu_data(0x3F01, 0x20);
        for _ in 0..9 {
            ppu.step();
        }
        assert_eq!(ppu.frame()[0], 0xFFFFFF, "vertical {} select {}", vertical, select);
    }
}

#[test]
fn pattern_tables_can_be_loaded() {
    let mut ppu = NESPpu::new();
    let first = vec![0x11u8; 0x1000];
    let second = vec![0x22u8; 0x1000];
    ppu.load_pattern_tables(&first, &second);
    assert_eq!(ppu.read_ppu_data(0x0000), 0x11);
    assert_eq!(ppu.read_ppu_data(0x0FFF), 0x11);
    assert_eq!(ppu.read_ppu_data(0x1000), 0x22);
    assert_eq!(ppu.read_ppu_data(0x1FFF), 0x22);
}

#[test]
fn horizontal_mirroring_aliases_neighbouring_name_tables() {
    let mut ppu = NESPpu::new();
    ppu.write_ppu_data(0x2000, 0x01);
    ppu.write_ppu_data(0x27FF, 0x02);
    ppu.write_ppu_data(0x2800, 0x03);
    ppu.write_ppu_data(0x2FFF, 0x04);
    assert_eq!(ppu.read_ppu_data(0x2400), 0x01);
    assert_eq!(ppu.read_ppu_data(0x23FF), 0x02);
    assert_eq!(ppu.read_ppu_data(0x2C00), 0x03);
    assert_eq!(ppu.read_ppu_data(0x2BFF), 0x04);
    assert_eq!(ppu.read_ppu_data(0x2001), 0x00);
    assert_eq!(ppu.read_ppu_data(0x2801), 0x00);
}

#[test]
fn vertical_mirroring_aliases_every_second_name_table() {
    let mut ppu = NESPpu::new();
    ppu.set_mirroring(true);
    ppu.write_ppu_data(0x2800, 0x11);
    ppu.write_ppu_data(0x2FFF, 0x12);
    ppu.write_ppu_data(0x2001, 0x13);
    ppu.write_ppu_data(0x2402, 0x14);
    assert_eq!(ppu.read_ppu_data(0x2000), 0x11);
    assert_eq!(ppu.read_ppu_data(0x27FF), 0x12);
    assert_eq!(ppu.read_ppu_data(0x2801), 0x13);
    assert_eq!(ppu.read_ppu_data(0x2C02), 0x14);
    assert_eq!(ppu.read_ppu_data(0x2400), 0x00);
    assert_eq!(ppu.name_table(2), ppu.name_table(0));
    assert_eq!(ppu.name_table(3)[2], 0x14);
}

#[test]
fn a_byte_written_to_an_aliased_table_is_drawn() {
    let mut ppu = NESPpu::new();
    ppu.set_mirroring(true);
    ppu.write_ppu(0, 0x00);
    ppu.write_ppu(1, 0x08);
    ppu.write_ppu_data(0x2800, 0x01);
    ppu.write_ppu_data(0x0010, 0x80);
    ppu.write_ppu_data(0x3F01, 0x20);
    for _ in 0..9 {
        ppu.step();
    }
    assert_eq!(ppu.frame()[0], 0xFFFFFF);
}

fn step_to(ppu: &mut NESPpu, scanline: u32, dot: u32) {
    let mut steps = 0u32;
    while ppu.scanline() != scanline || ppu.dot() != dot {
        ppu.step();
        steps += 1;
        assert!(steps < 200_000);
    }
}

fn ppu_with_attribute_blocks() -> NESPpu {
    let mut ppu = NESPpu::new();
    ppu.write_ppu(1, 0x08);
    // tile 1 has colour 1 in the first pixel of its first row
    ppu.write_ppu_data(0x0010, 0x80);
    // groups 0, 1, 2 and 3 for the four blocks of each attribute byte
    for i in 0..8u16 {
        ppu.write_ppu_data(0x23C0 + i, 0xE4);
    }
    ppu.write_ppu_data(0x3F01, 0x20);
    ppu.write_ppu_data(0x3F05, 0x16);
    ppu.write_ppu_data(0x3F09, 0x12);
    ppu.write_ppu_data(0x3F0D, 0x2A);
    // tile 1 in the cells that the tests look at
    for cell in [0u16, 2, 4, 6, 0x40, 0x42, 0x44, 0x46].iter() {
        ppu.write_ppu_data(0x2000 + cell, 0x01);
    }
    ppu
}

#[test]
fn attribute_byte_gives_each_block_its_group() {
    let mut ppu = ppu_with_attribute_blocks();
    step_to(&mut ppu, 0, 25);
    assert_eq!(ppu.frame()[0], 0xFFFFFF);
    assert_eq!(ppu.frame()[16], 0xFF0000);
    step_to(&mut ppu, 16, 25);
    assert_eq!(ppu.frame()[16 * 256], 0x0048FF);
    assert_eq!(ppu.frame()[16 * 256 + 16], 0x00FF00);
}

#[test]
fn attribute_blocks_repeat_across_the_screen() {
    let mut ppu = ppu_with_attribute_blocks();
    step_to(&mut ppu, 0, 57);
    // the tile under dot 33 lies in the left block of the second attribute byte,
    // the tile under dot 49 in its right block
    assert_eq!(ppu.frame()[32], 0xFFFFFF);
    assert_eq!(ppu.frame()[48], 0xFF0000);
    step_to(&mut ppu, 16, 57);
    assert_eq!(ppu.frame()[16 * 256 + 32], 0x0048FF);
    assert_eq!(ppu.frame()[16 * 256 + 48], 0x00FF00);
}
