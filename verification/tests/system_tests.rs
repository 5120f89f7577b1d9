use nes_emulator::controller_scanner::Controller;
use nes_emulator::nes::NES;

fn minimal_image(program: &[u8]) -> Vec<u8> {
    let mut rom = vec![0u8; 0x10 + 0x4000];
    rom[0] = 0x4E;
    rom[1] = 0x45;
    rom[2] = 0x53;
    rom[3] = 0x1A;
    rom[4] = 1;
    for (i, b) in program.iter().enumerate() {
        rom[0x10 + i] = *b;
    }
    rom[0x10 + 0x3FFC] = 0x00;
    rom[0x10 + 0x3FFD] = 0x80;
    rom
}

#[test]
fn end_to_end_load_store_and_loop() {
    let mut nes = NES::new();
    assert!(nes.insert_cart(minimal_image(&[0xA9, 0x05, 0x8D, 0x10, 0x00, 0xD0, 0xFE])));
    nes.hard_restart();
    assert_eq!(nes.cpu().pc(), 0x8000);
    assert!(nes.step());
    assert!(nes.step());
    assert!(nes.step());
    assert_eq!(nes.cpu().pc(), 0x8005);
    assert!(nes.step());
    assert_eq!(nes.cpu().pc(), 0x8005);
    assert_eq!(nes.cpu().a(), 5);
    assert_eq!(nes.mmu().ram()[0x0010], 5);
}

#[test]
fn hard_restart_sets_the_power_up_registers() {
    let mut nes = NES::new();
    nes.hard_restart();
    assert_eq!(nes.cpu().a(), 0);
    assert_eq!(nes.cpu().x(), 0);
    assert_eq!(nes.cpu().y(), 0);
    assert_eq!(nes.cpu().s(), 0xFD);
    assert_eq!(nes.cpu().p().to_u8(), 0x36);
    assert_eq!(nes.cpu().pc(), 0x0000);
    let mut nes = NES::new();
    let mut rom = minimal_image(&[]);
    rom[0x10 + 0x3FFC] = 0x34;
    rom[0x10 + 0x3FFD] = 0x92;
    assert!(nes.insert_cart(rom));
    nes.hard_restart();
    assert_eq!(nes.cpu().pc(), 0x9234);
}

#[test]
fn soft_restart_moves_the_stack_and_disables_interrupts() {
    let mut nes = NES::new();
    nes.hard_restart();
    nes.soft_restart();
    assert_eq!(nes.cpu().s(), 0xFA);
    assert_eq!(nes.cpu().p().to_u8(), 0x36);
    let mut nes = NES::new();
    nes.soft_restart();
    assert_eq!(nes.cpu().s(), 0xFD);
    assert_eq!(nes.cpu().p().to_u8(), 0x04);
    assert_eq!(nes.cpu().pc(), 0x8000);
}

#[test]
fn an_image_without_a_header_is_not_inserted() {
    let mut nes = NES::new();
    assert!(!nes.insert_cart(Vec::new()));
    assert!(!nes.insert_cart(vec![1u8; 15]));
    assert_eq!(nes.mmu().cart().len(), 0);
    assert!(nes.insert_cart(vec![0u8; 16]));
    assert_eq!(nes.mmu().cart().len(), 16);
}

#[test]
fn the_console_stops_on_an_unknown_opcode() {
    let mut nes = NES::new();
    assert!(nes.insert_cart(minimal_image(&[0xEA, 0x02])));
    nes.hard_restart();
    assert!(nes.step());
    assert_eq!(nes.cpu().pc(), 0x8001);
    assert!(!nes.step());
    assert_eq!(nes.cpu().pc(), 0x8001);
    assert!(!nes.step());
}

#[test]
fn the_console_without_a_cartridge_runs_breaks() {
    let mut nes = NES::new();
    nes.hard_restart();
    assert!(nes.step());
    assert_eq!(nes.cpu().pc(), 0x0000);
    assert_eq!(nes.cpu().s(), 0xFA);
}

#[test]
fn the_interrupt_is_taken_at_the_vblank() {
    // enable the interrupt, then loop; the handler counts in $20
    let program = [
        0xA9, 0x80, // LDA #$80
        0x8D, 0x00, 0x20, // STA $2000
        0x4C, 0x05, 0x80, // JMP $8005
    ];
    let mut rom = minimal_image(&program);
    let handler = [0xE6, 0x20, 0x40]; // INC $20 ; RTI
    for (i, b) in handler.iter().enumerate() {
        rom[0x10 + 0x100 + i] = *b;
    }
    rom[0x10 + 0x3FFA] = 0x00;
    rom[0x10 + 0x3FFB] = 0x81;
    let mut nes = NES::new();
    assert!(nes.insert_cart(rom));
    nes.hard_restart();
    let mut entries = 0;
    for _ in 0..10_000 {
        assert!(nes.step());
        if nes.cpu().pc() == 0x8100 {
            entries += 1;
        }
    }
    assert_eq!(entries, 1);
    assert_eq!(nes.mmu().ram()[0x20], 1);
    assert_eq!(nes.frame().len(), 256 * 240);
}

#[test]
fn controller_snapshot_reaches_the_port() {
    let mut nes = NES::new();
    let pad = Controller {
        a: true,
        b: false,
        select: false,
        start: true,
        up: false,
        down: true,
        left: false,
        right: false,
    };
    nes.set_controller(&pad);
    // LDA $4016, eight times, each stored to the zero page
    let mut program = Vec::new();
    for i in 0..8u8 {
        program.extend_from_slice(&[0xAD, 0x16, 0x40, 0x85, 0x30 + i]);
    }
    assert!(nes.insert_cart(minimal_image(&program)));
    nes.hard_restart();
    for _ in 0..16 {
        assert!(nes.step());
    }
    let ram = nes.mmu().ram();
    assert_eq!(&ram[0x30..0x38], &[1, 0, 0, 1, 0, 1, 0, 0]);
}
