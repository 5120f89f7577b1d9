use nes_emulator::cpu::NESCpu;
use nes_emulator::integer_casting::CastWithNegation;
use nes_emulator::mmu::NESMmu;
use nes_emulator::opcode::{AddrMode, Kind, Mnemonic, Op, OpInfo, Opcode};
use nes_emulator::status::CPUStatus;

fn load_program(mmu: &mut NESMmu, at: u16, bytes: &[u8]) {
    for (i, b) in bytes.iter().enumerate() {
        mmu.write_mem(at + i as u16, *b);
    }
}

fn machine_with(program: &[u8]) -> (NESCpu, NESMmu) {
    let mut mmu = NESMmu::new();
    load_program(&mut mmu, 0x0200, program);
    let mut cpu = NESCpu::new();
    cpu.set_pc(0x0200);
    cpu.set_s(0xFD);
    (cpu, mmu)
}

#[test]
fn new_cpu_is_cleared() {
    let cpu = NESCpu::new();
    assert_eq!(cpu.a(), 0);
    assert_eq!(cpu.x(), 0);
    assert_eq!(cpu.y(), 0);
    assert_eq!(cpu.s(), 0);
    assert_eq!(cpu.pc(), 0x8000);
    assert_eq!(cpu.p().to_u8(), 0);
}

#[test]
fn status_byte_layout() {
    let mut p = CPUStatus::new();
    assert_eq!(p.to_u8(), 0x00);
    p.set_carry(true);
    assert_eq!(p.to_u8(), 0x01);
    p.set_zero(true);
    assert_eq!(p.to_u8(), 0x03);
    p.set_irq_disable(true);
    assert_eq!(p.to_u8(), 0x07);
    p.set_decimal(true);
    assert_eq!(p.to_u8(), 0x0F);
    p.set_bit_4(true);
    assert_eq!(p.to_u8(), 0x1F);
    p.set_bit_5(true);
    assert_eq!(p.to_u8(), 0x3F);
    p.set_overflow(true);
    assert_eq!(p.to_u8(), 0x7F);
    p.set_negative(true);
    assert_eq!(p.to_u8(), 0xFF);
    p.set_carry(false);
    assert_eq!(p.to_u8(), 0xFE);
}

#[test]
fn status_byte_round_trips() {
    for v in 0..=255u8 {
        assert_eq!(CPUStatus::from(v).to_u8(), v);
    }
    let p = CPUStatus::from(0xC3);
    assert!(p.carry && p.zero && p.overflow && p.negative);
    assert!(!p.irq_disable && !p.decimal && !p.bit_4 && !p.bit_5);
}

#[test]
fn status_or_and_with_byte() {
    let p = CPUStatus::from(0x81);
    assert_eq!((p | 0x04).to_u8(), 0x85);
    assert_eq!((p & 0x0F).to_u8(), 0x01);
}

#[test]
fn loading_a_register_sets_zero_and_negative() {
    for v in 0..=255u8 {
        let mut cpu = NESCpu::new();
        cpu.set_p_u8(0xFF);
        cpu.set_a(v);
        assert_eq!(cpu.a(), v);
        assert_eq!(cpu.p().zero, v == 0);
        assert_eq!(cpu.p().negative, v & 0x80 != 0);
        assert!(cpu.p().carry && cpu.p().overflow);
        cpu.set_x(v);
        assert_eq!(cpu.x(), v);
        assert_eq!(cpu.p().zero, v == 0);
        assert_eq!(cpu.p().negative, v >= 0x80);
        cpu.set_y(v);
        assert_eq!(cpu.y(), v);
        assert_eq!(cpu.p().zero, v == 0);
        assert_eq!(cpu.p().negative, v >= 0x80);
    }
}

#[test]
fn add_with_carry_is_addition_modulo_256() {
    for a in 0..=255u16 {
        for b in 0..=255u16 {
            for c in 0..=1u16 {
                let mut cpu = NESCpu::new();
                cpu.set_p_u8(c as u8);
                let r = cpu.add_with_carry(a as u8, b as u8);
                let sum = a + b + c;
                assert_eq!(r as u16, sum % 256);
                assert_eq!(cpu.p().carry, sum > 255);
                assert_eq!(cpu.p().zero, r == 0);
                assert_eq!(cpu.p().negative, r >= 0x80);
                let signed = (a as u8 as i8 as i16) + (b as u8 as i8 as i16) + c as i16;
                assert_eq!(cpu.p().overflow, signed < -128 || signed > 127);
            }
        }
    }
}

#[test]
fn add_with_carry_examples() {
    let mut cpu = NESCpu::new();
    assert_eq!(cpu.add_with_carry(0x50, 0x50), 0xA0);
    assert!(cpu.p().overflow && cpu.p().negative && !cpu.p().carry && !cpu.p().zero);
    assert_eq!(cpu.add_with_carry(0xFF, 0x01), 0x00);
    assert!(cpu.p().carry && cpu.p().zero && !cpu.p().overflow && !cpu.p().negative);
    assert_eq!(cpu.add_with_carry(0x01, 0x01), 0x03);
}

#[test]
fn subtract_with_carry_is_add_of_complement() {
    for a in 0..=255u8 {
        for b in 0..=255u8 {
            for c in 0..=1u8 {
                let mut lhs = NESCpu::new();
                lhs.set_p_u8(c);
                let mut rhs = NESCpu::new();
                rhs.set_p_u8(c);
                let d = lhs.subtract_with_carry(a, b);
                let s = rhs.add_with_carry(a, b ^ 0xFF);
                assert_eq!(d, s);
                assert_eq!(lhs.p(), rhs.p());
                let diff = a as i16 - b as i16 - (1 - c as i16);
                assert_eq!(d, diff.rem_euclid(256) as u8);
                assert_eq!(lhs.p().carry, diff >= 0);
            }
        }
    }
}

#[test]
fn compare_sets_carry_when_not_smaller() {
    let mut cpu = NESCpu::new();
    assert_eq!(cpu.subtract(0x10, 0x10), 0);
    assert!(cpu.p().carry && cpu.p().zero && !cpu.p().negative);
    assert_eq!(cpu.subtract(0x10, 0x20), 0xF0);
    assert!(!cpu.p().carry && !cpu.p().zero && cpu.p().negative);
    assert_eq!(cpu.subtract(0x20, 0x10), 0x10);
    assert!(cpu.p().carry && !cpu.p().zero && !cpu.p().negative);
    assert_eq!(cpu.subtract_no_carry(0x00, 0x01), 0xFF);
    assert!(cpu.p().carry);
}

#[test]
fn shifts_and_rotates_move_the_bit_into_carry() {
    let mut cpu = NESCpu::new();
    assert_eq!(cpu.shift_left(0x81), 0x02);
    assert!(cpu.p().carry && !cpu.p().zero && !cpu.p().negative);
    assert_eq!(cpu.shift_left(0x40), 0x80);
    assert!(!cpu.p().carry && cpu.p().negative);
    assert_eq!(cpu.shift_left(0x80), 0x00);
    assert!(cpu.p().carry && cpu.p().zero);
    assert_eq!(cpu.shift_right(0x01), 0x00);
    assert!(cpu.p().carry && cpu.p().zero && !cpu.p().negative);
    assert_eq!(cpu.shift_right(0x82), 0x41);
    assert!(!cpu.p().carry);
    cpu.set_p_u8(0x01);
    assert_eq!(cpu.rol(0x80), 0x01);
    assert!(cpu.p().carry && !cpu.p().zero);
    assert_eq!(cpu.rol(0x40), 0x81);
    assert!(!cpu.p().carry && cpu.p().negative);
    assert_eq!(cpu.rol(0x00), 0x00);
    assert!(cpu.p().zero && !cpu.p().carry);
    cpu.set_p_u8(0x01);
    assert_eq!(cpu.ror(0x01), 0x80);
    assert!(cpu.p().carry && cpu.p().negative);
    assert_eq!(cpu.ror(0x02), 0x81);
    assert!(!cpu.p().carry);
    assert_eq!(cpu.ror(0x02), 0x01);
}

#[test]
fn logic_operations() {
    let mut cpu = NESCpu::new();
    assert_eq!(cpu.and(0xF0, 0x3C), 0x30);
    assert!(!cpu.p().zero && !cpu.p().negative);
    assert_eq!(cpu.or(0xF0, 0x0C), 0xFC);
    assert!(cpu.p().negative);
    assert_eq!(cpu.eor(0xFF, 0xFF), 0x00);
    assert!(cpu.p().zero);
    assert_eq!(cpu.add(0xFF, 0x02), 0x01);
    assert!(cpu.p().carry);
    assert_eq!(cpu.add_no_carry(0xFF, 0x01), 0x00);
    assert!(cpu.p().zero && cpu.p().carry);
}

#[test]
fn offsets_wrap() {
    let mut cpu = NESCpu::new();
    cpu.set_a(0xFF);
    cpu.offset_a(2);
    assert_eq!(cpu.a(), 1);
    cpu.offset_x(0xFF);
    assert_eq!(cpu.x(), 0xFF);
    assert!(cpu.p().negative);
    cpu.offset_y(0);
    assert!(cpu.p().zero);
    cpu.offset_s(0xFF);
    assert_eq!(cpu.s(), 0xFF);
    cpu.set_pc(0xFFFF);
    cpu.offset_pc(2);
    assert_eq!(cpu.pc(), 1);
    cpu.set_s(0xFF);
    assert_eq!(cpu.s(), 0xFF);
    cpu.set_s(0xFD);
    assert_eq!(cpu.s(), 0xFD);
}

#[test]
fn stack_round_trip_in_lifo_order() {
    let mut mmu = NESMmu::new();
    let mut cpu = NESCpu::new();
    cpu.set_s(0x05);
    let pushed: Vec<u8> = (0..=255u16).map(|i| (i as u8).wrapping_mul(7).wrapping_add(3)).collect();
    for v in pushed.iter() {
        cpu.push_stack(&mut mmu, *v);
    }
    assert_eq!(cpu.s(), 0x05);
    for v in pushed.iter().rev() {
        assert_eq!(cpu.pop_stack(&mut mmu), *v);
    }
    assert_eq!(cpu.s(), 0x05);
}

#[test]
fn stack_pointer_wraps_at_the_page_boundary() {
    let mut mmu = NESMmu::new();
    let mut cpu = NESCpu::new();
    assert_eq!(cpu.s(), 0);
    cpu.push_stack(&mut mmu, 0xAB);
    assert_eq!(cpu.s(), 0xFF);
    assert_eq!(mmu.read_mem(0x0100), 0xAB);
    cpu.push_stack(&mut mmu, 0xCD);
    assert_eq!(cpu.s(), 0xFE);
    assert_eq!(mmu.read_mem(0x01FF), 0xCD);
    assert_eq!(cpu.pop_stack(&mut mmu), 0xCD);
    assert_eq!(cpu.pop_stack(&mut mmu), 0xAB);
    assert_eq!(cpu.s(), 0);
}

#[test]
fn cast_with_neg_sign_extends() {
    assert_eq!(0x00u8.cast_with_neg(), 0x0000);
    assert_eq!(0x02u8.cast_with_neg(), 0x0002);
    assert_eq!(0x7Fu8.cast_with_neg(), 0x007F);
    assert_eq!(0x80u8.cast_with_neg(), 0xFF80);
    assert_eq!(0xFEu8.cast_with_neg(), 0xFFFE);
    assert_eq!(0xFFu8.cast_with_neg(), 0xFFFF);
}

#[test]
fn branch_forward_by_two() {
    let (mut cpu, mut mmu) = machine_with(&[0xD0, 0x02]);
    assert_eq!(cpu.do_instruction(&mut mmu), (true, 2));
    assert_eq!(cpu.pc(), 0x0204);
}

#[test]
fn branch_backward_by_two() {
    let (mut cpu, mut mmu) = machine_with(&[0xD0, 0xFE]);
    assert_eq!(cpu.do_instruction(&mut mmu), (true, 2));
    assert_eq!(cpu.pc(), 0x0200);
}

#[test]
fn branch_not_taken_skips_the_instruction() {
    let (mut cpu, mut mmu) = machine_with(&[0xF0, 0x7F]);
    assert_eq!(cpu.do_instruction(&mut mmu), (true, 2));
    assert_eq!(cpu.pc(), 0x0202);
}

#[test]
fn each_branch_tests_its_flag() {
    let cases: [(u8, u8, bool); 16] = [
        (0x10, 0x00, true),
        (0x10, 0x80, false),
        (0x30, 0x80, true),
        (0x30, 0x00, false),
        (0x50, 0x00, true),
        (0x50, 0x40, false),
        (0x70, 0x40, true),
        (0x70, 0x00, false),
        (0x90, 0x00, true),
        (0x90, 0x01, false),
        (0xB0, 0x01, true),
        (0xB0, 0x00, false),
        (0xD0, 0x00, true),
        (0xD0, 0x02, false),
        (0xF0, 0x02, true),
        (0xF0, 0x00, false),
    ];
    for (code, flags, taken) in cases.iter() {
        let (mut cpu, mut mmu) = machine_with(&[*code, 0x10]);
        cpu.set_p_u8(*flags);
        assert_eq!(cpu.do_instruction(&mut mmu), (true, 2));
        assert_eq!(cpu.pc(), if *taken { 0x0212 } else { 0x0202 });
    }
}

#[test]
fn unknown_opcode_fails() {
    let (mut cpu, mut mmu) = machine_with(&[0x02, 0x00, 0x00]);
    cpu.set_a(0x11);
    assert_eq!(cpu.do_instruction(&mut mmu), (false, 0));
    assert_eq!(cpu.pc(), 0x0200);
    assert_eq!(cpu.a(), 0x11);
    assert_eq!(cpu.s(), 0xFD);
}

#[test]
fn lda_sta_through_each_addressing_mode() {
    let (mut cpu, mut mmu) = machine_with(&[
        0xA9, 0x42, // LDA #$42
        0x85, 0x10, // STA $10
        0xA2, 0x03, // LDX #$03
        0x95, 0x10, // STA $10,X
        0x8D, 0x00, 0x03, // STA $0300
        0x9D, 0x00, 0x03, // STA $0300,X
        0xA0, 0x05, // LDY #$05
        0x99, 0x00, 0x03, // STA $0300,Y
        0xA5, 0x13, // LDA $13
        0xB5, 0x0D, // LDA $0D,X
        0xAD, 0x03, 0x03, // LDA $0303
        0xBD, 0x02, 0x03, // LDA $0302,X
        0xB9, 0x00, 0x03, // LDA $0300,Y
    ]);
    let expected_cycles = [2, 3, 2, 4, 4, 5, 2, 5, 3, 4, 4, 4, 4];
    for c in expected_cycles.iter() {
        assert_eq!(cpu.do_instruction(&mut mmu), (true, *c));
        assert_eq!(cpu.a(), 0x42);
    }
    assert_eq!(mmu.read_mem(0x0010), 0x42);
    assert_eq!(mmu.read_mem(0x0013), 0x42);
    assert_eq!(mmu.read_mem(0x0300), 0x42);
    assert_eq!(mmu.read_mem(0x0303), 0x42);
    assert_eq!(mmu.read_mem(0x0305), 0x42);
    assert_eq!(mmu.read_mem(0x0304), 0x00);
    assert_eq!(cpu.pc(), 0x0200 + 32);
}

#[test]
fn indirect_addressing_reads_the_pointer_from_the_zero_page() {
    let (mut cpu, mut mmu) = machine_with(&[
        0xA1, 0xFE, // LDA ($FE,X) with X = 1: pointer at $FF and $00
        0xB1, 0x20, // LDA ($20),Y
        0x81, 0xFE, // STA ($FE,X)
        0x91, 0x20, // STA ($20),Y
    ]);
    mmu.write_mem(0x00FF, 0x34);
    mmu.write_mem(0x0000, 0x03);
    mmu.write_mem(0x0334, 0x77);
    mmu.write_mem(0x0020, 0xF0);
    mmu.write_mem(0x0021, 0x03);
    mmu.write_mem(0x0400, 0x99);
    cpu.set_x(1);
    cpu.set_y(0x10);
    assert_eq!(cpu.do_instruction(&mut mmu), (true, 6));
    assert_eq!(cpu.a(), 0x77);
    assert_eq!(cpu.do_instruction(&mut mmu), (true, 5));
    assert_eq!(cpu.a(), 0x99);
    cpu.set_a(0x12);
    assert_eq!(cpu.do_instruction(&mut mmu), (true, 6));
    assert_eq!(mmu.read_mem(0x0334), 0x12);
    assert_eq!(cpu.do_instruction(&mut mmu), (true, 6));
    assert_eq!(mmu.read_mem(0x0400), 0x12);
}

#[test]
fn read_modify_write_instructions() {
    let (mut cpu, mut mmu) = machine_with(&[
        0xE6, 0x10, // INC $10
        0xC6, 0x11, // DEC $11
        0x06, 0x12, // ASL $12
        0x46, 0x13, // LSR $13
        0x26, 0x14, // ROL $14
        0x66, 0x15, // ROR $15
        0x0A, // ASL A
        0x4A, // LSR A
    ]);
    mmu.write_mem(0x10, 0xFF);
    mmu.write_mem(0x11, 0x00);
    mmu.write_mem(0x12, 0xC0);
    mmu.write_mem(0x13, 0x03);
    mmu.write_mem(0x14, 0x80);
    mmu.write_mem(0x15, 0x01);
    assert_eq!(cpu.do_instruction(&mut mmu), (true, 5));
    assert_eq!(mmu.read_mem(0x10), 0x00);
    assert!(cpu.p().zero);
    assert_eq!(cpu.do_instruction(&mut mmu), (true, 5));
    assert_eq!(mmu.read_mem(0x11), 0xFF);
    assert!(cpu.p().negative);
    assert_eq!(cpu.do_instruction(&mut mmu), (true, 5));
    assert_eq!(mmu.read_mem(0x12), 0x80);
    assert!(cpu.p().carry);
    assert_eq!(cpu.do_instruction(&mut mmu), (true, 5));
    assert_eq!(mmu.read_mem(0x13), 0x01);
    assert!(cpu.p().carry);
    assert_eq!(cpu.do_instruction(&mut mmu), (true, 5));
    assert_eq!(mmu.read_mem(0x14), 0x01);
    assert!(cpu.p().carry);
    assert_eq!(cpu.do_instruction(&mut mmu), (true, 5));
    assert_eq!(mmu.read_mem(0x15), 0x80);
    assert!(cpu.p().carry);
    cpu.set_a(0x41);
    assert_eq!(cpu.do_instruction(&mut mmu), (true, 2));
    assert_eq!(cpu.a(), 0x82);
    assert!(!cpu.p().carry);
    assert_eq!(cpu.do_instruction(&mut mmu), (true, 2));
    assert_eq!(cpu.a(), 0x41);
    assert_eq!(cpu.pc(), 0x0200 + 14);
}

#[test]
fn transfers_counts_and_flags() {
    let (mut cpu, mut mmu) = machine_with(&[
        0xAA, 0xA8, 0xE8, 0xC8, 0xCA, 0x88, 0x8A, 0x98, 0x9A, 0xBA, 0x38, 0x18, 0x78, 0x58, 0xF8,
        0xD8, 0xB8, 0xEA,
    ]);
    cpu.set_a(0x80);
    cpu.do_instruction(&mut mmu);
    assert_eq!(cpu.x(), 0x80);
    cpu.do_instruction(&mut mmu);
    assert_eq!(cpu.y(), 0x80);
    cpu.do_instruction(&mut mmu);
    assert_eq!(cpu.x(), 0x81);
    cpu.do_instruction(&mut mmu);
    assert_eq!(cpu.y(), 0x81);
    cpu.do_instruction(&mut mmu);
    cpu.do_instruction(&mut mmu);
    assert_eq!((cpu.x(), cpu.y()), (0x80, 0x80));
    cpu.set_a(0);
    cpu.do_instruction(&mut mmu);
    assert_eq!(cpu.a(), 0x80);
    assert!(cpu.p().negative);
    cpu.set_a(0);
    cpu.do_instruction(&mut mmu);
    assert_eq!(cpu.a(), 0x80);
    let flags = cpu.p();
    cpu.do_instruction(&mut mmu);
    assert_eq!(cpu.s(), 0x80);
    assert_eq!(cpu.p(), flags);
    cpu.set_x(0);
    cpu.do_instruction(&mut mmu);
    assert_eq!(cpu.x(), 0x80);
    cpu.set_p_u8(0x40);
    cpu.do_instruction(&mut mmu);
    assert_eq!(cpu.p().to_u8(), 0x41);
    cpu.do_instruction(&mut mmu);
    assert_eq!(cpu.p().to_u8(), 0x40);
    cpu.do_instruction(&mut mmu);
    assert_eq!(cpu.p().to_u8(), 0x44);
    cpu.do_instruction(&mut mmu);
    assert_eq!(cpu.p().to_u8(), 0x40);
    cpu.do_instruction(&mut mmu);
    assert_eq!(cpu.p().to_u8(), 0x48);
    cpu.do_instruction(&mut mmu);
    assert_eq!(cpu.p().to_u8(), 0x40);
    cpu.do_instruction(&mut mmu);
    assert_eq!(cpu.p().to_u8(), 0x00);
    assert_eq!(cpu.do_instruction(&mut mmu), (true, 2));
    assert_eq!(cpu.pc(), 0x0200 + 18);
}

#[test]
fn bit_test_takes_flags_from_memory() {
    let (mut cpu, mut mmu) = machine_with(&[0x24, 0x10, 0x2C, 0x11, 0x00]);
    mmu.write_mem(0x10, 0xC0);
    mmu.write_mem(0x11, 0x01);
    cpu.set_a(0x01);
    assert_eq!(cpu.do_instruction(&mut mmu), (true, 3));
    assert!(cpu.p().zero && cpu.p().overflow && cpu.p().negative);
    assert_eq!(cpu.do_instruction(&mut mmu), (true, 4));
    assert!(!cpu.p().zero && !cpu.p().overflow && !cpu.p().negative);
    assert_eq!(cpu.a(), 0x01);
}

#[test]
fn compare_instructions_leave_the_registers() {
    let (mut cpu, mut mmu) = machine_with(&[0xC9, 0x10, 0xE0, 0x20, 0xC0, 0x01]);
    cpu.set_a(0x10);
    cpu.set_x(0x10);
    cpu.set_y(0x10);
    cpu.do_instruction(&mut mmu);
    assert!(cpu.p().carry && cpu.p().zero);
    cpu.do_instruction(&mut mmu);
    assert!(!cpu.p().carry && !cpu.p().zero && cpu.p().negative);
    cpu.do_instruction(&mut mmu);
    assert!(cpu.p().carry && !cpu.p().zero && !cpu.p().negative);
    assert_eq!((cpu.a(), cpu.x(), cpu.y()), (0x10, 0x10, 0x10));
}

#[test]
fn adc_and_sbc_instructions() {
    let (mut cpu, mut mmu) = machine_with(&[0x38, 0x69, 0x01, 0xE9, 0x03, 0x09, 0x0F, 0x29, 0xF8, 0x49, 0xFF]);
    cpu.set_a(0xFF);
    cpu.do_instruction(&mut mmu);
    cpu.do_instruction(&mut mmu);
    assert_eq!(cpu.a(), 0x01);
    assert!(cpu.p().carry);
    cpu.do_instruction(&mut mmu);
    assert_eq!(cpu.a(), 0xFE);
    assert!(!cpu.p().carry && cpu.p().negative);
    cpu.do_instruction(&mut mmu);
    assert_eq!(cpu.a(), 0xFF);
    cpu.do_instruction(&mut mmu);
    assert_eq!(cpu.a(), 0xF8);
    cpu.do_instruction(&mut mmu);
    assert_eq!(cpu.a(), 0x07);
}

#[test]
fn stack_instructions() {
    let (mut cpu, mut mmu) = machine_with(&[0x48, 0x08, 0x68, 0x28]);
    cpu.set_p_u8(0x00);
    cpu.set_a(0x81);
    assert_eq!(cpu.do_instruction(&mut mmu), (true, 3));
    assert_eq!(mmu.read_mem(0x01FD), 0x81);
    assert_eq!(cpu.s(), 0xFC);
    assert_eq!(cpu.do_instruction(&mut mmu), (true, 3));
    assert_eq!(mmu.read_mem(0x01FC), 0xB0);
    assert_eq!(cpu.s(), 0xFB);
    assert_eq!(cpu.do_instruction(&mut mmu), (true, 4));
    assert_eq!(cpu.a(), 0xB0);
    assert!(cpu.p().negative);
    assert_eq!(cpu.do_instruction(&mut mmu), (true, 4));
    assert_eq!(cpu.p().to_u8(), 0x81);
    assert_eq!(cpu.s(), 0xFD);
    assert_eq!(cpu.pc(), 0x0204);
}

#[test]
fn call_and_return() {
    let (mut cpu, mut mmu) = machine_with(&[0x20, 0x00, 0x03]);
    load_program(&mut mmu, 0x0300, &[0x60]);
    assert_eq!(cpu.do_instruction(&mut mmu), (true, 6));
    assert_eq!(cpu.pc(), 0x0300);
    assert_eq!(cpu.s(), 0xFB);
    assert_eq!(mmu.read_mem(0x01FD), 0x02);
    assert_eq!(mmu.read_mem(0x01FC), 0x02);
    assert_eq!(cpu.do_instruction(&mut mmu), (true, 6));
    assert_eq!(cpu.pc(), 0x0203);
    assert_eq!(cpu.s(), 0xFD);
}

#[test]
fn jumps() {
    let (mut cpu, mut mmu) = machine_with(&[0x4C, 0x10, 0x03]);
    load_program(&mut mmu, 0x0310, &[0x6C, 0x20, 0x03]);
    load_program(&mut mmu, 0x0320, &[0x34, 0x12]);
    assert_eq!(cpu.do_instruction(&mut mmu), (true, 3));
    assert_eq!(cpu.pc(), 0x0310);
    assert_eq!(cpu.do_instruction(&mut mmu), (true, 5));
    assert_eq!(cpu.pc(), 0x1234);
}

#[test]
fn software_interrupt_pushes_and_takes_the_vector() {
    let mut rom = vec![0u8; 0x10 + 0x4000];
    rom[4] = 1;
    rom[0x10 + 0x3FFE] = 0x00;
    rom[0x10 + 0x3FFF] = 0x03;
    let mut mmu = NESMmu::new();
    mmu.fill_rom(rom);
    load_program(&mut mmu, 0x0200, &[0x00]);
    load_program(&mut mmu, 0x0300, &[0x40]);
    let mut cpu = NESCpu::new();
    cpu.set_pc(0x0200);
    cpu.set_s(0xFD);
    cpu.set_p_u8(0x81);
    assert_eq!(cpu.do_instruction(&mut mmu), (true, 7));
    assert_eq!(cpu.pc(), 0x0300);
    assert_eq!(cpu.s(), 0xFA);
    assert!(cpu.p().irq_disable);
    assert_eq!(mmu.read_mem(0x01FD), 0x02);
    assert_eq!(mmu.read_mem(0x01FC), 0x02);
    assert_eq!(mmu.read_mem(0x01FB), 0xB5);
    assert_eq!(cpu.do_instruction(&mut mmu), (true, 6));
    assert_eq!(cpu.pc(), 0x0202);
    assert_eq!(cpu.s(), 0xFD);
    assert_eq!(cpu.p().to_u8(), 0xB5);
}

#[test]
fn nmi_pushes_status_as_it_is() {
    let mut rom = vec![0u8; 0x10 + 0x8000];
    rom[4] = 2;
    rom[0x10 + 0x7FFA] = 0x56;
    rom[0x10 + 0x7FFB] = 0x04;
    let mut mmu = NESMmu::new();
    mmu.fill_rom(rom);
    let mut cpu = NESCpu::new();
    cpu.set_pc(0x1234);
    cpu.set_s(0xFD);
    cpu.set_p_u8(0x41);
    cpu.do_nmi(&mut mmu);
    assert_eq!(cpu.pc(), 0x0456);
    assert_eq!(cpu.s(), 0xFA);
    assert_eq!(mmu.read_mem(0x01FD), 0x12);
    assert_eq!(mmu.read_mem(0x01FC), 0x34);
    assert_eq!(mmu.read_mem(0x01FB), 0x41);
    assert_eq!(cpu.p().to_u8(), 0x41);
}

#[test]
fn opcode_table_decodes_known_bytes() {
    assert_eq!(Op::from_u8(0xA9), Some(Op::LDAImmediate));
    assert_eq!(Op::from_u8(0x00), Some(Op::BRKImmediate));
    assert_eq!(Op::from_u8(0xEA), Some(Op::NOPImplied));
    assert_eq!(Op::from_u8(0x6C), Some(Op::JMPAbsIndirect));
    assert_eq!(Op::from_u8(0xFE), Some(Op::INCAbsoluteX));
    assert_eq!(Op::from_u8(0x02), None);
    assert_eq!(Op::from_u8(0xFF), None);
    assert_eq!(Op::from_u8(0x80), None);
    let mut known = 0;
    for b in 0..=255u8 {
        if let Some(op) = Op::from_u8(b) {
            known += 1;
            assert_eq!(op.to_u8(), b);
        }
    }
    assert_eq!(known, 151);
}

#[test]
fn opcode_table_facts() {
    assert_eq!(
        Op::LDAImmediate.get_info(),
        OpInfo { mnemonic: Mnemonic::LDA, mode: AddrMode::Immediate, cycles: 2 }
    );
    assert_eq!(Op::STAAbsoluteX.cycles(), 5);
    assert_eq!(Op::BRKImmediate.cycles(), 7);
    assert_eq!(Op::SBCAbsoluteY.cycles(), 2);
    assert_eq!(Op::DECAbsolute.cycles(), 4);
    assert_eq!(Op::JMPAbsIndirect.mode(), AddrMode::AbsIndirect);
    assert_eq!(Op::RORAccumulator.mnemonic(), Mnemonic::ROR);
    assert_eq!(Mnemonic::ROR.get_kind(), Kind::Modify);
    assert_eq!(Mnemonic::NOP.get_kind(), Kind::Register);
    assert_eq!(Mnemonic::BRK.get_kind(), Kind::Jump);
    assert_eq!(AddrMode::Implied.len(), 1);
    assert_eq!(AddrMode::Relative.len(), 2);
    assert_eq!(AddrMode::AbsoluteY.len(), 3);
    let cpu = NESCpu::new();
    assert_eq!(cpu.get_op_cycles(&Op::ORAIndirectX), 6);
}

#[test]
fn opcode_word_unpacks() {
    let opcode = Opcode::new(0x00C0FFEE);
    assert_eq!(opcode.op(), 0xEE);
    assert_eq!(opcode.imm1(), 0xFF);
    assert_eq!(opcode.imm2(), 0xC0);
    assert_eq!(opcode.abs_addr(), 0xC0FF);
    let packed = Opcode::from_bytes(0x8D, 0x10, 0x20);
    assert_eq!(packed, Opcode::new(0x0020108D));
    assert_eq!(packed.abs_addr(), 0x2010);
}

#[test]
fn execute_carries_out_one_table_entry() {
    let mut mmu = NESMmu::new();
    let mut cpu = NESCpu::new();
    cpu.set_pc(0x0200);
    cpu.execute(&mut mmu, Op::LDXImmediate.get_info(), 0x7F, 0x00);
    assert_eq!(cpu.x(), 0x7F);
    assert_eq!(cpu.pc(), 0x0202);
    cpu.execute(&mut mmu, Op::STXAbsolute.get_info(), 0x34, 0x02);
    assert_eq!(mmu.read_mem(0x0234), 0x7F);
    assert_eq!(cpu.pc(), 0x0205);
}

#[test]
fn the_stack_pointer_takes_every_byte() {
    for v in 0..=255u8 {
        let mut cpu = NESCpu::new();
        cpu.set_a(0x80);
        cpu.set_x(0x01);
        cpu.set_y(0x02);
        cpu.set_pc(0x1234);
        let flags = cpu.p();
        cpu.set_s(v);
        assert_eq!(cpu.s(), v);
        assert_eq!(cpu.p(), flags);
        assert_eq!((cpu.a(), cpu.x(), cpu.y(), cpu.pc()), (0x80, 0x01, 0x02, 0x1234));
    }
}

#[test]
fn push_after_setting_the_stack_pointer_to_the_top() {
    let mut mmu = NESMmu::new();
    let mut cpu = NESCpu::new();
    cpu.set_s(0xFF);
    cpu.push_stack(&mut mmu, 0x5A);
    assert_eq!(mmu.read_mem(0x01FF), 0x5A);
    assert_eq!(cpu.s(), 0xFE);
}
