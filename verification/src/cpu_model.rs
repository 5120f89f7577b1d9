//! What the processor does, as a model: the arithmetic of its instructions,
//! and one instruction as a function of the registers and of everything that
//! the bus reaches.

use crate::bus_model::{MmuView, absolute_indexed, after_read, after_write, indexed_indirect_x,
    indexed_indirect_y, read_value, zero_page_indexed};
use crate::integer_casting::{sign_extend, signed_value};
use crate::opcode::{AddrMode, Kind, Mnemonic, Op, OpInfo};
use crate::status::{CPUStatus, is_negative, status_of_byte, weight, with_zn};
use vstd::prelude::*;

verus! {

/// The registers of the processor.
#[derive(Copy, Clone, Debug, PartialEq, Eq, Structural)]
pub struct Registers {
    /// The accumulator.
    pub a: u8,
    /// The X index.
    pub x: u8,
    /// The Y index.
    pub y: u8,
    /// The stack pointer, an offset into the stack page.
    pub s: u8,
    /// The program counter.
    pub pc: u16,
    /// The status flags.
    pub p: CPUStatus,
}

/// Where the stack page begins.
pub const STACK_PAGE: u16 = 0x100;

/// Where the address is held at which a non-maskable interrupt goes on.
pub const NMI_VECTOR: u16 = 0xFFFA;

/// Where the address is held at which the processor starts.
pub const RESET_VECTOR: u16 = 0xFFFC;

/// Where the address is held at which a software interrupt goes on.
pub const BRK_VECTOR: u16 = 0xFFFE;

/// `v` round the end of the byte range.
#[verifier::opaque]
pub open spec fn wrap8(v: int) -> u8 {
    (v % 0x100) as u8
}

/// `v` round the end of the address space.
#[verifier::opaque]
pub open spec fn wrap16(v: int) -> u16 {
    (v % 0x10000) as u16
}

/// The address whose low byte is `lo` and whose high byte is `hi`.
pub open spec fn word(lo: u8, hi: u8) -> u16 {
    (lo + 0x100 * hi) as u16
}

// ---------------------------------------------------------------------------
// Arithmetic.
// ---------------------------------------------------------------------------
/// The sum that an addition with carry forms, before it is cut to a byte.
pub open spec fn adc_sum(p: CPUStatus, lhs: u8, rhs: u8) -> int {
    lhs + rhs + weight(p.carry, 1)
}

/// The byte that an addition with carry gives.
pub open spec fn adc_result(p: CPUStatus, lhs: u8, rhs: u8) -> u8 {
    wrap8(adc_sum(p, lhs, rhs))
}

/// Whether `result` has another sign than both `lhs` and `rhs`.
pub open spec fn sign_overflow(lhs: u8, rhs: u8, result: u8) -> bool {
    (lhs ^ result) & (rhs ^ result) & 0x80 != 0
}

/// The flags after an addition with carry: carry where the sum does not fit in
/// a byte, overflow where the signed sum does not, zero and negative from the
/// result.
pub open spec fn after_adc(p: CPUStatus, lhs: u8, rhs: u8) -> CPUStatus {
    let result = adc_result(p, lhs, rhs);
    CPUStatus {
        carry: adc_sum(p, lhs, rhs) > 255,
        overflow: sign_overflow(lhs, rhs, result),
        ..with_zn(p, result)
    }
}

/// The difference that a subtraction with carry forms, before it is cut to a
/// byte: a clear carry takes one more away.
pub open spec fn sbc_difference(p: CPUStatus, lhs: u8, rhs: u8) -> int {
    lhs - rhs - weight(!p.carry, 1)
}

/// The byte that a subtraction with carry gives.
pub open spec fn sbc_result(p: CPUStatus, lhs: u8, rhs: u8) -> u8 {
    wrap8(sbc_difference(p, lhs, rhs))
}

/// The flags after a subtraction with carry: carry where nothing had to be
/// borrowed, overflow where `lhs` and `rhs` differ in sign and the result has
/// another sign than `lhs`, zero and negative from the result.
pub open spec fn after_sbc(p: CPUStatus, lhs: u8, rhs: u8) -> CPUStatus {
    let result = sbc_result(p, lhs, rhs);
    CPUStatus {
        carry: sbc_difference(p, lhs, rhs) >= 0,
        overflow: (lhs ^ result) & (lhs ^ rhs) & 0x80 != 0,
        ..with_zn(p, result)
    }
}

/// The flags after `lhs` is compared with `rhs`: carry where `lhs` is not the
/// smaller one, zero and negative from the difference.
pub open spec fn after_compare(p: CPUStatus, lhs: u8, rhs: u8) -> CPUStatus {
    CPUStatus { carry: lhs >= rhs, ..with_zn(p, wrap8(lhs - rhs)) }
}

/// The flags after a test of the bits of `val` against the accumulator: zero
/// where they share no bit, overflow and negative from bits 6 and 7 of `val`.
pub open spec fn after_bit_test(p: CPUStatus, a: u8, val: u8) -> CPUStatus {
    CPUStatus { zero: a & val == 0, overflow: val & 0x40 != 0, negative: is_negative(val), ..p }
}

/// The flags after a shift to the left: bit 7 goes to the carry.
pub open spec fn after_shift_left(p: CPUStatus, val: u8) -> CPUStatus {
    CPUStatus { carry: is_negative(val), ..with_zn(p, wrap8(val * 2)) }
}

/// The flags after a shift to the right: bit 0 goes to the carry.
pub open spec fn after_shift_right(p: CPUStatus, val: u8) -> CPUStatus {
    CPUStatus { carry: val & 1 != 0, zero: val / 2 == 0, negative: false, ..p }
}

/// The byte that a rotation to the left gives: the carry comes in as bit 0.
pub open spec fn rol_result(p: CPUStatus, val: u8) -> u8 {
    (wrap8(val * 2) + weight(p.carry, 1)) as u8
}

/// The flags after a rotation to the left: bit 7 goes to the carry.
pub open spec fn after_rol(p: CPUStatus, val: u8) -> CPUStatus {
    CPUStatus { carry: is_negative(val), ..with_zn(p, rol_result(p, val)) }
}

/// The byte that a rotation to the right gives: the carry comes in as bit 7.
pub open spec fn ror_result(p: CPUStatus, val: u8) -> u8 {
    (val / 2 + weight(p.carry, 128)) as u8
}

/// The flags after a rotation to the right: bit 0 goes to the carry.
pub open spec fn after_ror(p: CPUStatus, val: u8) -> CPUStatus {
    CPUStatus { carry: val & 1 != 0, ..with_zn(p, ror_result(p, val)) }
}

/// The status byte as an instruction pushes it: the two bits without a flag
/// are set.
pub open spec fn pushed_status(p: CPUStatus) -> u8 {
    (CPUStatus { bit_4: true, bit_5: true, ..p }).bits()
}

// ---------------------------------------------------------------------------
// The stack.
// ---------------------------------------------------------------------------
/// The stack pointer after a push: one down, round the end of the page.
pub open spec fn pushed_s(s: u8) -> u8 {
    wrap8(s + 0xFF)
}

/// The stack pointer after a pop: one up, round the end of the page.
pub open spec fn popped_s(s: u8) -> u8 {
    wrap8(s + 1)
}

/// Everything on the bus after `val` is pushed with the stack pointer at `s`:
/// it is written where the stack pointer stands.
pub open spec fn pushed(bus: MmuView, s: u8, val: u8) -> MmuView {
    after_write(bus, STACK_PAGE + s, val)
}

/// The byte that a pop returns with the stack pointer at `s`: the one above
/// the stack pointer.
pub open spec fn stack_top(bus: MmuView, s: u8) -> u8 {
    read_value(bus, STACK_PAGE + popped_s(s))
}

/// The low byte of the address held at `vector`, as the machine reads it.
pub open spec fn vector_lo(bus: MmuView, vector: u16) -> u8 {
    read_value(bus, vector as int)
}

/// The high byte of the address held at `vector`, read after the low one.
pub open spec fn vector_hi(bus: MmuView, vector: u16) -> u8 {
    read_value(after_read(bus, vector as int), vector + 1)
}

/// Everything on the bus after the address held at `vector` is read.
pub open spec fn after_vector(bus: MmuView, vector: u16) -> MmuView {
    after_read(after_read(bus, vector as int), vector + 1)
}

/// Everything on the bus after the three pushes of an interrupt: the high byte
/// of `return_point`, its low byte, and `status`.
pub open spec fn interrupt_pushes(bus: MmuView, s: u8, return_point: u16, status: u8) -> MmuView {
    pushed(
        pushed(pushed(bus, s, (return_point / 0x100) as u8), pushed_s(s), (return_point % 0x100) as u8),
        pushed_s(pushed_s(s)),
        status,
    )
}

/// The registers after an interrupt is taken: three bytes were pushed, and
/// the program goes on where `vector` says.
pub open spec fn interrupt_registers(
    cpu: Registers,
    bus: MmuView,
    return_point: u16,
    status: u8,
    vector: u16,
) -> Registers {
    let stacked = interrupt_pushes(bus, cpu.s, return_point, status);
    Registers {
        s: pushed_s(pushed_s(pushed_s(cpu.s))),
        pc: word(vector_lo(stacked, vector), vector_hi(stacked, vector)),
        ..cpu
    }
}

/// Everything on the bus after an interrupt is taken.
pub open spec fn interrupt_bus(
    cpu: Registers,
    bus: MmuView,
    return_point: u16,
    status: u8,
    vector: u16,
) -> MmuView {
    after_vector(interrupt_pushes(bus, cpu.s, return_point, status), vector)
}

/// The registers after a non-maskable interrupt is taken: the program will
/// come back to where it stood, and the status is pushed as it is.
pub open spec fn nmi_registers(cpu: Registers, bus: MmuView) -> Registers {
    interrupt_registers(cpu, bus, cpu.pc, cpu.p.bits(), NMI_VECTOR)
}

/// Everything on the bus after a non-maskable interrupt is taken.
pub open spec fn nmi_bus(cpu: Registers, bus: MmuView) -> MmuView {
    interrupt_bus(cpu, bus, cpu.pc, cpu.p.bits(), NMI_VECTOR)
}

// ---------------------------------------------------------------------------
// Operands.
// ---------------------------------------------------------------------------
/// Whether an instruction with this mode works on a byte of memory.
pub open spec fn has_address(mode: AddrMode) -> bool {
    match mode {
        AddrMode::ZeroPage
        | AddrMode::ZeroPageX
        | AddrMode::ZeroPageY
        | AddrMode::Absolute
        | AddrMode::AbsoluteX
        | AddrMode::AbsoluteY
        | AddrMode::IndirectX
        | AddrMode::IndirectY => true,
        _ => false,
    }
}

/// The address of the byte that the instruction works on.
pub open spec fn effective_address(
    cpu: Registers,
    bus: MmuView,
    mode: AddrMode,
    imm1: u8,
    imm2: u8,
) -> int {
    match mode {
        AddrMode::ZeroPage => imm1 as int,
        AddrMode::ZeroPageX => zero_page_indexed(imm1, cpu.x),
        AddrMode::ZeroPageY => zero_page_indexed(imm1, cpu.y),
        AddrMode::Absolute => word(imm1, imm2) as int,
        AddrMode::AbsoluteX => absolute_indexed(word(imm1, imm2), cpu.x),
        AddrMode::AbsoluteY => absolute_indexed(word(imm1, imm2), cpu.y),
        AddrMode::IndirectX => indexed_indirect_x(bus, imm1, cpu.x),
        AddrMode::IndirectY => indexed_indirect_y(bus, imm1, cpu.y),
        _ => 0,
    }
}

/// The operand of the instruction: the byte at its address, the accumulator,
/// or the first operand byte itself.
#[verifier::opaque]
pub open spec fn operand(cpu: Registers, bus: MmuView, mode: AddrMode, imm1: u8, imm2: u8) -> u8 {
    if has_address(mode) {
        read_value(bus, effective_address(cpu, bus, mode, imm1, imm2))
    } else if mode == AddrMode::Accumulator {
        cpu.a
    } else {
        imm1
    }
}

/// Everything on the bus after the operand is read.
#[verifier::opaque]
pub open spec fn after_operand(
    cpu: Registers,
    bus: MmuView,
    mode: AddrMode,
    imm1: u8,
    imm2: u8,
) -> MmuView {
    if has_address(mode) {
        after_read(bus, effective_address(cpu, bus, mode, imm1, imm2))
    } else {
        bus
    }
}

/// Everything on the bus after `val` is stored where the instruction works: it
/// is written at the instruction's address, if it has one.
#[verifier::opaque]
pub open spec fn stored(
    cpu: Registers,
    bus: MmuView,
    mode: AddrMode,
    imm1: u8,
    imm2: u8,
    val: u8,
) -> MmuView {
    if has_address(mode) {
        after_write(bus, effective_address(cpu, bus, mode, imm1, imm2), val)
    } else {
        bus
    }
}

/// The registers after `val` is stored where the instruction works: it goes
/// to the accumulator, if that is where the instruction works.
pub open spec fn stored_registers(cpu: Registers, mode: AddrMode, val: u8) -> Registers {
    if mode == AddrMode::Accumulator {
        Registers { a: val, ..cpu }
    } else {
        cpu
    }
}

/// The registers with the program counter moved past an instruction of this
/// mode.
pub open spec fn advanced(cpu: Registers, mode: AddrMode) -> Registers {
    Registers { pc: wrap16(cpu.pc + mode.length()), ..cpu }
}

// ---------------------------------------------------------------------------
// Instructions, by what they have in common.
// ---------------------------------------------------------------------------
/// The registers after an instruction that reads has computed with its
/// operand `val`: the result goes to a register, or only to the flags.
pub open spec fn read_registers(cpu: Registers, mnemonic: Mnemonic, val: u8) -> Registers {
    let p = cpu.p;
    match mnemonic {
        Mnemonic::ORA => Registers { a: cpu.a | val, p: with_zn(p, cpu.a | val), ..cpu },
        Mnemonic::AND => Registers { a: cpu.a & val, p: with_zn(p, cpu.a & val), ..cpu },
        Mnemonic::EOR => Registers { a: cpu.a ^ val, p: with_zn(p, cpu.a ^ val), ..cpu },
        Mnemonic::ADC => Registers {
            a: adc_result(p, cpu.a, val),
            p: after_adc(p, cpu.a, val),
            ..cpu
        },
        Mnemonic::SBC => Registers {
            a: sbc_result(p, cpu.a, val),
            p: after_sbc(p, cpu.a, val),
            ..cpu
        },
        Mnemonic::LDA => Registers { a: val, p: with_zn(p, val), ..cpu },
        Mnemonic::LDX => Registers { x: val, p: with_zn(p, val), ..cpu },
        Mnemonic::LDY => Registers { y: val, p: with_zn(p, val), ..cpu },
        Mnemonic::CMP => Registers { p: after_compare(p, cpu.a, val), ..cpu },
        Mnemonic::CPX => Registers { p: after_compare(p, cpu.x, val), ..cpu },
        Mnemonic::CPY => Registers { p: after_compare(p, cpu.y, val), ..cpu },
        Mnemonic::BIT => Registers { p: after_bit_test(p, cpu.a, val), ..cpu },
        _ => cpu,
    }
}

/// The byte that an instruction that modifies makes of its operand `val`.
pub open spec fn modified(p: CPUStatus, mnemonic: Mnemonic, val: u8) -> u8 {
    match mnemonic {
        Mnemonic::ASL => wrap8(val * 2),
        Mnemonic::LSR => val / 2,
        Mnemonic::ROL => rol_result(p, val),
        Mnemonic::ROR => ror_result(p, val),
        Mnemonic::INC => wrap8(val + 1),
        Mnemonic::DEC => wrap8(val - 1),
        _ => val,
    }
}

/// The flags after an instruction that modifies has changed its operand `val`.
pub open spec fn modified_flags(p: CPUStatus, mnemonic: Mnemonic, val: u8) -> CPUStatus {
    match mnemonic {
        Mnemonic::ASL => after_shift_left(p, val),
        Mnemonic::LSR => after_shift_right(p, val),
        Mnemonic::ROL => after_rol(p, val),
        Mnemonic::ROR => after_ror(p, val),
        Mnemonic::INC => with_zn(p, wrap8(val + 1)),
        Mnemonic::DEC => with_zn(p, wrap8(val - 1)),
        _ => p,
    }
}

/// The register that an instruction that stores writes out.
pub open spec fn stored_value(cpu: Registers, mnemonic: Mnemonic) -> u8 {
    match mnemonic {
        Mnemonic::STA => cpu.a,
        Mnemonic::STX => cpu.x,
        _ => cpu.y,
    }
}

/// The registers after an instruction that works on them alone: a transfer, a
/// count, a flag, or nothing at all.
pub open spec fn register_registers(cpu: Registers, mnemonic: Mnemonic) -> Registers {
    let p = cpu.p;
    match mnemonic {
        Mnemonic::TAX => Registers { x: cpu.a, p: with_zn(p, cpu.a), ..cpu },
        Mnemonic::TAY => Registers { y: cpu.a, p: with_zn(p, cpu.a), ..cpu },
        Mnemonic::TXA => Registers { a: cpu.x, p: with_zn(p, cpu.x), ..cpu },
        Mnemonic::TYA => Registers { a: cpu.y, p: with_zn(p, cpu.y), ..cpu },
        Mnemonic::TSX => Registers { x: cpu.s, p: with_zn(p, cpu.s), ..cpu },
        Mnemonic::TXS => Registers { s: cpu.x, ..cpu },
        Mnemonic::INX => Registers { x: wrap8(cpu.x + 1), p: with_zn(p, wrap8(cpu.x + 1)), ..cpu },
        Mnemonic::INY => Registers { y: wrap8(cpu.y + 1), p: with_zn(p, wrap8(cpu.y + 1)), ..cpu },
        Mnemonic::DEX => Registers {
            x: wrap8(cpu.x + 0xFF),
            p: with_zn(p, wrap8(cpu.x + 0xFF)),
            ..cpu
        },
        Mnemonic::DEY => Registers {
            y: wrap8(cpu.y + 0xFF),
            p: with_zn(p, wrap8(cpu.y + 0xFF)),
            ..cpu
        },
        Mnemonic::CLC => Registers { p: CPUStatus { carry: false, ..p }, ..cpu },
        Mnemonic::SEC => Registers { p: CPUStatus { carry: true, ..p }, ..cpu },
        Mnemonic::CLI => Registers { p: CPUStatus { irq_disable: false, ..p }, ..cpu },
        Mnemonic::SEI => Registers { p: CPUStatus { irq_disable: true, ..p }, ..cpu },
        Mnemonic::CLD => Registers { p: CPUStatus { decimal: false, ..p }, ..cpu },
        Mnemonic::SED => Registers { p: CPUStatus { decimal: true, ..p }, ..cpu },
        Mnemonic::CLV => Registers { p: CPUStatus { overflow: false, ..p }, ..cpu },
        _ => cpu,
    }
}

/// The registers after an instruction that pushes or pops; `top` is the byte
/// above the stack pointer.
pub open spec fn stack_registers(cpu: Registers, mnemonic: Mnemonic, top: u8) -> Registers {
    match mnemonic {
        Mnemonic::PHA | Mnemonic::PHP => Registers { s: pushed_s(cpu.s), ..cpu },
        Mnemonic::PLA => Registers { s: popped_s(cpu.s), a: top, p: with_zn(cpu.p, top), ..cpu },
        Mnemonic::PLP => Registers { s: popped_s(cpu.s), p: status_of_byte(top), ..cpu },
        _ => cpu,
    }
}

/// Everything on the bus after an instruction that pushes or pops.
pub open spec fn stack_bus(cpu: Registers, bus: MmuView, mnemonic: Mnemonic) -> MmuView {
    match mnemonic {
        Mnemonic::PHA => pushed(bus, cpu.s, cpu.a),
        Mnemonic::PHP => pushed(bus, cpu.s, pushed_status(cpu.p)),
        _ => bus,
    }
}

/// Whether a branch is taken: each branch tests one flag.
pub open spec fn branch_taken(p: CPUStatus, mnemonic: Mnemonic) -> bool {
    match mnemonic {
        Mnemonic::BPL => !p.negative,
        Mnemonic::BMI => p.negative,
        Mnemonic::BVC => !p.overflow,
        Mnemonic::BVS => p.overflow,
        Mnemonic::BCC => !p.carry,
        Mnemonic::BCS => p.carry,
        Mnemonic::BNE => !p.zero,
        _ => p.zero,
    }
}

/// The program counter after a branch at `pc`: where `taken`, it moves by the
/// signed displacement `imm1`; then, taken or not, past the two bytes of the
/// instruction.
pub open spec fn branch_target(pc: u16, taken: bool, imm1: u8) -> u16 {
    if taken {
        wrap16(wrap16(pc + sign_extend(imm1)) + 2)
    } else {
        wrap16(pc + 2)
    }
}

/// The registers after an instruction that sets the program counter.
///
/// A jump goes to the address in its operand bytes, or to the address held
/// there. A call pushes the address of its own last byte and jumps. A return
/// pops an address and goes on after it; a return from an interrupt pops the
/// status first and goes on at the address. A software interrupt disables
/// interrupts and is taken as an interrupt whose return point is two bytes on.
pub open spec fn jump_registers(
    cpu: Registers,
    bus: MmuView,
    info: OpInfo,
    imm1: u8,
    imm2: u8,
) -> Registers {
    let at = word(imm1, imm2);
    match info.mnemonic {
        Mnemonic::JMP => if info.mode == AddrMode::AbsIndirect {
            Registers {
                pc: word(
                    read_value(bus, at as int),
                    read_value(after_read(bus, at as int), wrap16(at + 1) as int),
                ),
                ..cpu
            }
        } else {
            Registers { pc: at, ..cpu }
        },
        Mnemonic::JSR => Registers { s: pushed_s(pushed_s(cpu.s)), pc: at, ..cpu },
        Mnemonic::RTS => Registers {
            s: popped_s(popped_s(cpu.s)),
            pc: wrap16(word(stack_top(bus, cpu.s), stack_top(bus, popped_s(cpu.s))) + 1),
            ..cpu
        },
        Mnemonic::RTI => Registers {
            s: popped_s(popped_s(popped_s(cpu.s))),
            p: status_of_byte(stack_top(bus, cpu.s)),
            pc: word(stack_top(bus, popped_s(cpu.s)), stack_top(bus, popped_s(popped_s(cpu.s)))),
            ..cpu
        },
        Mnemonic::BRK => interrupt_registers(
            Registers { p: CPUStatus { irq_disable: true, ..cpu.p }, ..cpu },
            bus,
            wrap16(cpu.pc + 2),
            pushed_status(CPUStatus { irq_disable: true, ..cpu.p }),
            BRK_VECTOR,
        ),
        _ => cpu,
    }
}

/// Everything on the bus after an instruction that sets the program counter.
pub open spec fn jump_bus(cpu: Registers, bus: MmuView, info: OpInfo, imm1: u8, imm2: u8) -> MmuView {
    let at = word(imm1, imm2);
    match info.mnemonic {
        Mnemonic::JMP => if info.mode == AddrMode::AbsIndirect {
            after_read(after_read(bus, at as int), wrap16(at + 1) as int)
        } else {
            bus
        },
        Mnemonic::JSR => pushed(
            pushed(bus, cpu.s, (wrap16(cpu.pc + 2) / 0x100) as u8),
            pushed_s(cpu.s),
            (wrap16(cpu.pc + 2) % 0x100) as u8,
        ),
        Mnemonic::BRK => interrupt_bus(
            Registers { p: CPUStatus { irq_disable: true, ..cpu.p }, ..cpu },
            bus,
            wrap16(cpu.pc + 2),
            pushed_status(CPUStatus { irq_disable: true, ..cpu.p }),
            BRK_VECTOR,
        ),
        _ => bus,
    }
}

/// The registers after the instruction `info` with the operand bytes `imm1`
/// and `imm2` is carried out; `cpu` and `bus` are the machine after the
/// instruction was fetched, the program counter still at the instruction.
pub open spec fn execute_registers(
    cpu: Registers,
    bus: MmuView,
    info: OpInfo,
    imm1: u8,
    imm2: u8,
) -> Registers {
    let mode = info.mode;
    let val = operand(cpu, bus, mode, imm1, imm2);
    match info.mnemonic.kind() {
        Kind::Read => advanced(read_registers(cpu, info.mnemonic, val), mode),
        Kind::Modify => advanced(
            stored_registers(
                Registers { p: modified_flags(cpu.p, info.mnemonic, val), ..cpu },
                mode,
                modified(cpu.p, info.mnemonic, val),
            ),
            mode,
        ),
        Kind::Store => advanced(stored_registers(cpu, mode, stored_value(cpu, info.mnemonic)), mode),
        Kind::Register => advanced(register_registers(cpu, info.mnemonic), mode),
        Kind::Stack => advanced(stack_registers(cpu, info.mnemonic, stack_top(bus, cpu.s)), mode),
        Kind::Branch => Registers {
            pc: branch_target(cpu.pc, branch_taken(cpu.p, info.mnemonic), imm1),
            ..cpu
        },
        Kind::Jump => jump_registers(cpu, bus, info, imm1, imm2),
    }
}

/// Everything on the bus after the instruction `info` with the operand bytes
/// `imm1` and `imm2` is carried out.
pub open spec fn execute_bus(
    cpu: Registers,
    bus: MmuView,
    info: OpInfo,
    imm1: u8,
    imm2: u8,
) -> MmuView {
    let mode = info.mode;
    let val = operand(cpu, bus, mode, imm1, imm2);
    match info.mnemonic.kind() {
        Kind::Read => after_operand(cpu, bus, mode, imm1, imm2),
        Kind::Modify => stored(
            cpu,
            after_operand(cpu, bus, mode, imm1, imm2),
            mode,
            imm1,
            imm2,
            modified(cpu.p, info.mnemonic, val),
        ),
        Kind::Store => stored(cpu, bus, mode, imm1, imm2, stored_value(cpu, info.mnemonic)),
        Kind::Register => bus,
        Kind::Stack => stack_bus(cpu, bus, info.mnemonic),
        Kind::Branch => bus,
        Kind::Jump => jump_bus(cpu, bus, info, imm1, imm2),
    }
}

// ---------------------------------------------------------------------------
// One instruction, from the fetch on.
// ---------------------------------------------------------------------------
/// The byte at the program counter `pc`: the instruction.
pub open spec fn fetched_op(bus: MmuView, pc: u16) -> u8 {
    read_value(bus, pc as int)
}

/// The byte after the instruction.
pub open spec fn fetched_imm1(bus: MmuView, pc: u16) -> u8 {
    read_value(after_read(bus, pc as int), wrap16(pc + 1) as int)
}

/// The second byte after the instruction.
pub open spec fn fetched_imm2(bus: MmuView, pc: u16) -> u8 {
    read_value(
        after_read(after_read(bus, pc as int), wrap16(pc + 1) as int),
        wrap16(pc + 2) as int,
    )
}

/// What fetching an instruction leaves on the bus: the three bytes from the
/// program counter on were read, one after the other.
pub open spec fn after_fetch(bus: MmuView, pc: u16) -> MmuView {
    after_read(
        after_read(after_read(bus, pc as int), wrap16(pc + 1) as int),
        wrap16(pc + 2) as int,
    )
}

/// The instruction at the program counter, if the byte there stands for one.
pub open spec fn fetched(cpu: Registers, bus: MmuView) -> Option<Op> {
    Op::decode(fetched_op(bus, cpu.pc))
}

/// The registers after one instruction. Where the byte at the program counter
/// stands for none, they are as they were.
pub open spec fn step_registers(cpu: Registers, bus: MmuView) -> Registers {
    match fetched(cpu, bus) {
        Some(op) => execute_registers(
            cpu,
            after_fetch(bus, cpu.pc),
            op.info(),
            fetched_imm1(bus, cpu.pc),
            fetched_imm2(bus, cpu.pc),
        ),
        None => cpu,
    }
}

/// Everything on the bus after one instruction. Where the byte at the program
/// counter stands for none, only the fetch has happened.
pub open spec fn step_bus(cpu: Registers, bus: MmuView) -> MmuView {
    match fetched(cpu, bus) {
        Some(op) => execute_bus(
            cpu,
            after_fetch(bus, cpu.pc),
            op.info(),
            fetched_imm1(bus, cpu.pc),
            fetched_imm2(bus, cpu.pc),
        ),
        None => after_fetch(bus, cpu.pc),
    }
}

/// The cycles that the instruction at the program counter takes, and 0 where
/// there is none.
pub open spec fn step_cycles(cpu: Registers, bus: MmuView) -> u32 {
    match fetched(cpu, bus) {
        Some(op) => op.info().cycles,
        None => 0,
    }
}

// ---------------------------------------------------------------------------
// What holds of the arithmetic, of the stack and of branches.
// ---------------------------------------------------------------------------
/// An addition with carry gives the sum modulo 256; the carry says that the
/// sum was above 255, and the zero flag that the byte that came out is 0.
pub proof fn lemma_add_with_carry(p: CPUStatus, lhs: u8, rhs: u8)
    ensures
        adc_result(p, lhs, rhs) == (lhs + rhs + weight(p.carry, 1)) % 256,
        after_adc(p, lhs, rhs).carry <==> lhs + rhs + weight(p.carry, 1) > 255,
        after_adc(p, lhs, rhs).zero <==> adc_result(p, lhs, rhs) == 0,
        after_adc(p, lhs, rhs).negative <==> adc_result(p, lhs, rhs) >= 128,
{
    reveal(wrap8);
    crate::status::lemma_negative_is_upper_half(adc_result(p, lhs, rhs));
}

/// Subtracting with carry is adding the complement with carry: the same byte
/// comes out, and the same flags.
pub proof fn lemma_subtract_is_add_of_complement(p: CPUStatus, lhs: u8, rhs: u8)
    ensures
        sbc_result(p, lhs, rhs) == adc_result(p, lhs, rhs ^ 0xFF),
        after_sbc(p, lhs, rhs) == after_adc(p, lhs, rhs ^ 0xFF),
{
    reveal(wrap8);
    assert(rhs ^ 0xFF == 255 - rhs) by (bit_vector);
    let result: u8 = sbc_result(p, lhs, rhs);
    assert(((lhs ^ result) & (lhs ^ rhs) & 0x80 != 0) == ((lhs ^ result) & ((rhs ^ 0xFF) ^ result)
        & 0x80 != 0)) by (bit_vector);
}

/// A branch that is taken moves the program counter by its signed
/// displacement, counted from the end of the instruction; one that is not
/// taken moves it past the instruction.
pub proof fn lemma_branch_displacement(pc: u16, imm1: u8)
    ensures
        branch_target(pc, true, imm1) == (pc + 2 + signed_value(imm1)) % 0x10000,
        branch_target(pc, false, imm1) == (pc + 2) % 0x10000,
{
    reveal(wrap16);
}

/// The stack pointer after `n` pushes.
pub open spec fn s_after_pushes(s: u8, n: nat) -> u8
    decreases n,
{
    if n == 0 {
        s
    } else {
        pushed_s(s_after_pushes(s, (n - 1) as nat))
    }
}

/// The stack pointer after `n` pops.
pub open spec fn s_after_pops(s: u8, n: nat) -> u8
    decreases n,
{
    if n == 0 {
        s
    } else {
        s_after_pops(popped_s(s), (n - 1) as nat)
    }
}

/// Everything on the bus after each of `vals` is pushed in turn, the first
/// with the stack pointer at `s`.
pub open spec fn pushes(bus: MmuView, s: u8, vals: Seq<u8>) -> MmuView
    decreases vals.len(),
{
    if vals.len() == 0 {
        bus
    } else {
        pushed(
            pushes(bus, s, vals.drop_last()),
            s_after_pushes(s, (vals.len() - 1) as nat),
            vals.last(),
        )
    }
}

/// The bytes that `n` pops return, in the order in which they come, the
/// first with the stack pointer at `s`.
pub open spec fn pops(bus: MmuView, s: u8, n: nat) -> Seq<u8>
    decreases n,
{
    if n == 0 {
        Seq::empty()
    } else {
        seq![stack_top(bus, s)] + pops(bus, popped_s(s), (n - 1) as nat)
    }
}

proof fn lemma_mod_add(a: int, b: int)
    ensures
        ((a % 0x100) + b) % 0x100 == (a + b) % 0x100,
{
}

proof fn lemma_s_after_pushes(s: u8, n: nat)
    ensures
        s_after_pushes(s, n) == (s - n) % 0x100,
    decreases n,
{
    reveal(wrap8);
    if n > 0 {
        lemma_s_after_pushes(s, (n - 1) as nat);
    }
}

proof fn lemma_s_after_pops(s: u8, n: nat)
    ensures
        s_after_pops(s, n) == (s + n) % 0x100,
    decreases n,
{
    reveal(wrap8);
    if n > 0 {
        lemma_s_after_pops(popped_s(s), (n - 1) as nat);
    }
}

proof fn lemma_pushes_fill_the_page(bus: MmuView, s: u8, vals: Seq<u8>)
    requires
        bus.ram.len() == 0x800,
        vals.len() <= 0x100,
    ensures
        pushes(bus, s, vals).ram.len() == 0x800,
        forall|k: int|
            0 <= k < vals.len() ==> #[trigger] pushes(bus, s, vals).ram[0x100 + (s - k) % 0x100]
                == vals[k],
    decreases vals.len(),
{
    reveal(after_write);
    if vals.len() > 0 {
        let before = vals.drop_last();
        lemma_pushes_fill_the_page(bus, s, before);
        lemma_s_after_pushes(s, (vals.len() - 1) as nat);
        let at = 0x100 + (s - (vals.len() - 1)) % 0x100;
        assert forall|k: int| 0 <= k < vals.len() implies #[trigger] pushes(bus, s, vals).ram[0x100
            + (s - k) % 0x100] == vals[k] by {
            if k < vals.len() - 1 {
                assert(before[k] == vals[k]);
                assert(0x100 + (s - k) % 0x100 != at);
            }
        }
    }
}

proof fn lemma_pops_read_the_page(bus: MmuView, s: u8, n: nat)
    requires
        bus.ram.len() == 0x800,
    ensures
        pops(bus, s, n).len() == n,
        forall|j: int|
            0 <= j < n ==> #[trigger] pops(bus, s, n)[j] == bus.ram[0x100 + (s + 1 + j) % 0x100],
    decreases n,
{
    reveal(read_value);
    reveal(wrap8);
    if n > 0 {
        lemma_pops_read_the_page(bus, popped_s(s), (n - 1) as nat);
        assert forall|j: int| 0 <= j < n implies #[trigger] pops(bus, s, n)[j] == bus.ram[0x100 + (s
            + 1 + j) % 0x100] by {
            if j > 0 {
                assert(pops(bus, s, n)[j] == pops(bus, popped_s(s), (n - 1) as nat)[j - 1]);
            }
        }
    }
}

/// What was pushed is popped again, the last byte first, and the stack
/// pointer stands where it stood. The stack page holds 256 bytes: of more, the
/// first are written over.
pub proof fn lemma_stack_round_trip(bus: MmuView, s: u8, vals: Seq<u8>)
    requires
        bus.ram.len() == 0x800,
        vals.len() <= 0x100,
    ensures
        pops(pushes(bus, s, vals), s_after_pushes(s, vals.len()), vals.len()) == vals.reverse(),
        s_after_pops(s_after_pushes(s, vals.len()), vals.len()) == s,
{
    let n = vals.len();
    let low = s_after_pushes(s, n);
    let filled = pushes(bus, s, vals);
    lemma_s_after_pushes(s, n);
    lemma_s_after_pops(low, n);
    lemma_pushes_fill_the_page(bus, s, vals);
    lemma_pops_read_the_page(filled, low, n);
    let got = pops(filled, low, n);
    assert forall|j: int| 0 <= j < n implies got[j] == vals.reverse()[j] by {
        let k = n - 1 - j;
        lemma_mod_add(s - n, 1 + j);
        assert((low + 1 + j) % 0x100 == (s - k) % 0x100);
        assert(got[j] == filled.ram[0x100 + (low + 1 + j) % 0x100]);
        assert(filled.ram[0x100 + (s - k) % 0x100] == vals[k]);
    }
    assert(got =~= vals.reverse());
}

} // verus!
