//! The processor: its registers, its arithmetic, the stack, and the execution
//! of one instruction.

use crate::bus_model::after_read;
use crate::cpu_model::{BRK_VECTOR, NMI_VECTOR, Registers, STACK_PAGE, adc_result, advanced,
    jump_bus, jump_registers, read_registers, register_registers, branch_taken, after_adc,
    after_compare, after_operand, after_rol, after_ror, after_sbc, after_shift_left,
    after_shift_right, branch_target, lemma_subtract_is_add_of_complement, execute_bus, execute_registers, interrupt_bus,
    interrupt_registers, nmi_bus, nmi_registers, operand, popped_s, pushed, pushed_s,
    pushed_status, rol_result, ror_result, sbc_result, stack_top, step_bus, step_cycles,
    step_registers, fetched, stored, stored_registers, wrap16, wrap8};
use crate::integer_casting::CastWithNegation;
use crate::mmu::NESMmu;
use crate::opcode::{AddrMode, Kind, Mnemonic, Op, OpInfo, Opcode, lemma_pack_unpacks};
use crate::status::{CPUStatus, status_of_byte, with_zn};
use vstd::prelude::*;

verus! {

pub struct NESCpu {
    a: u8,
    x: u8,
    y: u8,
    s: u8,
    pc: u16,
    p: CPUStatus,
}

impl View for NESCpu {
    type V = Registers;

    closed spec fn view(&self) -> Registers {
        Registers { a: self.a, x: self.x, y: self.y, s: self.s, pc: self.pc, p: self.p }
    }
}

proof fn lemma_shifts(val: u8, carry: u8)
    by (bit_vector)
    requires
        carry <= 1,
    ensures
        val >= 128 ==> val << 1 == val * 2 - 256,
        val < 128 ==> val << 1 == val * 2,
        val >> 1 == val / 2,
        val >= 128 ==> (val << 1) | carry == val * 2 - 256 + carry,
        val < 128 ==> (val << 1) | carry == val * 2 + carry,
        (val >> 1) | (carry << 7) == val / 2 + 128 * carry,
{
}

/// `v` moved on by `by`, round the end of the address space.
fn next16(v: u16, by: u16) -> (r: u16)
    ensures
        r == wrap16(v + by),
{
    proof {
        reveal(wrap16);
    }
    v.wrapping_add(by)
}

impl NESCpu {
    /// A processor with its registers cleared, at the start of the program
    /// banks.
    pub fn new() -> (r: NESCpu)
        ensures
            r@ == (Registers { a: 0, x: 0, y: 0, s: 0, pc: 0x8000, p: CPUStatus::cleared() }),
    {
        NESCpu { a: 0, x: 0, y: 0, s: 0, pc: 0x8000, p: CPUStatus::new() }
    }

    pub fn a(&self) -> (r: u8)
        ensures
            r == self@.a,
    {
        self.a
    }

    pub fn x(&self) -> (r: u8)
        ensures
            r == self@.x,
    {
        self.x
    }

    pub fn y(&self) -> (r: u8)
        ensures
            r == self@.y,
    {
        self.y
    }

    pub fn s(&self) -> (r: u8)
        ensures
            r == self@.s,
    {
        self.s
    }

    pub fn pc(&self) -> (r: u16)
        ensures
            r == self@.pc,
    {
        self.pc
    }

    pub fn p(&self) -> (r: CPUStatus)
        ensures
            r == self@.p,
    {
        self.p
    }

    /// Shifts `val` one bit to the left.
    pub fn shift_left(&mut self, val: u8) -> (result: u8)
        ensures
            result == wrap8(val * 2),
            final(self)@ == (Registers { p: after_shift_left(old(self)@.p, val), ..old(self)@ }),
    {
        proof {
            reveal(wrap8);
        }
        let result: u8 = val << 1;
        proof {
            lemma_shifts(val, 0);
        }
        self.p.set_carry((val & 0x80) != 0);
        self.p.set_zn(result);
        result
    }

    /// Shifts `val` one bit to the right.
    pub fn shift_right(&mut self, val: u8) -> (result: u8)
        ensures
            result == val / 2,
            final(self)@ == (Registers { p: after_shift_right(old(self)@.p, val), ..old(self)@ }),
    {
        let result: u8 = val >> 1;
        proof {
            lemma_shifts(val, 0);
        }
        self.p.set_carry((val & 1) != 0);
        self.p.set_negative(false);
        self.p.set_zero(result == 0);
        result
    }

    /// Rotates `val` one bit to the left through the carry.
    pub fn rol(&mut self, val: u8) -> (result: u8)
        ensures
            result == rol_result(old(self)@.p, val),
            final(self)@ == (Registers { p: after_rol(old(self)@.p, val), ..old(self)@ }),
    {
        proof {
            reveal(wrap8);
        }
        let carry: u8 = if self.p.carry {
            1
        } else {
            0
        };
        let result: u8 = (val << 1) | carry;
        proof {
            lemma_shifts(val, carry);
        }
        self.p.set_carry((val & 0x80) != 0);
        self.p.set_zn(result);
        result
    }

    /// Rotates `val` one bit to the right through the carry.
    pub fn ror(&mut self, val: u8) -> (result: u8)
        ensures
            result == ror_result(old(self)@.p, val),
            final(self)@ == (Registers { p: after_ror(old(self)@.p, val), ..old(self)@ }),
    {
        let carry: u8 = if self.p.carry {
            1
        } else {
            0
        };
        let result: u8 = (val >> 1) | (carry << 7);
        proof {
            lemma_shifts(val, carry);
        }
        self.p.set_carry((val & 0x1) != 0);
        self.p.set_zn(result);
        result
    }

    pub fn set_pc(&mut self, val: u16)
        ensures
            final(self)@ == (Registers { pc: val, ..old(self)@ }),
    {
        self.pc = val;
    }

    /// Loads the accumulator.
    pub fn set_a(&mut self, val: u8)
        ensures
            final(self)@ == (Registers { a: val, p: with_zn(old(self)@.p, val), ..old(self)@ }),
    {
        self.a = val;
        self.p.set_zn(val);
    }

    /// Loads the X index.
    pub fn set_x(&mut self, val: u8)
        ensures
            final(self)@ == (Registers { x: val, p: with_zn(old(self)@.p, val), ..old(self)@ }),
    {
        self.x = val;
        self.p.set_zn(val);
    }

    /// Loads the Y index.
    pub fn set_y(&mut self, val: u8)
        ensures
            final(self)@ == (Registers { y: val, p: with_zn(old(self)@.p, val), ..old(self)@ }),
    {
        self.y = val;
        self.p.set_zn(val);
    }

    /// Sets the stack pointer.
    pub fn set_s(&mut self, val: u8)
        ensures
            final(self)@ == (Registers { s: val, ..old(self)@ }),
    {
        self.s = val;
    }

    /// Sets the flags from a status byte.
    pub fn set_p_u8(&mut self, val: u8)
        ensures
            final(self)@ == (Registers { p: status_of_byte(val), ..old(self)@ }),
    {
        self.p = CPUStatus::from(val);
    }

    pub fn set_p(&mut self, val: CPUStatus)
        ensures
            final(self)@ == (Registers { p: val, ..old(self)@ }),
    {
        self.p = val;
    }

    /// Moves the accumulator on by `val`, round the end of the byte range.
    pub fn offset_a(&mut self, val: u8)
        ensures
            final(self)@ == (Registers {
                a: wrap8(old(self)@.a + val),
                p: with_zn(old(self)@.p, wrap8(old(self)@.a + val)),
                ..old(self)@
            }),
    {
        proof {
            reveal(wrap8);
        }
        self.a = self.a.wrapping_add(val);
        self.p.set_zn(self.a);
    }

    /// Moves the X index on by `val`, round the end of the byte range.
    pub fn offset_x(&mut self, val: u8)
        ensures
            final(self)@ == (Registers {
                x: wrap8(old(self)@.x + val),
                p: with_zn(old(self)@.p, wrap8(old(self)@.x + val)),
                ..old(self)@
            }),
    {
        proof {
            reveal(wrap8);
        }
        self.x = self.x.wrapping_add(val);
        self.p.set_zn(self.x);
    }

    /// Moves the Y index on by `val`, round the end of the byte range.
    pub fn offset_y(&mut self, val: u8)
        ensures
            final(self)@ == (Registers {
                y: wrap8(old(self)@.y + val),
                p: with_zn(old(self)@.p, wrap8(old(self)@.y + val)),
                ..old(self)@
            }),
    {
        proof {
            reveal(wrap8);
        }
        self.y = self.y.wrapping_add(val);
        self.p.set_zn(self.y);
    }

    /// Moves the stack pointer on by `val`, round the end of the stack page.
    pub fn offset_s(&mut self, val: u8)
        ensures
            final(self)@ == (Registers { s: wrap8(old(self)@.s + val), ..old(self)@ }),
    {
        proof {
            reveal(wrap8);
        }
        self.s = self.s.wrapping_add(val);
    }

    /// Moves the program counter on by `val`, round the end of the address
    /// space.
    pub fn offset_pc(&mut self, val: u16)
        ensures
            final(self)@ == (Registers { pc: wrap16(old(self)@.pc + val), ..old(self)@ }),
    {
        proof {
            reveal(wrap16);
        }
        self.pc = self.pc.wrapping_add(val);
    }

    /// Adds `rhs` and the carry to `lhs`.
    pub fn add_with_carry(&mut self, lhs: u8, rhs: u8) -> (result: u8)
        ensures
            result == adc_result(old(self)@.p, lhs, rhs),
            final(self)@ == (Registers { p: after_adc(old(self)@.p, lhs, rhs), ..old(self)@ }),
    {
        proof {
            reveal(wrap8);
        }
        let carry: u16 = if self.p.carry {
            1
        } else {
            0
        };
        let sum: u16 = (lhs as u16) + (rhs as u16) + carry;
        let result: u8 = (sum % 0x100) as u8;
        self.p.set_zn(result);
        self.p.set_overflow(((lhs ^ result) & (rhs ^ result) & 0x80) != 0);
        self.p.set_carry(sum > 255);
        result
    }

    /// Adds `rhs` to `lhs`; the carry says whether the sum left the byte range.
    pub fn add(&mut self, lhs: u8, rhs: u8) -> (val: u8)
        ensures
            val == wrap8(lhs + rhs),
            final(self)@ == (Registers {
                p: CPUStatus { carry: lhs + rhs > 255, ..with_zn(old(self)@.p, val) },
                ..old(self)@
            }),
    {
        proof {
            reveal(wrap8);
        }
        let val: u8 = self.add_no_carry(lhs, rhs);
        self.p.set_carry(val < lhs);
        val
    }

    /// Adds `rhs` to `lhs` and leaves the carry as it is.
    pub fn add_no_carry(&mut self, lhs: u8, rhs: u8) -> (val: u8)
        ensures
            val == wrap8(lhs + rhs),
            final(self)@ == (Registers { p: with_zn(old(self)@.p, val), ..old(self)@ }),
    {
        proof {
            reveal(wrap8);
        }
        let val: u8 = lhs.wrapping_add(rhs);
        self.p.set_zn(val);
        val
    }

    /// Takes `rhs` from `lhs`, and one more where the carry is clear.
    pub fn subtract_with_carry(&mut self, lhs: u8, rhs: u8) -> (result: u8)
        ensures
            result == sbc_result(old(self)@.p, lhs, rhs),
            final(self)@ == (Registers { p: after_sbc(old(self)@.p, lhs, rhs), ..old(self)@ }),
    {
        proof {
            lemma_subtract_is_add_of_complement(self.p, lhs, rhs);
        }
        self.add_with_carry(lhs, rhs ^ 0xFF)
    }

    /// Compares `lhs` with `rhs`.
    pub fn subtract(&mut self, lhs: u8, rhs: u8) -> (val: u8)
        ensures
            val == wrap8(lhs - rhs),
            final(self)@ == (Registers { p: after_compare(old(self)@.p, lhs, rhs), ..old(self)@ }),
    {
        let val: u8 = self.subtract_no_carry(lhs, rhs);
        self.p.set_carry(lhs >= rhs);
        val
    }

    /// Takes `rhs` from `lhs` and leaves the carry as it is.
    pub fn subtract_no_carry(&mut self, lhs: u8, rhs: u8) -> (val: u8)
        ensures
            val == wrap8(lhs - rhs),
            final(self)@ == (Registers { p: with_zn(old(self)@.p, val), ..old(self)@ }),
    {
        proof {
            reveal(wrap8);
        }
        let val: u8 = lhs.wrapping_sub(rhs);
        self.p.set_zn(val);
        val
    }

    pub fn and(&mut self, lhs: u8, rhs: u8) -> (val: u8)
        ensures
            val == lhs & rhs,
            final(self)@ == (Registers { p: with_zn(old(self)@.p, val), ..old(self)@ }),
    {
        let val: u8 = lhs & rhs;
        self.p.set_zn(val);
        val
    }

    pub fn or(&mut self, lhs: u8, rhs: u8) -> (val: u8)
        ensures
            val == lhs | rhs,
            final(self)@ == (Registers { p: with_zn(old(self)@.p, val), ..old(self)@ }),
    {
        let val: u8 = lhs | rhs;
        self.p.set_zn(val);
        val
    }

    pub fn eor(&mut self, lhs: u8, rhs: u8) -> (val: u8)
        ensures
            val == lhs ^ rhs,
            final(self)@ == (Registers { p: with_zn(old(self)@.p, val), ..old(self)@ }),
    {
        let val: u8 = lhs ^ rhs;
        self.p.set_zn(val);
        val
    }

    pub fn push_stack(&mut self, mmu: &mut NESMmu, val: u8)
        requires
            old(mmu).wf(),
        ensures
            final(mmu).wf(),
            final(self)@ == (Registers { s: pushed_s(old(self)@.s), ..old(self)@ }),
            final(mmu)@ == pushed(old(mmu)@, old(self)@.s, val),
    {
        mmu.write_mem(STACK_PAGE + self.s as u16, val);
        self.offset_s(0xFF);
    }

    pub fn pop_stack(&mut self, mmu: &mut NESMmu) -> (val: u8)
        requires
            old(mmu).wf(),
        ensures
            final(mmu).wf(),
            val == stack_top(old(mmu)@, old(self)@.s),
            final(self)@ == (Registers { s: popped_s(old(self)@.s), ..old(self)@ }),
            final(mmu)@ == old(mmu)@,
    {
        proof {
            reveal(after_read);
        }
        self.offset_s(1);
        let val: u8 = mmu.read_mem(STACK_PAGE + self.s as u16);
        val
    }

    fn enter_interrupt(&mut self, mmu: &mut NESMmu, return_point: u16, status: u8, vector: u16)
        requires
            old(mmu).wf(),
            vector < 0xFFFF,
        ensures
            final(mmu).wf(),
            final(self)@ == interrupt_registers(
                old(self)@,
                old(mmu)@,
                return_point,
                status,
                vector,
            ),
            final(mmu)@ == interrupt_bus(old(self)@, old(mmu)@, return_point, status, vector),
    {
        self.push_stack(mmu, (return_point / 0x100) as u8);
        self.push_stack(mmu, (return_point % 0x100) as u8);
        self.push_stack(mmu, status);
        let addr_lo: u16 = mmu.read_absolute(vector) as u16;
        let addr_hi: u16 = mmu.read_absolute(vector + 1) as u16;
        self.pc = addr_lo + 0x100 * addr_hi;
    }

    /// Takes a non-maskable interrupt.
    pub fn do_nmi(&mut self, mmu: &mut NESMmu)
        requires
            old(mmu).wf(),
        ensures
            final(mmu).wf(),
            final(self)@ == nmi_registers(old(self)@, old(mmu)@),
            final(mmu)@ == nmi_bus(old(self)@, old(mmu)@),
    {
        let return_point: u16 = self.pc;
        let p: u8 = self.p.to_u8();
        self.enter_interrupt(mmu, return_point, p, NMI_VECTOR);
    }

    /// The cycles that `op` takes.
    pub fn get_op_cycles(&self, op: &Op) -> (r: u32)
        ensures
            r == op.info().cycles,
    {
        op.cycles()
    }

    fn status_to_push(&self) -> (r: u8)
        ensures
            r == pushed_status(self@.p),
    {
        let mut p: CPUStatus = self.p;
        p.set_bit_4(true);
        p.set_bit_5(true);
        p.to_u8()
    }

    fn load(&self, mmu: &mut NESMmu, mode: AddrMode, imm1: u8, imm2: u8) -> (val: u8)
        requires
            old(mmu).wf(),
        ensures
            final(mmu).wf(),
            val == operand(self@, old(mmu)@, mode, imm1, imm2),
            final(mmu)@ == after_operand(self@, old(mmu)@, mode, imm1, imm2),
    {
        proof {
            reveal(operand);
            reveal(after_operand);
            reveal(after_read);
        }
        let abs_addr: u16 = (imm1 as u16) + 0x100 * (imm2 as u16);
        match mode {
            AddrMode::ZeroPage => mmu.read_zero_page(imm1),
            AddrMode::ZeroPageX => mmu.read_zero_paged_indexed_x(imm1, self.x),
            AddrMode::ZeroPageY => mmu.read_zero_paged_indexed_y(imm1, self.y),
            AddrMode::Absolute => mmu.read_absolute(abs_addr),
            AddrMode::AbsoluteX => mmu.read_absolute_indexed_x(abs_addr, self.x),
            AddrMode::AbsoluteY => mmu.read_absolute_indexed_y(abs_addr, self.y),
            AddrMode::IndirectX => mmu.read_indexed_indirect_x(imm1, self.x),
            AddrMode::IndirectY => mmu.read_indexed_indirect_y(imm1, self.y),
            AddrMode::Accumulator => self.a,
            _ => imm1,
        }
    }

    fn save(&mut self, mmu: &mut NESMmu, mode: AddrMode, imm1: u8, imm2: u8, val: u8)
        requires
            old(mmu).wf(),
        ensures
            final(mmu).wf(),
            final(self)@ == stored_registers(old(self)@, mode, val),
            final(mmu)@ == stored(old(self)@, old(mmu)@, mode, imm1, imm2, val),
    {
        proof {
            reveal(stored);
        }
        let abs_addr: u16 = (imm1 as u16) + 0x100 * (imm2 as u16);
        match mode {
            AddrMode::ZeroPage => mmu.write_zero_page(imm1, val),
            AddrMode::ZeroPageX => mmu.write_zero_paged_indexed_x(imm1, self.x, val),
            AddrMode::ZeroPageY => mmu.write_zero_paged_indexed_y(imm1, self.y, val),
            AddrMode::Absolute => mmu.write_absolute(abs_addr, val),
            AddrMode::AbsoluteX => mmu.write_absolute_indexed_x(abs_addr, self.x, val),
            AddrMode::AbsoluteY => mmu.write_absolute_indexed_y(abs_addr, self.y, val),
            AddrMode::IndirectX => mmu.write_indexed_indirect_x(imm1, self.x, val),
            AddrMode::IndirectY => mmu.write_indexed_indirect_y(imm1, self.y, val),
            AddrMode::Accumulator => {
                self.a = val;
            },
            _ => {},
        }
    }

    fn logic(&mut self, mnemonic: Mnemonic, val: u8)
        requires
            mnemonic == Mnemonic::ORA || mnemonic == Mnemonic::AND || mnemonic == Mnemonic::EOR
                || mnemonic == Mnemonic::BIT,
        ensures
            final(self)@ == read_registers(old(self)@, mnemonic, val),
    {
        let a: u8 = self.a;
        match mnemonic {
            Mnemonic::ORA => {
                self.a = self.or(a, val);
            },
            Mnemonic::AND => {
                self.a = self.and(a, val);
            },
            Mnemonic::EOR => {
                self.a = self.eor(a, val);
            },
            _ => {
                let _ = self.and(a, val);
                self.p.set_overflow((val & 0x40) != 0);
                self.p.set_negative((val & 0x80) != 0);
            },
        }
    }

    fn arithmetic(&mut self, mnemonic: Mnemonic, val: u8)
        requires
            mnemonic == Mnemonic::ADC || mnemonic == Mnemonic::SBC || mnemonic == Mnemonic::CMP
                || mnemonic == Mnemonic::CPX || mnemonic == Mnemonic::CPY,
        ensures
            final(self)@ == read_registers(old(self)@, mnemonic, val),
    {
        match mnemonic {
            Mnemonic::ADC => {
                let a: u8 = self.a;
                self.a = self.add_with_carry(a, val);
            },
            Mnemonic::SBC => {
                let a: u8 = self.a;
                self.a = self.subtract_with_carry(a, val);
            },
            Mnemonic::CMP => {
                let a: u8 = self.a;
                let _ = self.subtract(a, val);
            },
            Mnemonic::CPX => {
                let x: u8 = self.x;
                let _ = self.subtract(x, val);
            },
            _ => {
                let y: u8 = self.y;
                let _ = self.subtract(y, val);
            },
        }
    }

    fn load_register(&mut self, mnemonic: Mnemonic, val: u8)
        requires
            mnemonic == Mnemonic::LDA || mnemonic == Mnemonic::LDX || mnemonic == Mnemonic::LDY,
        ensures
            final(self)@ == read_registers(old(self)@, mnemonic, val),
    {
        match mnemonic {
            Mnemonic::LDA => {
                self.set_a(val);
            },
            Mnemonic::LDX => {
                self.set_x(val);
            },
            _ => {
                self.set_y(val);
            },
        }
    }

    fn execute_read(&mut self, mmu: &mut NESMmu, info: OpInfo, imm1: u8, imm2: u8)
        requires
            old(mmu).wf(),
            info.mnemonic.kind() == Kind::Read,
        ensures
            final(mmu).wf(),
            final(self)@ == execute_registers(old(self)@, old(mmu)@, info, imm1, imm2),
            final(mmu)@ == execute_bus(old(self)@, old(mmu)@, info, imm1, imm2),
    {
        let val: u8 = self.load(mmu, info.mode, imm1, imm2);
        match info.mnemonic {
            Mnemonic::ORA | Mnemonic::AND | Mnemonic::EOR | Mnemonic::BIT => {
                self.logic(info.mnemonic, val);
            },
            Mnemonic::LDA | Mnemonic::LDX | Mnemonic::LDY => {
                self.load_register(info.mnemonic, val);
            },
            _ => {
                self.arithmetic(info.mnemonic, val);
            },
        }
        self.offset_pc(info.mode.len());
    }

    fn execute_modify(&mut self, mmu: &mut NESMmu, info: OpInfo, imm1: u8, imm2: u8)
        requires
            old(mmu).wf(),
            info.mnemonic.kind() == Kind::Modify,
        ensures
            final(mmu).wf(),
            final(self)@ == execute_registers(old(self)@, old(mmu)@, info, imm1, imm2),
            final(mmu)@ == execute_bus(old(self)@, old(mmu)@, info, imm1, imm2),
    {
        let mut val: u8 = self.load(mmu, info.mode, imm1, imm2);
        match info.mnemonic {
            Mnemonic::ASL => {
                val = self.shift_left(val);
            },
            Mnemonic::LSR => {
                val = self.shift_right(val);
            },
            Mnemonic::ROL => {
                val = self.rol(val);
            },
            Mnemonic::ROR => {
                val = self.ror(val);
            },
            Mnemonic::INC => {
                val = self.add_no_carry(val, 1);
            },
            Mnemonic::DEC => {
                val = self.subtract_no_carry(val, 1);
            },
            _ => {},
        }
        proof {
            reveal(stored);
        }
        self.save(mmu, info.mode, imm1, imm2, val);
        self.offset_pc(info.mode.len());
    }

    fn execute_store(&mut self, mmu: &mut NESMmu, info: OpInfo, imm1: u8, imm2: u8)
        requires
            old(mmu).wf(),
            info.mnemonic.kind() == Kind::Store,
        ensures
            final(mmu).wf(),
            final(self)@ == execute_registers(old(self)@, old(mmu)@, info, imm1, imm2),
            final(mmu)@ == execute_bus(old(self)@, old(mmu)@, info, imm1, imm2),
    {
        let val: u8 = match info.mnemonic {
            Mnemonic::STA => self.a,
            Mnemonic::STX => self.x,
            _ => self.y,
        };
        self.save(mmu, info.mode, imm1, imm2, val);
        self.offset_pc(info.mode.len());
    }

    fn transfer(&mut self, mnemonic: Mnemonic)
        requires
            mnemonic == Mnemonic::TAX || mnemonic == Mnemonic::TAY || mnemonic == Mnemonic::TXA
                || mnemonic == Mnemonic::TYA || mnemonic == Mnemonic::TSX || mnemonic
                == Mnemonic::TXS,
        ensures
            final(self)@ == register_registers(old(self)@, mnemonic),
    {
        match mnemonic {
            Mnemonic::TAX => {
                let a: u8 = self.a;
                self.set_x(a);
            },
            Mnemonic::TAY => {
                let a: u8 = self.a;
                self.set_y(a);
            },
            Mnemonic::TXA => {
                let x: u8 = self.x;
                self.set_a(x);
            },
            Mnemonic::TYA => {
                let y: u8 = self.y;
                self.set_a(y);
            },
            Mnemonic::TSX => {
                let s: u8 = self.s;
                self.set_x(s);
            },
            _ => {
                self.s = self.x;
            },
        }
    }

    fn count(&mut self, mnemonic: Mnemonic)
        requires
            mnemonic == Mnemonic::INX || mnemonic == Mnemonic::INY || mnemonic == Mnemonic::DEX
                || mnemonic == Mnemonic::DEY,
        ensures
            final(self)@ == register_registers(old(self)@, mnemonic),
    {
        match mnemonic {
            Mnemonic::INX => {
                self.offset_x(1);
            },
            Mnemonic::INY => {
                self.offset_y(1);
            },
            Mnemonic::DEX => {
                self.offset_x(0xFF);
            },
            _ => {
                self.offset_y(0xFF);
            },
        }
    }

    fn flag(&mut self, mnemonic: Mnemonic)
        requires
            mnemonic == Mnemonic::CLC || mnemonic == Mnemonic::SEC || mnemonic == Mnemonic::CLI
                || mnemonic == Mnemonic::SEI || mnemonic == Mnemonic::CLD || mnemonic
                == Mnemonic::SED || mnemonic == Mnemonic::CLV,
        ensures
            final(self)@ == register_registers(old(self)@, mnemonic),
    {
        match mnemonic {
            Mnemonic::CLC => {
                self.p.set_carry(false);
            },
            Mnemonic::SEC => {
                self.p.set_carry(true);
            },
            Mnemonic::CLI => {
                self.p.set_irq_disable(false);
            },
            Mnemonic::SEI => {
                self.p.set_irq_disable(true);
            },
            Mnemonic::CLD => {
                self.p.set_decimal(false);
            },
            Mnemonic::SED => {
                self.p.set_decimal(true);
            },
            _ => {
                self.p.set_overflow(false);
            },
        }
    }

    fn execute_register(&mut self, info: OpInfo)
        requires
            info.mnemonic.kind() == Kind::Register,
        ensures
            final(self)@ == advanced(register_registers(old(self)@, info.mnemonic), info.mode),
    {
        match info.mnemonic {
            Mnemonic::TAX
            | Mnemonic::TAY
            | Mnemonic::TXA
            | Mnemonic::TYA
            | Mnemonic::TSX
            | Mnemonic::TXS => {
                self.transfer(info.mnemonic);
            },
            Mnemonic::INX | Mnemonic::INY | Mnemonic::DEX | Mnemonic::DEY => {
                self.count(info.mnemonic);
            },
            Mnemonic::NOP => {},
            _ => {
                self.flag(info.mnemonic);
            },
        }
        self.offset_pc(info.mode.len());
    }

    fn execute_stack(&mut self, mmu: &mut NESMmu, info: OpInfo, imm1: u8, imm2: u8)
        requires
            old(mmu).wf(),
            info.mnemonic.kind() == Kind::Stack,
        ensures
            final(mmu).wf(),
            final(self)@ == execute_registers(old(self)@, old(mmu)@, info, imm1, imm2),
            final(mmu)@ == execute_bus(old(self)@, old(mmu)@, info, imm1, imm2),
    {
        match info.mnemonic {
            Mnemonic::PHA => {
                let a: u8 = self.a;
                self.push_stack(mmu, a);
            },
            Mnemonic::PHP => {
                let p: u8 = self.status_to_push();
                self.push_stack(mmu, p);
            },
            Mnemonic::PLA => {
                let val: u8 = self.pop_stack(mmu);
                self.set_a(val);
            },
            Mnemonic::PLP => {
                let val: u8 = self.pop_stack(mmu);
                self.p = CPUStatus::from(val);
            },
            _ => {},
        }
        self.offset_pc(info.mode.len());
    }

    fn execute_branch(&mut self, info: OpInfo, imm1: u8)
        requires
            info.mnemonic.kind() == Kind::Branch,
        ensures
            final(self)@ == (Registers {
                pc: branch_target(
                    old(self)@.pc,
                    branch_taken(old(self)@.p, info.mnemonic),
                    imm1,
                ),
                ..old(self)@
            }),
    {
        let taken: bool = match info.mnemonic {
            Mnemonic::BPL => !self.p.negative,
            Mnemonic::BMI => self.p.negative,
            Mnemonic::BVC => !self.p.overflow,
            Mnemonic::BVS => self.p.overflow,
            Mnemonic::BCC => !self.p.carry,
            Mnemonic::BCS => self.p.carry,
            Mnemonic::BNE => !self.p.zero,
            _ => self.p.zero,
        };
        if taken {
            self.offset_pc(imm1.cast_with_neg());
        }
        self.offset_pc(2);
    }

    fn jump(&mut self, mmu: &mut NESMmu, info: OpInfo, imm1: u8, imm2: u8)
        requires
            old(mmu).wf(),
            info.mnemonic == Mnemonic::JMP,
        ensures
            final(mmu).wf(),
            final(self)@ == jump_registers(old(self)@, old(mmu)@, info, imm1, imm2),
            final(mmu)@ == jump_bus(old(self)@, old(mmu)@, info, imm1, imm2),
    {
        let abs_addr: u16 = (imm1 as u16) + 0x100 * (imm2 as u16);
        match info.mode {
            AddrMode::AbsIndirect => {
                let lo: u16 = mmu.read_absolute(abs_addr) as u16;
                let hi: u16 = mmu.read_absolute(next16(abs_addr, 1)) as u16;
                self.pc = lo + 0x100 * hi;
            },
            _ => {
                self.pc = abs_addr;
            },
        }
    }

    fn call(&mut self, mmu: &mut NESMmu, info: OpInfo, imm1: u8, imm2: u8)
        requires
            old(mmu).wf(),
            info.mnemonic == Mnemonic::JSR,
        ensures
            final(mmu).wf(),
            final(self)@ == jump_registers(old(self)@, old(mmu)@, info, imm1, imm2),
            final(mmu)@ == jump_bus(old(self)@, old(mmu)@, info, imm1, imm2),
    {
        let return_point: u16 = next16(self.pc, 2);
        self.push_stack(mmu, (return_point / 0x100) as u8);
        self.push_stack(mmu, (return_point % 0x100) as u8);
        self.pc = (imm1 as u16) + 0x100 * (imm2 as u16);
    }

    fn come_back(&mut self, mmu: &mut NESMmu, info: OpInfo, imm1: u8, imm2: u8)
        requires
            old(mmu).wf(),
            info.mnemonic == Mnemonic::RTS || info.mnemonic == Mnemonic::RTI,
        ensures
            final(mmu).wf(),
            final(self)@ == jump_registers(old(self)@, old(mmu)@, info, imm1, imm2),
            final(mmu)@ == jump_bus(old(self)@, old(mmu)@, info, imm1, imm2),
    {
        match info.mnemonic {
            Mnemonic::RTS => {
                let lo: u16 = self.pop_stack(mmu) as u16;
                let hi: u16 = self.pop_stack(mmu) as u16;
                self.pc = lo + 0x100 * hi;
                self.offset_pc(1);
            },
            _ => {
                let p: u8 = self.pop_stack(mmu);
                let lo: u16 = self.pop_stack(mmu) as u16;
                let hi: u16 = self.pop_stack(mmu) as u16;
                self.p = CPUStatus::from(p);
                self.pc = lo + 0x100 * hi;
            },
        }
    }

    fn software_interrupt(&mut self, mmu: &mut NESMmu, info: OpInfo, imm1: u8, imm2: u8)
        requires
            old(mmu).wf(),
            info.mnemonic == Mnemonic::BRK,
        ensures
            final(mmu).wf(),
            final(self)@ == jump_registers(old(self)@, old(mmu)@, info, imm1, imm2),
            final(mmu)@ == jump_bus(old(self)@, old(mmu)@, info, imm1, imm2),
    {
        self.p.set_irq_disable(true);
        let return_point: u16 = next16(self.pc, 2);
        let p: u8 = self.status_to_push();
        self.enter_interrupt(mmu, return_point, p, BRK_VECTOR);
    }

    fn execute_jump(&mut self, mmu: &mut NESMmu, info: OpInfo, imm1: u8, imm2: u8)
        requires
            old(mmu).wf(),
            info.mnemonic.kind() == Kind::Jump,
        ensures
            final(mmu).wf(),
            final(self)@ == execute_registers(old(self)@, old(mmu)@, info, imm1, imm2),
            final(mmu)@ == execute_bus(old(self)@, old(mmu)@, info, imm1, imm2),
    {
        match info.mnemonic {
            Mnemonic::JMP => self.jump(mmu, info, imm1, imm2),
            Mnemonic::JSR => self.call(mmu, info, imm1, imm2),
            Mnemonic::BRK => self.software_interrupt(mmu, info, imm1, imm2),
            _ => self.come_back(mmu, info, imm1, imm2),
        }
    }

    /// Carries out the instruction `info` with the operand bytes `imm1` and
    /// `imm2`.
    pub fn execute(&mut self, mmu: &mut NESMmu, info: OpInfo, imm1: u8, imm2: u8)
        requires
            old(mmu).wf(),
        ensures
            final(mmu).wf(),
            final(self)@ == execute_registers(old(self)@, old(mmu)@, info, imm1, imm2),
            final(mmu)@ == execute_bus(old(self)@, old(mmu)@, info, imm1, imm2),
    {
        match info.mnemonic.get_kind() {
            Kind::Read => self.execute_read(mmu, info, imm1, imm2),
            Kind::Modify => self.execute_modify(mmu, info, imm1, imm2),
            Kind::Store => self.execute_store(mmu, info, imm1, imm2),
            Kind::Register => self.execute_register(info),
            Kind::Stack => self.execute_stack(mmu, info, imm1, imm2),
            Kind::Branch => self.execute_branch(info, imm1),
            Kind::Jump => self.execute_jump(mmu, info, imm1, imm2),
        }
    }

    /// Fetches the instruction at the program counter and carries it out. The
    /// result says whether there was one, and how many cycles it took.
    pub fn do_instruction(&mut self, mmu: &mut NESMmu) -> (r: (bool, u32))
        requires
            old(mmu).wf(),
        ensures
            final(mmu).wf(),
            final(self)@ == step_registers(old(self)@, old(mmu)@),
            final(mmu)@ == step_bus(old(self)@, old(mmu)@),
            r.0 == fetched(old(self)@, old(mmu)@).is_some(),
            r.1 == step_cycles(old(self)@, old(mmu)@),
    {
        let op: u8 = mmu.read_mem(self.pc);
        let imm1: u8 = mmu.read_mem(next16(self.pc, 1));
        let imm2: u8 = mmu.read_mem(next16(self.pc, 2));
        let opcode: Opcode = Opcode::from_bytes(op, imm1, imm2);
        proof {
            lemma_pack_unpacks(op, imm1, imm2);
        }
        match Op::from_u8(opcode.op()) {
            Some(op) => {
                let delta_cycles: u32 = self.get_op_cycles(&op);
                self.execute(mmu, op.get_info(), opcode.imm1(), opcode.imm2());
                (true, delta_cycles)
            },
            None => (false, 0),
        }
    }
}

} // verus!
