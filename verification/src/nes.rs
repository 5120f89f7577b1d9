//! The console: the processor and everything on its bus, run one instruction
//! at a time.

use crate::bus_model::{MmuView, after_fill_rom, after_write, power_up_bus, read_value};
use crate::controller_scanner::Controller;
use crate::cpu::NESCpu;
use crate::cpu_model::{RESET_VECTOR, Registers, fetched, nmi_bus, nmi_registers, step_bus,
    step_cycles, step_registers, word, wrap8};
use crate::io::{IoView, NESIoButton};
use crate::mmu::NESMmu;
use crate::ppu_model::{nmi_enabled, run, run_enters_vblank};
use crate::status::{CPUStatus, lemma_status_round_trip, status_of_byte, with_zn};
use vstd::prelude::*;

verus! {

/// The bytes of a cartridge image's header; a shorter image is no cartridge.
pub const MIN_IMAGE_SIZE: usize = 16;

pub struct NES {
    cpu: NESCpu,
    mmu: NESMmu,
}

/// The registers when the power comes on.
pub open spec fn power_up_registers(bus: MmuView) -> Registers {
    Registers {
        a: 0,
        x: 0,
        y: 0,
        s: 0xFD,
        pc: word(read_value(bus, RESET_VECTOR as int), read_value(bus, RESET_VECTOR + 1)),
        p: with_zn(status_of_byte(0x34), 0),
    }
}

/// Everything on the bus after the picture unit has run for the cycles of the
/// instruction at the program counter.
pub open spec fn bus_after_picture(cpu: Registers, bus: MmuView) -> MmuView {
    MmuView {
        ppu: run(step_bus(cpu, bus).ppu, (3 * step_cycles(cpu, bus)) as nat),
        ..step_bus(cpu, bus)
    }
}

/// Whether the picture unit asks for an interrupt while it runs for the cycles
/// of the instruction at the program counter.
pub open spec fn interrupt_requested(cpu: Registers, bus: MmuView) -> bool {
    run_enters_vblank(step_bus(cpu, bus).ppu, (3 * step_cycles(cpu, bus)) as nat) && nmi_enabled(
        bus_after_picture(cpu, bus).ppu,
    )
}

/// The registers after one turn of the console: the instruction at the program
/// counter is carried out, the picture unit runs for its cycles, and the
/// interrupt is taken if the picture unit asks for one. Where no instruction
/// stands at the program counter, the registers are as they were.
pub open spec fn turn_registers(cpu: Registers, bus: MmuView) -> Registers {
    if fetched(cpu, bus) is None {
        cpu
    } else if interrupt_requested(cpu, bus) {
        nmi_registers(step_registers(cpu, bus), bus_after_picture(cpu, bus))
    } else {
        step_registers(cpu, bus)
    }
}

/// Everything on the bus after one turn of the console.
pub open spec fn turn_bus(cpu: Registers, bus: MmuView) -> MmuView {
    if fetched(cpu, bus) is None {
        step_bus(cpu, bus)
    } else if interrupt_requested(cpu, bus) {
        nmi_bus(step_registers(cpu, bus), bus_after_picture(cpu, bus))
    } else {
        bus_after_picture(cpu, bus)
    }
}

/// The buttons of the controller port as `controller` says.
pub open spec fn buttons_of(controller: Controller) -> Seq<bool> {
    seq![
        controller.a,
        controller.b,
        controller.select,
        controller.start,
        controller.up,
        controller.down,
        controller.left,
        controller.right,
    ]
}

proof fn lemma_set_bit_2(p: CPUStatus)
    ensures
        status_of_byte(p.bits() | 0x04) == (CPUStatus { irq_disable: true, ..p }),
{
    let b: u8 = p.bits();
    lemma_status_round_trip(p);
    assert({
        &&& ((b | 0x04) & 0x01 != 0) == (b & 0x01 != 0)
        &&& ((b | 0x04) & 0x02 != 0) == (b & 0x02 != 0)
        &&& ((b | 0x04) & 0x04 != 0)
        &&& ((b | 0x04) & 0x08 != 0) == (b & 0x08 != 0)
        &&& ((b | 0x04) & 0x10 != 0) == (b & 0x10 != 0)
        &&& ((b | 0x04) & 0x20 != 0) == (b & 0x20 != 0)
        &&& ((b | 0x04) & 0x40 != 0) == (b & 0x40 != 0)
        &&& ((b | 0x04) & 0x80 != 0) == (b & 0x80 != 0)
    }) by (bit_vector);
}

impl NES {
    /// The registers of the processor.
    pub closed spec fn registers(&self) -> Registers {
        self.cpu@
    }

    /// Everything on the bus.
    pub closed spec fn bus(&self) -> MmuView {
        self.mmu@
    }

    /// Whether the console is in a state that it can be in.
    pub closed spec fn wf(&self) -> bool {
        self.mmu.wf()
    }

    /// A console without a cartridge.
    pub fn new() -> (r: NES)
        ensures
            r.wf(),
            r.registers() == (Registers {
                a: 0,
                x: 0,
                y: 0,
                s: 0,
                pc: 0x8000,
                p: CPUStatus::cleared(),
            }),
            r.bus() == power_up_bus(),
    {
        NES { cpu: NESCpu::new(), mmu: NESMmu::new() }
    }

    /// The processor.
    pub fn cpu(&self) -> (r: &NESCpu)
        ensures
            r@ == self.registers(),
    {
        &self.cpu
    }

    /// The bus.
    pub fn mmu(&self) -> (r: &NESMmu)
        ensures
            r@ == self.bus(),
            self.wf() ==> r.wf(),
    {
        &self.mmu
    }

    /// The picture, row by row.
    pub fn frame(&self) -> (r: &Vec<u32>)
        ensures
            r@ == self.bus().ppu.vram,
    {
        self.mmu.ppu().frame()
    }

    /// Turns the power off and on: the registers take their first values, and
    /// the program starts where the reset vector says.
    pub fn hard_restart(&mut self)
        requires
            old(self).wf(),
        ensures
            final(self).wf(),
            final(self).registers() == power_up_registers(old(self).bus()),
            final(self).bus() == old(self).bus(),
    {
        proof {
            reveal(after_write);
            reveal(crate::bus_model::after_read);
        }
        self.cpu.set_p_u8(0x34);
        self.cpu.set_s(0xFD);
        self.cpu.set_a(0);
        self.cpu.set_x(0);
        self.cpu.set_y(0);
        self.mmu.write_mem(0x4015, 0);
        self.mmu.write_mem(0x4017, 0);
        let mut i: u16 = 0;
        while i < 0xF
            invariant
                i <= 0xF,
                self.mmu.wf(),
                self.mmu@ == old(self).mmu@,
                self.cpu@ == (Registers {
                    a: 0,
                    x: 0,
                    y: 0,
                    s: 0xFD,
                    pc: old(self).cpu@.pc,
                    p: with_zn(status_of_byte(0x34), 0),
                }),
            decreases 0xF - i,
        {
            proof {
                reveal(after_write);
            }
            self.mmu.write_mem(0x4000 + i, 0);
            i += 1;
        }
        let addr_lo: u16 = self.mmu.read_absolute(RESET_VECTOR) as u16;
        let addr_hi: u16 = self.mmu.read_absolute(RESET_VECTOR + 1) as u16;
        let restart_vector: u16 = addr_lo + 0x100 * addr_hi;
        self.cpu.set_pc(restart_vector);
    }

    /// Presses the reset button: the stack pointer moves three down, and
    /// interrupts are disabled.
    pub fn soft_restart(&mut self)
        requires
            old(self).wf(),
        ensures
            final(self).wf(),
            final(self).registers() == (Registers {
                s: wrap8(old(self).registers().s + 0xFD),
                p: CPUStatus { irq_disable: true, ..old(self).registers().p },
                ..old(self).registers()
            }),
            final(self).bus() == old(self).bus(),
    {
        proof {
            reveal(after_write);
            lemma_set_bit_2(self.cpu@.p);
        }
        self.cpu.offset_s(0xFD);
        let p: CPUStatus = self.cpu.p();
        self.cpu.set_p(p | 0x04);
        self.mmu.write_mem(0x4015, 0);
    }

    /// Puts in the cartridge with the image `data`, if `data` holds a header at
    /// least; the result says whether it did.
    pub fn insert_cart(&mut self, data: Vec<u8>) -> (inserted: bool)
        requires
            old(self).wf(),
        ensures
            final(self).wf(),
            inserted == (data@.len() >= MIN_IMAGE_SIZE),
            final(self).registers() == old(self).registers(),
            final(self).bus() == if inserted {
                after_fill_rom(old(self).bus(), data@)
            } else {
                old(self).bus()
            },
    {
        if data.len() < MIN_IMAGE_SIZE {
            return false;
        }
        self.mmu.fill_rom(data);
        true
    }

    /// Sets the buttons of the controller port as `controller` says.
    pub fn set_controller(&mut self, controller: &Controller)
        requires
            old(self).wf(),
        ensures
            final(self).wf(),
            final(self).registers() == old(self).registers(),
            final(self).bus() == (MmuView {
                io: IoView { buttons: buttons_of(*controller), ..old(self).bus().io },
                ..old(self).bus()
            }),
    {
        proof {
            self.mmu.lemma_wf();
        }
        self.mmu.set_controller_button(NESIoButton::A, controller.a);
        self.mmu.set_controller_button(NESIoButton::B, controller.b);
        self.mmu.set_controller_button(NESIoButton::Select, controller.select);
        self.mmu.set_controller_button(NESIoButton::Start, controller.start);
        self.mmu.set_controller_button(NESIoButton::Up, controller.up);
        self.mmu.set_controller_button(NESIoButton::Down, controller.down);
        self.mmu.set_controller_button(NESIoButton::Left, controller.left);
        self.mmu.set_controller_button(NESIoButton::Right, controller.right);
        assert(self.mmu@.io.buttons =~= buttons_of(*controller));
    }

    /// One turn of the console: it carries out the instruction at the program
    /// counter, runs the picture unit for the cycles that it took, and takes
    /// the interrupt if the picture unit asks for one. The result says whether
    /// the console goes on: it stops where no instruction stands at the
    /// program counter.
    pub fn step(&mut self) -> (running: bool)
        requires
            old(self).wf(),
        ensures
            final(self).wf(),
            running == fetched(old(self).registers(), old(self).bus()).is_some(),
            final(self).registers() == turn_registers(old(self).registers(), old(self).bus()),
            final(self).bus() == turn_bus(old(self).registers(), old(self).bus()),
    {
        let (success, delta_cycles) = self.cpu.do_instruction(&mut self.mmu);
        if !success {
            return false;
        }
        if self.mmu.do_ppu_cycle(delta_cycles) {
            self.cpu.do_nmi(&mut self.mmu);
        }
        true
    }
}

} // verus!
