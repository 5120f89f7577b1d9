//! The core of an 8-bit console: processor, picture unit and the bus between
//! them, each with its behaviour stated and proved.

pub mod bus_model;
pub mod cart;
pub mod controller_scanner;
pub mod cpu;
pub mod cpu_model;
pub mod integer_casting;
pub mod io;
pub mod mmu;
pub mod nes;
pub mod opcode;
pub mod ppu;
pub mod ppu_model;
pub mod status;
