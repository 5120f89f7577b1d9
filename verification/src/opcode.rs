//! The instruction table: which byte stands for which instruction, how the
//! instruction finds its operand, and how many cycles it takes.

use vstd::prelude::*;

verus! {

/// What an instruction does.
#[derive(Copy, Clone, Debug, PartialEq, Eq, Structural)]
pub enum Mnemonic {
    ADC,
    AND,
    ASL,
    BCC,
    BCS,
    BEQ,
    BIT,
    BMI,
    BNE,
    BPL,
    BRK,
    BVC,
    BVS,
    CLC,
    CLD,
    CLI,
    CLV,
    CMP,
    CPX,
    CPY,
    DEC,
    DEX,
    DEY,
    EOR,
    INC,
    INX,
    INY,
    JMP,
    JSR,
    LDA,
    LDX,
    LDY,
    LSR,
    NOP,
    ORA,
    PHA,
    PHP,
    PLA,
    PLP,
    ROL,
    ROR,
    RTI,
    RTS,
    SBC,
    SEC,
    SED,
    SEI,
    STA,
    STX,
    STY,
    TAX,
    TAY,
    TSX,
    TXA,
    TXS,
    TYA,
}

/// What an instruction has in common with others.
#[derive(Copy, Clone, Debug, PartialEq, Eq, Structural)]
pub enum Kind {
    /// It reads its operand and computes with it.
    Read,
    /// It reads its operand, changes it, and writes it back.
    Modify,
    /// It stores a register.
    Store,
    /// It works on the registers alone.
    Register,
    /// It pushes or pops a register.
    Stack,
    /// It branches on a flag.
    Branch,
    /// It sets the program counter.
    Jump,
}

impl Mnemonic {
    /// The kind of the instruction.
    pub open spec fn kind(self) -> Kind {
        match self {
            Mnemonic::ORA
            | Mnemonic::AND
            | Mnemonic::EOR
            | Mnemonic::ADC
            | Mnemonic::SBC
            | Mnemonic::LDA
            | Mnemonic::LDX
            | Mnemonic::LDY
            | Mnemonic::CMP
            | Mnemonic::CPX
            | Mnemonic::CPY
            | Mnemonic::BIT => Kind::Read,
            Mnemonic::ASL
            | Mnemonic::LSR
            | Mnemonic::ROL
            | Mnemonic::ROR
            | Mnemonic::INC
            | Mnemonic::DEC => Kind::Modify,
            Mnemonic::STA | Mnemonic::STX | Mnemonic::STY => Kind::Store,
            Mnemonic::PHA | Mnemonic::PHP | Mnemonic::PLA | Mnemonic::PLP => Kind::Stack,
            Mnemonic::BPL
            | Mnemonic::BMI
            | Mnemonic::BVC
            | Mnemonic::BVS
            | Mnemonic::BCC
            | Mnemonic::BCS
            | Mnemonic::BNE
            | Mnemonic::BEQ => Kind::Branch,
            Mnemonic::JMP | Mnemonic::JSR | Mnemonic::RTS | Mnemonic::RTI | Mnemonic::BRK => Kind::Jump,
            _ => Kind::Register,
        }
    }

    pub fn get_kind(&self) -> (r: Kind)
        ensures
            r == self.kind(),
    {
        match self {
            Mnemonic::ORA
            | Mnemonic::AND
            | Mnemonic::EOR
            | Mnemonic::ADC
            | Mnemonic::SBC
            | Mnemonic::LDA
            | Mnemonic::LDX
            | Mnemonic::LDY
            | Mnemonic::CMP
            | Mnemonic::CPX
            | Mnemonic::CPY
            | Mnemonic::BIT => Kind::Read,
            Mnemonic::ASL
            | Mnemonic::LSR
            | Mnemonic::ROL
            | Mnemonic::ROR
            | Mnemonic::INC
            | Mnemonic::DEC => Kind::Modify,
            Mnemonic::STA | Mnemonic::STX | Mnemonic::STY => Kind::Store,
            Mnemonic::PHA | Mnemonic::PHP | Mnemonic::PLA | Mnemonic::PLP => Kind::Stack,
            Mnemonic::BPL
            | Mnemonic::BMI
            | Mnemonic::BVC
            | Mnemonic::BVS
            | Mnemonic::BCC
            | Mnemonic::BCS
            | Mnemonic::BNE
            | Mnemonic::BEQ => Kind::Branch,
            Mnemonic::JMP | Mnemonic::JSR | Mnemonic::RTS | Mnemonic::RTI | Mnemonic::BRK => Kind::Jump,
            _ => Kind::Register,
        }
    }
}

/// How an instruction finds its operand.
#[derive(Copy, Clone, Debug, PartialEq, Eq, Structural)]
pub enum AddrMode {
    Implied,
    Accumulator,
    Immediate,
    ZeroPage,
    ZeroPageX,
    ZeroPageY,
    Absolute,
    AbsoluteX,
    AbsoluteY,
    IndirectX,
    IndirectY,
    AbsIndirect,
    Relative,
}

/// The instructions of the processor, each named by what it does and by its
/// addressing mode.
#[derive(Copy, Clone, Debug, PartialEq, Eq, Structural)]
pub enum Op {
    BRKImmediate,
    ORAIndirectX,
    ORAZeroPage,
    ASLZeroPage,
    PHPImplied,
    ORAImmediate,
    ASLAccumulator,
    ORAAbsolute,
    ASLAbsolute,
    BPLRelative,
    ORAIndirectY,
    ORAZeroPageX,
    ASLZeroPageX,
    CLCImplied,
    ORAAbsoluteY,
    ORAAbsoluteX,
    ASLAbsoluteX,
    JSRAbsolute,
    ANDIndirectX,
    BITZeroPage,
    ANDZeroPage,
    ROLZeroPage,
    PLPImplied,
    ANDImmediate,
    ROLAccumulator,
    BITAbsolute,
    ANDAbsolute,
    ROLAbsolute,
    BMIRelative,
    ANDIndirectY,
    ANDZeroPageX,
    ROLZeroPageX,
    SECImplied,
    ANDAbsoluteY,
    ANDAbsoluteX,
    ROLAbsoluteX,
    RTIImplied,
    EORIndirectX,
    EORZeroPage,
    LSRZeroPage,
    PHAImplied,
    EORImmediate,
    LSRAccumulator,
    JMPAbsolute,
    EORAbsolute,
    LSRAbsolute,
    BVCRelative,
    EORIndirectY,
    EORZeroPageX,
    LSRZeroPageX,
    CLIImplied,
    EORAbsoluteY,
    EORAbsoluteX,
    LSRAbsoluteX,
    RTSImplied,
    ADCIndirectX,
    ADCZeroPage,
    RORZeroPage,
    PLAImplied,
    ADCImmediate,
    RORAccumulator,
    JMPAbsIndirect,
    ADCAbsolute,
    RORAbsolute,
    BVSRelative,
    ADCIndirectY,
    ADCZeroPageX,
    RORZeroPageX,
    SEIImplied,
    ADCAbsoluteY,
    ADCAbsoluteX,
    RORAbsoluteX,
    STAIndirectX,
    STYZeroPage,
    STAZeroPage,
    STXZeroPage,
    DEYImplied,
    TXAImplied,
    STYAbsolute,
    STAAbsolute,
    STXAbsolute,
    BCCRelative,
    STAIndirectY,
    STYZeroPageX,
    STAZeroPageX,
    STXZeroPageY,
    TYAImplied,
    STAAbsoluteY,
    TXSImplied,
    STAAbsoluteX,
    LDYImmediate,
    LDAIndirectX,
    LDXImmediate,
    LDYZeroPage,
    LDAZeroPage,
    LDXZeroPage,
    TAYImplied,
    LDAImmediate,
    TAXImplied,
    LDYAbsolute,
    LDAAbsolute,
    LDXAbsolute,
    BCSRelative,
    LDAIndirectY,
    LDYZeroPageX,
    LDAZeroPageX,
    LDXZeroPageY,
    CLVImplied,
    LDAAbsoluteY,
    TSXImplied,
    LDYAbsoluteX,
    LDAAbsoluteX,
    LDXAbsoluteY,
    CPYImmediate,
    CMPIndirectX,
    CPYZeroPage,
    CMPZeroPage,
    DECZeroPage,
    INYImplied,
    CMPImmediate,
    DEXImplied,
    CPYAbsolute,
    CMPAbsolute,
    DECAbsolute,
    BNERelative,
    CMPIndirectY,
    CMPZeroPageX,
    DECZeroPageX,
    CLDImplied,
    CMPAbsoluteY,
    CMPAbsoluteX,
    DECAbsoluteX,
    CPXImmediate,
    SBCIndirectX,
    CPXZeroPage,
    SBCZeroPage,
    INCZeroPage,
    INXImplied,
    SBCImmediate,
    NOPImplied,
    CPXAbsolute,
    SBCAbsolute,
    INCAbsolute,
    BEQRelative,
    SBCIndirectY,
    SBCZeroPageX,
    INCZeroPageX,
    SEDImplied,
    SBCAbsoluteY,
    SBCAbsoluteX,
    INCAbsoluteX,
}

/// What the table holds for one instruction.
#[derive(Copy, Clone, Debug, PartialEq, Eq, Structural)]
pub struct OpInfo {
    pub mnemonic: Mnemonic,
    pub mode: AddrMode,
    pub cycles: u32,
}

impl AddrMode {
    /// The bytes that an instruction with this mode takes up, its first byte
    /// included.
    pub open spec fn length(self) -> u16 {
        match self {
            AddrMode::Implied | AddrMode::Accumulator => 1,
            AddrMode::Absolute | AddrMode::AbsoluteX | AddrMode::AbsoluteY | AddrMode::AbsIndirect => 3,
            _ => 2,
        }
    }

    pub fn len(&self) -> (r: u16)
        ensures
            r == self.length(),
            1 <= r <= 3,
    {
        match self {
            AddrMode::Implied | AddrMode::Accumulator => 1,
            AddrMode::Absolute | AddrMode::AbsoluteX | AddrMode::AbsoluteY | AddrMode::AbsIndirect => 3,
            _ => 2,
        }
    }
}

impl Op {
    /// The byte that stands for this instruction.
    pub open spec fn code(self) -> u8 {
        match self {
            Op::BRKImmediate => 0x00,
            Op::ORAIndirectX => 0x01,
            Op::ORAZeroPage => 0x05,
            Op::ASLZeroPage => 0x06,
            Op::PHPImplied => 0x08,
            Op::ORAImmediate => 0x09,
            Op::ASLAccumulator => 0x0A,
            Op::ORAAbsolute => 0x0D,
            Op::ASLAbsolute => 0x0E,
            Op::BPLRelative => 0x10,
            Op::ORAIndirectY => 0x11,
            Op::ORAZeroPageX => 0x15,
            Op::ASLZeroPageX => 0x16,
            Op::CLCImplied => 0x18,
            Op::ORAAbsoluteY => 0x19,
            Op::ORAAbsoluteX => 0x1D,
            Op::ASLAbsoluteX => 0x1E,
            Op::JSRAbsolute => 0x20,
            Op::ANDIndirectX => 0x21,
            Op::BITZeroPage => 0x24,
            Op::ANDZeroPage => 0x25,
            Op::ROLZeroPage => 0x26,
            Op::PLPImplied => 0x28,
            Op::ANDImmediate => 0x29,
            Op::ROLAccumulator => 0x2A,
            Op::BITAbsolute => 0x2C,
            Op::ANDAbsolute => 0x2D,
            Op::ROLAbsolute => 0x2E,
            Op::BMIRelative => 0x30,
            Op::ANDIndirectY => 0x31,
            Op::ANDZeroPageX => 0x35,
            Op::ROLZeroPageX => 0x36,
            Op::SECImplied => 0x38,
            Op::ANDAbsoluteY => 0x39,
            Op::ANDAbsoluteX => 0x3D,
            Op::ROLAbsoluteX => 0x3E,
            Op::RTIImplied => 0x40,
            Op::EORIndirectX => 0x41,
            Op::EORZeroPage => 0x45,
            Op::LSRZeroPage => 0x46,
            Op::PHAImplied => 0x48,
            Op::EORImmediate => 0x49,
            Op::LSRAccumulator => 0x4A,
            Op::JMPAbsolute => 0x4C,
            Op::EORAbsolute => 0x4D,
            Op::LSRAbsolute => 0x4E,
            Op::BVCRelative => 0x50,
            Op::EORIndirectY => 0x51,
            Op::EORZeroPageX => 0x55,
            Op::LSRZeroPageX => 0x56,
            Op::CLIImplied => 0x58,
            Op::EORAbsoluteY => 0x59,
            Op::EORAbsoluteX => 0x5D,
            Op::LSRAbsoluteX => 0x5E,
            Op::RTSImplied => 0x60,
            Op::ADCIndirectX => 0x61,
            Op::ADCZeroPage => 0x65,
            Op::RORZeroPage => 0x66,
            Op::PLAImplied => 0x68,
            Op::ADCImmediate => 0x69,
            Op::RORAccumulator => 0x6A,
            Op::JMPAbsIndirect => 0x6C,
            Op::ADCAbsolute => 0x6D,
            Op::RORAbsolute => 0x6E,
            Op::BVSRelative => 0x70,
            Op::ADCIndirectY => 0x71,
            Op::ADCZeroPageX => 0x75,
            Op::RORZeroPageX => 0x76,
            Op::SEIImplied => 0x78,
            Op::ADCAbsoluteY => 0x79,
            Op::ADCAbsoluteX => 0x7D,
            Op::RORAbsoluteX => 0x7E,
            Op::STAIndirectX => 0x81,
            Op::STYZeroPage => 0x84,
            Op::STAZeroPage => 0x85,
            Op::STXZeroPage => 0x86,
            Op::DEYImplied => 0x88,
            Op::TXAImplied => 0x8A,
            Op::STYAbsolute => 0x8C,
            Op::STAAbsolute => 0x8D,
            Op::STXAbsolute => 0x8E,
            Op::BCCRelative => 0x90,
            Op::STAIndirectY => 0x91,
            Op::STYZeroPageX => 0x94,
            Op::STAZeroPageX => 0x95,
            Op::STXZeroPageY => 0x96,
            Op::TYAImplied => 0x98,
            Op::STAAbsoluteY => 0x99,
            Op::TXSImplied => 0x9A,
            Op::STAAbsoluteX => 0x9D,
            Op::LDYImmediate => 0xA0,
            Op::LDAIndirectX => 0xA1,
            Op::LDXImmediate => 0xA2,
            Op::LDYZeroPage => 0xA4,
            Op::LDAZeroPage => 0xA5,
            Op::LDXZeroPage => 0xA6,
            Op::TAYImplied => 0xA8,
            Op::LDAImmediate => 0xA9,
            Op::TAXImplied => 0xAA,
            Op::LDYAbsolute => 0xAC,
            Op::LDAAbsolute => 0xAD,
            Op::LDXAbsolute => 0xAE,
            Op::BCSRelative => 0xB0,
            Op::LDAIndirectY => 0xB1,
            Op::LDYZeroPageX => 0xB4,
            Op::LDAZeroPageX => 0xB5,
            Op::LDXZeroPageY => 0xB6,
            Op::CLVImplied => 0xB8,
            Op::LDAAbsoluteY => 0xB9,
            Op::TSXImplied => 0xBA,
            Op::LDYAbsoluteX => 0xBC,
            Op::LDAAbsoluteX => 0xBD,
            Op::LDXAbsoluteY => 0xBE,
            Op::CPYImmediate => 0xC0,
            Op::CMPIndirectX => 0xC1,
            Op::CPYZeroPage => 0xC4,
            Op::CMPZeroPage => 0xC5,
            Op::DECZeroPage => 0xC6,
            Op::INYImplied => 0xC8,
            Op::CMPImmediate => 0xC9,
            Op::DEXImplied => 0xCA,
            Op::CPYAbsolute => 0xCC,
            Op::CMPAbsolute => 0xCD,
            Op::DECAbsolute => 0xCE,
            Op::BNERelative => 0xD0,
            Op::CMPIndirectY => 0xD1,
            Op::CMPZeroPageX => 0xD5,
            Op::DECZeroPageX => 0xD6,
            Op::CLDImplied => 0xD8,
            Op::CMPAbsoluteY => 0xD9,
            Op::CMPAbsoluteX => 0xDD,
            Op::DECAbsoluteX => 0xDE,
            Op::CPXImmediate => 0xE0,
            Op::SBCIndirectX => 0xE1,
            Op::CPXZeroPage => 0xE4,
            Op::SBCZeroPage => 0xE5,
            Op::INCZeroPage => 0xE6,
            Op::INXImplied => 0xE8,
            Op::SBCImmediate => 0xE9,
            Op::NOPImplied => 0xEA,
            Op::CPXAbsolute => 0xEC,
            Op::SBCAbsolute => 0xED,
            Op::INCAbsolute => 0xEE,
            Op::BEQRelative => 0xF0,
            Op::SBCIndirectY => 0xF1,
            Op::SBCZeroPageX => 0xF5,
            Op::INCZeroPageX => 0xF6,
            Op::SEDImplied => 0xF8,
            Op::SBCAbsoluteY => 0xF9,
            Op::SBCAbsoluteX => 0xFD,
            Op::INCAbsoluteX => 0xFE,
        }
    }

    /// The instruction that `byte` stands for, if it stands for one.
    pub open spec fn decode(byte: u8) -> Option<Op> {
        match byte {
            0x00 => Some(Op::BRKImmediate),
            0x01 => Some(Op::ORAIndirectX),
            0x05 => Some(Op::ORAZeroPage),
            0x06 => Some(Op::ASLZeroPage),
            0x08 => Some(Op::PHPImplied),
            0x09 => Some(Op::ORAImmediate),
            0x0A => Some(Op::ASLAccumulator),
            0x0D => Some(Op::ORAAbsolute),
            0x0E => Some(Op::ASLAbsolute),
            0x10 => Some(Op::BPLRelative),
            0x11 => Some(Op::ORAIndirectY),
            0x15 => Some(Op::ORAZeroPageX),
            0x16 => Some(Op::ASLZeroPageX),
            0x18 => Some(Op::CLCImplied),
            0x19 => Some(Op::ORAAbsoluteY),
            0x1D => Some(Op::ORAAbsoluteX),
            0x1E => Some(Op::ASLAbsoluteX),
            0x20 => Some(Op::JSRAbsolute),
            0x21 => Some(Op::ANDIndirectX),
            0x24 => Some(Op::BITZeroPage),
            0x25 => Some(Op::ANDZeroPage),
            0x26 => Some(Op::ROLZeroPage),
            0x28 => Some(Op::PLPImplied),
            0x29 => Some(Op::ANDImmediate),
            0x2A => Some(Op::ROLAccumulator),
            0x2C => Some(Op::BITAbsolute),
            0x2D => Some(Op::ANDAbsolute),
            0x2E => Some(Op::ROLAbsolute),
            0x30 => Some(Op::BMIRelative),
            0x31 => Some(Op::ANDIndirectY),
            0x35 => Some(Op::ANDZeroPageX),
            0x36 => Some(Op::ROLZeroPageX),
            0x38 => Some(Op::SECImplied),
            0x39 => Some(Op::ANDAbsoluteY),
            0x3D => Some(Op::ANDAbsoluteX),
            0x3E => Some(Op::ROLAbsoluteX),
            0x40 => Some(Op::RTIImplied),
            0x41 => Some(Op::EORIndirectX),
            0x45 => Some(Op::EORZeroPage),
            0x46 => Some(Op::LSRZeroPage),
            0x48 => Some(Op::PHAImplied),
            0x49 => Some(Op::EORImmediate),
            0x4A => Some(Op::LSRAccumulator),
            0x4C => Some(Op::JMPAbsolute),
            0x4D => Some(Op::EORAbsolute),
            0x4E => Some(Op::LSRAbsolute),
            0x50 => Some(Op::BVCRelative),
            0x51 => Some(Op::EORIndirectY),
            0x55 => Some(Op::EORZeroPageX),
            0x56 => Some(Op::LSRZeroPageX),
            0x58 => Some(Op::CLIImplied),
            0x59 => Some(Op::EORAbsoluteY),
            0x5D => Some(Op::EORAbsoluteX),
            0x5E => Some(Op::LSRAbsoluteX),
            0x60 => Some(Op::RTSImplied),
            0x61 => Some(Op::ADCIndirectX),
            0x65 => Some(Op::ADCZeroPage),
            0x66 => Some(Op::RORZeroPage),
            0x68 => Some(Op::PLAImplied),
            0x69 => Some(Op::ADCImmediate),
            0x6A => Some(Op::RORAccumulator),
            0x6C => Some(Op::JMPAbsIndirect),
            0x6D => Some(Op::ADCAbsolute),
            0x6E => Some(Op::RORAbsolute),
            0x70 => Some(Op::BVSRelative),
            0x71 => Some(Op::ADCIndirectY),
            0x75 => Some(Op::ADCZeroPageX),
            0x76 => Some(Op::RORZeroPageX),
            0x78 => Some(Op::SEIImplied),
            0x79 => Some(Op::ADCAbsoluteY),
            0x7D => Some(Op::ADCAbsoluteX),
            0x7E => Some(Op::RORAbsoluteX),
            0x81 => Some(Op::STAIndirectX),
            0x84 => Some(Op::STYZeroPage),
            0x85 => Some(Op::STAZeroPage),
            0x86 => Some(Op::STXZeroPage),
            0x88 => Some(Op::DEYImplied),
            0x8A => Some(Op::TXAImplied),
            0x8C => Some(Op::STYAbsolute),
            0x8D => Some(Op::STAAbsolute),
            0x8E => Some(Op::STXAbsolute),
            0x90 => Some(Op::BCCRelative),
            0x91 => Some(Op::STAIndirectY),
            0x94 => Some(Op::STYZeroPageX),
            0x95 => Some(Op::STAZeroPageX),
            0x96 => Some(Op::STXZeroPageY),
            0x98 => Some(Op::TYAImplied),
            0x99 => Some(Op::STAAbsoluteY),
            0x9A => Some(Op::TXSImplied),
            0x9D => Some(Op::STAAbsoluteX),
            0xA0 => Some(Op::LDYImmediate),
            0xA1 => Some(Op::LDAIndirectX),
            0xA2 => Some(Op::LDXImmediate),
            0xA4 => Some(Op::LDYZeroPage),
            0xA5 => Some(Op::LDAZeroPage),
            0xA6 => Some(Op::LDXZeroPage),
            0xA8 => Some(Op::TAYImplied),
            0xA9 => Some(Op::LDAImmediate),
            0xAA => Some(Op::TAXImplied),
            0xAC => Some(Op::LDYAbsolute),
            0xAD => Some(Op::LDAAbsolute),
            0xAE => Some(Op::LDXAbsolute),
            0xB0 => Some(Op::BCSRelative),
            0xB1 => Some(Op::LDAIndirectY),
            0xB4 => Some(Op::LDYZeroPageX),
            0xB5 => Some(Op::LDAZeroPageX),
            0xB6 => Some(Op::LDXZeroPageY),
            0xB8 => Some(Op::CLVImplied),
            0xB9 => Some(Op::LDAAbsoluteY),
            0xBA => Some(Op::TSXImplied),
            0xBC => Some(Op::LDYAbsoluteX),
            0xBD => Some(Op::LDAAbsoluteX),
            0xBE => Some(Op::LDXAbsoluteY),
            0xC0 => Some(Op::CPYImmediate),
            0xC1 => Some(Op::CMPIndirectX),
            0xC4 => Some(Op::CPYZeroPage),
            0xC5 => Some(Op::CMPZeroPage),
            0xC6 => Some(Op::DECZeroPage),
            0xC8 => Some(Op::INYImplied),
            0xC9 => Some(Op::CMPImmediate),
            0xCA => Some(Op::DEXImplied),
            0xCC => Some(Op::CPYAbsolute),
            0xCD => Some(Op::CMPAbsolute),
            0xCE => Some(Op::DECAbsolute),
            0xD0 => Some(Op::BNERelative),
            0xD1 => Some(Op::CMPIndirectY),
            0xD5 => Some(Op::CMPZeroPageX),
            0xD6 => Some(Op::DECZeroPageX),
            0xD8 => Some(Op::CLDImplied),
            0xD9 => Some(Op::CMPAbsoluteY),
            0xDD => Some(Op::CMPAbsoluteX),
            0xDE => Some(Op::DECAbsoluteX),
            0xE0 => Some(Op::CPXImmediate),
            0xE1 => Some(Op::SBCIndirectX),
            0xE4 => Some(Op::CPXZeroPage),
            0xE5 => Some(Op::SBCZeroPage),
            0xE6 => Some(Op::INCZeroPage),
            0xE8 => Some(Op::INXImplied),
            0xE9 => Some(Op::SBCImmediate),
            0xEA => Some(Op::NOPImplied),
            0xEC => Some(Op::CPXAbsolute),
            0xED => Some(Op::SBCAbsolute),
            0xEE => Some(Op::INCAbsolute),
            0xF0 => Some(Op::BEQRelative),
            0xF1 => Some(Op::SBCIndirectY),
            0xF5 => Some(Op::SBCZeroPageX),
            0xF6 => Some(Op::INCZeroPageX),
            0xF8 => Some(Op::SEDImplied),
            0xF9 => Some(Op::SBCAbsoluteY),
            0xFD => Some(Op::SBCAbsoluteX),
            0xFE => Some(Op::INCAbsoluteX),
            _ => None,
        }
    }

    /// The table entry of this instruction.
    pub open spec fn info(self) -> OpInfo {
        match self {
            Op::BRKImmediate => OpInfo { mnemonic: Mnemonic::BRK, mode: AddrMode::Immediate, cycles: 7 },
            Op::ORAIndirectX => OpInfo { mnemonic: Mnemonic::ORA, mode: AddrMode::IndirectX, cycles: 6 },
            Op::ORAZeroPage => OpInfo { mnemonic: Mnemonic::ORA, mode: AddrMode::ZeroPage, cycles: 3 },
            Op::ASLZeroPage => OpInfo { mnemonic: Mnemonic::ASL, mode: AddrMode::ZeroPage, cycles: 5 },
            Op::PHPImplied => OpInfo { mnemonic: Mnemonic::PHP, mode: AddrMode::Implied, cycles: 3 },
            Op::ORAImmediate => OpInfo { mnemonic: Mnemonic::ORA, mode: AddrMode::Immediate, cycles: 2 },
            Op::ASLAccumulator => OpInfo { mnemonic: Mnemonic::ASL, mode: AddrMode::Accumulator, cycles: 2 },
            Op::ORAAbsolute => OpInfo { mnemonic: Mnemonic::ORA, mode: AddrMode::Absolute, cycles: 4 },
            Op::ASLAbsolute => OpInfo { mnemonic: Mnemonic::ASL, mode: AddrMode::Absolute, cycles: 6 },
            Op::BPLRelative => OpInfo { mnemonic: Mnemonic::BPL, mode: AddrMode::Relative, cycles: 2 },
            Op::ORAIndirectY => OpInfo { mnemonic: Mnemonic::ORA, mode: AddrMode::IndirectY, cycles: 5 },
            Op::ORAZeroPageX => OpInfo { mnemonic: Mnemonic::ORA, mode: AddrMode::ZeroPageX, cycles: 4 },
            Op::ASLZeroPageX => OpInfo { mnemonic: Mnemonic::ASL, mode: AddrMode::ZeroPageX, cycles: 6 },
            Op::CLCImplied => OpInfo { mnemonic: Mnemonic::CLC, mode: AddrMode::Implied, cycles: 2 },
            Op::ORAAbsoluteY => OpInfo { mnemonic: Mnemonic::ORA, mode: AddrMode::AbsoluteY, cycles: 4 },
            Op::ORAAbsoluteX => OpInfo { mnemonic: Mnemonic::ORA, mode: AddrMode::AbsoluteX, cycles: 4 },
            Op::ASLAbsoluteX => OpInfo { mnemonic: Mnemonic::ASL, mode: AddrMode::AbsoluteX, cycles: 7 },
            Op::JSRAbsolute => OpInfo { mnemonic: Mnemonic::JSR, mode: AddrMode::Absolute, cycles: 6 },
            Op::ANDIndirectX => OpInfo { mnemonic: Mnemonic::AND, mode: AddrMode::IndirectX, cycles: 6 },
            Op::BITZeroPage => OpInfo { mnemonic: Mnemonic::BIT, mode: AddrMode::ZeroPage, cycles: 3 },
            Op::ANDZeroPage => OpInfo { mnemonic: Mnemonic::AND, mode: AddrMode::ZeroPage, cycles: 3 },
            Op::ROLZeroPage => OpInfo { mnemonic: Mnemonic::ROL, mode: AddrMode::ZeroPage, cycles: 5 },
            Op::PLPImplied => OpInfo { mnemonic: Mnemonic::PLP, mode: AddrMode::Implied, cycles: 4 },
            Op::ANDImmediate => OpInfo { mnemonic: Mnemonic::AND, mode: AddrMode::Immediate, cycles: 2 },
            Op::ROLAccumulator => OpInfo { mnemonic: Mnemonic::ROL, mode: AddrMode::Accumulator, cycles: 2 },
            Op::BITAbsolute => OpInfo { mnemonic: Mnemonic::BIT, mode: AddrMode::Absolute, cycles: 4 },
            Op::ANDAbsolute => OpInfo { mnemonic: Mnemonic::AND, mode: AddrMode::Absolute, cycles: 4 },
            Op::ROLAbsolute => OpInfo { mnemonic: Mnemonic::ROL, mode: AddrMode::Absolute, cycles: 6 },
            Op::BMIRelative => OpInfo { mnemonic: Mnemonic::BMI, mode: AddrMode::Relative, cycles: 2 },
            Op::ANDIndirectY => OpInfo { mnemonic: Mnemonic::AND, mode: AddrMode::IndirectY, cycles: 5 },
            Op::ANDZeroPageX => OpInfo { mnemonic: Mnemonic::AND, mode: AddrMode::ZeroPageX, cycles: 4 },
            Op::ROLZeroPageX => OpInfo { mnemonic: Mnemonic::ROL, mode: AddrMode::ZeroPageX, cycles: 6 },
            Op::SECImplied => OpInfo { mnemonic: Mnemonic::SEC, mode: AddrMode::Implied, cycles: 2 },
            Op::ANDAbsoluteY => OpInfo { mnemonic: Mnemonic::AND, mode: AddrMode::AbsoluteY, cycles: 4 },
            Op::ANDAbsoluteX => OpInfo { mnemonic: Mnemonic::AND, mode: AddrMode::AbsoluteX, cycles: 4 },
            Op::ROLAbsoluteX => OpInfo { mnemonic: Mnemonic::ROL, mode: AddrMode::AbsoluteX, cycles: 7 },
            Op::RTIImplied => OpInfo { mnemonic: Mnemonic::RTI, mode: AddrMode::Implied, cycles: 6 },
            Op::EORIndirectX => OpInfo { mnemonic: Mnemonic::EOR, mode: AddrMode::IndirectX, cycles: 6 },
            Op::EORZeroPage => OpInfo { mnemonic: Mnemonic::EOR, mode: AddrMode::ZeroPage, cycles: 3 },
            Op::LSRZeroPage => OpInfo { mnemonic: Mnemonic::LSR, mode: AddrMode::ZeroPage, cycles: 5 },
            Op::PHAImplied => OpInfo { mnemonic: Mnemonic::PHA, mode: AddrMode::Implied, cycles: 3 },
            Op::EORImmediate => OpInfo { mnemonic: Mnemonic::EOR, mode: AddrMode::Immediate, cycles: 2 },
            Op::LSRAccumulator => OpInfo { mnemonic: Mnemonic::LSR, mode: AddrMode::Accumulator, cycles: 2 },
            Op::JMPAbsolute => OpInfo { mnemonic: Mnemonic::JMP, mode: AddrMode::Absolute, cycles: 3 },
            Op::EORAbsolute => OpInfo { mnemonic: Mnemonic::EOR, mode: AddrMode::Absolute, cycles: 4 },
            Op::LSRAbsolute => OpInfo { mnemonic: Mnemonic::LSR, mode: AddrMode::Absolute, cycles: 6 },
            Op::BVCRelative => OpInfo { mnemonic: Mnemonic::BVC, mode: AddrMode::Relative, cycles: 2 },
            Op::EORIndirectY => OpInfo { mnemonic: Mnemonic::EOR, mode: AddrMode::IndirectY, cycles: 5 },
            Op::EORZeroPageX => OpInfo { mnemonic: Mnemonic::EOR, mode: AddrMode::ZeroPageX, cycles: 4 },
            Op::LSRZeroPageX => OpInfo { mnemonic: Mnemonic::LSR, mode: AddrMode::ZeroPageX, cycles: 6 },
            Op::CLIImplied => OpInfo { mnemonic: Mnemonic::CLI, mode: AddrMode::Implied, cycles: 2 },
            Op::EORAbsoluteY => OpInfo { mnemonic: Mnemonic::EOR, mode: AddrMode::AbsoluteY, cycles: 4 },
            Op::EORAbsoluteX => OpInfo { mnemonic: Mnemonic::EOR, mode: AddrMode::AbsoluteX, cycles: 4 },
            Op::LSRAbsoluteX => OpInfo { mnemonic: Mnemonic::LSR, mode: AddrMode::AbsoluteX, cycles: 7 },
            Op::RTSImplied => OpInfo { mnemonic: Mnemonic::RTS, mode: AddrMode::Implied, cycles: 6 },
            Op::ADCIndirectX => OpInfo { mnemonic: Mnemonic::ADC, mode: AddrMode::IndirectX, cycles: 6 },
            Op::ADCZeroPage => OpInfo { mnemonic: Mnemonic::ADC, mode: AddrMode::ZeroPage, cycles: 3 },
            Op::RORZeroPage => OpInfo { mnemonic: Mnemonic::ROR, mode: AddrMode::ZeroPage, cycles: 5 },
            Op::PLAImplied => OpInfo { mnemonic: Mnemonic::PLA, mode: AddrMode::Implied, cycles: 4 },
            Op::ADCImmediate => OpInfo { mnemonic: Mnemonic::ADC, mode: AddrMode::Immediate, cycles: 2 },
            Op::RORAccumulator => OpInfo { mnemonic: Mnemonic::ROR, mode: AddrMode::Accumulator, cycles: 2 },
            Op::JMPAbsIndirect => OpInfo { mnemonic: Mnemonic::JMP, mode: AddrMode::AbsIndirect, cycles: 5 },
            Op::ADCAbsolute => OpInfo { mnemonic: Mnemonic::ADC, mode: AddrMode::Absolute, cycles: 4 },
            Op::RORAbsolute => OpInfo { mnemonic: Mnemonic::ROR, mode: AddrMode::Absolute, cycles: 6 },
            Op::BVSRelative => OpInfo { mnemonic: Mnemonic::BVS, mode: AddrMode::Relative, cycles: 2 },
            Op::ADCIndirectY => OpInfo { mnemonic: Mnemonic::ADC, mode: AddrMode::IndirectY, cycles: 5 },
            Op::ADCZeroPageX => OpInfo { mnemonic: Mnemonic::ADC, mode: AddrMode::ZeroPageX, cycles: 4 },
            Op::RORZeroPageX => OpInfo { mnemonic: Mnemonic::ROR, mode: AddrMode::ZeroPageX, cycles: 6 },
            Op::SEIImplied => OpInfo { mnemonic: Mnemonic::SEI, mode: AddrMode::Implied, cycles: 2 },
            Op::ADCAbsoluteY => OpInfo { mnemonic: Mnemonic::ADC, mode: AddrMode::AbsoluteY, cycles: 4 },
            Op::ADCAbsoluteX => OpInfo { mnemonic: Mnemonic::ADC, mode: AddrMode::AbsoluteX, cycles: 4 },
            Op::RORAbsoluteX => OpInfo { mnemonic: Mnemonic::ROR, mode: AddrMode::AbsoluteX, cycles: 7 },
            Op::STAIndirectX => OpInfo { mnemonic: Mnemonic::STA, mode: AddrMode::IndirectX, cycles: 6 },
            Op::STYZeroPage => OpInfo { mnemonic: Mnemonic::STY, mode: AddrMode::ZeroPage, cycles: 3 },
            Op::STAZeroPage => OpInfo { mnemonic: Mnemonic::STA, mode: AddrMode::ZeroPage, cycles: 3 },
            Op::STXZeroPage => OpInfo { mnemonic: Mnemonic::STX, mode: AddrMode::ZeroPage, cycles: 3 },
            Op::DEYImplied => OpInfo { mnemonic: Mnemonic::DEY, mode: AddrMode::Implied, cycles: 2 },
            Op::TXAImplied => OpInfo { mnemonic: Mnemonic::TXA, mode: AddrMode::Implied, cycles: 2 },
            Op::STYAbsolute => OpInfo { mnemonic: Mnemonic::STY, mode: AddrMode::Absolute, cycles: 4 },
            Op::STAAbsolute => OpInfo { mnemonic: Mnemonic::STA, mode: AddrMode::Absolute, cycles: 4 },
            Op::STXAbsolute => OpInfo { mnemonic: Mnemonic::STX, mode: AddrMode::Absolute, cycles: 4 },
            Op::BCCRelative => OpInfo { mnemonic: Mnemonic::BCC, mode: AddrMode::Relative, cycles: 2 },
            Op::STAIndirectY => OpInfo { mnemonic: Mnemonic::STA, mode: AddrMode::IndirectY, cycles: 6 },
            Op::STYZeroPageX => OpInfo { mnemonic: Mnemonic::STY, mode: AddrMode::ZeroPageX, cycles: 4 },
            Op::STAZeroPageX => OpInfo { mnemonic: Mnemonic::STA, mode: AddrMode::ZeroPageX, cycles: 4 },
            Op::STXZeroPageY => OpInfo { mnemonic: Mnemonic::STX, mode: AddrMode::ZeroPageY, cycles: 4 },
            Op::TYAImplied => OpInfo { mnemonic: Mnemonic::TYA, mode: AddrMode::Implied, cycles: 2 },
            Op::STAAbsoluteY => OpInfo { mnemonic: Mnemonic::STA, mode: AddrMode::AbsoluteY, cycles: 5 },
            Op::TXSImplied => OpInfo { mnemonic: Mnemonic::TXS, mode: AddrMode::Implied, cycles: 2 },
            Op::STAAbsoluteX => OpInfo { mnemonic: Mnemonic::STA, mode: AddrMode::AbsoluteX, cycles: 5 },
            Op::LDYImmediate => OpInfo { mnemonic: Mnemonic::LDY, mode: AddrMode::Immediate, cycles: 2 },
            Op::LDAIndirectX => OpInfo { mnemonic: Mnemonic::LDA, mode: AddrMode::IndirectX, cycles: 6 },
            Op::LDXImmediate => OpInfo { mnemonic: Mnemonic::LDX, mode: AddrMode::Immediate, cycles: 2 },
            Op::LDYZeroPage => OpInfo { mnemonic: Mnemonic::LDY, mode: AddrMode::ZeroPage, cycles: 3 },
            Op::LDAZeroPage => OpInfo { mnemonic: Mnemonic::LDA, mode: AddrMode::ZeroPage, cycles: 3 },
            Op::LDXZeroPage => OpInfo { mnemonic: Mnemonic::LDX, mode: AddrMode::ZeroPage, cycles: 3 },
            Op::TAYImplied => OpInfo { mnemonic: Mnemonic::TAY, mode: AddrMode::Implied, cycles: 2 },
            Op::LDAImmediate => OpInfo { mnemonic: Mnemonic::LDA, mode: AddrMode::Immediate, cycles: 2 },
            Op::TAXImplied => OpInfo { mnemonic: Mnemonic::TAX, mode: AddrMode::Implied, cycles: 2 },
            Op::LDYAbsolute => OpInfo { mnemonic: Mnemonic::LDY, mode: AddrMode::Absolute, cycles: 4 },
            Op::LDAAbsolute => OpInfo { mnemonic: Mnemonic::LDA, mode: AddrMode::Absolute, cycles: 4 },
            Op::LDXAbsolute => OpInfo { mnemonic: Mnemonic::LDX, mode: AddrMode::Absolute, cycles: 4 },
            Op::BCSRelative => OpInfo { mnemonic: Mnemonic::BCS, mode: AddrMode::Relative, cycles: 2 },
            Op::LDAIndirectY => OpInfo { mnemonic: Mnemonic::LDA, mode: AddrMode::IndirectY, cycles: 5 },
            Op::LDYZeroPageX => OpInfo { mnemonic: Mnemonic::LDY, mode: AddrMode::ZeroPageX, cycles: 4 },
            Op::LDAZeroPageX => OpInfo { mnemonic: Mnemonic::LDA, mode: AddrMode::ZeroPageX, cycles: 4 },
            Op::LDXZeroPageY => OpInfo { mnemonic: Mnemonic::LDX, mode: AddrMode::ZeroPageY, cycles: 4 },
            Op::CLVImplied => OpInfo { mnemonic: Mnemonic::CLV, mode: AddrMode::Implied, cycles: 2 },
            Op::LDAAbsoluteY => OpInfo { mnemonic: Mnemonic::LDA, mode: AddrMode::AbsoluteY, cycles: 4 },
            Op::TSXImplied => OpInfo { mnemonic: Mnemonic::TSX, mode: AddrMode::Implied, cycles: 2 },
            Op::LDYAbsoluteX => OpInfo { mnemonic: Mnemonic::LDY, mode: AddrMode::AbsoluteX, cycles: 4 },
            Op::LDAAbsoluteX => OpInfo { mnemonic: Mnemonic::LDA, mode: AddrMode::AbsoluteX, cycles: 4 },
            Op::LDXAbsoluteY => OpInfo { mnemonic: Mnemonic::LDX, mode: AddrMode::AbsoluteY, cycles: 4 },
            Op::CPYImmediate => OpInfo { mnemonic: Mnemonic::CPY, mode: AddrMode::Immediate, cycles: 2 },
            Op::CMPIndirectX => OpInfo { mnemonic: Mnemonic::CMP, mode: AddrMode::IndirectX, cycles: 6 },
            Op::CPYZeroPage => OpInfo { mnemonic: Mnemonic::CPY, mode: AddrMode::ZeroPage, cycles: 3 },
            Op::CMPZeroPage => OpInfo { mnemonic: Mnemonic::CMP, mode: AddrMode::ZeroPage, cycles: 3 },
            Op::DECZeroPage => OpInfo { mnemonic: Mnemonic::DEC, mode: AddrMode::ZeroPage, cycles: 5 },
            Op::INYImplied => OpInfo { mnemonic: Mnemonic::INY, mode: AddrMode::Implied, cycles: 2 },
            Op::CMPImmediate => OpInfo { mnemonic: Mnemonic::CMP, mode: AddrMode::Immediate, cycles: 2 },
            Op::DEXImplied => OpInfo { mnemonic: Mnemonic::DEX, mode: AddrMode::Implied, cycles: 2 },
            Op::CPYAbsolute => OpInfo { mnemonic: Mnemonic::CPY, mode: AddrMode::Absolute, cycles: 4 },
            Op::CMPAbsolute => OpInfo { mnemonic: Mnemonic::CMP, mode: AddrMode::Absolute, cycles: 4 },
            Op::DECAbsolute => OpInfo { mnemonic: Mnemonic::DEC, mode: AddrMode::Absolute, cycles: 4 },
            Op::BNERelative => OpInfo { mnemonic: Mnemonic::BNE, mode: AddrMode::Relative, cycles: 2 },
            Op::CMPIndirectY => OpInfo { mnemonic: Mnemonic::CMP, mode: AddrMode::IndirectY, cycles: 5 },
            Op::CMPZeroPageX => OpInfo { mnemonic: Mnemonic::CMP, mode: AddrMode::ZeroPageX, cycles: 4 },
            Op::DECZeroPageX => OpInfo { mnemonic: Mnemonic::DEC, mode: AddrMode::ZeroPageX, cycles: 6 },
            Op::CLDImplied => OpInfo { mnemonic: Mnemonic::CLD, mode: AddrMode::Implied, cycles: 2 },
            Op::CMPAbsoluteY => OpInfo { mnemonic: Mnemonic::CMP, mode: AddrMode::AbsoluteY, cycles: 4 },
            Op::CMPAbsoluteX => OpInfo { mnemonic: Mnemonic::CMP, mode: AddrMode::AbsoluteX, cycles: 4 },
            Op::DECAbsoluteX => OpInfo { mnemonic: Mnemonic::DEC, mode: AddrMode::AbsoluteX, cycles: 7 },
            Op::CPXImmediate => OpInfo { mnemonic: Mnemonic::CPX, mode: AddrMode::Immediate, cycles: 2 },
            Op::SBCIndirectX => OpInfo { mnemonic: Mnemonic::SBC, mode: AddrMode::IndirectX, cycles: 6 },
            Op::CPXZeroPage => OpInfo { mnemonic: Mnemonic::CPX, mode: AddrMode::ZeroPage, cycles: 3 },
            Op::SBCZeroPage => OpInfo { mnemonic: Mnemonic::SBC, mode: AddrMode::ZeroPage, cycles: 3 },
            Op::INCZeroPage => OpInfo { mnemonic: Mnemonic::INC, mode: AddrMode::ZeroPage, cycles: 5 },
            Op::INXImplied => OpInfo { mnemonic: Mnemonic::INX, mode: AddrMode::Implied, cycles: 2 },
            Op::SBCImmediate => OpInfo { mnemonic: Mnemonic::SBC, mode: AddrMode::Immediate, cycles: 2 },
            Op::NOPImplied => OpInfo { mnemonic: Mnemonic::NOP, mode: AddrMode::Implied, cycles: 2 },
            Op::CPXAbsolute => OpInfo { mnemonic: Mnemonic::CPX, mode: AddrMode::Absolute, cycles: 4 },
            Op::SBCAbsolute => OpInfo { mnemonic: Mnemonic::SBC, mode: AddrMode::Absolute, cycles: 4 },
            Op::INCAbsolute => OpInfo { mnemonic: Mnemonic::INC, mode: AddrMode::Absolute, cycles: 6 },
            Op::BEQRelative => OpInfo { mnemonic: Mnemonic::BEQ, mode: AddrMode::Relative, cycles: 2 },
            Op::SBCIndirectY => OpInfo { mnemonic: Mnemonic::SBC, mode: AddrMode::IndirectY, cycles: 5 },
            Op::SBCZeroPageX => OpInfo { mnemonic: Mnemonic::SBC, mode: AddrMode::ZeroPageX, cycles: 4 },
            Op::INCZeroPageX => OpInfo { mnemonic: Mnemonic::INC, mode: AddrMode::ZeroPageX, cycles: 6 },
            Op::SEDImplied => OpInfo { mnemonic: Mnemonic::SED, mode: AddrMode::Implied, cycles: 2 },
            Op::SBCAbsoluteY => OpInfo { mnemonic: Mnemonic::SBC, mode: AddrMode::AbsoluteY, cycles: 2 },
            Op::SBCAbsoluteX => OpInfo { mnemonic: Mnemonic::SBC, mode: AddrMode::AbsoluteX, cycles: 4 },
            Op::INCAbsoluteX => OpInfo { mnemonic: Mnemonic::INC, mode: AddrMode::AbsoluteX, cycles: 7 },
        }
    }

    pub fn from_u8(byte: u8) -> (r: Option<Op>)
        ensures
            r == Op::decode(byte),
            r matches Some(op) ==> op.code() == byte,
            r is None ==> forall|op: Op| op.code() != byte,
    {
        proof {
            lemma_decode_finds_code(byte);
            assert forall|op: Op| Op::decode(byte) is None implies op.code() != byte by {
                lemma_code_decodes(op);
            }
        }
        match byte {
            0x00 => Some(Op::BRKImmediate),
            0x01 => Some(Op::ORAIndirectX),
            0x05 => Some(Op::ORAZeroPage),
            0x06 => Some(Op::ASLZeroPage),
            0x08 => Some(Op::PHPImplied),
            0x09 => Some(Op::ORAImmediate),
            0x0A => Some(Op::ASLAccumulator),
            0x0D => Some(Op::ORAAbsolute),
            0x0E => Some(Op::ASLAbsolute),
            0x10 => Some(Op::BPLRelative),
            0x11 => Some(Op::ORAIndirectY),
            0x15 => Some(Op::ORAZeroPageX),
            0x16 => Some(Op::ASLZeroPageX),
            0x18 => Some(Op::CLCImplied),
            0x19 => Some(Op::ORAAbsoluteY),
            0x1D => Some(Op::ORAAbsoluteX),
            0x1E => Some(Op::ASLAbsoluteX),
            0x20 => Some(Op::JSRAbsolute),
            0x21 => Some(Op::ANDIndirectX),
            0x24 => Some(Op::BITZeroPage),
            0x25 => Some(Op::ANDZeroPage),
            0x26 => Some(Op::ROLZeroPage),
            0x28 => Some(Op::PLPImplied),
            0x29 => Some(Op::ANDImmediate),
            0x2A => Some(Op::ROLAccumulator),
            0x2C => Some(Op::BITAbsolute),
            0x2D => Some(Op::ANDAbsolute),
            0x2E => Some(Op::ROLAbsolute),
            0x30 => Some(Op::BMIRelative),
            0x31 => Some(Op::ANDIndirectY),
            0x35 => Some(Op::ANDZeroPageX),
            0x36 => Some(Op::ROLZeroPageX),
            0x38 => Some(Op::SECImplied),
            0x39 => Some(Op::ANDAbsoluteY),
            0x3D => Some(Op::ANDAbsoluteX),
            0x3E => Some(Op::ROLAbsoluteX),
            0x40 => Some(Op::RTIImplied),
            0x41 => Some(Op::EORIndirectX),
            0x45 => Some(Op::EORZeroPage),
            0x46 => Some(Op::LSRZeroPage),
            0x48 => Some(Op::PHAImplied),
            0x49 => Some(Op::EORImmediate),
            0x4A => Some(Op::LSRAccumulator),
            0x4C => Some(Op::JMPAbsolute),
            0x4D => Some(Op::EORAbsolute),
            0x4E => Some(Op::LSRAbsolute),
            0x50 => Some(Op::BVCRelative),
            0x51 => Some(Op::EORIndirectY),
            0x55 => Some(Op::EORZeroPageX),
            0x56 => Some(Op::LSRZeroPageX),
            0x58 => Some(Op::CLIImplied),
            0x59 => Some(Op::EORAbsoluteY),
            0x5D => Some(Op::EORAbsoluteX),
            0x5E => Some(Op::LSRAbsoluteX),
            0x60 => Some(Op::RTSImplied),
            0x61 => Some(Op::ADCIndirectX),
            0x65 => Some(Op::ADCZeroPage),
            0x66 => Some(Op::RORZeroPage),
            0x68 => Some(Op::PLAImplied),
            0x69 => Some(Op::ADCImmediate),
            0x6A => Some(Op::RORAccumulator),
            0x6C => Some(Op::JMPAbsIndirect),
            0x6D => Some(Op::ADCAbsolute),
            0x6E => Some(Op::RORAbsolute),
            0x70 => Some(Op::BVSRelative),
            0x71 => Some(Op::ADCIndirectY),
            0x75 => Some(Op::ADCZeroPageX),
            0x76 => Some(Op::RORZeroPageX),
            0x78 => Some(Op::SEIImplied),
            0x79 => Some(Op::ADCAbsoluteY),
            0x7D => Some(Op::ADCAbsoluteX),
            0x7E => Some(Op::RORAbsoluteX),
            0x81 => Some(Op::STAIndirectX),
            0x84 => Some(Op::STYZeroPage),
            0x85 => Some(Op::STAZeroPage),
            0x86 => Some(Op::STXZeroPage),
            0x88 => Some(Op::DEYImplied),
            0x8A => Some(Op::TXAImplied),
            0x8C => Some(Op::STYAbsolute),
            0x8D => Some(Op::STAAbsolute),
            0x8E => Some(Op::STXAbsolute),
            0x90 => Some(Op::BCCRelative),
            0x91 => Some(Op::STAIndirectY),
            0x94 => Some(Op::STYZeroPageX),
            0x95 => Some(Op::STAZeroPageX),
            0x96 => Some(Op::STXZeroPageY),
            0x98 => Some(Op::TYAImplied),
            0x99 => Some(Op::STAAbsoluteY),
            0x9A => Some(Op::TXSImplied),
            0x9D => Some(Op::STAAbsoluteX),
            0xA0 => Some(Op::LDYImmediate),
            0xA1 => Some(Op::LDAIndirectX),
            0xA2 => Some(Op::LDXImmediate),
            0xA4 => Some(Op::LDYZeroPage),
            0xA5 => Some(Op::LDAZeroPage),
            0xA6 => Some(Op::LDXZeroPage),
            0xA8 => Some(Op::TAYImplied),
            0xA9 => Some(Op::LDAImmediate),
            0xAA => Some(Op::TAXImplied),
            0xAC => Some(Op::LDYAbsolute),
            0xAD => Some(Op::LDAAbsolute),
            0xAE => Some(Op::LDXAbsolute),
            0xB0 => Some(Op::BCSRelative),
            0xB1 => Some(Op::LDAIndirectY),
            0xB4 => Some(Op::LDYZeroPageX),
            0xB5 => Some(Op::LDAZeroPageX),
            0xB6 => Some(Op::LDXZeroPageY),
            0xB8 => Some(Op::CLVImplied),
            0xB9 => Some(Op::LDAAbsoluteY),
            0xBA => Some(Op::TSXImplied),
            0xBC => Some(Op::LDYAbsoluteX),
            0xBD => Some(Op::LDAAbsoluteX),
            0xBE => Some(Op::LDXAbsoluteY),
            0xC0 => Some(Op::CPYImmediate),
            0xC1 => Some(Op::CMPIndirectX),
            0xC4 => Some(Op::CPYZeroPage),
            0xC5 => Some(Op::CMPZeroPage),
            0xC6 => Some(Op::DECZeroPage),
            0xC8 => Some(Op::INYImplied),
            0xC9 => Some(Op::CMPImmediate),
            0xCA => Some(Op::DEXImplied),
            0xCC => Some(Op::CPYAbsolute),
            0xCD => Some(Op::CMPAbsolute),
            0xCE => Some(Op::DECAbsolute),
            0xD0 => Some(Op::BNERelative),
            0xD1 => Some(Op::CMPIndirectY),
            0xD5 => Some(Op::CMPZeroPageX),
            0xD6 => Some(Op::DECZeroPageX),
            0xD8 => Some(Op::CLDImplied),
            0xD9 => Some(Op::CMPAbsoluteY),
            0xDD => Some(Op::CMPAbsoluteX),
            0xDE => Some(Op::DECAbsoluteX),
            0xE0 => Some(Op::CPXImmediate),
            0xE1 => Some(Op::SBCIndirectX),
            0xE4 => Some(Op::CPXZeroPage),
            0xE5 => Some(Op::SBCZeroPage),
            0xE6 => Some(Op::INCZeroPage),
            0xE8 => Some(Op::INXImplied),
            0xE9 => Some(Op::SBCImmediate),
            0xEA => Some(Op::NOPImplied),
            0xEC => Some(Op::CPXAbsolute),
            0xED => Some(Op::SBCAbsolute),
            0xEE => Some(Op::INCAbsolute),
            0xF0 => Some(Op::BEQRelative),
            0xF1 => Some(Op::SBCIndirectY),
            0xF5 => Some(Op::SBCZeroPageX),
            0xF6 => Some(Op::INCZeroPageX),
            0xF8 => Some(Op::SEDImplied),
            0xF9 => Some(Op::SBCAbsoluteY),
            0xFD => Some(Op::SBCAbsoluteX),
            0xFE => Some(Op::INCAbsoluteX),
            _ => None,
        }
    }

    pub fn to_u8(&self) -> (r: u8)
        ensures
            r == self.code(),
    {
        match self {
            Op::BRKImmediate => 0x00,
            Op::ORAIndirectX => 0x01,
            Op::ORAZeroPage => 0x05,
            Op::ASLZeroPage => 0x06,
            Op::PHPImplied => 0x08,
            Op::ORAImmediate => 0x09,
            Op::ASLAccumulator => 0x0A,
            Op::ORAAbsolute => 0x0D,
            Op::ASLAbsolute => 0x0E,
            Op::BPLRelative => 0x10,
            Op::ORAIndirectY => 0x11,
            Op::ORAZeroPageX => 0x15,
            Op::ASLZeroPageX => 0x16,
            Op::CLCImplied => 0x18,
            Op::ORAAbsoluteY => 0x19,
            Op::ORAAbsoluteX => 0x1D,
            Op::ASLAbsoluteX => 0x1E,
            Op::JSRAbsolute => 0x20,
            Op::ANDIndirectX => 0x21,
            Op::BITZeroPage => 0x24,
            Op::ANDZeroPage => 0x25,
            Op::ROLZeroPage => 0x26,
            Op::PLPImplied => 0x28,
            Op::ANDImmediate => 0x29,
            Op::ROLAccumulator => 0x2A,
            Op::BITAbsolute => 0x2C,
            Op::ANDAbsolute => 0x2D,
            Op::ROLAbsolute => 0x2E,
            Op::BMIRelative => 0x30,
            Op::ANDIndirectY => 0x31,
            Op::ANDZeroPageX => 0x35,
            Op::ROLZeroPageX => 0x36,
            Op::SECImplied => 0x38,
            Op::ANDAbsoluteY => 0x39,
            Op::ANDAbsoluteX => 0x3D,
            Op::ROLAbsoluteX => 0x3E,
            Op::RTIImplied => 0x40,
            Op::EORIndirectX => 0x41,
            Op::EORZeroPage => 0x45,
            Op::LSRZeroPage => 0x46,
            Op::PHAImplied => 0x48,
            Op::EORImmediate => 0x49,
            Op::LSRAccumulator => 0x4A,
            Op::JMPAbsolute => 0x4C,
            Op::EORAbsolute => 0x4D,
            Op::LSRAbsolute => 0x4E,
            Op::BVCRelative => 0x50,
            Op::EORIndirectY => 0x51,
            Op::EORZeroPageX => 0x55,
            Op::LSRZeroPageX => 0x56,
            Op::CLIImplied => 0x58,
            Op::EORAbsoluteY => 0x59,
            Op::EORAbsoluteX => 0x5D,
            Op::LSRAbsoluteX => 0x5E,
            Op::RTSImplied => 0x60,
            Op::ADCIndirectX => 0x61,
            Op::ADCZeroPage => 0x65,
            Op::RORZeroPage => 0x66,
            Op::PLAImplied => 0x68,
            Op::ADCImmediate => 0x69,
            Op::RORAccumulator => 0x6A,
            Op::JMPAbsIndirect => 0x6C,
            Op::ADCAbsolute => 0x6D,
            Op::RORAbsolute => 0x6E,
            Op::BVSRelative => 0x70,
            Op::ADCIndirectY => 0x71,
            Op::ADCZeroPageX => 0x75,
            Op::RORZeroPageX => 0x76,
            Op::SEIImplied => 0x78,
            Op::ADCAbsoluteY => 0x79,
            Op::ADCAbsoluteX => 0x7D,
            Op::RORAbsoluteX => 0x7E,
            Op::STAIndirectX => 0x81,
            Op::STYZeroPage => 0x84,
            Op::STAZeroPage => 0x85,
            Op::STXZeroPage => 0x86,
            Op::DEYImplied => 0x88,
            Op::TXAImplied => 0x8A,
            Op::STYAbsolute => 0x8C,
            Op::STAAbsolute => 0x8D,
            Op::STXAbsolute => 0x8E,
            Op::BCCRelative => 0x90,
            Op::STAIndirectY => 0x91,
            Op::STYZeroPageX => 0x94,
            Op::STAZeroPageX => 0x95,
            Op::STXZeroPageY => 0x96,
            Op::TYAImplied => 0x98,
            Op::STAAbsoluteY => 0x99,
            Op::TXSImplied => 0x9A,
            Op::STAAbsoluteX => 0x9D,
            Op::LDYImmediate => 0xA0,
            Op::LDAIndirectX => 0xA1,
            Op::LDXImmediate => 0xA2,
            Op::LDYZeroPage => 0xA4,
            Op::LDAZeroPage => 0xA5,
            Op::LDXZeroPage => 0xA6,
            Op::TAYImplied => 0xA8,
            Op::LDAImmediate => 0xA9,
            Op::TAXImplied => 0xAA,
            Op::LDYAbsolute => 0xAC,
            Op::LDAAbsolute => 0xAD,
            Op::LDXAbsolute => 0xAE,
            Op::BCSRelative => 0xB0,
            Op::LDAIndirectY => 0xB1,
            Op::LDYZeroPageX => 0xB4,
            Op::LDAZeroPageX => 0xB5,
            Op::LDXZeroPageY => 0xB6,
            Op::CLVImplied => 0xB8,
            Op::LDAAbsoluteY => 0xB9,
            Op::TSXImplied => 0xBA,
            Op::LDYAbsoluteX => 0xBC,
            Op::LDAAbsoluteX => 0xBD,
            Op::LDXAbsoluteY => 0xBE,
            Op::CPYImmediate => 0xC0,
            Op::CMPIndirectX => 0xC1,
            Op::CPYZeroPage => 0xC4,
            Op::CMPZeroPage => 0xC5,
            Op::DECZeroPage => 0xC6,
            Op::INYImplied => 0xC8,
            Op::CMPImmediate => 0xC9,
            Op::DEXImplied => 0xCA,
            Op::CPYAbsolute => 0xCC,
            Op::CMPAbsolute => 0xCD,
            Op::DECAbsolute => 0xCE,
            Op::BNERelative => 0xD0,
            Op::CMPIndirectY => 0xD1,
            Op::CMPZeroPageX => 0xD5,
            Op::DECZeroPageX => 0xD6,
            Op::CLDImplied => 0xD8,
            Op::CMPAbsoluteY => 0xD9,
            Op::CMPAbsoluteX => 0xDD,
            Op::DECAbsoluteX => 0xDE,
            Op::CPXImmediate => 0xE0,
            Op::SBCIndirectX => 0xE1,
            Op::CPXZeroPage => 0xE4,
            Op::SBCZeroPage => 0xE5,
            Op::INCZeroPage => 0xE6,
            Op::INXImplied => 0xE8,
            Op::SBCImmediate => 0xE9,
            Op::NOPImplied => 0xEA,
            Op::CPXAbsolute => 0xEC,
            Op::SBCAbsolute => 0xED,
            Op::INCAbsolute => 0xEE,
            Op::BEQRelative => 0xF0,
            Op::SBCIndirectY => 0xF1,
            Op::SBCZeroPageX => 0xF5,
            Op::INCZeroPageX => 0xF6,
            Op::SEDImplied => 0xF8,
            Op::SBCAbsoluteY => 0xF9,
            Op::SBCAbsoluteX => 0xFD,
            Op::INCAbsoluteX => 0xFE,
        }
    }

    pub fn get_info(&self) -> (r: OpInfo)
        ensures
            r == self.info(),
    {
        match self {
            Op::BRKImmediate => OpInfo { mnemonic: Mnemonic::BRK, mode: AddrMode::Immediate, cycles: 7 },
            Op::ORAIndirectX => OpInfo { mnemonic: Mnemonic::ORA, mode: AddrMode::IndirectX, cycles: 6 },
            Op::ORAZeroPage => OpInfo { mnemonic: Mnemonic::ORA, mode: AddrMode::ZeroPage, cycles: 3 },
            Op::ASLZeroPage => OpInfo { mnemonic: Mnemonic::ASL, mode: AddrMode::ZeroPage, cycles: 5 },
            Op::PHPImplied => OpInfo { mnemonic: Mnemonic::PHP, mode: AddrMode::Implied, cycles: 3 },
            Op::ORAImmediate => OpInfo { mnemonic: Mnemonic::ORA, mode: AddrMode::Immediate, cycles: 2 },
            Op::ASLAccumulator => OpInfo { mnemonic: Mnemonic::ASL, mode: AddrMode::Accumulator, cycles: 2 },
            Op::ORAAbsolute => OpInfo { mnemonic: Mnemonic::ORA, mode: AddrMode::Absolute, cycles: 4 },
            Op::ASLAbsolute => OpInfo { mnemonic: Mnemonic::ASL, mode: AddrMode::Absolute, cycles: 6 },
            Op::BPLRelative => OpInfo { mnemonic: Mnemonic::BPL, mode: AddrMode::Relative, cycles: 2 },
            Op::ORAIndirectY => OpInfo { mnemonic: Mnemonic::ORA, mode: AddrMode::IndirectY, cycles: 5 },
            Op::ORAZeroPageX => OpInfo { mnemonic: Mnemonic::ORA, mode: AddrMode::ZeroPageX, cycles: 4 },
            Op::ASLZeroPageX => OpInfo { mnemonic: Mnemonic::ASL, mode: AddrMode::ZeroPageX, cycles: 6 },
            Op::CLCImplied => OpInfo { mnemonic: Mnemonic::CLC, mode: AddrMode::Implied, cycles: 2 },
            Op::ORAAbsoluteY => OpInfo { mnemonic: Mnemonic::ORA, mode: AddrMode::AbsoluteY, cycles: 4 },
            Op::ORAAbsoluteX => OpInfo { mnemonic: Mnemonic::ORA, mode: AddrMode::AbsoluteX, cycles: 4 },
            Op::ASLAbsoluteX => OpInfo { mnemonic: Mnemonic::ASL, mode: AddrMode::AbsoluteX, cycles: 7 },
            Op::JSRAbsolute => OpInfo { mnemonic: Mnemonic::JSR, mode: AddrMode::Absolute, cycles: 6 },
            Op::ANDIndirectX => OpInfo { mnemonic: Mnemonic::AND, mode: AddrMode::IndirectX, cycles: 6 },
            Op::BITZeroPage => OpInfo { mnemonic: Mnemonic::BIT, mode: AddrMode::ZeroPage, cycles: 3 },
            Op::ANDZeroPage => OpInfo { mnemonic: Mnemonic::AND, mode: AddrMode::ZeroPage, cycles: 3 },
            Op::ROLZeroPage => OpInfo { mnemonic: Mnemonic::ROL, mode: AddrMode::ZeroPage, cycles: 5 },
            Op::PLPImplied => OpInfo { mnemonic: Mnemonic::PLP, mode: AddrMode::Implied, cycles: 4 },
            Op::ANDImmediate => OpInfo { mnemonic: Mnemonic::AND, mode: AddrMode::Immediate, cycles: 2 },
            Op::ROLAccumulator => OpInfo { mnemonic: Mnemonic::ROL, mode: AddrMode::Accumulator, cycles: 2 },
            Op::BITAbsolute => OpInfo { mnemonic: Mnemonic::BIT, mode: AddrMode::Absolute, cycles: 4 },
            Op::ANDAbsolute => OpInfo { mnemonic: Mnemonic::AND, mode: AddrMode::Absolute, cycles: 4 },
            Op::ROLAbsolute => OpInfo { mnemonic: Mnemonic::ROL, mode: AddrMode::Absolute, cycles: 6 },
            Op::BMIRelative => OpInfo { mnemonic: Mnemonic::BMI, mode: AddrMode::Relative, cycles: 2 },
            Op::ANDIndirectY => OpInfo { mnemonic: Mnemonic::AND, mode: AddrMode::IndirectY, cycles: 5 },
            Op::ANDZeroPageX => OpInfo { mnemonic: Mnemonic::AND, mode: AddrMode::ZeroPageX, cycles: 4 },
            Op::ROLZeroPageX => OpInfo { mnemonic: Mnemonic::ROL, mode: AddrMode::ZeroPageX, cycles: 6 },
            Op::SECImplied => OpInfo { mnemonic: Mnemonic::SEC, mode: AddrMode::Implied, cycles: 2 },
            Op::ANDAbsoluteY => OpInfo { mnemonic: Mnemonic::AND, mode: AddrMode::AbsoluteY, cycles: 4 },
            Op::ANDAbsoluteX => OpInfo { mnemonic: Mnemonic::AND, mode: AddrMode::AbsoluteX, cycles: 4 },
            Op::ROLAbsoluteX => OpInfo { mnemonic: Mnemonic::ROL, mode: AddrMode::AbsoluteX, cycles: 7 },
            Op::RTIImplied => OpInfo { mnemonic: Mnemonic::RTI, mode: AddrMode::Implied, cycles: 6 },
            Op::EORIndirectX => OpInfo { mnemonic: Mnemonic::EOR, mode: AddrMode::IndirectX, cycles: 6 },
            Op::EORZeroPage => OpInfo { mnemonic: Mnemonic::EOR, mode: AddrMode::ZeroPage, cycles: 3 },
            Op::LSRZeroPage => OpInfo { mnemonic: Mnemonic::LSR, mode: AddrMode::ZeroPage, cycles: 5 },
            Op::PHAImplied => OpInfo { mnemonic: Mnemonic::PHA, mode: AddrMode::Implied, cycles: 3 },
            Op::EORImmediate => OpInfo { mnemonic: Mnemonic::EOR, mode: AddrMode::Immediate, cycles: 2 },
            Op::LSRAccumulator => OpInfo { mnemonic: Mnemonic::LSR, mode: AddrMode::Accumulator, cycles: 2 },
            Op::JMPAbsolute => OpInfo { mnemonic: Mnemonic::JMP, mode: AddrMode::Absolute, cycles: 3 },
            Op::EORAbsolute => OpInfo { mnemonic: Mnemonic::EOR, mode: AddrMode::Absolute, cycles: 4 },
            Op::LSRAbsolute => OpInfo { mnemonic: Mnemonic::LSR, mode: AddrMode::Absolute, cycles: 6 },
            Op::BVCRelative => OpInfo { mnemonic: Mnemonic::BVC, mode: AddrMode::Relative, cycles: 2 },
            Op::EORIndirectY => OpInfo { mnemonic: Mnemonic::EOR, mode: AddrMode::IndirectY, cycles: 5 },
            Op::EORZeroPageX => OpInfo { mnemonic: Mnemonic::EOR, mode: AddrMode::ZeroPageX, cycles: 4 },
            Op::LSRZeroPageX => OpInfo { mnemonic: Mnemonic::LSR, mode: AddrMode::ZeroPageX, cycles: 6 },
            Op::CLIImplied => OpInfo { mnemonic: Mnemonic::CLI, mode: AddrMode::Implied, cycles: 2 },
            Op::EORAbsoluteY => OpInfo { mnemonic: Mnemonic::EOR, mode: AddrMode::AbsoluteY, cycles: 4 },
            Op::EORAbsoluteX => OpInfo { mnemonic: Mnemonic::EOR, mode: AddrMode::AbsoluteX, cycles: 4 },
            Op::LSRAbsoluteX => OpInfo { mnemonic: Mnemonic::LSR, mode: AddrMode::AbsoluteX, cycles: 7 },
            Op::RTSImplied => OpInfo { mnemonic: Mnemonic::RTS, mode: AddrMode::Implied, cycles: 6 },
            Op::ADCIndirectX => OpInfo { mnemonic: Mnemonic::ADC, mode: AddrMode::IndirectX, cycles: 6 },
            Op::ADCZeroPage => OpInfo { mnemonic: Mnemonic::ADC, mode: AddrMode::ZeroPage, cycles: 3 },
            Op::RORZeroPage => OpInfo { mnemonic: Mnemonic::ROR, mode: AddrMode::ZeroPage, cycles: 5 },
            Op::PLAImplied => OpInfo { mnemonic: Mnemonic::PLA, mode: AddrMode::Implied, cycles: 4 },
            Op::ADCImmediate => OpInfo { mnemonic: Mnemonic::ADC, mode: AddrMode::Immediate, cycles: 2 },
            Op::RORAccumulator => OpInfo { mnemonic: Mnemonic::ROR, mode: AddrMode::Accumulator, cycles: 2 },
            Op::JMPAbsIndirect => OpInfo { mnemonic: Mnemonic::JMP, mode: AddrMode::AbsIndirect, cycles: 5 },
            Op::ADCAbsolute => OpInfo { mnemonic: Mnemonic::ADC, mode: AddrMode::Absolute, cycles: 4 },
            Op::RORAbsolute => OpInfo { mnemonic: Mnemonic::ROR, mode: AddrMode::Absolute, cycles: 6 },
            Op::BVSRelative => OpInfo { mnemonic: Mnemonic::BVS, mode: AddrMode::Relative, cycles: 2 },
            Op::ADCIndirectY => OpInfo { mnemonic: Mnemonic::ADC, mode: AddrMode::IndirectY, cycles: 5 },
            Op::ADCZeroPageX => OpInfo { mnemonic: Mnemonic::ADC, mode: AddrMode::ZeroPageX, cycles: 4 },
            Op::RORZeroPageX => OpInfo { mnemonic: Mnemonic::ROR, mode: AddrMode::ZeroPageX, cycles: 6 },
            Op::SEIImplied => OpInfo { mnemonic: Mnemonic::SEI, mode: AddrMode::Implied, cycles: 2 },
            Op::ADCAbsoluteY => OpInfo { mnemonic: Mnemonic::ADC, mode: AddrMode::AbsoluteY, cycles: 4 },
            Op::ADCAbsoluteX => OpInfo { mnemonic: Mnemonic::ADC, mode: AddrMode::AbsoluteX, cycles: 4 },
            Op::RORAbsoluteX => OpInfo { mnemonic: Mnemonic::ROR, mode: AddrMode::AbsoluteX, cycles: 7 },
            Op::STAIndirectX => OpInfo { mnemonic: Mnemonic::STA, mode: AddrMode::IndirectX, cycles: 6 },
            Op::STYZeroPage => OpInfo { mnemonic: Mnemonic::STY, mode: AddrMode::ZeroPage, cycles: 3 },
            Op::STAZeroPage => OpInfo { mnemonic: Mnemonic::STA, mode: AddrMode::ZeroPage, cycles: 3 },
            Op::STXZeroPage => OpInfo { mnemonic: Mnemonic::STX, mode: AddrMode::ZeroPage, cycles: 3 },
            Op::DEYImplied => OpInfo { mnemonic: Mnemonic::DEY, mode: AddrMode::Implied, cycles: 2 },
            Op::TXAImplied => OpInfo { mnemonic: Mnemonic::TXA, mode: AddrMode::Implied, cycles: 2 },
            Op::STYAbsolute => OpInfo { mnemonic: Mnemonic::STY, mode: AddrMode::Absolute, cycles: 4 },
            Op::STAAbsolute => OpInfo { mnemonic: Mnemonic::STA, mode: AddrMode::Absolute, cycles: 4 },
            Op::STXAbsolute => OpInfo { mnemonic: Mnemonic::STX, mode: AddrMode::Absolute, cycles: 4 },
            Op::BCCRelative => OpInfo { mnemonic: Mnemonic::BCC, mode: AddrMode::Relative, cycles: 2 },
            Op::STAIndirectY => OpInfo { mnemonic: Mnemonic::STA, mode: AddrMode::IndirectY, cycles: 6 },
            Op::STYZeroPageX => OpInfo { mnemonic: Mnemonic::STY, mode: AddrMode::ZeroPageX, cycles: 4 },
            Op::STAZeroPageX => OpInfo { mnemonic: Mnemonic::STA, mode: AddrMode::ZeroPageX, cycles: 4 },
            Op::STXZeroPageY => OpInfo { mnemonic: Mnemonic::STX, mode: AddrMode::ZeroPageY, cycles: 4 },
            Op::TYAImplied => OpInfo { mnemonic: Mnemonic::TYA, mode: AddrMode::Implied, cycles: 2 },
            Op::STAAbsoluteY => OpInfo { mnemonic: Mnemonic::STA, mode: AddrMode::AbsoluteY, cycles: 5 },
            Op::TXSImplied => OpInfo { mnemonic: Mnemonic::TXS, mode: AddrMode::Implied, cycles: 2 },
            Op::STAAbsoluteX => OpInfo { mnemonic: Mnemonic::STA, mode: AddrMode::AbsoluteX, cycles: 5 },
            Op::LDYImmediate => OpInfo { mnemonic: Mnemonic::LDY, mode: AddrMode::Immediate, cycles: 2 },
            Op::LDAIndirectX => OpInfo { mnemonic: Mnemonic::LDA, mode: AddrMode::IndirectX, cycles: 6 },
            Op::LDXImmediate => OpInfo { mnemonic: Mnemonic::LDX, mode: AddrMode::Immediate, cycles: 2 },
            Op::LDYZeroPage => OpInfo { mnemonic: Mnemonic::LDY, mode: AddrMode::ZeroPage, cycles: 3 },
            Op::LDAZeroPage => OpInfo { mnemonic: Mnemonic::LDA, mode: AddrMode::ZeroPage, cycles: 3 },
            Op::LDXZeroPage => OpInfo { mnemonic: Mnemonic::LDX, mode: AddrMode::ZeroPage, cycles: 3 },
            Op::TAYImplied => OpInfo { mnemonic: Mnemonic::TAY, mode: AddrMode::Implied, cycles: 2 },
            Op::LDAImmediate => OpInfo { mnemonic: Mnemonic::LDA, mode: AddrMode::Immediate, cycles: 2 },
            Op::TAXImplied => OpInfo { mnemonic: Mnemonic::TAX, mode: AddrMode::Implied, cycles: 2 },
            Op::LDYAbsolute => OpInfo { mnemonic: Mnemonic::LDY, mode: AddrMode::Absolute, cycles: 4 },
            Op::LDAAbsolute => OpInfo { mnemonic: Mnemonic::LDA, mode: AddrMode::Absolute, cycles: 4 },
            Op::LDXAbsolute => OpInfo { mnemonic: Mnemonic::LDX, mode: AddrMode::Absolute, cycles: 4 },
            Op::BCSRelative => OpInfo { mnemonic: Mnemonic::BCS, mode: AddrMode::Relative, cycles: 2 },
            Op::LDAIndirectY => OpInfo { mnemonic: Mnemonic::LDA, mode: AddrMode::IndirectY, cycles: 5 },
            Op::LDYZeroPageX => OpInfo { mnemonic: Mnemonic::LDY, mode: AddrMode::ZeroPageX, cycles: 4 },
            Op::LDAZeroPageX => OpInfo { mnemonic: Mnemonic::LDA, mode: AddrMode::ZeroPageX, cycles: 4 },
            Op::LDXZeroPageY => OpInfo { mnemonic: Mnemonic::LDX, mode: AddrMode::ZeroPageY, cycles: 4 },
            Op::CLVImplied => OpInfo { mnemonic: Mnemonic::CLV, mode: AddrMode::Implied, cycles: 2 },
            Op::LDAAbsoluteY => OpInfo { mnemonic: Mnemonic::LDA, mode: AddrMode::AbsoluteY, cycles: 4 },
            Op::TSXImplied => OpInfo { mnemonic: Mnemonic::TSX, mode: AddrMode::Implied, cycles: 2 },
            Op::LDYAbsoluteX => OpInfo { mnemonic: Mnemonic::LDY, mode: AddrMode::AbsoluteX, cycles: 4 },
            Op::LDAAbsoluteX => OpInfo { mnemonic: Mnemonic::LDA, mode: AddrMode::AbsoluteX, cycles: 4 },
            Op::LDXAbsoluteY => OpInfo { mnemonic: Mnemonic::LDX, mode: AddrMode::AbsoluteY, cycles: 4 },
            Op::CPYImmediate => OpInfo { mnemonic: Mnemonic::CPY, mode: AddrMode::Immediate, cycles: 2 },
            Op::CMPIndirectX => OpInfo { mnemonic: Mnemonic::CMP, mode: AddrMode::IndirectX, cycles: 6 },
            Op::CPYZeroPage => OpInfo { mnemonic: Mnemonic::CPY, mode: AddrMode::ZeroPage, cycles: 3 },
            Op::CMPZeroPage => OpInfo { mnemonic: Mnemonic::CMP, mode: AddrMode::ZeroPage, cycles: 3 },
            Op::DECZeroPage => OpInfo { mnemonic: Mnemonic::DEC, mode: AddrMode::ZeroPage, cycles: 5 },
            Op::INYImplied => OpInfo { mnemonic: Mnemonic::INY, mode: AddrMode::Implied, cycles: 2 },
            Op::CMPImmediate => OpInfo { mnemonic: Mnemonic::CMP, mode: AddrMode::Immediate, cycles: 2 },
            Op::DEXImplied => OpInfo { mnemonic: Mnemonic::DEX, mode: AddrMode::Implied, cycles: 2 },
            Op::CPYAbsolute => OpInfo { mnemonic: Mnemonic::CPY, mode: AddrMode::Absolute, cycles: 4 },
            Op::CMPAbsolute => OpInfo { mnemonic: Mnemonic::CMP, mode: AddrMode::Absolute, cycles: 4 },
            Op::DECAbsolute => OpInfo { mnemonic: Mnemonic::DEC, mode: AddrMode::Absolute, cycles: 4 },
            Op::BNERelative => OpInfo { mnemonic: Mnemonic::BNE, mode: AddrMode::Relative, cycles: 2 },
            Op::CMPIndirectY => OpInfo { mnemonic: Mnemonic::CMP, mode: AddrMode::IndirectY, cycles: 5 },
            Op::CMPZeroPageX => OpInfo { mnemonic: Mnemonic::CMP, mode: AddrMode::ZeroPageX, cycles: 4 },
            Op::DECZeroPageX => OpInfo { mnemonic: Mnemonic::DEC, mode: AddrMode::ZeroPageX, cycles: 6 },
            Op::CLDImplied => OpInfo { mnemonic: Mnemonic::CLD, mode: AddrMode::Implied, cycles: 2 },
            Op::CMPAbsoluteY => OpInfo { mnemonic: Mnemonic::CMP, mode: AddrMode::AbsoluteY, cycles: 4 },
            Op::CMPAbsoluteX => OpInfo { mnemonic: Mnemonic::CMP, mode: AddrMode::AbsoluteX, cycles: 4 },
            Op::DECAbsoluteX => OpInfo { mnemonic: Mnemonic::DEC, mode: AddrMode::AbsoluteX, cycles: 7 },
            Op::CPXImmediate => OpInfo { mnemonic: Mnemonic::CPX, mode: AddrMode::Immediate, cycles: 2 },
            Op::SBCIndirectX => OpInfo { mnemonic: Mnemonic::SBC, mode: AddrMode::IndirectX, cycles: 6 },
            Op::CPXZeroPage => OpInfo { mnemonic: Mnemonic::CPX, mode: AddrMode::ZeroPage, cycles: 3 },
            Op::SBCZeroPage => OpInfo { mnemonic: Mnemonic::SBC, mode: AddrMode::ZeroPage, cycles: 3 },
            Op::INCZeroPage => OpInfo { mnemonic: Mnemonic::INC, mode: AddrMode::ZeroPage, cycles: 5 },
            Op::INXImplied => OpInfo { mnemonic: Mnemonic::INX, mode: AddrMode::Implied, cycles: 2 },
            Op::SBCImmediate => OpInfo { mnemonic: Mnemonic::SBC, mode: AddrMode::Immediate, cycles: 2 },
            Op::NOPImplied => OpInfo { mnemonic: Mnemonic::NOP, mode: AddrMode::Implied, cycles: 2 },
            Op::CPXAbsolute => OpInfo { mnemonic: Mnemonic::CPX, mode: AddrMode::Absolute, cycles: 4 },
            Op::SBCAbsolute => OpInfo { mnemonic: Mnemonic::SBC, mode: AddrMode::Absolute, cycles: 4 },
            Op::INCAbsolute => OpInfo { mnemonic: Mnemonic::INC, mode: AddrMode::Absolute, cycles: 6 },
            Op::BEQRelative => OpInfo { mnemonic: Mnemonic::BEQ, mode: AddrMode::Relative, cycles: 2 },
            Op::SBCIndirectY => OpInfo { mnemonic: Mnemonic::SBC, mode: AddrMode::IndirectY, cycles: 5 },
            Op::SBCZeroPageX => OpInfo { mnemonic: Mnemonic::SBC, mode: AddrMode::ZeroPageX, cycles: 4 },
            Op::INCZeroPageX => OpInfo { mnemonic: Mnemonic::INC, mode: AddrMode::ZeroPageX, cycles: 6 },
            Op::SEDImplied => OpInfo { mnemonic: Mnemonic::SED, mode: AddrMode::Implied, cycles: 2 },
            Op::SBCAbsoluteY => OpInfo { mnemonic: Mnemonic::SBC, mode: AddrMode::AbsoluteY, cycles: 2 },
            Op::SBCAbsoluteX => OpInfo { mnemonic: Mnemonic::SBC, mode: AddrMode::AbsoluteX, cycles: 4 },
            Op::INCAbsoluteX => OpInfo { mnemonic: Mnemonic::INC, mode: AddrMode::AbsoluteX, cycles: 7 },
        }
    }

    pub fn mnemonic(&self) -> (r: Mnemonic)
        ensures
            r == self.info().mnemonic,
    {
        self.get_info().mnemonic
    }

    pub fn mode(&self) -> (r: AddrMode)
        ensures
            r == self.info().mode,
    {
        self.get_info().mode
    }

    /// The cycles that the instruction takes, whatever its operand.
    pub fn cycles(&self) -> (r: u32)
        ensures
            r == self.info().cycles,
            2 <= r <= 7,
    {
        self.get_info().cycles
    }
}

/// Every instruction is found again from its byte: no byte stands for two
/// instructions.
pub proof fn lemma_code_decodes(op: Op)
    ensures
        Op::decode(op.code()) == Some(op),
{
}

/// A byte that stands for an instruction is that instruction's byte.
pub proof fn lemma_decode_finds_code(byte: u8)
    ensures
        Op::decode(byte) matches Some(op) ==> op.code() == byte,
{
}

/// Two instructions with the same byte are the same instruction.
pub proof fn lemma_code_injective(a: Op, b: Op)
    requires
        a.code() == b.code(),
    ensures
        a == b,
{
    lemma_code_decodes(a);
    lemma_code_decodes(b);
}

/// The three bytes at the program counter, packed: the instruction byte lowest,
/// then the first and the second operand byte.
#[derive(Copy, Clone, Debug, PartialEq, Eq, Structural)]
pub struct Opcode {
    pub instruction: u32,
}

/// The packed form of three bytes.
pub open spec fn pack(op: u8, imm1: u8, imm2: u8) -> u32 {
    (op + 0x100 * imm1 + 0x10000 * imm2) as u32
}

impl Opcode {
    pub fn new(op: u32) -> (r: Opcode)
        ensures
            r.instruction == op,
    {
        Opcode { instruction: op }
    }

    /// Packs the instruction byte and its two operand bytes.
    pub fn from_bytes(op: u8, imm1: u8, imm2: u8) -> (r: Opcode)
        ensures
            r.instruction == pack(op, imm1, imm2),
    {
        let word: u32 = (op as u32) + 0x100 * (imm1 as u32) + 0x10000 * (imm2 as u32);
        Opcode { instruction: word }
    }

    pub fn op(&self) -> (r: u8)
        ensures
            r == self.instruction % 0x100,
    {
        let word: u32 = self.instruction;
        assert(word & 0xFF == word % 0x100) by (bit_vector);
        (word & 0xFF) as u8
    }

    pub fn imm1(&self) -> (r: u8)
        ensures
            r == (self.instruction / 0x100) % 0x100,
    {
        let word: u32 = self.instruction;
        assert((word >> 8) & 0xFF == (word / 0x100) % 0x100) by (bit_vector);
        ((word >> 8) & 0xFF) as u8
    }

    pub fn imm2(&self) -> (r: u8)
        ensures
            r == (self.instruction / 0x10000) % 0x100,
    {
        let word: u32 = self.instruction;
        assert((word >> 16) & 0xFF == (word / 0x10000) % 0x100) by (bit_vector);
        ((word >> 16) & 0xFF) as u8
    }

    /// The two operand bytes read as an address, the first byte low.
    pub fn abs_addr(&self) -> (r: usize)
        ensures
            r == self.instruction / 0x100,
    {
        let word: u32 = self.instruction;
        assert(word >> 8 == word / 0x100) by (bit_vector);
        (word >> 8) as usize
    }
}

/// What was packed comes out again.
pub proof fn lemma_pack_unpacks(op: u8, imm1: u8, imm2: u8)
    ensures
        pack(op, imm1, imm2) % 0x100 == op,
        (pack(op, imm1, imm2) / 0x100) % 0x100 == imm1,
        (pack(op, imm1, imm2) / 0x10000) % 0x100 == imm2,
        pack(op, imm1, imm2) / 0x100 == imm1 + 0x100 * imm2,
{
}

} // verus!
