//! The instruction catalog: a total mapping from every opcode byte to an
//! operation, an addressing mode, and an informational cycle-cost descriptor.

use vstd::prelude::*;

verus! {

/// The scheme by which an instruction's operand bytes are interpreted.
#[derive(Copy, Clone, Debug)]
pub enum AddressingMode {
    Implied,
    Accumulator,
    Immediate,
    ZeroPage,
    ZeroPageX,
    ZeroPageY,
    Relative,
    Absolute,
    AbsoluteX,
    AbsoluteY,
    Indirect,
    IndirectX,
    IndirectY,
}

impl AddressingMode {
    /// How many operand bytes follow the opcode byte for this mode.
    pub open spec fn spec_operand_bytes(self) -> u16 {
        match self {
            AddressingMode::Implied => 0,
            AddressingMode::Accumulator => 0,
            AddressingMode::Immediate => 1,
            AddressingMode::ZeroPage => 1,
            AddressingMode::ZeroPageX => 1,
            AddressingMode::ZeroPageY => 1,
            AddressingMode::Relative => 1,
            AddressingMode::Absolute => 2,
            AddressingMode::AbsoluteX => 2,
            AddressingMode::AbsoluteY => 2,
            AddressingMode::Indirect => 2,
            AddressingMode::IndirectX => 1,
            AddressingMode::IndirectY => 1,
        }
    }

    pub fn operand_bytes(self) -> (n: u16)
        ensures
            n == self.spec_operand_bytes(),
    {
        match self {
            AddressingMode::Implied => 0,
            AddressingMode::Accumulator => 0,
            AddressingMode::Immediate => 1,
            AddressingMode::ZeroPage => 1,
            AddressingMode::ZeroPageX => 1,
            AddressingMode::ZeroPageY => 1,
            AddressingMode::Relative => 1,
            AddressingMode::Absolute => 2,
            AddressingMode::AbsoluteX => 2,
            AddressingMode::AbsoluteY => 2,
            AddressingMode::Indirect => 2,
            AddressingMode::IndirectX => 1,
            AddressingMode::IndirectY => 1,
        }
    }
}

/// Informational cycle cost of an opcode. Carried by the catalog for future
/// use; execution semantics do not depend on it.
#[derive(Copy, Clone, Debug)]
pub enum Cycles {
    /// Exact amount of cycles.
    Exact(u16),
    /// Exact amount of cycles, plus one if a page boundary is crossed.
    PageBoundary(u16),
    /// 2 cycles if not taken; 3 if taken, plus one if a boundary is crossed.
    Branching,
}

/// Operation identifiers, plus a sentinel for opcode bytes with no defined
/// semantics.
#[derive(Copy, Clone, Debug)]
pub enum Instruction {
    LDA,
    LDX,
    LDY,
    STA,
    STX,
    STY,
    TAX,
    TAY,
    TXA,
    TYA,
    DEX,
    DEY,
    DEC,
    INX,
    INY,
    INC,
    TSX,
    TXS,
    JMP,
    ASL,
    CMP,
    CPX,
    CPY,
    CLC,
    CLD,
    CLI,
    CLV,
    SEC,
    SED,
    SEI,
    PHA,
    PHP,
    PLA,
    PLP,
    NOP,
    BCC,
    BCS,
    BNE,
    BEQ,
    BPL,
    BMI,
    BVC,
    BVS,
    JSR,
    RTS,
    Undefined,
}

/// The catalog entry for an opcode byte: operation, addressing mode, cycles.
/// Total over the whole byte range; bytes with no defined semantics map to
/// the `Undefined` sentinel.
pub open spec fn spec_opcode_lookup(op: u8) -> (Instruction, AddressingMode, Cycles) {
    match op {
        0x06 => (Instruction::ASL, AddressingMode::ZeroPage, Cycles::Exact(5)),
        0x08 => (Instruction::PHP, AddressingMode::Implied, Cycles::Exact(3)),
        0x0a => (Instruction::ASL, AddressingMode::Accumulator, Cycles::Exact(2)),
        0x0e => (Instruction::ASL, AddressingMode::Absolute, Cycles::Exact(6)),
        0x10 => (Instruction::BPL, AddressingMode::Relative, Cycles::Branching),
        0x16 => (Instruction::ASL, AddressingMode::ZeroPageX, Cycles::Exact(6)),
        0x18 => (Instruction::CLC, AddressingMode::Implied, Cycles::Exact(2)),
        0x1e => (Instruction::ASL, AddressingMode::AbsoluteX, Cycles::Exact(7)),
        0x20 => (Instruction::JSR, AddressingMode::Absolute, Cycles::Exact(6)),
        0x28 => (Instruction::PLP, AddressingMode::Implied, Cycles::Exact(4)),
        0x30 => (Instruction::BMI, AddressingMode::Relative, Cycles::Branching),
        0x38 => (Instruction::SEC, AddressingMode::Implied, Cycles::Exact(2)),
        0x48 => (Instruction::PHA, AddressingMode::Implied, Cycles::Exact(3)),
        0x4c => (Instruction::JMP, AddressingMode::Absolute, Cycles::Exact(3)),
        0x50 => (Instruction::BVC, AddressingMode::Relative, Cycles::Branching),
        0x58 => (Instruction::CLI, AddressingMode::Implied, Cycles::Exact(2)),
        0x60 => (Instruction::RTS, AddressingMode::Implied, Cycles::Exact(6)),
        0x68 => (Instruction::PLA, AddressingMode::Implied, Cycles::Exact(4)),
        0x6c => (Instruction::JMP, AddressingMode::Indirect, Cycles::Exact(5)),
        0x70 => (Instruction::BVS, AddressingMode::Relative, Cycles::Branching),
        0x78 => (Instruction::SEI, AddressingMode::Implied, Cycles::Exact(2)),
        0x81 => (Instruction::STA, AddressingMode::IndirectX, Cycles::Exact(6)),
        0x84 => (Instruction::STY, AddressingMode::ZeroPage, Cycles::Exact(3)),
        0x85 => (Instruction::STA, AddressingMode::ZeroPage, Cycles::Exact(3)),
        0x86 => (Instruction::STX, AddressingMode::ZeroPage, Cycles::Exact(3)),
        0x88 => (Instruction::DEY, AddressingMode::Implied, Cycles::Exact(2)),
        0x8a => (Instruction::TXA, AddressingMode::Implied, Cycles::Exact(2)),
        0x8c => (Instruction::STY, AddressingMode::Absolute, Cycles::Exact(4)),
        0x8d => (Instruction::STA, AddressingMode::Absolute, Cycles::Exact(4)),
        0x8e => (Instruction::STX, AddressingMode::Absolute, Cycles::Exact(4)),
        0x90 => (Instruction::BCC, AddressingMode::Relative, Cycles::Branching),
        0x91 => (Instruction::STA, AddressingMode::IndirectY, Cycles::Exact(6)),
        0x94 => (Instruction::STY, AddressingMode::ZeroPageX, Cycles::Exact(4)),
        0x95 => (Instruction::STA, AddressingMode::ZeroPageX, Cycles::Exact(4)),
        0x96 => (Instruction::STX, AddressingMode::ZeroPageY, Cycles::Exact(4)),
        0x98 => (Instruction::TYA, AddressingMode::Implied, Cycles::Exact(2)),
        0x99 => (Instruction::STA, AddressingMode::AbsoluteY, Cycles::Exact(5)),
        0x9a => (Instruction::TXS, AddressingMode::Implied, Cycles::Exact(2)),
        0x9d => (Instruction::STA, AddressingMode::AbsoluteX, Cycles::Exact(5)),
        0xa0 => (Instruction::LDY, AddressingMode::Immediate, Cycles::Exact(2)),
        0xa1 => (Instruction::LDA, AddressingMode::IndirectX, Cycles::Exact(6)),
        0xa2 => (Instruction::LDX, AddressingMode::Immediate, Cycles::Exact(2)),
        0xa4 => (Instruction::LDY, AddressingMode::ZeroPage, Cycles::Exact(3)),
        0xa5 => (Instruction::LDA, AddressingMode::ZeroPage, Cycles::Exact(3)),
        0xa6 => (Instruction::LDX, AddressingMode::ZeroPage, Cycles::Exact(3)),
        0xa8 => (Instruction::TAY, AddressingMode::Implied, Cycles::Exact(2)),
        0xa9 => (Instruction::LDA, AddressingMode::Immediate, Cycles::Exact(2)),
        0xaa => (Instruction::TAX, AddressingMode::Implied, Cycles::Exact(2)),
        0xac => (Instruction::LDY, AddressingMode::Absolute, Cycles::Exact(4)),
        0xad => (Instruction::LDA, AddressingMode::Absolute, Cycles::Exact(4)),
        0xae => (Instruction::LDX, AddressingMode::Absolute, Cycles::Exact(4)),
        0xb0 => (Instruction::BCS, AddressingMode::Relative, Cycles::Branching),
        0xb1 => (Instruction::LDA, AddressingMode::IndirectY, Cycles::PageBoundary(5)),
        0xb4 => (Instruction::LDY, AddressingMode::ZeroPageX, Cycles::Exact(4)),
        0xb5 => (Instruction::LDA, AddressingMode::ZeroPageX, Cycles::Exact(4)),
        0xb6 => (Instruction::LDX, AddressingMode::ZeroPageY, Cycles::Exact(4)),
        0xb8 => (Instruction::CLV, AddressingMode::Implied, Cycles::Exact(2)),
        0xb9 => (Instruction::LDA, AddressingMode::AbsoluteY, Cycles::PageBoundary(4)),
        0xba => (Instruction::TSX, AddressingMode::Implied, Cycles::Exact(2)),
        0xbc => (Instruction::LDY, AddressingMode::AbsoluteX, Cycles::PageBoundary(4)),
        0xbd => (Instruction::LDA, AddressingMode::AbsoluteX, Cycles::PageBoundary(4)),
        0xbe => (Instruction::LDX, AddressingMode::AbsoluteY, Cycles::PageBoundary(4)),
        0xc0 => (Instruction::CPY, AddressingMode::Immediate, Cycles::Exact(2)),
        0xc1 => (Instruction::CMP, AddressingMode::IndirectX, Cycles::Exact(6)),
        0xc4 => (Instruction::CPY, AddressingMode::ZeroPage, Cycles::Exact(3)),
        0xc5 => (Instruction::CMP, AddressingMode::ZeroPage, Cycles::Exact(3)),
        0xc6 => (Instruction::DEC, AddressingMode::ZeroPage, Cycles::Exact(5)),
        0xc8 => (Instruction::INY, AddressingMode::Implied, Cycles::Exact(2)),
        0xc9 => (Instruction::CMP, AddressingMode::Immediate, Cycles::Exact(2)),
        0xca => (Instruction::DEX, AddressingMode::Implied, Cycles::Exact(2)),
        0xcc => (Instruction::CPY, AddressingMode::Absolute, Cycles::Exact(4)),
        0xcd => (Instruction::CMP, AddressingMode::Absolute, Cycles::Exact(4)),
        0xce => (Instruction::DEC, AddressingMode::Absolute, Cycles::Exact(6)),
        0xd0 => (Instruction::BNE, AddressingMode::Relative, Cycles::Branching),
        0xd1 => (Instruction::CMP, AddressingMode::IndirectY, Cycles::PageBoundary(5)),
        0xd5 => (Instruction::CMP, AddressingMode::ZeroPageX, Cycles::Exact(4)),
        0xd6 => (Instruction::DEC, AddressingMode::ZeroPageX, Cycles::Exact(6)),
        0xd8 => (Instruction::CLD, AddressingMode::Implied, Cycles::Exact(2)),
        0xd9 => (Instruction::CMP, AddressingMode::AbsoluteY, Cycles::PageBoundary(4)),
        0xdd => (Instruction::CMP, AddressingMode::AbsoluteX, Cycles::PageBoundary(4)),
        0xde => (Instruction::DEC, AddressingMode::AbsoluteX, Cycles::Exact(7)),
        0xe0 => (Instruction::CPX, AddressingMode::Immediate, Cycles::Exact(2)),
        0xe4 => (Instruction::CPX, AddressingMode::ZeroPage, Cycles::Exact(3)),
        0xe6 => (Instruction::INC, AddressingMode::ZeroPage, Cycles::Exact(5)),
        0xe8 => (Instruction::INX, AddressingMode::Implied, Cycles::Exact(2)),
        0xea => (Instruction::NOP, AddressingMode::Implied, Cycles::Exact(2)),
        0xec => (Instruction::CPX, AddressingMode::Absolute, Cycles::Exact(4)),
        0xee => (Instruction::INC, AddressingMode::Absolute, Cycles::Exact(6)),
        0xf0 => (Instruction::BEQ, AddressingMode::Relative, Cycles::Branching),
        0xf6 => (Instruction::INC, AddressingMode::ZeroPageX, Cycles::Exact(6)),
        0xf8 => (Instruction::SED, AddressingMode::Implied, Cycles::Exact(2)),
        0xfe => (Instruction::INC, AddressingMode::AbsoluteX, Cycles::Exact(7)),
        _ => (Instruction::Undefined, AddressingMode::Implied, Cycles::Exact(0)),
    }
}

/// Pure catalog lookup.
pub fn opcode_lookup(op: u8) -> (r: (Instruction, AddressingMode, Cycles))
    ensures
        r == spec_opcode_lookup(op),
{
    match op {
        0x06 => (Instruction::ASL, AddressingMode::ZeroPage, Cycles::Exact(5)),
        0x08 => (Instruction::PHP, AddressingMode::Implied, Cycles::Exact(3)),
        0x0a => (Instruction::ASL, AddressingMode::Accumulator, Cycles::Exact(2)),
        0x0e => (Instruction::ASL, AddressingMode::Absolute, Cycles::Exact(6)),
        0x10 => (Instruction::BPL, AddressingMode::Relative, Cycles::Branching),
        0x16 => (Instruction::ASL, AddressingMode::ZeroPageX, Cycles::Exact(6)),
        0x18 => (Instruction::CLC, AddressingMode::Implied, Cycles::Exact(2)),
        0x1e => (Instruction::ASL, AddressingMode::AbsoluteX, Cycles::Exact(7)),
        0x20 => (Instruction::JSR, AddressingMode::Absolute, Cycles::Exact(6)),
        0x28 => (Instruction::PLP, AddressingMode::Implied, Cycles::Exact(4)),
        0x30 => (Instruction::BMI, AddressingMode::Relative, Cycles::Branching),
        0x38 => (Instruction::SEC, AddressingMode::Implied, Cycles::Exact(2)),
        0x48 => (Instruction::PHA, AddressingMode::Implied, Cycles::Exact(3)),
        0x4c => (Instruction::JMP, AddressingMode::Absolute, Cycles::Exact(3)),
        0x50 => (Instruction::BVC, AddressingMode::Relative, Cycles::Branching),
        0x58 => (Instruction::CLI, AddressingMode::Implied, Cycles::Exact(2)),
        0x60 => (Instruction::RTS, AddressingMode::Implied, Cycles::Exact(6)),
        0x68 => (Instruction::PLA, AddressingMode::Implied, Cycles::Exact(4)),
        0x6c => (Instruction::JMP, AddressingMode::Indirect, Cycles::Exact(5)),
        0x70 => (Instruction::BVS, AddressingMode::Relative, Cycles::Branching),
        0x78 => (Instruction::SEI, AddressingMode::Implied, Cycles::Exact(2)),
        0x81 => (Instruction::STA, AddressingMode::IndirectX, Cycles::Exact(6)),
        0x84 => (Instruction::STY, AddressingMode::ZeroPage, Cycles::Exact(3)),
        0x85 => (Instruction::STA, AddressingMode::ZeroPage, Cycles::Exact(3)),
        0x86 => (Instruction::STX, AddressingMode::ZeroPage, Cycles::Exact(3)),
        0x88 => (Instruction::DEY, AddressingMode::Implied, Cycles::Exact(2)),
        0x8a => (Instruction::TXA, AddressingMode::Implied, Cycles::Exact(2)),
        0x8c => (Instruction::STY, AddressingMode::Absolute, Cycles::Exact(4)),
        0x8d => (Instruction::STA, AddressingMode::Absolute, Cycles::Exact(4)),
        0x8e => (Instruction::STX, AddressingMode::Absolute, Cycles::Exact(4)),
        0x90 => (Instruction::BCC, AddressingMode::Relative, Cycles::Branching),
        0x91 => (Instruction::STA, AddressingMode::IndirectY, Cycles::Exact(6)),
        0x94 => (Instruction::STY, AddressingMode::ZeroPageX, Cycles::Exact(4)),
        0x95 => (Instruction::STA, AddressingMode::ZeroPageX, Cycles::Exact(4)),
        0x96 => (Instruction::STX, AddressingMode::ZeroPageY, Cycles::Exact(4)),
        0x98 => (Instruction::TYA, AddressingMode::Implied, Cycles::Exact(2)),
        0x99 => (Instruction::STA, AddressingMode::AbsoluteY, Cycles::Exact(5)),
        0x9a => (Instruction::TXS, AddressingMode::Implied, Cycles::Exact(2)),
        0x9d => (Instruction::STA, AddressingMode::AbsoluteX, Cycles::Exact(5)),
        0xa0 => (Instruction::LDY, AddressingMode::Immediate, Cycles::Exact(2)),
        0xa1 => (Instruction::LDA, AddressingMode::IndirectX, Cycles::Exact(6)),
        0xa2 => (Instruction::LDX, AddressingMode::Immediate, Cycles::Exact(2)),
        0xa4 => (Instruction::LDY, AddressingMode::ZeroPage, Cycles::Exact(3)),
        0xa5 => (Instruction::LDA, AddressingMode::ZeroPage, Cycles::Exact(3)),
        0xa6 => (Instruction::LDX, AddressingMode::ZeroPage, Cycles::Exact(3)),
        0xa8 => (Instruction::TAY, AddressingMode::Implied, Cycles::Exact(2)),
        0xa9 => (Instruction::LDA, AddressingMode::Immediate, Cycles::Exact(2)),
        0xaa => (Instruction::TAX, AddressingMode::Implied, Cycles::Exact(2)),
        0xac => (Instruction::LDY, AddressingMode::Absolute, Cycles::Exact(4)),
        0xad => (Instruction::LDA, AddressingMode::Absolute, Cycles::Exact(4)),
        0xae => (Instruction::LDX, AddressingMode::Absolute, Cycles::Exact(4)),
        0xb0 => (Instruction::BCS, AddressingMode::Relative, Cycles::Branching),
        0xb1 => (Instruction::LDA, AddressingMode::IndirectY, Cycles::PageBoundary(5)),
        0xb4 => (Instruction::LDY, AddressingMode::ZeroPageX, Cycles::Exact(4)),
        0xb5 => (Instruction::LDA, AddressingMode::ZeroPageX, Cycles::Exact(4)),
        0xb6 => (Instruction::LDX, AddressingMode::ZeroPageY, Cycles::Exact(4)),
        0xb8 => (Instruction::CLV, AddressingMode::Implied, Cycles::Exact(2)),
        0xb9 => (Instruction::LDA, AddressingMode::AbsoluteY, Cycles::PageBoundary(4)),
        0xba => (Instruction::TSX, AddressingMode::Implied, Cycles::Exact(2)),
        0xbc => (Instruction::LDY, AddressingMode::AbsoluteX, Cycles::PageBoundary(4)),
        0xbd => (Instruction::LDA, AddressingMode::AbsoluteX, Cycles::PageBoundary(4)),
        0xbe => (Instruction::LDX, AddressingMode::AbsoluteY, Cycles::PageBoundary(4)),
        0xc0 => (Instruction::CPY, AddressingMode::Immediate, Cycles::Exact(2)),
        0xc1 => (Instruction::CMP, AddressingMode::IndirectX, Cycles::Exact(6)),
        0xc4 => (Instruction::CPY, AddressingMode::ZeroPage, Cycles::Exact(3)),
        0xc5 => (Instruction::CMP, AddressingMode::ZeroPage, Cycles::Exact(3)),
        0xc6 => (Instruction::DEC, AddressingMode::ZeroPage, Cycles::Exact(5)),
        0xc8 => (Instruction::INY, AddressingMode::Implied, Cycles::Exact(2)),
        0xc9 => (Instruction::CMP, AddressingMode::Immediate, Cycles::Exact(2)),
        0xca => (Instruction::DEX, AddressingMode::Implied, Cycles::Exact(2)),
        0xcc => (Instruction::CPY, AddressingMode::Absolute, Cycles::Exact(4)),
        0xcd => (Instruction::CMP, AddressingMode::Absolute, Cycles::Exact(4)),
        0xce => (Instruction::DEC, AddressingMode::Absolute, Cycles::Exact(6)),
        0xd0 => (Instruction::BNE, AddressingMode::Relative, Cycles::Branching),
        0xd1 => (Instruction::CMP, AddressingMode::IndirectY, Cycles::PageBoundary(5)),
        0xd5 => (Instruction::CMP, AddressingMode::ZeroPageX, Cycles::Exact(4)),
        0xd6 => (Instruction::DEC, AddressingMode::ZeroPageX, Cycles::Exact(6)),
        0xd8 => (Instruction::CLD, AddressingMode::Implied, Cycles::Exact(2)),
        0xd9 => (Instruction::CMP, AddressingMode::AbsoluteY, Cycles::PageBoundary(4)),
        0xdd => (Instruction::CMP, AddressingMode::AbsoluteX, Cycles::PageBoundary(4)),
        0xde => (Instruction::DEC, AddressingMode::AbsoluteX, Cycles::Exact(7)),
        0xe0 => (Instruction::CPX, AddressingMode::Immediate, Cycles::Exact(2)),
        0xe4 => (Instruction::CPX, AddressingMode::ZeroPage, Cycles::Exact(3)),
        0xe6 => (Instruction::INC, AddressingMode::ZeroPage, Cycles::Exact(5)),
        0xe8 => (Instruction::INX, AddressingMode::Implied, Cycles::Exact(2)),
        0xea => (Instruction::NOP, AddressingMode::Implied, Cycles::Exact(2)),
        0xec => (Instruction::CPX, AddressingMode::Absolute, Cycles::Exact(4)),
        0xee => (Instruction::INC, AddressingMode::Absolute, Cycles::Exact(6)),
        0xf0 => (Instruction::BEQ, AddressingMode::Relative, Cycles::Branching),
        0xf6 => (Instruction::INC, AddressingMode::ZeroPageX, Cycles::Exact(6)),
        0xf8 => (Instruction::SED, AddressingMode::Implied, Cycles::Exact(2)),
        0xfe => (Instruction::INC, AddressingMode::AbsoluteX, Cycles::Exact(7)),
        _ => (Instruction::Undefined, AddressingMode::Implied, Cycles::Exact(0)),
    }
}

/// Whether the mode resolves its operand to a memory address.
pub open spec fn mode_resolves_to_address(m: AddressingMode) -> bool {
    match m {
        AddressingMode::Implied => false,
        AddressingMode::Accumulator => false,
        AddressingMode::Immediate => false,
        _ => true,
    }
}

/// Which addressing modes an operation can be paired with in the catalog.
/// The execution engine relies on this agreement between the catalog and
/// the decoder: an operand/operation mismatch is proved unreachable.
pub open spec fn instruction_accepts_mode(i: Instruction, m: AddressingMode) -> bool {
    match i {
        Instruction::LDA
        | Instruction::LDX
        | Instruction::LDY
        | Instruction::CMP
        | Instruction::CPX
        | Instruction::CPY => m is Immediate || mode_resolves_to_address(m),
        Instruction::STA
        | Instruction::STX
        | Instruction::STY
        | Instruction::DEC
        | Instruction::INC
        | Instruction::JMP => mode_resolves_to_address(m),
        Instruction::ASL => m is Accumulator || mode_resolves_to_address(m),
        Instruction::JSR => m is Absolute,
        Instruction::BCC
        | Instruction::BCS
        | Instruction::BNE
        | Instruction::BEQ
        | Instruction::BPL
        | Instruction::BMI
        | Instruction::BVC
        | Instruction::BVS => m is Relative,
        Instruction::TAX
        | Instruction::TAY
        | Instruction::TXA
        | Instruction::TYA
        | Instruction::DEX
        | Instruction::DEY
        | Instruction::INX
        | Instruction::INY
        | Instruction::TSX
        | Instruction::TXS
        | Instruction::CLC
        | Instruction::CLD
        | Instruction::CLI
        | Instruction::CLV
        | Instruction::SEC
        | Instruction::SED
        | Instruction::SEI
        | Instruction::PHA
        | Instruction::PHP
        | Instruction::PLA
        | Instruction::PLP
        | Instruction::NOP
        | Instruction::RTS => m is Implied,
        Instruction::Undefined => true,
    }
}

/// Every catalog entry pairs an operation with a mode that it accepts.
pub proof fn lemma_catalog_modes(op: u8)
    ensures
        instruction_accepts_mode(spec_opcode_lookup(op).0, spec_opcode_lookup(op).1),
{
}

} // verus!
