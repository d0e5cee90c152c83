//! The specification of one fetch-decode-execute transition: what the
//! decoder produces and how each operation transforms the processor state.

use vstd::prelude::*;

use crate::instructions::{lemma_catalog_modes, spec_opcode_lookup, AddressingMode, Instruction};
use crate::state::{
    flag_set, pull16_state, pull16_value, pull8_state, pull8_value, push16, push8, read16, read8,
    with_flag, with_zn, write8, CpuState, Flags,
};

verus! {

/// An addressing-mode-resolved operand.
#[derive(Copy, Clone, Debug)]
pub enum Operand {
    NoArg,
    Accumulator,
    Constant(u8),
    Address(u16),
}

/// One decoded instruction: operation, resolved operand, and total length
/// in bytes (opcode byte plus operand bytes). Ephemeral; recomputed on
/// every fetch.
#[derive(Copy, Clone, Debug)]
pub struct DecodedOpcode {
    pub instruction: Instruction,
    pub operand: Operand,
    pub length: u16,
}

/// Operand resolution per addressing mode, reading operand bytes from the
/// instruction stream. All address arithmetic wraps: 8-bit sums within the
/// zero page, 16-bit sums across the top of memory.
///
/// Two deliberate choices:
/// - `IndirectX` resolves to the X-offset zero-page address itself (the
///   pre-indexed pointer's own address, not a 16-bit value read there),
///   diverging from the conventional pre-indexed dereference.
/// - `Indirect` reads the 16-bit pointer without reproducing the hardware's
///   page-boundary wraparound defect.
pub open spec fn resolve_operand(s: CpuState, mode: AddressingMode) -> Operand {
    match mode {
        AddressingMode::Implied => Operand::NoArg,
        AddressingMode::Accumulator => Operand::Accumulator,
        AddressingMode::Immediate => Operand::Constant(read8(s, s.pc.wrapping_add(1))),
        AddressingMode::ZeroPage => Operand::Address(read8(s, s.pc.wrapping_add(1)) as u16),
        AddressingMode::ZeroPageX => Operand::Address(
            read8(s, s.pc.wrapping_add(1)).wrapping_add(s.x) as u16,
        ),
        AddressingMode::ZeroPageY => Operand::Address(
            read8(s, s.pc.wrapping_add(1)).wrapping_add(s.y) as u16,
        ),
        AddressingMode::Relative => Operand::Address(relative_target(s)),
        AddressingMode::Absolute => Operand::Address(read16(s, s.pc.wrapping_add(1))),
        AddressingMode::AbsoluteX => Operand::Address(
            read16(s, s.pc.wrapping_add(1)).wrapping_add(s.x as u16),
        ),
        AddressingMode::AbsoluteY => Operand::Address(
            read16(s, s.pc.wrapping_add(1)).wrapping_add(s.y as u16),
        ),
        AddressingMode::Indirect => Operand::Address(read16(s, read16(s, s.pc.wrapping_add(1)))),
        AddressingMode::IndirectX => Operand::Address(
            read8(s, s.pc.wrapping_add(1)).wrapping_add(s.x) as u16,
        ),
        AddressingMode::IndirectY => Operand::Address(
            read16(s, read8(s, s.pc.wrapping_add(1)) as u16).wrapping_add(s.y as u16),
        ),
    }
}

/// The target of a relative operand: the address of the byte after the full
/// 2-byte instruction, plus the operand byte as a signed displacement.
pub open spec fn relative_target(s: CpuState) -> u16 {
    s.pc.wrapping_add(2).wrapping_add_signed(read8(s, s.pc.wrapping_add(1)) as i8 as i16)
}

/// The opcode byte the processor is about to fetch.
pub open spec fn fetched_opcode(s: CpuState) -> u8 {
    read8(s, s.pc)
}

/// The decoded instruction at the current program counter.
pub open spec fn decode(s: CpuState) -> DecodedOpcode {
    let (instruction, mode, _cycles) = spec_opcode_lookup(fetched_opcode(s));
    DecodedOpcode {
        instruction,
        operand: resolve_operand(s, mode),
        length: (1 + mode.spec_operand_bytes()) as u16,
    }
}

/// Whether the opcode about to be fetched has defined semantics.
pub open spec fn opcode_defined(s: CpuState) -> bool {
    !(decode(s).instruction is Undefined)
}

/// The 8-bit value a read operand denotes: a constant is itself, an address
/// denotes the byte stored there. Only applied to constant or address
/// operands; other shapes are ruled out by the catalog.
pub open spec fn operand_value(s: CpuState, operand: Operand) -> u8 {
    match operand {
        Operand::Constant(c) => c,
        Operand::Address(addr) => read8(s, addr),
        _ => 0,
    }
}

/// The address an address operand denotes. Only applied to address
/// operands; other shapes are ruled out by the catalog.
pub open spec fn operand_addr(operand: Operand) -> u16 {
    match operand {
        Operand::Address(addr) => addr,
        _ => 0,
    }
}

/// The state with the program counter moved past an instruction of the
/// given length, wrapping modulo 65536.
pub open spec fn advance(s: CpuState, length: u16) -> CpuState {
    CpuState { pc: s.pc.wrapping_add(length), ..s }
}

/// The flag a branch operation tests.
pub open spec fn branch_flag(i: Instruction) -> Flags {
    match i {
        Instruction::BCC | Instruction::BCS => Flags::C,
        Instruction::BNE | Instruction::BEQ => Flags::Z,
        Instruction::BPL | Instruction::BMI => Flags::N,
        _ => Flags::V,
    }
}

/// The flag value on which a branch operation is taken.
pub open spec fn branch_polarity(i: Instruction) -> bool {
    match i {
        Instruction::BCS | Instruction::BEQ | Instruction::BMI | Instruction::BVS => true,
        _ => false,
    }
}

/// A branch: taken when the tested flag equals the expected polarity, in
/// which case the program counter is set to the resolved address; otherwise
/// the program counter advances by the instruction's length. No flags
/// change either way.
pub open spec fn branch_result(s: CpuState, d: DecodedOpcode) -> CpuState {
    if flag_set(s.status, branch_flag(d.instruction)) == branch_polarity(d.instruction) {
        CpuState { pc: operand_addr(d.operand), ..s }
    } else {
        advance(s, d.length)
    }
}

/// A compare: flags from an unsigned subtraction whose result is discarded.
/// Carry iff lhs >= rhs, Zero iff equal, Negative from the top bit of the
/// wrapped difference.
pub open spec fn compare_result(s: CpuState, lhs: u8, d: DecodedOpcode) -> CpuState {
    let rhs = operand_value(s, d.operand);
    let diff = lhs.wrapping_sub(rhs);
    let status = with_flag(
        with_flag(with_flag(s.status, Flags::C, lhs >= rhs), Flags::Z, lhs == rhs),
        Flags::N,
        diff & 0x80 != 0,
    );
    advance(CpuState { status, ..s }, d.length)
}

/// An arithmetic shift left: Carry takes the former top bit, the vacated
/// low bit is 0, Zero/Negative follow the shifted value, and the result is
/// written back where the operand came from.
pub open spec fn asl_result(s: CpuState, d: DecodedOpcode) -> CpuState {
    let v0 = match d.operand {
        Operand::Accumulator => s.a,
        _ => read8(s, operand_addr(d.operand)),
    };
    let v = v0 << 1;
    let status = with_zn(with_flag(s.status, Flags::C, v0 & 0x80 != 0), v);
    match d.operand {
        Operand::Accumulator => advance(CpuState { a: v, status, ..s }, d.length),
        _ => advance(
            CpuState { status, mem: s.mem.update(operand_addr(d.operand) as int, v), ..s },
            d.length,
        ),
    }
}

/// The effect of one decoded instruction on the processor state.
pub open spec fn exec_decoded(s: CpuState, d: DecodedOpcode) -> CpuState {
    match d.instruction {
        Instruction::LDA => {
            let v = operand_value(s, d.operand);
            advance(CpuState { a: v, status: with_zn(s.status, v), ..s }, d.length)
        },
        Instruction::LDX => {
            let v = operand_value(s, d.operand);
            advance(CpuState { x: v, status: with_zn(s.status, v), ..s }, d.length)
        },
        Instruction::LDY => {
            let v = operand_value(s, d.operand);
            advance(CpuState { y: v, status: with_zn(s.status, v), ..s }, d.length)
        },
        Instruction::STA => advance(write8(s, operand_addr(d.operand), s.a), d.length),
        Instruction::STX => advance(write8(s, operand_addr(d.operand), s.x), d.length),
        Instruction::STY => advance(write8(s, operand_addr(d.operand), s.y), d.length),
        Instruction::TAX => advance(
            CpuState { x: s.a, status: with_zn(s.status, s.a), ..s },
            d.length,
        ),
        Instruction::TAY => advance(
            CpuState { y: s.a, status: with_zn(s.status, s.a), ..s },
            d.length,
        ),
        Instruction::TXA => advance(
            CpuState { a: s.x, status: with_zn(s.status, s.x), ..s },
            d.length,
        ),
        Instruction::TYA => advance(
            CpuState { a: s.y, status: with_zn(s.status, s.y), ..s },
            d.length,
        ),
        Instruction::DEX => {
            let v = s.x.wrapping_sub(1);
            advance(CpuState { x: v, status: with_zn(s.status, v), ..s }, d.length)
        },
        Instruction::DEY => {
            let v = s.y.wrapping_sub(1);
            advance(CpuState { y: v, status: with_zn(s.status, v), ..s }, d.length)
        },
        Instruction::DEC => {
            let addr = operand_addr(d.operand);
            let v = read8(s, addr).wrapping_sub(1);
            advance(write8(CpuState { status: with_zn(s.status, v), ..s }, addr, v), d.length)
        },
        Instruction::INX => {
            let v = s.x.wrapping_add(1);
            advance(CpuState { x: v, status: with_zn(s.status, v), ..s }, d.length)
        },
        Instruction::INY => {
            let v = s.y.wrapping_add(1);
            advance(CpuState { y: v, status: with_zn(s.status, v), ..s }, d.length)
        },
        Instruction::INC => {
            let addr = operand_addr(d.operand);
            let v = read8(s, addr).wrapping_add(1);
            advance(write8(CpuState { status: with_zn(s.status, v), ..s }, addr, v), d.length)
        },
        Instruction::TSX => advance(
            CpuState { x: s.sp, status: with_zn(s.status, s.sp), ..s },
            d.length,
        ),
        Instruction::TXS => advance(CpuState { sp: s.x, ..s }, d.length),
        Instruction::JMP => CpuState { pc: operand_addr(d.operand), ..s },
        Instruction::ASL => asl_result(s, d),
        Instruction::CMP => compare_result(s, s.a, d),
        Instruction::CPX => compare_result(s, s.x, d),
        Instruction::CPY => compare_result(s, s.y, d),
        Instruction::CLC => advance(
            CpuState { status: with_flag(s.status, Flags::C, false), ..s },
            d.length,
        ),
        Instruction::CLD => advance(
            CpuState { status: with_flag(s.status, Flags::D, false), ..s },
            d.length,
        ),
        Instruction::CLI => advance(
            CpuState { status: with_flag(s.status, Flags::I, false), ..s },
            d.length,
        ),
        Instruction::CLV => advance(
            CpuState { status: with_flag(s.status, Flags::V, false), ..s },
            d.length,
        ),
        Instruction::SEC => advance(
            CpuState { status: with_flag(s.status, Flags::C, true), ..s },
            d.length,
        ),
        Instruction::SED => advance(
            CpuState { status: with_flag(s.status, Flags::D, true), ..s },
            d.length,
        ),
        Instruction::SEI => advance(
            CpuState { status: with_flag(s.status, Flags::I, true), ..s },
            d.length,
        ),
        Instruction::PHA => advance(push8(s, s.a), d.length),
        Instruction::PHP => advance(push8(s, s.status), d.length),
        Instruction::PLA => {
            let v = pull8_value(s);
            advance(CpuState { a: v, status: with_zn(s.status, v), ..pull8_state(s) }, d.length)
        },
        Instruction::PLP => advance(
            CpuState { status: pull8_value(s), ..pull8_state(s) },
            d.length,
        ),
        Instruction::NOP => advance(s, d.length),
        Instruction::BCC
        | Instruction::BCS
        | Instruction::BNE
        | Instruction::BEQ
        | Instruction::BPL
        | Instruction::BMI
        | Instruction::BVC
        | Instruction::BVS => branch_result(s, d),
        Instruction::JSR => {
            let ret = s.pc.wrapping_add(d.length).wrapping_sub(1);
            CpuState { pc: operand_addr(d.operand), ..push16(s, ret) }
        },
        Instruction::RTS => CpuState { pc: pull16_value(s).wrapping_add(1), ..pull16_state(s) },
        Instruction::Undefined => s,
    }
}

/// One whole fetch-decode-execute transition.
pub open spec fn step(s: CpuState) -> CpuState {
    exec_decoded(s, decode(s))
}

/// The operand shape each operation's handler expects; follows from the
/// catalog pairing operations only with modes they accept.
pub proof fn lemma_decode_shape(s: CpuState)
    ensures
        ({
            let d = decode(s);
            match d.instruction {
                Instruction::LDA
                | Instruction::LDX
                | Instruction::LDY
                | Instruction::CMP
                | Instruction::CPX
                | Instruction::CPY => d.operand is Constant || d.operand is Address,
                Instruction::STA
                | Instruction::STX
                | Instruction::STY
                | Instruction::DEC
                | Instruction::INC
                | Instruction::JMP
                | Instruction::JSR => d.operand is Address,
                Instruction::ASL => d.operand is Accumulator || d.operand is Address,
                Instruction::BCC
                | Instruction::BCS
                | Instruction::BNE
                | Instruction::BEQ
                | Instruction::BPL
                | Instruction::BMI
                | Instruction::BVC
                | Instruction::BVS => d.operand == Operand::Address(relative_target(s))
                    && d.length == 2,
                _ => d.operand is NoArg,
            }
        }),
        decode(s).instruction is JSR ==> decode(s).length == 3,
{
    lemma_catalog_modes(fetched_opcode(s));
}

} // verus!
