//! The processor: registers, status, memory, stack primitives, the decoder,
//! and the execution engine. Every mutation is specified against the model
//! in [`crate::state`] and [`crate::semantics`].

use vstd::prelude::*;

use vstd::pervasive::unreached;

use crate::instructions::{opcode_lookup, AddressingMode, Instruction};
use crate::semantics::{
    decode, fetched_opcode, lemma_decode_shape, opcode_defined, step, DecodedOpcode, Operand,
};
use crate::state::{
    flag_mask, flag_set, initial_state, mem_store, pull16_state, pull16_value, pull8_state,
    pull8_value, push16, push8, read16, read8, with_flag, CpuState, Flags, STACK_PAGE,
};

verus! {

/// The processor state: program counter, stack pointer, three 8-bit
/// registers, the status byte, and a flat 64 KiB memory image.
#[allow(non_snake_case)]
pub struct CPU {
    pub PC: u16,
    pub SP: u8,
    pub A: u8,
    pub X: u8,
    pub Y: u8,
    pub status: u8,
    pub memory: [u8; 0x10000],
}

impl View for CPU {
    type V = CpuState;

    open spec fn view(&self) -> CpuState {
        CpuState {
            pc: self.PC,
            sp: self.SP,
            a: self.A,
            x: self.X,
            y: self.Y,
            status: self.status,
            mem: self.memory@,
        }
    }
}

impl CPU {
    /// A fresh processor: program counter at 0x0600, stack pointer at the
    /// top of the stack page, registers zero, only the stub flag set,
    /// memory zeroed.
    pub fn new() -> (cpu: CPU)
        ensures
            cpu@ == initial_state(),
    {
        CPU { PC: 0x600, SP: 0xff, A: 0, X: 0, Y: 0, status: 0b0010_0000, memory: [0; 0x10000] }
    }

    /// Copies a byte sequence into memory starting at the given address.
    /// The span must fit in the fixed-size memory.
    pub fn load_at(&mut self, at: usize, data: &[u8])
        requires
            at + data@.len() <= 0x10000,
        ensures
            final(self)@ == mem_store(old(self)@, at as int, data@),
    {
        let ghost s0 = self@;
        let mut i: usize = 0;
        while i < data.len()
            invariant
                i <= data@.len(),
                at + data@.len() <= 0x10000,
                s0.mem.len() == 0x10000,
                self@.mem.len() == 0x10000,
                self@.pc == s0.pc,
                self@.sp == s0.sp,
                self@.a == s0.a,
                self@.x == s0.x,
                self@.y == s0.y,
                self@.status == s0.status,
                forall|j: int| 0 <= j < at ==> self@.mem[j] == s0.mem[j],
                forall|j: int| at <= j < at + i ==> self@.mem[j] == data@[j - at],
                forall|j: int| at + i <= j < 0x10000 ==> self@.mem[j] == s0.mem[j],
            decreases data@.len() - i,
        {
            self.memory[at + i] = data[i];
            i += 1;
        }
        proof {
            assert(self@.mem =~= s0.mem.take(at as int) + data@ + s0.mem.skip(
                at + data@.len(),
            ));
            assert(self@ =~= mem_store(s0, at as int, data@));
        }
    }

    /// Whether the named flag is set in the status byte.
    pub fn get_flag(&self, flag: Flags) -> (r: bool)
        ensures
            r == flag_set(self@.status, flag),
    {
        self.status & Self::mask_of(flag) != 0
    }

    /// Forces the named flag to the given value; no other bit changes.
    pub fn set_flag(&mut self, flag: Flags, value: bool)
        ensures
            final(self)@ == (CpuState { status: with_flag(old(self)@.status, flag, value), ..old(
                self,
            )@ }),
    {
        let mask = Self::mask_of(flag);
        if value {
            self.status = self.status | mask;
        } else {
            self.status = self.status & !mask;
        }
    }

    /// The status-byte bit of a flag.
    fn mask_of(flag: Flags) -> (mask: u8)
        ensures
            mask == flag_mask(flag),
    {
        match flag {
            Flags::C => 0x01,
            Flags::Z => 0x02,
            Flags::I => 0x04,
            Flags::D => 0x08,
            Flags::B => 0x10,
            Flags::S => 0x20,
            Flags::V => 0x40,
            Flags::N => 0x80,
        }
    }

    /// The byte stored at an address.
    pub fn get_byte(&self, addr: u16) -> (b: u8)
        ensures
            b == read8(self@, addr),
    {
        self.memory[addr as usize]
    }

    /// The byte at an address, reinterpreted as a signed displacement.
    fn get_byte_as_i16(&self, addr: u16) -> (d: i16)
        ensures
            d == read8(self@, addr) as i8 as i16,
    {
        (self.get_byte(addr) as i8) as i16
    }

    /// The little-endian 16-bit value at an address; the high byte is read
    /// at the next address, wrapping across the top of memory.
    fn get_word(&self, addr: u16) -> (w: u16)
        ensures
            w == read16(self@, addr),
    {
        let lo = self.get_byte(addr);
        let hi = self.get_byte(addr.wrapping_add(1));
        (lo as u16) | ((hi as u16) << 8)
    }

    /// Stores a byte at an address.
    fn set_byte(&mut self, addr: u16, byte: u8)
        ensures
            final(self)@ == (CpuState { mem: old(self)@.mem.update(addr as int, byte), ..old(
                self,
            )@ }),
    {
        self.memory[addr as usize] = byte;
    }

    /// Writes a byte at the stack pointer's slot in the stack page, then
    /// decrements the stack pointer, wrapping modulo 256.
    fn push_to_stack(&mut self, byte: u8)
        ensures
            final(self)@ == push8(old(self)@, byte),
    {
        self.set_byte(STACK_PAGE + self.SP as u16, byte);
        self.SP = self.SP.wrapping_sub(1);
    }

    /// Increments the stack pointer, wrapping modulo 256, then reads the
    /// byte at its slot in the stack page.
    fn pull_from_stack(&mut self) -> (b: u8)
        ensures
            final(self)@ == pull8_state(old(self)@),
            b == pull8_value(old(self)@),
    {
        self.SP = self.SP.wrapping_add(1);
        self.get_byte(STACK_PAGE + self.SP as u16)
    }

    /// Pushes a 16-bit value as two bytes, high byte first, low byte second.
    pub fn push_word_to_stack(&mut self, word: u16)
        ensures
            final(self)@ == push16(old(self)@, word),
    {
        self.push_to_stack((word >> 8) as u8);
        self.push_to_stack((word & 0xff) as u8);
    }

    /// Pulls a 16-bit value: low byte read first, high byte second,
    /// reversing the push encoding.
    pub fn pull_word_from_stack(&mut self) -> (word: u16)
        ensures
            final(self)@ == pull16_state(old(self)@),
            word == pull16_value(old(self)@),
    {
        let lo = self.pull_from_stack();
        let hi = self.pull_from_stack();
        (lo as u16) | ((hi as u16) << 8)
    }

    /// Reads the opcode at the program counter, looks it up in the catalog,
    /// and resolves the operand per the addressing mode, without mutating
    /// any state.
    fn fetch_and_decode(&self) -> (d: DecodedOpcode)
        ensures
            d == decode(self@),
    {
        let (instruction, mode, _cycles) = opcode_lookup(self.get_byte(self.PC));
        let operand = match mode {
            AddressingMode::Implied => Operand::NoArg,
            AddressingMode::Accumulator => Operand::Accumulator,
            AddressingMode::Immediate => Operand::Constant(
                self.get_byte(self.PC.wrapping_add(1)),
            ),
            AddressingMode::ZeroPage => Operand::Address(
                self.get_byte(self.PC.wrapping_add(1)) as u16,
            ),
            AddressingMode::ZeroPageX => Operand::Address(
                self.get_byte(self.PC.wrapping_add(1)).wrapping_add(self.X) as u16,
            ),
            AddressingMode::ZeroPageY => Operand::Address(
                self.get_byte(self.PC.wrapping_add(1)).wrapping_add(self.Y) as u16,
            ),
            AddressingMode::Relative => {
                let offset = self.get_byte_as_i16(self.PC.wrapping_add(1));
                Operand::Address(self.PC.wrapping_add(2).wrapping_add_signed(offset))
            },
            AddressingMode::Absolute => Operand::Address(self.get_word(self.PC.wrapping_add(1))),
            AddressingMode::AbsoluteX => Operand::Address(
                self.get_word(self.PC.wrapping_add(1)).wrapping_add(self.X as u16),
            ),
            AddressingMode::AbsoluteY => Operand::Address(
                self.get_word(self.PC.wrapping_add(1)).wrapping_add(self.Y as u16),
            ),
            AddressingMode::Indirect => Operand::Address(
                self.get_word(self.get_word(self.PC.wrapping_add(1))),
            ),
            AddressingMode::IndirectX => Operand::Address(
                self.get_byte(self.PC.wrapping_add(1)).wrapping_add(self.X) as u16,
            ),
            AddressingMode::IndirectY => Operand::Address(
                self.get_word(self.get_byte(self.PC.wrapping_add(1)) as u16).wrapping_add(
                    self.Y as u16,
                ),
            ),
        };

        DecodedOpcode { instruction, operand, length: 1 + mode.operand_bytes() }
    }

    /// Performs exactly one fetch-decode-execute cycle. On a defined opcode
    /// the state makes the transition given by [`step`] and the call
    /// returns `Ok`. On an undefined opcode nothing changes and the fetched
    /// opcode byte comes back as the error.
    pub fn execute(&mut self) -> (r: Result<(), u8>)
        ensures
            opcode_defined(old(self)@) ==> r == Ok::<(), u8>(()) && final(self)@ == step(
                old(self)@,
            ),
            !opcode_defined(old(self)@) ==> r == Err::<(), u8>(fetched_opcode(old(self)@))
                && final(self)@ == old(self)@,
    {
        proof {
            lemma_decode_shape(self@);
        }
        let d = self.fetch_and_decode();

        match d.instruction {
            Instruction::ASL => {
                let v0 = match d.operand {
                    Operand::Accumulator => self.A,
                    Operand::Address(addr) => self.get_byte(addr),
                    _ => unreached(),
                };
                self.set_flag(Flags::C, (v0 & 0x80) != 0);
                let v = v0 << 1;
                self.set_flag(Flags::Z, v == 0);
                self.set_flag(Flags::N, (v & 0x80) != 0);
                match d.operand {
                    Operand::Accumulator => {
                        self.A = v;
                    },
                    Operand::Address(addr) => {
                        self.set_byte(addr, v);
                    },
                    _ => unreached(),
                }
                self.PC = self.PC.wrapping_add(d.length);
            },
            Instruction::CMP | Instruction::CPX | Instruction::CPY => {
                let lhs = match d.instruction {
                    Instruction::CMP => self.A,
                    Instruction::CPX => self.X,
                    _ => self.Y,
                };
                let rhs = match d.operand {
                    Operand::Constant(c) => c,
                    Operand::Address(addr) => self.get_byte(addr),
                    _ => unreached(),
                };
                let diff = lhs.wrapping_sub(rhs);
                self.set_flag(Flags::C, lhs >= rhs);
                self.set_flag(Flags::Z, lhs == rhs);
                self.set_flag(Flags::N, (diff & 0x80) != 0);
                self.PC = self.PC.wrapping_add(d.length);
            },
            Instruction::LDA => {
                let v = match d.operand {
                    Operand::Constant(c) => c,
                    Operand::Address(addr) => self.get_byte(addr),
                    _ => unreached(),
                };
                self.set_flag(Flags::Z, v == 0);
                self.set_flag(Flags::N, (v & 0x80) != 0);
                self.A = v;
                self.PC = self.PC.wrapping_add(d.length);
            },
            Instruction::LDX => {
                let v = match d.operand {
                    Operand::Constant(c) => c,
                    Operand::Address(addr) => self.get_byte(addr),
                    _ => unreached(),
                };
                self.set_flag(Flags::Z, v == 0);
                self.set_flag(Flags::N, (v & 0x80) != 0);
                self.X = v;
                self.PC = self.PC.wrapping_add(d.length);
            },
            Instruction::LDY => {
                let v = match d.operand {
                    Operand::Constant(c) => c,
                    Operand::Address(addr) => self.get_byte(addr),
                    _ => unreached(),
                };
                self.set_flag(Flags::Z, v == 0);
                self.set_flag(Flags::N, (v & 0x80) != 0);
                self.Y = v;
                self.PC = self.PC.wrapping_add(d.length);
            },
            Instruction::STA => {
                let addr = match d.operand {
                    Operand::Address(addr) => addr,
                    _ => unreached(),
                };
                self.set_byte(addr, self.A);
                self.PC = self.PC.wrapping_add(d.length);
            },
            Instruction::STX => {
                let addr = match d.operand {
                    Operand::Address(addr) => addr,
                    _ => unreached(),
                };
                self.set_byte(addr, self.X);
                self.PC = self.PC.wrapping_add(d.length);
            },
            Instruction::STY => {
                let addr = match d.operand {
                    Operand::Address(addr) => addr,
                    _ => unreached(),
                };
                self.set_byte(addr, self.Y);
                self.PC = self.PC.wrapping_add(d.length);
            },
            Instruction::TAX => {
                self.set_flag(Flags::Z, self.A == 0);
                self.set_flag(Flags::N, (self.A & 0x80) != 0);
                self.X = self.A;
                self.PC = self.PC.wrapping_add(d.length);
            },
            Instruction::TAY => {
                self.set_flag(Flags::Z, self.A == 0);
                self.set_flag(Flags::N, (self.A & 0x80) != 0);
                self.Y = self.A;
                self.PC = self.PC.wrapping_add(d.length);
            },
            Instruction::TXA => {
                self.set_flag(Flags::Z, self.X == 0);
                self.set_flag(Flags::N, (self.X & 0x80) != 0);
                self.A = self.X;
                self.PC = self.PC.wrapping_add(d.length);
            },
            Instruction::TYA => {
                self.set_flag(Flags::Z, self.Y == 0);
                self.set_flag(Flags::N, (self.Y & 0x80) != 0);
                self.A = self.Y;
                self.PC = self.PC.wrapping_add(d.length);
            },
            Instruction::DEX => {
                let v = self.X.wrapping_sub(1);
                self.set_flag(Flags::Z, v == 0);
                self.set_flag(Flags::N, (v & 0x80) != 0);
                self.X = v;
                self.PC = self.PC.wrapping_add(d.length);
            },
            Instruction::DEY => {
                let v = self.Y.wrapping_sub(1);
                self.set_flag(Flags::Z, v == 0);
                self.set_flag(Flags::N, (v & 0x80) != 0);
                self.Y = v;
                self.PC = self.PC.wrapping_add(d.length);
            },
            Instruction::DEC => {
                let addr = match d.operand {
                    Operand::Address(addr) => addr,
                    _ => unreached(),
                };
                let v = self.get_byte(addr).wrapping_sub(1);
                self.set_flag(Flags::Z, v == 0);
                self.set_flag(Flags::N, (v & 0x80) != 0);
                self.set_byte(addr, v);
                self.PC = self.PC.wrapping_add(d.length);
            },
            Instruction::INX => {
                let v = self.X.wrapping_add(1);
                self.set_flag(Flags::Z, v == 0);
                self.set_flag(Flags::N, (v & 0x80) != 0);
                self.X = v;
                self.PC = self.PC.wrapping_add(d.length);
            },
            Instruction::INY => {
                let v = self.Y.wrapping_add(1);
                self.set_flag(Flags::Z, v == 0);
                self.set_flag(Flags::N, (v & 0x80) != 0);
                self.Y = v;
                self.PC = self.PC.wrapping_add(d.length);
            },
            Instruction::INC => {
                let addr = match d.operand {
                    Operand::Address(addr) => addr,
                    _ => unreached(),
                };
                let v = self.get_byte(addr).wrapping_add(1);
                self.set_flag(Flags::Z, v == 0);
                self.set_flag(Flags::N, (v & 0x80) != 0);
                self.set_byte(addr, v);
                self.PC = self.PC.wrapping_add(d.length);
            },
            Instruction::TSX => {
                self.set_flag(Flags::Z, self.SP == 0);
                self.set_flag(Flags::N, (self.SP & 0x80) != 0);
                self.X = self.SP;
                self.PC = self.PC.wrapping_add(d.length);
            },
            Instruction::TXS => {
                self.SP = self.X;
                self.PC = self.PC.wrapping_add(d.length);
            },
            Instruction::CLC
            | Instruction::CLD
            | Instruction::CLI
            | Instruction::CLV
            | Instruction::SEC
            | Instruction::SED
            | Instruction::SEI => {
                let flag = match d.instruction {
                    Instruction::CLC | Instruction::SEC => Flags::C,
                    Instruction::CLD | Instruction::SED => Flags::D,
                    Instruction::CLI | Instruction::SEI => Flags::I,
                    _ => Flags::V,
                };
                let value = match d.instruction {
                    Instruction::SEC | Instruction::SED | Instruction::SEI => true,
                    _ => false,
                };
                self.set_flag(flag, value);
                self.PC = self.PC.wrapping_add(d.length);
            },
            Instruction::PHA => {
                self.push_to_stack(self.A);
                self.PC = self.PC.wrapping_add(d.length);
            },
            Instruction::PHP => {
                self.push_to_stack(self.status);
                self.PC = self.PC.wrapping_add(d.length);
            },
            Instruction::PLA => {
                let v = self.pull_from_stack();
                self.A = v;
                self.set_flag(Flags::Z, v == 0);
                self.set_flag(Flags::N, (v & 0x80) != 0);
                self.PC = self.PC.wrapping_add(d.length);
            },
            Instruction::PLP => {
                self.status = self.pull_from_stack();
                self.PC = self.PC.wrapping_add(d.length);
            },
            Instruction::NOP => {
                self.PC = self.PC.wrapping_add(d.length);
            },
            Instruction::BCC
            | Instruction::BCS
            | Instruction::BNE
            | Instruction::BEQ
            | Instruction::BPL
            | Instruction::BMI
            | Instruction::BVC
            | Instruction::BVS => {
                let flag = match d.instruction {
                    Instruction::BCC | Instruction::BCS => Flags::C,
                    Instruction::BNE | Instruction::BEQ => Flags::Z,
                    Instruction::BPL | Instruction::BMI => Flags::N,
                    _ => Flags::V,
                };
                let expected = match d.instruction {
                    Instruction::BCS | Instruction::BEQ | Instruction::BMI | Instruction::BVS =>
                        true,
                    _ => false,
                };
                let addr = match d.operand {
                    Operand::Address(addr) => addr,
                    _ => unreached(),
                };
                if self.get_flag(flag) == expected {
                    self.PC = addr;
                } else {
                    self.PC = self.PC.wrapping_add(d.length);
                }
            },
            Instruction::JSR => {
                let addr = match d.operand {
                    Operand::Address(addr) => addr,
                    _ => unreached(),
                };
                let ret = self.PC.wrapping_add(d.length).wrapping_sub(1);
                self.push_word_to_stack(ret);
                self.PC = addr;
            },
            Instruction::RTS => {
                let addr = self.pull_word_from_stack();
                self.PC = addr.wrapping_add(1);
            },
            Instruction::JMP => {
                let addr = match d.operand {
                    Operand::Address(addr) => addr,
                    _ => unreached(),
                };
                self.PC = addr;
            },
            Instruction::Undefined => {
                return Err(self.get_byte(self.PC));
            },
        }
        Ok(())
    }
}

} // verus!
