use mos6502::cpu::CPU;
use mos6502::instructions::{AddressingMode, Instruction};
use mos6502::state::Flags;

// Loads set Zero/Negative from the loaded value.
#[test]
fn test_lda_immediate() {
    let mut cpu = CPU::new();
    cpu.load_at(0x600, &[0xa9, 0x80]);
    let _ = cpu.execute();
    assert_eq!(cpu.A, 0x80);
    assert_eq!(cpu.status, 0b10100000);
    assert_eq!(cpu.PC, 0x602);
}

// An opcode byte with no defined operation is reported and nothing changes.
#[test]
fn test_undefined_opcode() {
    let mut cpu = CPU::new();
    cpu.load_at(0x600, &[0x02]);
    let r = cpu.execute();
    assert_eq!(r, Err(0x02));
    assert_eq!(cpu.PC, 0x600);
    assert_eq!(cpu.SP, 0xff);
    assert_eq!(cpu.status, 0b00100000);
}

// A defined opcode reports success.
#[test]
fn test_execute_ok() {
    let mut cpu = CPU::new();
    cpu.load_at(0x600, &[0xea]);
    assert_eq!(cpu.execute(), Ok(()));
    assert_eq!(cpu.PC, 0x601);
}

// The stack pointer wraps modulo 256 instead of trapping.
#[test]
fn test_stack_pointer_wraps() {
    let mut cpu = CPU::new();
    cpu.load_at(0x600, &[0x48]); // pha
    cpu.SP = 0x00;
    cpu.A = 0x42;
    let _ = cpu.execute();
    assert_eq!(cpu.memory[0x0100], 0x42);
    assert_eq!(cpu.SP, 0xff);
}

// Push-word then pull-word is the identity at both 16-bit extremes.
#[test]
fn test_push_pull_word_extremes() {
    let mut cpu = CPU::new();
    cpu.push_word_to_stack(0x0000);
    assert_eq!(cpu.pull_word_from_stack(), 0x0000);
    assert_eq!(cpu.SP, 0xff);
    cpu.push_word_to_stack(0xffff);
    assert_eq!(cpu.pull_word_from_stack(), 0xffff);
    assert_eq!(cpu.SP, 0xff);
}

// CPX: Carry iff X >= operand, Zero iff equal, Negative from the wrapped
// difference.
#[test]
fn test_cpx_immediate() {
    let mut cpu = CPU::new();
    cpu.load_at(0x600, &[0xe0, 0x10, 0xe0, 0x10]);
    cpu.X = 0x10;
    let _ = cpu.execute();
    assert_eq!(cpu.status, 0b00100011);
    cpu.X = 0x0f;
    let _ = cpu.execute();
    assert_eq!(cpu.status, 0b10100000);
}

#[test]
fn test_cpy_immediate() {
    let mut cpu = CPU::new();
    cpu.load_at(0x600, &[0xc0, 0x20]);
    cpu.Y = 0x45;
    let _ = cpu.execute();
    assert_eq!(cpu.status, 0b00100001);
}

// A branch that is not taken advances the program counter by 2.
#[test]
fn test_branch_not_taken() {
    let mut cpu = CPU::new();
    cpu.load_at(0x600, &[0xb0, 0x7f]); // bcs, carry clear
    let _ = cpu.execute();
    assert_eq!(cpu.PC, 0x602);
    assert_eq!(cpu.status, 0b00100000);
}

// A branch that is taken lands at the byte after the instruction plus the
// signed displacement.
#[test]
fn test_branch_taken_target() {
    let mut cpu = CPU::new();
    cpu.load_at(0x600, &[0xb0, 0x04]); // bcs +4
    cpu.set_flag(Flags::C, true);
    let _ = cpu.execute();
    assert_eq!(cpu.PC, 0x606);
}

// JSR pushes the address of its own last byte, high byte first.
#[test]
fn test_jsr_pushes_return_address() {
    let mut cpu = CPU::new();
    cpu.load_at(0x600, &[0x20, 0x34, 0x12]); // jsr $1234
    let _ = cpu.execute();
    assert_eq!(cpu.PC, 0x1234);
    assert_eq!(cpu.SP, 0xfd);
    assert_eq!(cpu.memory[0x01ff], 0x06);
    assert_eq!(cpu.memory[0x01fe], 0x02);
}

// Indirect,Y reads a 16-bit pointer from the zero page and adds Y to it.
#[test]
fn test_lda_indirect_y() {
    let mut cpu = CPU::new();
    cpu.load_at(0x600, &[0xb1, 0x40]);
    cpu.memory[0x40] = 0x10;
    cpu.memory[0x41] = 0x20;
    cpu.memory[0x2015] = 0x77;
    cpu.Y = 0x05;
    let _ = cpu.execute();
    assert_eq!(cpu.A, 0x77);
}

// Indirect,X resolves to the X-offset zero-page address itself, the
// pre-indexed pointer's own address; it does not dereference through it.
#[test]
fn test_sta_indirect_x() {
    let mut cpu = CPU::new();
    cpu.load_at(0x600, &[0x81, 0x40]);
    cpu.X = 0x0f;
    cpu.A = 0x99;
    let _ = cpu.execute();
    assert_eq!(cpu.memory[0x004f], 0x99);
}

// Shifting out a one sets Carry; a result of zero sets Zero.
#[test]
fn test_asl_carry_and_zero() {
    let mut cpu = CPU::new();
    cpu.load_at(0x600, &[0x0a]); // asl A
    cpu.A = 0x80;
    let _ = cpu.execute();
    assert_eq!(cpu.A, 0x00);
    assert_eq!(cpu.status, 0b00100011);
}

// The decoded length of each addressing mode.
#[test]
fn test_operand_bytes() {
    assert_eq!(AddressingMode::Implied.operand_bytes(), 0);
    assert_eq!(AddressingMode::Accumulator.operand_bytes(), 0);
    assert_eq!(AddressingMode::Immediate.operand_bytes(), 1);
    assert_eq!(AddressingMode::ZeroPage.operand_bytes(), 1);
    assert_eq!(AddressingMode::ZeroPageX.operand_bytes(), 1);
    assert_eq!(AddressingMode::ZeroPageY.operand_bytes(), 1);
    assert_eq!(AddressingMode::Relative.operand_bytes(), 1);
    assert_eq!(AddressingMode::Absolute.operand_bytes(), 2);
    assert_eq!(AddressingMode::AbsoluteX.operand_bytes(), 2);
    assert_eq!(AddressingMode::AbsoluteY.operand_bytes(), 2);
    assert_eq!(AddressingMode::Indirect.operand_bytes(), 2);
    assert_eq!(AddressingMode::IndirectX.operand_bytes(), 1);
    assert_eq!(AddressingMode::IndirectY.operand_bytes(), 1);
}

// A few catalog entries, including the undefined sentinel.
#[test]
fn test_opcode_lookup() {
    let (i, m, _) = mos6502::instructions::opcode_lookup(0xa2);
    assert!(matches!(i, Instruction::LDX));
    assert!(matches!(m, AddressingMode::Immediate));
    let (i, m, _) = mos6502::instructions::opcode_lookup(0x6c);
    assert!(matches!(i, Instruction::JMP));
    assert!(matches!(m, AddressingMode::Indirect));
    let (i, _, _) = mos6502::instructions::opcode_lookup(0x02);
    assert!(matches!(i, Instruction::Undefined));
}

// A fresh processor: program counter 0x0600, stack pointer 0xFF, registers
// zero, only the stub flag set, memory zeroed.
#[test]
fn test_new_initial_state() {
    let cpu = CPU::new();
    assert_eq!(cpu.PC, 0x600);
    assert_eq!(cpu.SP, 0xff);
    assert_eq!(cpu.A, 0x00);
    assert_eq!(cpu.X, 0x00);
    assert_eq!(cpu.Y, 0x00);
    assert_eq!(cpu.status, 0b00100000);
    assert_eq!(cpu.memory[0x0000], 0x00);
    assert_eq!(cpu.memory[0xffff], 0x00);
}

// Loading at an address fills exactly that span.
#[test]
fn test_load_at_span() {
    let mut cpu = CPU::new();
    cpu.load_at(0xfffd, &[0x11, 0x22, 0x33]);
    assert_eq!(cpu.memory[0xfffc], 0x00);
    assert_eq!(cpu.memory[0xfffd], 0x11);
    assert_eq!(cpu.memory[0xfffe], 0x22);
    assert_eq!(cpu.memory[0xffff], 0x33);
}
