//! General properties of the instruction semantics, proved once and for all
//! inputs: flag effects of loads and compares, the stack round trip,
//! subroutine call and return, wraparound of increment and decrement, and
//! how branches move the program counter.

use vstd::prelude::*;

use crate::semantics::{
    branch_flag, branch_polarity, decode, lemma_decode_shape, operand_value, relative_target, step,
};
use crate::state::{
    flag_set, lemma_flag_update_read, lemma_word_bytes_roundtrip, lemma_zn_flags, pull16_state,
    pull16_value, push16, stack_addr, wf, with_flag, CpuState, Flags,
};

verus! {

/// For every load, whatever the operand resolved to: the target register
/// takes the operand value, the Zero flag becomes `value == 0`, and the
/// Negative flag becomes the top bit of the value.
pub proof fn lemma_load_register_and_flags(s: CpuState)
    requires
        decode(s).instruction is LDA || decode(s).instruction is LDX || decode(
            s,
        ).instruction is LDY,
    ensures
        ({
            let v = operand_value(s, decode(s).operand);
            &&& decode(s).instruction is LDA ==> step(s).a == v
            &&& decode(s).instruction is LDX ==> step(s).x == v
            &&& decode(s).instruction is LDY ==> step(s).y == v
            &&& flag_set(step(s).status, Flags::Z) == (v == 0)
            &&& flag_set(step(s).status, Flags::N) == (v & 0x80 != 0)
        }),
{
    lemma_zn_flags(s.status, operand_value(s, decode(s).operand), Flags::C);
}

/// Pushing a 16-bit value and pulling one straight back is the identity,
/// for every value and every starting state: the pulled value is the pushed
/// one and the stack pointer is restored.
pub proof fn lemma_push_pull_word_roundtrip(s: CpuState, w: u16)
    requires
        wf(s),
    ensures
        pull16_value(push16(s, w)) == w,
        pull16_state(push16(s, w)).sp == s.sp,
{
    assert(stack_addr(s.sp) != stack_addr(s.sp.wrapping_sub(1)));
    lemma_word_bytes_roundtrip(w);
}

/// Jump-to-subroutine followed by return-from-subroutine puts the program
/// counter at the instruction after the call, for any call site and target,
/// and leaves the stack pointer where it started.
pub proof fn lemma_jsr_rts_return(s: CpuState)
    requires
        wf(s),
        decode(s).instruction is JSR,
        decode(step(s)).instruction is RTS,
    ensures
        step(step(s)).pc == s.pc.wrapping_add(3),
        step(step(s)).sp == s.sp,
{
    lemma_decode_shape(s);
    let ret = s.pc.wrapping_add(3).wrapping_sub(1);
    assert(stack_addr(s.sp) != stack_addr(s.sp.wrapping_sub(1)));
    lemma_word_bytes_roundtrip(ret);
    assert(pull16_value(step(s)) == ret);
}

/// A compare sets Carry to `lhs >= rhs`, Zero to `lhs == rhs`, and Negative
/// to the top bit of the wrapped difference, for all register and operand
/// values.
pub proof fn lemma_compare_flags(s: CpuState)
    requires
        decode(s).instruction is CMP || decode(s).instruction is CPX || decode(
            s,
        ).instruction is CPY,
    ensures
        ({
            let lhs = if decode(s).instruction is CMP {
                s.a
            } else if decode(s).instruction is CPX {
                s.x
            } else {
                s.y
            };
            let rhs = operand_value(s, decode(s).operand);
            &&& flag_set(step(s).status, Flags::C) == (lhs >= rhs)
            &&& flag_set(step(s).status, Flags::Z) == (lhs == rhs)
            &&& flag_set(step(s).status, Flags::N) == (lhs.wrapping_sub(rhs) & 0x80 != 0)
        }),
{
    let lhs = if decode(s).instruction is CMP {
        s.a
    } else if decode(s).instruction is CPX {
        s.x
    } else {
        s.y
    };
    let rhs = operand_value(s, decode(s).operand);
    let diff = lhs.wrapping_sub(rhs);
    let s1 = with_flag(s.status, Flags::C, lhs >= rhs);
    let s2 = with_flag(s1, Flags::Z, lhs == rhs);
    lemma_flag_update_read(s.status, Flags::C, lhs >= rhs, Flags::C);
    lemma_flag_update_read(s1, Flags::Z, lhs == rhs, Flags::C);
    lemma_flag_update_read(s1, Flags::Z, lhs == rhs, Flags::Z);
    lemma_flag_update_read(s2, Flags::N, diff & 0x80 != 0, Flags::C);
    lemma_flag_update_read(s2, Flags::N, diff & 0x80 != 0, Flags::Z);
    lemma_flag_update_read(s2, Flags::N, diff & 0x80 != 0, Flags::N);
}

/// Incrementing a register that holds 0xFF wraps to 0x00, with Zero set and
/// Negative clear.
pub proof fn lemma_increment_wraps(s: CpuState)
    requires
        decode(s).instruction is INX || decode(s).instruction is INY,
        decode(s).instruction is INX ==> s.x == 0xff,
        decode(s).instruction is INY ==> s.y == 0xff,
    ensures
        decode(s).instruction is INX ==> step(s).x == 0x00,
        decode(s).instruction is INY ==> step(s).y == 0x00,
        flag_set(step(s).status, Flags::Z),
        !flag_set(step(s).status, Flags::N),
{
    lemma_zn_flags(s.status, 0, Flags::C);
    assert(0u8 & 0x80 == 0) by (bit_vector);
}

/// Decrementing a register that holds 0x00 wraps to 0xFF, with Negative set
/// and Zero clear.
pub proof fn lemma_decrement_wraps(s: CpuState)
    requires
        decode(s).instruction is DEX || decode(s).instruction is DEY,
        decode(s).instruction is DEX ==> s.x == 0x00,
        decode(s).instruction is DEY ==> s.y == 0x00,
    ensures
        decode(s).instruction is DEX ==> step(s).x == 0xff,
        decode(s).instruction is DEY ==> step(s).y == 0xff,
        !flag_set(step(s).status, Flags::Z),
        flag_set(step(s).status, Flags::N),
{
    lemma_zn_flags(s.status, 0xff, Flags::C);
    assert(0xffu8 & 0x80 != 0) by (bit_vector);
}

/// A branch that is not taken advances the program counter by the
/// instruction's length, 2 for the relative mode; one that is taken sets it
/// to the address given by the relative-addressing rule. Flags are
/// untouched either way.
pub proof fn lemma_branch_pc(s: CpuState)
    requires
        decode(s).instruction is BCC || decode(s).instruction is BCS || decode(
            s,
        ).instruction is BNE || decode(s).instruction is BEQ || decode(s).instruction is BPL
            || decode(s).instruction is BMI || decode(s).instruction is BVC || decode(
            s,
        ).instruction is BVS,
    ensures
        flag_set(s.status, branch_flag(decode(s).instruction)) != branch_polarity(
            decode(s).instruction,
        ) ==> step(s).pc == s.pc.wrapping_add(2),
        flag_set(s.status, branch_flag(decode(s).instruction)) == branch_polarity(
            decode(s).instruction,
        ) ==> step(s).pc == relative_target(s),
        step(s).status == s.status,
{
    lemma_decode_shape(s);
}

} // verus!
