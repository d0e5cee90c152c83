//! The mathematical model of the processor state, and the specification
//! functions for flags, memory access, and the stack discipline.

use vstd::prelude::*;

verus! {

/// The fixed 256-byte stack page starts here.
pub const STACK_PAGE: u16 = 0x0100;

/// The seven named status flags plus the always-set stub bit.
#[derive(Copy, Clone, Debug)]
pub enum Flags {
    /// Carry flag (bit 0).
    C,
    /// Zero flag (bit 1).
    Z,
    /// Interrupt mask (bit 2).
    I,
    /// Decimal flag (bit 3).
    D,
    /// Break flag (bit 4).
    B,
    /// Stub flag (bit 5), set on construction.
    S,
    /// Overflow flag (bit 6).
    V,
    /// Negative flag (bit 7).
    N,
}

/// The bit of the status byte that a flag occupies.
pub open spec fn flag_mask(f: Flags) -> u8 {
    match f {
        Flags::C => 0x01,
        Flags::Z => 0x02,
        Flags::I => 0x04,
        Flags::D => 0x08,
        Flags::B => 0x10,
        Flags::S => 0x20,
        Flags::V => 0x40,
        Flags::N => 0x80,
    }
}

/// Whether a flag is set in a status byte.
pub open spec fn flag_set(status: u8, f: Flags) -> bool {
    status & flag_mask(f) != 0
}

/// A status byte with one flag forced to a value, all other bits kept.
pub open spec fn with_flag(status: u8, f: Flags, value: bool) -> u8 {
    if value {
        status | flag_mask(f)
    } else {
        status & !flag_mask(f)
    }
}

/// A status byte with Zero and Negative set from a produced 8-bit value:
/// Zero iff the value is 0, Negative iff its top bit is set.
pub open spec fn with_zn(status: u8, value: u8) -> u8 {
    with_flag(with_flag(status, Flags::Z, value == 0), Flags::N, value & 0x80 != 0)
}

/// The model of the whole processor: registers, status, and the 64 KiB
/// memory image as a sequence of bytes.
#[verifier::ext_equal]
pub struct CpuState {
    pub pc: u16,
    pub sp: u8,
    pub a: u8,
    pub x: u8,
    pub y: u8,
    pub status: u8,
    pub mem: Seq<u8>,
}

/// A valid model state: the memory image covers the full 64 KiB address
/// space. Every state read off a processor satisfies this.
pub open spec fn wf(s: CpuState) -> bool {
    s.mem.len() == 0x10000
}

/// The state a freshly constructed processor is in.
pub open spec fn initial_state() -> CpuState {
    CpuState {
        pc: 0x600,
        sp: 0xff,
        a: 0,
        x: 0,
        y: 0,
        status: 0x20,
        mem: Seq::new(0x10000, |i: int| 0u8),
    }
}

/// The byte stored at an address.
pub open spec fn read8(s: CpuState, addr: u16) -> u8 {
    s.mem[addr as int]
}

/// The state with one memory byte replaced.
pub open spec fn write8(s: CpuState, addr: u16, value: u8) -> CpuState {
    CpuState { mem: s.mem.update(addr as int, value), ..s }
}

/// A 16-bit value assembled from a low and a high byte.
pub open spec fn word_from_bytes(lo: u8, hi: u8) -> u16 {
    (lo as u16) | ((hi as u16) << 8)
}

/// The high byte of a 16-bit value.
pub open spec fn high_byte(w: u16) -> u8 {
    (w >> 8) as u8
}

/// The low byte of a 16-bit value.
pub open spec fn low_byte(w: u16) -> u8 {
    (w & 0xff) as u8
}

/// The little-endian 16-bit value stored at an address. The high byte is
/// read at the next address, wrapping across the top of memory.
pub open spec fn read16(s: CpuState, addr: u16) -> u16 {
    word_from_bytes(read8(s, addr), read8(s, addr.wrapping_add(1)))
}

/// The stack-page address that a stack pointer value designates.
pub open spec fn stack_addr(sp: u8) -> u16 {
    (STACK_PAGE + sp) as u16
}

/// One byte pushed: the byte is written at the stack pointer's slot, then
/// the stack pointer decrements, wrapping modulo 256.
pub open spec fn push8(s: CpuState, value: u8) -> CpuState {
    CpuState {
        sp: s.sp.wrapping_sub(1),
        mem: s.mem.update(stack_addr(s.sp) as int, value),
        ..s
    }
}

/// The state after one byte is pulled: the stack pointer increments,
/// wrapping modulo 256; memory is unchanged.
pub open spec fn pull8_state(s: CpuState) -> CpuState {
    CpuState { sp: s.sp.wrapping_add(1), ..s }
}

/// The byte a pull reads: the slot at the incremented stack pointer.
pub open spec fn pull8_value(s: CpuState) -> u8 {
    read8(s, stack_addr(s.sp.wrapping_add(1)))
}

/// A 16-bit value pushed as two bytes, high byte first, low byte second.
pub open spec fn push16(s: CpuState, w: u16) -> CpuState {
    push8(push8(s, high_byte(w)), low_byte(w))
}

/// The state after a 16-bit pull (two single-byte pulls).
pub open spec fn pull16_state(s: CpuState) -> CpuState {
    pull8_state(pull8_state(s))
}

/// The value a 16-bit pull assembles: low byte read first, high byte second.
pub open spec fn pull16_value(s: CpuState) -> u16 {
    word_from_bytes(pull8_value(s), pull8_value(pull8_state(s)))
}

/// The state with a span of memory starting at `at` replaced by `data`;
/// registers and status are untouched.
pub open spec fn mem_store(s: CpuState, at: int, data: Seq<u8>) -> CpuState {
    CpuState { mem: s.mem.take(at) + data + s.mem.skip(at + data.len()), ..s }
}

/// Forcing one flag leaves every other flag as it was, and a read of the
/// forced flag gives the forced value.
pub proof fn lemma_flag_update_read(status: u8, f: Flags, value: bool, g: Flags)
    ensures
        flag_set(with_flag(status, f, value), g) == (if f == g {
            value
        } else {
            flag_set(status, g)
        }),
{
    let mf = flag_mask(f);
    let mg = flag_mask(g);
    assert(0x01u8 & 0x02 == 0 && 0x01u8 & 0x04 == 0 && 0x01u8 & 0x08 == 0 && 0x01u8 & 0x10 == 0
        && 0x01u8 & 0x20 == 0 && 0x01u8 & 0x40 == 0 && 0x01u8 & 0x80 == 0 && 0x02u8 & 0x04 == 0
        && 0x02u8 & 0x08 == 0 && 0x02u8 & 0x10 == 0 && 0x02u8 & 0x20 == 0 && 0x02u8 & 0x40 == 0
        && 0x02u8 & 0x80 == 0 && 0x04u8 & 0x08 == 0 && 0x04u8 & 0x10 == 0 && 0x04u8 & 0x20 == 0
        && 0x04u8 & 0x40 == 0 && 0x04u8 & 0x80 == 0 && 0x08u8 & 0x10 == 0 && 0x08u8 & 0x20 == 0
        && 0x08u8 & 0x40 == 0 && 0x08u8 & 0x80 == 0 && 0x10u8 & 0x20 == 0 && 0x10u8 & 0x40 == 0
        && 0x10u8 & 0x80 == 0 && 0x20u8 & 0x40 == 0 && 0x20u8 & 0x80 == 0 && 0x40u8 & 0x80 == 0)
        by (bit_vector);
    assert(forall|a: u8, b: u8| #[trigger] (a & b) == b & a) by (bit_vector);
    if f == g {
        assert(((status | mf) & mf != 0) == true && ((status & !mf) & mf != 0) == false)
            by (bit_vector)
            requires
                mf != 0,
        ;
    } else {
        assert(((status | mf) & mg != 0) == (status & mg != 0) && ((status & !mf) & mg != 0) == (
        status & mg != 0)) by (bit_vector)
            requires
                mf & mg == 0,
        ;
    }
}

/// Setting Zero and Negative from a value reads back as the rule states,
/// and leaves the other six flags untouched.
pub proof fn lemma_zn_flags(status: u8, value: u8, g: Flags)
    ensures
        flag_set(with_zn(status, value), Flags::Z) == (value == 0),
        flag_set(with_zn(status, value), Flags::N) == (value & 0x80 != 0),
        !(g is Z) && !(g is N) ==> flag_set(with_zn(status, value), g) == flag_set(status, g),
{
    let s1 = with_flag(status, Flags::Z, value == 0);
    lemma_flag_update_read(status, Flags::Z, value == 0, Flags::Z);
    lemma_flag_update_read(status, Flags::Z, value == 0, g);
    lemma_flag_update_read(s1, Flags::N, value & 0x80 != 0, Flags::Z);
    lemma_flag_update_read(s1, Flags::N, value & 0x80 != 0, Flags::N);
    lemma_flag_update_read(s1, Flags::N, value & 0x80 != 0, g);
}

/// Splitting a 16-bit value into its two bytes and reassembling them in the
/// same order is the identity.
pub proof fn lemma_word_bytes_roundtrip(w: u16)
    ensures
        word_from_bytes(low_byte(w), high_byte(w)) == w,
{
    assert((((w & 0xff) as u8) as u16) | ((((w >> 8) as u8) as u16) << 8) == w) by (bit_vector);
}

} // verus!
