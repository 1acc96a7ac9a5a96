//! Laws of the register file, the decoders, the stack and the arithmetic
//! family, proved once and for all inputs.

use vstd::prelude::*;

use crate::arith::{wrap_add16, wrap_sub16};
use crate::cpu::CpuView;
use crate::eight_bit_arithm_logic_ops as alu8;
use crate::instructions::{
    spec_decode, spec_decode_prefixed, spec_undefined_opcode, Instruction,
};
use crate::interrupts::{ENABLED_INTERRUPTS_ADDR, PENDING_INTERRUPTS_ADDR};
use crate::registers::{FlagsRegister, Register16bits, Register8bits, Registers};
use crate::sixteen_bit_load_ops as ld16;

verus! {

/// Writing an 8-bit register and reading it back returns the written
/// value, whichever register and value it is.
pub proof fn lemma_reg8_write_read(regs: Registers, register: Register8bits, value: u8)
    ensures
        regs.with_reg8(register, value).spec_reg8(register) == value,
{
}

/// The four flags survive the round trip through the materialised F byte.
pub proof fn lemma_flags_roundtrip(flags: FlagsRegister)
    ensures
        FlagsRegister::spec_of_byte(flags.spec_byte()) == flags,
{
}

/// The F byte built from a decoded byte keeps bits 7..4 and zeroes the low
/// nibble: the round trip of a byte through the flags is `16 * (b / 16)`.
pub proof fn lemma_flags_byte_roundtrip(value: u8)
    ensures
        FlagsRegister::spec_of_byte(value).spec_byte() == 16 * (value / 16),
{
}

/// Writing a 16-bit pair and reading it back returns the written value for
/// BC, DE and HL; for AF the low nibble of F reads back as zero.
pub proof fn lemma_reg16_write_read(regs: Registers, register: Register16bits, value: u16)
    ensures
        register != Register16bits::AF ==> regs.with_reg16(register, value).spec_reg16(register)
            == value,
        register == Register16bits::AF ==> regs.with_reg16(register, value).spec_reg16(register)
            == 16 * (value / 16),
{
    lemma_flags_byte_roundtrip((value % 0x100) as u8);
}

/// Every primary opcode outside the undefined set decodes to a defined
/// instruction.
pub proof fn lemma_decode_defined(byte: u8)
    requires
        !spec_undefined_opcode(byte),
    ensures
        !(spec_decode(byte) is UNUSED),
{
}

/// Every prefixed opcode decodes to a defined instruction.
pub proof fn lemma_decode_prefixed_defined(byte: u8)
    ensures
        !(spec_decode_prefixed(byte) is UNUSED),
{
}

/// PUSH rr then POP rr restores the pair and leaves SP where it was, as
/// long as the two stacked bytes do not land on the memory-mapped IF or IE
/// registers, which mask what is stored in them.
pub proof fn lemma_push_pop_roundtrip(s: CpuView, register: Register16bits)
    requires
        s.wf(),
        wrap_sub16(s.regs.sp.0, 2) != PENDING_INTERRUPTS_ADDR,
        wrap_sub16(s.regs.sp.0, 2) != ENABLED_INTERRUPTS_ADDR,
        wrap_add16(wrap_sub16(s.regs.sp.0, 2), 1) != PENDING_INTERRUPTS_ADDR,
        wrap_add16(wrap_sub16(s.regs.sp.0, 2), 1) != ENABLED_INTERRUPTS_ADDR,
    ensures
        ld16::spec_pop(ld16::spec_push(s, register), register).regs.spec_reg16(register)
            == s.regs.spec_reg16(register),
        ld16::spec_pop(ld16::spec_push(s, register), register).regs.sp.0 == s.regs.sp.0,
{
    let sp = s.regs.sp.0;
    let sp2 = wrap_sub16(sp, 2);
    let value = s.regs.spec_reg16(register);
    assert(wrap_add16(sp2, 2) == sp);
    assert(wrap_add16(sp2, 1) != sp2);
    let pushed = ld16::spec_push(s, register);
    assert(pushed.mem.read(sp2) == (value % 0x100) as u8);
    assert(pushed.mem.read(wrap_add16(sp2, 1)) == (value / 0x100) as u8);
    assert(pushed.popped_value() == value);
    if register is AF {
        lemma_flags_roundtrip(s.regs.flags);
        assert((value % 0x100) as u8 == s.regs.flags.spec_byte());
    }
}

/// After each arithmetic or logic operation that leaves its result in A,
/// including INC and DEC aimed at A, the Z flag says exactly whether the
/// new A is zero. (CP is not among them: it compares without storing, so
/// its Z speaks of the comparison, and an INC or DEC aimed at another
/// register sets Z from that register's new value, not from A.)
pub proof fn lemma_zero_flag_tracks_a(s: CpuView, value: u8)
    ensures
        alu8::spec_add_to_a(s, value).regs.flags.z == (alu8::spec_add_to_a(s, value).regs.a == 0),
        alu8::spec_adc_to_a(s, value).regs.flags.z == (alu8::spec_adc_to_a(s, value).regs.a == 0),
        alu8::spec_sub_from_a(s, value).regs.flags.z == (alu8::spec_sub_from_a(s, value).regs.a
            == 0),
        alu8::spec_sbc_from_a(s, value).regs.flags.z == (alu8::spec_sbc_from_a(s, value).regs.a
            == 0),
        alu8::spec_and_with_a(s, value).regs.flags.z == (alu8::spec_and_with_a(s, value).regs.a
            == 0),
        alu8::spec_or_with_a(s, value).regs.flags.z == (alu8::spec_or_with_a(s, value).regs.a
            == 0),
        alu8::spec_xor_with_a(s, value).regs.flags.z == (alu8::spec_xor_with_a(s, value).regs.a
            == 0),
        alu8::spec_daa(s).regs.flags.z == (alu8::spec_daa(s).regs.a == 0),
        alu8::spec_inc_reg(s, Register8bits::A).regs.flags.z == (alu8::spec_inc_reg(
            s,
            Register8bits::A,
        ).regs.a == 0),
        alu8::spec_dec_reg(s, Register8bits::A).regs.flags.z == (alu8::spec_dec_reg(
            s,
            Register8bits::A,
        ).regs.a == 0),
{
}

} // verus!
