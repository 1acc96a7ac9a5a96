//! The 16-bit load family: immediate pair loads, the SP loads, the stack
//! PUSH/POP pair, and the two signed-offset SP forms with their special
//! flag rule.

use vstd::prelude::*;

use crate::arith::wrap_add_signed16;
use crate::cpu::{CpuView, CPU};
use crate::registers::Register16bits;

verus! {

/// LD rr,d16: the pair takes the immediate word.
pub open spec fn spec_ld_r16_d16(s: CpuView, register: Register16bits) -> CpuView {
    let s2 = s.after_fetch2();
    s2.with_regs(s2.regs.with_reg16(register, s.fetched_word()))
}

/// LD SP,d16: SP takes the immediate word.
pub open spec fn spec_ld_sp_d16(s: CpuView) -> CpuView {
    let s2 = s.after_fetch2();
    s2.with_regs(s2.regs.with_sp(s.fetched_word()))
}

/// LD (a16),SP: the word at the immediate address takes SP, little-endian.
pub open spec fn spec_ld_a16_sp(s: CpuView) -> CpuView {
    let s2 = s.after_fetch2();
    s2.with_mem(s2.mem.write_word(s.fetched_word(), s2.regs.sp.0))
}

/// ADD HL,SP: HL rises by SP; flags - 0 H C with the 16-bit half-carry.
pub open spec fn spec_add_hl_sp(s: CpuView) -> CpuView {
    let hl = s.reg16(Register16bits::HL);
    let sp = s.regs.sp.0;
    let new_val = crate::arith::wrap_add16(hl, sp);
    let s1 = s.with_regs(s.regs.with_reg16(Register16bits::HL, new_val));
    s1.with_regs(
        s1.regs.with_flags(
            s1.regs.flags.z,
            false,
            crate::arith::hc_add16(hl, sp),
            hl + sp > 0xFFFF,
        ),
    )
}

/// LD SP,HL: SP takes HL.
pub open spec fn spec_ld_sp_hl(s: CpuView) -> CpuView {
    s.with_regs(s.regs.with_sp(s.reg16(Register16bits::HL)))
}

/// The flags of ADD SP,r8 and LD HL,SP+r8: Z and N clear, H and C from the
/// unsigned addition of the offset byte to SP's low byte.
pub open spec fn spec_sp_offset_flags(s: CpuView, sp: u16, offset: u8) -> CpuView {
    s.with_regs(
        s.regs.with_flags(
            false,
            false,
            (sp % 16) + (offset % 16) > 15,
            (sp % 0x100) + offset > 0xFF,
        ),
    )
}

/// ADD SP,r8: SP moves by the sign-extended immediate byte.
pub open spec fn spec_add_sp_r8(s: CpuView) -> CpuView {
    let offset = s.fetched_byte();
    let s1 = s.after_fetch();
    let sp = s1.regs.sp.0;
    let s2 = s1.with_regs(s1.regs.with_sp(wrap_add_signed16(sp, offset)));
    spec_sp_offset_flags(s2, sp, offset)
}

/// LD HL,SP+r8: HL takes SP moved by the sign-extended immediate byte.
pub open spec fn spec_ld_hl_sp_r8(s: CpuView) -> CpuView {
    let offset = s.fetched_byte();
    let s1 = s.after_fetch();
    let sp = s1.regs.sp.0;
    let s2 = s1.with_regs(
        s1.regs.with_reg16(Register16bits::HL, wrap_add_signed16(sp, offset)),
    );
    spec_sp_offset_flags(s2, sp, offset)
}

/// PUSH rr: SP falls by 2, then the pair is stored there.
pub open spec fn spec_push(s: CpuView, register: Register16bits) -> CpuView {
    s.pushed(s.reg16(register))
}

/// POP rr: the pair takes the word at SP, then SP rises by 2. Popping into
/// AF materialises the flags from the low byte.
pub open spec fn spec_pop(s: CpuView, register: Register16bits) -> CpuView {
    let data = s.popped_value();
    let s1 = s.after_pop();
    s1.with_regs(s1.regs.with_reg16(register, data))
}

pub fn ld_r16_d16(cpu: &mut CPU, register: Register16bits)
    requires
        old(cpu)@.wf(),
    ensures
        final(cpu)@ == spec_ld_r16_d16(old(cpu)@, register),
        final(cpu)@.wf(),
{
    let d16 = cpu.read_d16();

    cpu.registers.write_16b(&register, d16);
}

pub fn ld_sp_d16(cpu: &mut CPU)
    requires
        old(cpu)@.wf(),
    ensures
        final(cpu)@ == spec_ld_sp_d16(old(cpu)@),
        final(cpu)@.wf(),
{
    let d16 = cpu.read_d16();

    cpu.registers.write_sp(d16);
}

pub fn ld_a16_sp(cpu: &mut CPU)
    requires
        old(cpu)@.wf(),
    ensures
        final(cpu)@ == spec_ld_a16_sp(old(cpu)@),
        final(cpu)@.wf(),
{
    let a16 = cpu.read_a16();
    let sp = cpu.registers.sp();

    cpu.memory.write_word(a16, sp);
}

pub fn add_hl_sp(cpu: &mut CPU)
    requires
        old(cpu)@.wf(),
    ensures
        final(cpu)@ == spec_add_hl_sp(old(cpu)@),
        final(cpu)@.wf(),
{
    let sp = cpu.registers.sp();
    let register_hl_val = cpu.registers.read_16b(&Register16bits::HL);
    let sum = register_hl_val as u32 + sp as u32;
    let new_val = (sum % 0x10000) as u16;

    cpu.registers.write_16b(&Register16bits::HL, new_val);

    cpu.registers.write_s_flag(false);
    let hc = CPU::half_carry_in_add_16(register_hl_val, sp);
    cpu.registers.write_hc_flag(hc);
    cpu.registers.write_c_flag(sum > 0xFFFF);
}

pub fn ld_sp_hl(cpu: &mut CPU)
    requires
        old(cpu)@.wf(),
    ensures
        final(cpu)@ == spec_ld_sp_hl(old(cpu)@),
        final(cpu)@.wf(),
{
    let register_hl_val = cpu.registers.read_16b(&Register16bits::HL);

    cpu.registers.write_sp(register_hl_val);
}

/// Move a 16-bit value by a sign-extended offset byte, wrapping at 16 bits.
fn add_signed_offset(value: u16, offset: u8) -> (r: u16)
    ensures
        r == wrap_add_signed16(value, offset),
{
    if offset < 0x80 {
        ((value as u32 + offset as u32) % 0x10000) as u16
    } else {
        ((value as u32 + 0x10000 - (0x100 - offset as u32)) % 0x10000) as u16
    }
}

pub fn add_sp_r8(cpu: &mut CPU)
    requires
        old(cpu)@.wf(),
    ensures
        final(cpu)@ == spec_add_sp_r8(old(cpu)@),
        final(cpu)@.wf(),
{
    let offset = cpu.fetch_byte();
    let sp_val = cpu.registers.sp();
    let new_val = add_signed_offset(sp_val, offset);

    cpu.registers.write_sp(new_val);

    cpu.registers.write_flags(
        false,
        false,
        (sp_val % 16) + (offset % 16) as u16 > 15,
        (sp_val % 0x100) + offset as u16 > 0xFF,
    );
}

pub fn ld_hl_sp_r8(cpu: &mut CPU)
    requires
        old(cpu)@.wf(),
    ensures
        final(cpu)@ == spec_ld_hl_sp_r8(old(cpu)@),
        final(cpu)@.wf(),
{
    let offset = cpu.fetch_byte();
    let sp_val = cpu.registers.sp();
    let new_val = add_signed_offset(sp_val, offset);

    cpu.registers.write_16b(&Register16bits::HL, new_val);

    cpu.registers.write_flags(
        false,
        false,
        (sp_val % 16) + (offset % 16) as u16 > 15,
        (sp_val % 0x100) + offset as u16 > 0xFF,
    );
}

pub fn push(cpu: &mut CPU, register: Register16bits)
    requires
        old(cpu)@.wf(),
    ensures
        final(cpu)@ == spec_push(old(cpu)@, register),
        final(cpu)@.wf(),
{
    let data = cpu.registers.read_16b(&register);

    cpu.push_to_stack(data);
}

pub fn pop(cpu: &mut CPU, register: Register16bits)
    requires
        old(cpu)@.wf(),
    ensures
        final(cpu)@ == spec_pop(old(cpu)@, register),
        final(cpu)@.wf(),
{
    let data = cpu.pop_from_stack();

    cpu.registers.write_16b(&register, data);
}

} // verus!
