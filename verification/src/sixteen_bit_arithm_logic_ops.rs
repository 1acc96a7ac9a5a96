//! The 16-bit arithmetic family: ADD HL,rr, and the pair and SP
//! increments and decrements, which move no flag.

use vstd::prelude::*;

use crate::arith::{hc_add16, wrap_add16, wrap_sub16};
use crate::cpu::{CpuView, CPU};
use crate::registers::Register16bits;

verus! {

/// ADD HL,rr: HL rises by the pair; flags - 0 H C with the 16-bit
/// half-carry from bit 11.
pub open spec fn spec_add16(s: CpuView, register: Register16bits) -> CpuView {
    let value = s.reg16(register);
    let hl = s.reg16(Register16bits::HL);
    let new_val = wrap_add16(hl, value);
    let s1 = s.with_regs(s.regs.with_reg16(Register16bits::HL, new_val));
    s1.with_regs(
        s1.regs.with_flags(s1.regs.flags.z, false, hc_add16(hl, value), hl + value > 0xFFFF),
    )
}

/// DEC rr: the pair falls by 1; no flag moves.
pub open spec fn spec_dec16(s: CpuView, register: Register16bits) -> CpuView {
    s.with_regs(s.regs.with_reg16(register, wrap_sub16(s.reg16(register), 1)))
}

/// INC rr: the pair rises by 1; no flag moves.
pub open spec fn spec_inc16(s: CpuView, register: Register16bits) -> CpuView {
    s.with_regs(s.regs.with_reg16(register, wrap_add16(s.reg16(register), 1)))
}

/// DEC SP: SP falls by 1; no flag moves.
pub open spec fn spec_dec_sp(s: CpuView) -> CpuView {
    s.with_regs(s.regs.with_sp(wrap_sub16(s.regs.sp.0, 1)))
}

/// INC SP: SP rises by 1; no flag moves.
pub open spec fn spec_inc_sp(s: CpuView) -> CpuView {
    s.with_regs(s.regs.with_sp(wrap_add16(s.regs.sp.0, 1)))
}

pub fn add16(cpu: &mut CPU, register: Register16bits)
    requires
        old(cpu)@.wf(),
    ensures
        final(cpu)@ == spec_add16(old(cpu)@, register),
        final(cpu)@.wf(),
{
    let register_val = cpu.registers.read_16b(&register);
    let register_hl_val = cpu.registers.read_16b(&Register16bits::HL);
    let sum = register_hl_val as u32 + register_val as u32;
    let new_val = (sum % 0x10000) as u16;

    cpu.registers.write_16b(&Register16bits::HL, new_val);

    cpu.registers.write_s_flag(false);
    let hc = CPU::half_carry_in_add_16(register_hl_val, register_val);
    cpu.registers.write_hc_flag(hc);
    cpu.registers.write_c_flag(sum > 0xFFFF);
}

pub fn dec16(cpu: &mut CPU, register: Register16bits)
    requires
        old(cpu)@.wf(),
    ensures
        final(cpu)@ == spec_dec16(old(cpu)@, register),
        final(cpu)@.wf(),
{
    let initial_val = cpu.registers.read_16b(&register);
    let new_val = ((initial_val as u32 + 0x10000 - 1) % 0x10000) as u16;

    cpu.registers.write_16b(&register, new_val);
}

pub fn dec_sp(cpu: &mut CPU)
    requires
        old(cpu)@.wf(),
    ensures
        final(cpu)@ == spec_dec_sp(old(cpu)@),
        final(cpu)@.wf(),
{
    cpu.registers.decrease_sp(1);
}

pub fn inc16(cpu: &mut CPU, register: Register16bits)
    requires
        old(cpu)@.wf(),
    ensures
        final(cpu)@ == spec_inc16(old(cpu)@, register),
        final(cpu)@.wf(),
{
    let initial_val = cpu.registers.read_16b(&register);
    let new_val = ((initial_val as u32 + 1) % 0x10000) as u16;

    cpu.registers.write_16b(&register, new_val);
}

pub fn inc_sp(cpu: &mut CPU)
    requires
        old(cpu)@.wf(),
    ensures
        final(cpu)@ == spec_inc_sp(old(cpu)@),
        final(cpu)@.wf(),
{
    cpu.registers.increase_sp(1);
}

} // verus!
