//! The jump, call and return family with its four condition codes, the
//! relative jumps with a signed offset, RST, and RETI.

use vstd::prelude::*;

use crate::arith::wrap_add_signed16;
use crate::cpu::{CpuView, CPU};
use crate::instructions::JumpCondition;
use crate::registers::Register16bits;

verus! {

/// Whether a condition code holds of the current flags.
pub open spec fn spec_condition(s: CpuView, condition: JumpCondition) -> bool {
    match condition {
        JumpCondition::Always => true,
        JumpCondition::Z => s.regs.flags.z,
        JumpCondition::NZ => !s.regs.flags.z,
        JumpCondition::C => s.regs.flags.c,
        JumpCondition::NC => !s.regs.flags.c,
    }
}

/// JP cc,a16: the immediate word is always consumed; when the condition
/// holds, PC takes it.
pub open spec fn spec_jp(s: CpuView, condition: JumpCondition) -> CpuView {
    let target = s.fetched_word();
    let s2 = s.after_fetch2();
    if spec_condition(s2, condition) {
        s2.with_regs(s2.regs.with_pc(target))
    } else {
        s2
    }
}

/// JP (HL): PC takes HL.
pub open spec fn spec_jp_hl(s: CpuView) -> CpuView {
    s.with_regs(s.regs.with_pc(s.reg16(Register16bits::HL)))
}

/// JR cc,r8: the offset byte is always consumed; when the condition holds,
/// PC moves by the sign-extended offset.
pub open spec fn spec_jr(s: CpuView, condition: JumpCondition) -> CpuView {
    let offset = s.fetched_byte();
    let s1 = s.after_fetch();
    if spec_condition(s1, condition) {
        s1.with_regs(s1.regs.with_pc(wrap_add_signed16(s1.regs.pc.0, offset)))
    } else {
        s1
    }
}

/// RST n: PC is pushed, then takes the fixed target n.
pub open spec fn spec_rst(s: CpuView, offset: u8) -> CpuView {
    let s1 = s.pushed(s.regs.pc.0);
    s1.with_regs(s1.regs.with_pc(offset as u16))
}

/// RET cc: when the condition holds, PC is popped from the stack.
pub open spec fn spec_ret(s: CpuView, condition: JumpCondition) -> CpuView {
    if spec_condition(s, condition) {
        let target = s.popped_value();
        let s1 = s.after_pop();
        s1.with_regs(s1.regs.with_pc(target))
    } else {
        s
    }
}

/// RETI: PC is popped, and the interrupt master enable is set.
pub open spec fn spec_reti(s: CpuView) -> CpuView {
    let target = s.popped_value();
    let s1 = s.after_pop();
    s1.with_regs(s1.regs.with_pc(target)).with_ime(true)
}

/// CALL cc,a16: the immediate word is always consumed; when the condition
/// holds, the PC after it is pushed and PC takes the target.
pub open spec fn spec_call(s: CpuView, condition: JumpCondition) -> CpuView {
    let target = s.fetched_word();
    let s2 = s.after_fetch2();
    if spec_condition(s2, condition) {
        let s3 = s2.pushed(s2.regs.pc.0);
        s3.with_regs(s3.regs.with_pc(target))
    } else {
        s2
    }
}

pub fn jp(cpu: &mut CPU, condition: JumpCondition)
    requires
        old(cpu)@.wf(),
    ensures
        final(cpu)@ == spec_jp(old(cpu)@, condition),
        final(cpu)@.wf(),
{
    let d16 = cpu.read_d16();

    if condition_is_true(cpu, condition) {
        cpu.registers.write_pc(d16);
    }
}

pub fn jp_hl(cpu: &mut CPU)
    requires
        old(cpu)@.wf(),
    ensures
        final(cpu)@ == spec_jp_hl(old(cpu)@),
        final(cpu)@.wf(),
{
    let hl_val = cpu.registers.read_16b(&Register16bits::HL);

    cpu.registers.write_pc(hl_val);
}

pub fn jr(cpu: &mut CPU, condition: JumpCondition)
    requires
        old(cpu)@.wf(),
    ensures
        final(cpu)@ == spec_jr(old(cpu)@, condition),
        final(cpu)@.wf(),
{
    let offset = cpu.fetch_byte();

    if condition_is_true(cpu, condition) {
        if offset < 0x80 {
            cpu.registers.increase_pc(offset as u16);
        } else {
            cpu.registers.decrease_pc(0x100 - offset as u16);
        }
    }
}

pub fn rst(cpu: &mut CPU, offset: u8)
    requires
        old(cpu)@.wf(),
    ensures
        final(cpu)@ == spec_rst(old(cpu)@, offset),
        final(cpu)@.wf(),
{
    let pc = cpu.registers.pc();
    cpu.push_to_stack(pc);
    cpu.registers.write_pc(offset as u16);
}

pub fn ret(cpu: &mut CPU, condition: JumpCondition)
    requires
        old(cpu)@.wf(),
    ensures
        final(cpu)@ == spec_ret(old(cpu)@, condition),
        final(cpu)@.wf(),
{
    if condition_is_true(cpu, condition) {
        let jp_addr = cpu.pop_from_stack();
        cpu.registers.write_pc(jp_addr);
    }
}

pub fn reti(cpu: &mut CPU)
    requires
        old(cpu)@.wf(),
    ensures
        final(cpu)@ == spec_reti(old(cpu)@),
        final(cpu)@.wf(),
{
    let jp_addr = cpu.pop_from_stack();

    cpu.registers.write_pc(jp_addr);

    cpu.interrupts_enabled = true;
}

pub fn call(cpu: &mut CPU, condition: JumpCondition)
    requires
        old(cpu)@.wf(),
    ensures
        final(cpu)@ == spec_call(old(cpu)@, condition),
        final(cpu)@.wf(),
{
    let a16 = cpu.read_a16();

    if condition_is_true(cpu, condition) {
        let pc = cpu.registers.pc();
        cpu.push_to_stack(pc);
        cpu.registers.write_pc(a16);
    }
}

fn condition_is_true(cpu: &CPU, condition: JumpCondition) -> (r: bool)
    ensures
        r == spec_condition(cpu@, condition),
{
    match condition {
        JumpCondition::Always => true,
        JumpCondition::Z => cpu.registers.read_z_flag(),
        JumpCondition::NZ => !cpu.registers.read_z_flag(),
        JumpCondition::C => cpu.registers.read_c_flag(),
        JumpCondition::NC => !cpu.registers.read_c_flag(),
    }
}

} // verus!
