//! The rotate and shift family: RLC/RRC/RL/RR/SLA/SRA/SRL/SWAP on registers
//! and on the byte at HL, and the short A forms RLCA/RRCA/RLA/RRA that
//! always clear Z.

use vstd::prelude::*;

use crate::cpu::{CpuView, CPU};
use crate::registers::{Register16bits, Register8bits};

verus! {

/// Rotate left through carry: bit 7 leaves into carry, the old carry
/// enters at bit 0.
pub open spec fn spec_rl_val(v: u8, carry_in: bool) -> u8 {
    ((2 * v) % 0x100 + if carry_in {
        1int
    } else {
        0int
    }) as u8
}

/// Rotate left: bit 7 re-enters at bit 0 and is also the new carry.
pub open spec fn spec_rlc_val(v: u8) -> u8 {
    ((2 * v) % 0x100 + if v >= 0x80 {
        1int
    } else {
        0int
    }) as u8
}

/// Rotate right through carry: bit 0 leaves into carry, the old carry
/// enters at bit 7.
pub open spec fn spec_rr_val(v: u8, carry_in: bool) -> u8 {
    (v / 2 + if carry_in {
        0x80int
    } else {
        0int
    }) as u8
}

/// Rotate right: bit 0 re-enters at bit 7 and is also the new carry.
pub open spec fn spec_rrc_val(v: u8) -> u8 {
    (v / 2 + (v % 2) * 0x80) as u8
}

/// Shift left arithmetic: bit 7 leaves into carry, 0 enters at bit 0.
pub open spec fn spec_sla_val(v: u8) -> u8 {
    ((2 * v) % 0x100) as u8
}

/// Shift right arithmetic: bit 0 leaves into carry, bit 7 is kept.
pub open spec fn spec_sra_val(v: u8) -> u8 {
    (v / 2 + if v >= 0x80 {
        0x80int
    } else {
        0int
    }) as u8
}

/// Shift right logical: bit 0 leaves into carry, 0 enters at bit 7.
pub open spec fn spec_srl_val(v: u8) -> u8 {
    (v / 2) as u8
}

/// Swap the two nibbles.
pub open spec fn spec_swap_val(v: u8) -> u8 {
    ((v % 16) * 16 + v / 16) as u8
}

/// A rotate or shift applied to a register: the register takes `new_val`;
/// flags are Z 0 0 C with the given Z and carry.
pub open spec fn spec_rot_reg(
    s: CpuView,
    register: Register8bits,
    new_val: u8,
    z: bool,
    c: bool,
) -> CpuView {
    s.with_regs(s.regs.with_reg8(register, new_val).with_flags(z, false, false, c))
}

/// A rotate or shift applied to the byte at HL.
pub open spec fn spec_rot_at_hl(s: CpuView, new_val: u8, z: bool, c: bool) -> CpuView {
    let s1 = s.write(s.reg16(Register16bits::HL), new_val);
    s1.with_regs(s1.regs.with_flags(z, false, false, c))
}

pub open spec fn spec_rl_reg(s: CpuView, register: Register8bits) -> CpuView {
    let v = s.reg8(register);
    let new_val = spec_rl_val(v, s.regs.flags.c);
    spec_rot_reg(s, register, new_val, new_val == 0, v >= 0x80)
}

pub open spec fn spec_rla(s: CpuView) -> CpuView {
    let v = s.regs.a;
    spec_rot_reg(s, Register8bits::A, spec_rl_val(v, s.regs.flags.c), false, v >= 0x80)
}

pub open spec fn spec_rl_at_hl(s: CpuView) -> CpuView {
    let v = s.read(s.reg16(Register16bits::HL));
    let new_val = spec_rl_val(v, s.regs.flags.c);
    spec_rot_at_hl(s, new_val, new_val == 0, v >= 0x80)
}

pub open spec fn spec_rlc_reg(s: CpuView, register: Register8bits) -> CpuView {
    let v = s.reg8(register);
    let new_val = spec_rlc_val(v);
    spec_rot_reg(s, register, new_val, new_val == 0, v >= 0x80)
}

pub open spec fn spec_rlca(s: CpuView) -> CpuView {
    let v = s.regs.a;
    spec_rot_reg(s, Register8bits::A, spec_rlc_val(v), false, v >= 0x80)
}

pub open spec fn spec_rlc_at_hl(s: CpuView) -> CpuView {
    let v = s.read(s.reg16(Register16bits::HL));
    let new_val = spec_rlc_val(v);
    spec_rot_at_hl(s, new_val, new_val == 0, v >= 0x80)
}

pub open spec fn spec_rr_reg(s: CpuView, register: Register8bits) -> CpuView {
    let v = s.reg8(register);
    let new_val = spec_rr_val(v, s.regs.flags.c);
    spec_rot_reg(s, register, new_val, new_val == 0, v % 2 == 1)
}

pub open spec fn spec_rra(s: CpuView) -> CpuView {
    let v = s.regs.a;
    spec_rot_reg(s, Register8bits::A, spec_rr_val(v, s.regs.flags.c), false, v % 2 == 1)
}

pub open spec fn spec_rr_at_hl(s: CpuView) -> CpuView {
    let v = s.read(s.reg16(Register16bits::HL));
    let new_val = spec_rr_val(v, s.regs.flags.c);
    spec_rot_at_hl(s, new_val, new_val == 0, v % 2 == 1)
}

pub open spec fn spec_rrc_reg(s: CpuView, register: Register8bits) -> CpuView {
    let v = s.reg8(register);
    let new_val = spec_rrc_val(v);
    spec_rot_reg(s, register, new_val, new_val == 0, v % 2 == 1)
}

pub open spec fn spec_rrca(s: CpuView) -> CpuView {
    let v = s.regs.a;
    spec_rot_reg(s, Register8bits::A, spec_rrc_val(v), false, v % 2 == 1)
}

pub open spec fn spec_rrc_at_hl(s: CpuView) -> CpuView {
    let v = s.read(s.reg16(Register16bits::HL));
    let new_val = spec_rrc_val(v);
    spec_rot_at_hl(s, new_val, new_val == 0, v % 2 == 1)
}

pub open spec fn spec_sla_reg(s: CpuView, register: Register8bits) -> CpuView {
    let v = s.reg8(register);
    let new_val = spec_sla_val(v);
    spec_rot_reg(s, register, new_val, new_val == 0, v >= 0x80)
}

pub open spec fn spec_sla_at_hl(s: CpuView) -> CpuView {
    let v = s.read(s.reg16(Register16bits::HL));
    let new_val = spec_sla_val(v);
    spec_rot_at_hl(s, new_val, new_val == 0, v >= 0x80)
}

pub open spec fn spec_sra_reg(s: CpuView, register: Register8bits) -> CpuView {
    let v = s.reg8(register);
    let new_val = spec_sra_val(v);
    spec_rot_reg(s, register, new_val, new_val == 0, v % 2 == 1)
}

pub open spec fn spec_sra_at_hl(s: CpuView) -> CpuView {
    let v = s.read(s.reg16(Register16bits::HL));
    let new_val = spec_sra_val(v);
    spec_rot_at_hl(s, new_val, new_val == 0, v % 2 == 1)
}

pub open spec fn spec_srl_reg(s: CpuView, register: Register8bits) -> CpuView {
    let v = s.reg8(register);
    let new_val = spec_srl_val(v);
    spec_rot_reg(s, register, new_val, new_val == 0, v % 2 == 1)
}

pub open spec fn spec_srl_at_hl(s: CpuView) -> CpuView {
    let v = s.read(s.reg16(Register16bits::HL));
    let new_val = spec_srl_val(v);
    spec_rot_at_hl(s, new_val, new_val == 0, v % 2 == 1)
}

pub open spec fn spec_swap_reg(s: CpuView, register: Register8bits) -> CpuView {
    let new_val = spec_swap_val(s.reg8(register));
    spec_rot_reg(s, register, new_val, new_val == 0, false)
}

pub open spec fn spec_swap_at_hl(s: CpuView) -> CpuView {
    let new_val = spec_swap_val(s.read(s.reg16(Register16bits::HL)));
    spec_rot_at_hl(s, new_val, new_val == 0, false)
}

pub fn rl(cpu: &mut CPU, register: Register8bits)
    requires
        old(cpu)@.wf(),
    ensures
        final(cpu)@ == spec_rl_reg(old(cpu)@, register),
        final(cpu)@.wf(),
{
    let initial_val = cpu.registers.read(&register);
    let initial_c = cpu.registers.read_c_flag();
    let new_bit_0: u8 = if initial_c {
        1
    } else {
        0
    };
    let new_val = ((initial_val as u16 * 2) % 0x100) as u8 + new_bit_0;

    cpu.registers.write(&register, new_val);

    cpu.registers.write_flags(new_val == 0, false, false, initial_val >= 0x80);
}

pub fn rla(cpu: &mut CPU)
    requires
        old(cpu)@.wf(),
    ensures
        final(cpu)@ == spec_rla(old(cpu)@),
        final(cpu)@.wf(),
{
    let initial_val = cpu.registers.read(&Register8bits::A);
    let initial_c = cpu.registers.read_c_flag();
    let new_bit_0: u8 = if initial_c {
        1
    } else {
        0
    };
    let new_val = ((initial_val as u16 * 2) % 0x100) as u8 + new_bit_0;

    cpu.registers.write(&Register8bits::A, new_val);

    cpu.registers.write_flags(false, false, false, initial_val >= 0x80);
}

pub fn rl_hl(cpu: &mut CPU)
    requires
        old(cpu)@.wf(),
    ensures
        final(cpu)@ == spec_rl_at_hl(old(cpu)@),
        final(cpu)@.wf(),
{
    let mem_address = cpu.registers.read_16b(&Register16bits::HL);
    let initial_val = cpu.memory.read_byte(mem_address);
    let initial_c = cpu.registers.read_c_flag();
    let new_bit_0: u8 = if initial_c {
        1
    } else {
        0
    };
    let new_val = ((initial_val as u16 * 2) % 0x100) as u8 + new_bit_0;

    cpu.memory.write_byte(mem_address, new_val);

    cpu.registers.write_flags(new_val == 0, false, false, initial_val >= 0x80);
}

pub fn rlc(cpu: &mut CPU, register: Register8bits)
    requires
        old(cpu)@.wf(),
    ensures
        final(cpu)@ == spec_rlc_reg(old(cpu)@, register),
        final(cpu)@.wf(),
{
    let initial_val = cpu.registers.read(&register);
    let new_bit_0: u8 = if initial_val >= 0x80 {
        1
    } else {
        0
    };
    let new_val = ((initial_val as u16 * 2) % 0x100) as u8 + new_bit_0;

    cpu.registers.write(&register, new_val);

    cpu.registers.write_flags(new_val == 0, false, false, initial_val >= 0x80);
}

pub fn rlca(cpu: &mut CPU)
    requires
        old(cpu)@.wf(),
    ensures
        final(cpu)@ == spec_rlca(old(cpu)@),
        final(cpu)@.wf(),
{
    let initial_val = cpu.registers.read(&Register8bits::A);
    let new_bit_0: u8 = if initial_val >= 0x80 {
        1
    } else {
        0
    };
    let new_val = ((initial_val as u16 * 2) % 0x100) as u8 + new_bit_0;

    cpu.registers.write(&Register8bits::A, new_val);

    cpu.registers.write_flags(false, false, false, initial_val >= 0x80);
}

pub fn rlc_hl(cpu: &mut CPU)
    requires
        old(cpu)@.wf(),
    ensures
        final(cpu)@ == spec_rlc_at_hl(old(cpu)@),
        final(cpu)@.wf(),
{
    let mem_address = cpu.registers.read_16b(&Register16bits::HL);
    let initial_val = cpu.memory.read_byte(mem_address);
    let new_bit_0: u8 = if initial_val >= 0x80 {
        1
    } else {
        0
    };
    let new_val = ((initial_val as u16 * 2) % 0x100) as u8 + new_bit_0;

    cpu.memory.write_byte(mem_address, new_val);

    cpu.registers.write_flags(new_val == 0, false, false, initial_val >= 0x80);
}

pub fn rr(cpu: &mut CPU, register: Register8bits)
    requires
        old(cpu)@.wf(),
    ensures
        final(cpu)@ == spec_rr_reg(old(cpu)@, register),
        final(cpu)@.wf(),
{
    let initial_val = cpu.registers.read(&register);
    let initial_c = cpu.registers.read_c_flag();
    let new_bit_7: u8 = if initial_c {
        0x80
    } else {
        0
    };
    let new_val = initial_val / 2 + new_bit_7;

    cpu.registers.write(&register, new_val);

    cpu.registers.write_flags(new_val == 0, false, false, initial_val % 2 == 1);
}

pub fn rra(cpu: &mut CPU)
    requires
        old(cpu)@.wf(),
    ensures
        final(cpu)@ == spec_rra(old(cpu)@),
        final(cpu)@.wf(),
{
    let initial_val = cpu.registers.read(&Register8bits::A);
    let initial_c = cpu.registers.read_c_flag();
    let new_bit_7: u8 = if initial_c {
        0x80
    } else {
        0
    };
    let new_val = initial_val / 2 + new_bit_7;

    cpu.registers.write(&Register8bits::A, new_val);

    cpu.registers.write_flags(false, false, false, initial_val % 2 == 1);
}

pub fn rr_hl(cpu: &mut CPU)
    requires
        old(cpu)@.wf(),
    ensures
        final(cpu)@ == spec_rr_at_hl(old(cpu)@),
        final(cpu)@.wf(),
{
    let mem_address = cpu.registers.read_16b(&Register16bits::HL);
    let initial_val = cpu.memory.read_byte(mem_address);
    let initial_c = cpu.registers.read_c_flag();
    let new_bit_7: u8 = if initial_c {
        0x80
    } else {
        0
    };
    let new_val = initial_val / 2 + new_bit_7;

    cpu.memory.write_byte(mem_address, new_val);

    cpu.registers.write_flags(new_val == 0, false, false, initial_val % 2 == 1);
}

pub fn rrc(cpu: &mut CPU, register: Register8bits)
    requires
        old(cpu)@.wf(),
    ensures
        final(cpu)@ == spec_rrc_reg(old(cpu)@, register),
        final(cpu)@.wf(),
{
    let initial_val = cpu.registers.read(&register);
    let new_val = initial_val / 2 + (initial_val % 2) * 0x80;

    cpu.registers.write(&register, new_val);

    cpu.registers.write_flags(new_val == 0, false, false, initial_val % 2 == 1);
}

pub fn rrca(cpu: &mut CPU)
    requires
        old(cpu)@.wf(),
    ensures
        final(cpu)@ == spec_rrca(old(cpu)@),
        final(cpu)@.wf(),
{
    let initial_val = cpu.registers.read(&Register8bits::A);
    let new_val = initial_val / 2 + (initial_val % 2) * 0x80;

    cpu.registers.write(&Register8bits::A, new_val);

    cpu.registers.write_flags(false, false, false, initial_val % 2 == 1);
}

pub fn rrc_hl(cpu: &mut CPU)
    requires
        old(cpu)@.wf(),
    ensures
        final(cpu)@ == spec_rrc_at_hl(old(cpu)@),
        final(cpu)@.wf(),
{
    let mem_address = cpu.registers.read_16b(&Register16bits::HL);
    let initial_val = cpu.memory.read_byte(mem_address);
    let new_val = initial_val / 2 + (initial_val % 2) * 0x80;

    cpu.memory.write_byte(mem_address, new_val);

    cpu.registers.write_flags(new_val == 0, false, false, initial_val % 2 == 1);
}

pub fn sla(cpu: &mut CPU, register: Register8bits)
    requires
        old(cpu)@.wf(),
    ensures
        final(cpu)@ == spec_sla_reg(old(cpu)@, register),
        final(cpu)@.wf(),
{
    let initial_val = cpu.registers.read(&register);
    let new_val = ((initial_val as u16 * 2) % 0x100) as u8;

    cpu.registers.write(&register, new_val);

    cpu.registers.write_flags(new_val == 0, false, false, initial_val >= 0x80);
}

pub fn sla_hl(cpu: &mut CPU)
    requires
        old(cpu)@.wf(),
    ensures
        final(cpu)@ == spec_sla_at_hl(old(cpu)@),
        final(cpu)@.wf(),
{
    let mem_address = cpu.registers.read_16b(&Register16bits::HL);
    let initial_val = cpu.memory.read_byte(mem_address);
    let new_val = ((initial_val as u16 * 2) % 0x100) as u8;

    cpu.memory.write_byte(mem_address, new_val);

    cpu.registers.write_flags(new_val == 0, false, false, initial_val >= 0x80);
}

pub fn sra(cpu: &mut CPU, register: Register8bits)
    requires
        old(cpu)@.wf(),
    ensures
        final(cpu)@ == spec_sra_reg(old(cpu)@, register),
        final(cpu)@.wf(),
{
    let initial_val = cpu.registers.read(&register);
    let kept_bit_7: u8 = if initial_val >= 0x80 {
        0x80
    } else {
        0
    };
    let new_val = initial_val / 2 + kept_bit_7;

    cpu.registers.write(&register, new_val);

    cpu.registers.write_flags(new_val == 0, false, false, initial_val % 2 == 1);
}

pub fn sra_hl(cpu: &mut CPU)
    requires
        old(cpu)@.wf(),
    ensures
        final(cpu)@ == spec_sra_at_hl(old(cpu)@),
        final(cpu)@.wf(),
{
    let mem_address = cpu.registers.read_16b(&Register16bits::HL);
    let initial_val = cpu.memory.read_byte(mem_address);
    let kept_bit_7: u8 = if initial_val >= 0x80 {
        0x80
    } else {
        0
    };
    let new_val = initial_val / 2 + kept_bit_7;

    cpu.memory.write_byte(mem_address, new_val);

    cpu.registers.write_flags(new_val == 0, false, false, initial_val % 2 == 1);
}

pub fn srl(cpu: &mut CPU, register: Register8bits)
    requires
        old(cpu)@.wf(),
    ensures
        final(cpu)@ == spec_srl_reg(old(cpu)@, register),
        final(cpu)@.wf(),
{
    let initial_val = cpu.registers.read(&register);
    let new_val = initial_val / 2;

    cpu.registers.write(&register, new_val);

    cpu.registers.write_flags(new_val == 0, false, false, initial_val % 2 == 1);
}

pub fn srl_hl(cpu: &mut CPU)
    requires
        old(cpu)@.wf(),
    ensures
        final(cpu)@ == spec_srl_at_hl(old(cpu)@),
        final(cpu)@.wf(),
{
    let mem_address = cpu.registers.read_16b(&Register16bits::HL);
    let initial_val = cpu.memory.read_byte(mem_address);
    let new_val = initial_val / 2;

    cpu.memory.write_byte(mem_address, new_val);

    cpu.registers.write_flags(new_val == 0, false, false, initial_val % 2 == 1);
}

pub fn swap(cpu: &mut CPU, register: Register8bits)
    requires
        old(cpu)@.wf(),
    ensures
        final(cpu)@ == spec_swap_reg(old(cpu)@, register),
        final(cpu)@.wf(),
{
    let initial_val = cpu.registers.read(&register);
    let new_val = (initial_val % 16) * 16 + initial_val / 16;

    cpu.registers.write(&register, new_val);

    cpu.registers.write_flags(new_val == 0, false, false, false);
}

pub fn swap_hl(cpu: &mut CPU)
    requires
        old(cpu)@.wf(),
    ensures
        final(cpu)@ == spec_swap_at_hl(old(cpu)@),
        final(cpu)@.wf(),
{
    let mem_address = cpu.registers.read_16b(&Register16bits::HL);
    let initial_val = cpu.memory.read_byte(mem_address);
    let new_val = (initial_val % 16) * 16 + initial_val / 16;

    cpu.memory.write_byte(mem_address, new_val);

    cpu.registers.write_flags(new_val == 0, false, false, false);
}

} // verus!
