//! The single-bit family of the prefixed table: BIT tests a bit, RES clears
//! one, SET sets one, each on a register or on the byte at HL.

use vstd::prelude::*;

use crate::cpu::{CpuView, CPU};
use crate::registers::{Register16bits, Register8bits};

verus! {

/// BIT n on `value`: flags Z 0 1 -, Z set when bit n of `value` is clear.
pub open spec fn spec_bit_flags(s: CpuView, bit: u8, value: u8) -> CpuView {
    s.with_regs(s.regs.with_flags(value & (1u8 << bit) == 0, false, true, s.regs.flags.c))
}

pub open spec fn spec_bit_reg(s: CpuView, bit: u8, register: Register8bits) -> CpuView {
    spec_bit_flags(s, bit, s.reg8(register))
}

pub open spec fn spec_bit_at_hl(s: CpuView, bit: u8) -> CpuView {
    spec_bit_flags(s, bit, s.read(s.reg16(Register16bits::HL)))
}

/// RES n: clear bit n; no flag moves.
pub open spec fn spec_res_reg(s: CpuView, bit: u8, register: Register8bits) -> CpuView {
    s.with_regs(s.regs.with_reg8(register, s.reg8(register) & ((1u8 << bit) ^ 0xFF)))
}

pub open spec fn spec_res_at_hl(s: CpuView, bit: u8) -> CpuView {
    let address = s.reg16(Register16bits::HL);
    s.write(address, s.read(address) & ((1u8 << bit) ^ 0xFF))
}

/// SET n: set bit n; no flag moves.
pub open spec fn spec_set_reg(s: CpuView, bit: u8, register: Register8bits) -> CpuView {
    s.with_regs(s.regs.with_reg8(register, s.reg8(register) | (1u8 << bit)))
}

pub open spec fn spec_set_at_hl(s: CpuView, bit: u8) -> CpuView {
    let address = s.reg16(Register16bits::HL);
    s.write(address, s.read(address) | (1u8 << bit))
}

pub fn bit(cpu: &mut CPU, bit: u8, register: Register8bits)
    requires
        old(cpu)@.wf(),
        bit < 8,
    ensures
        final(cpu)@ == spec_bit_reg(old(cpu)@, bit, register),
        final(cpu)@.wf(),
{
    let bit_value = cpu.registers.read(&register) & (0x1u8 << bit);
    write_flags_for_bit(cpu, bit_value)
}

pub fn bit_hl(cpu: &mut CPU, bit: u8)
    requires
        old(cpu)@.wf(),
        bit < 8,
    ensures
        final(cpu)@ == spec_bit_at_hl(old(cpu)@, bit),
        final(cpu)@.wf(),
{
    let bit_value = cpu.value_in_addr(&Register16bits::HL) & (0x1u8 << bit);
    write_flags_for_bit(cpu, bit_value)
}

pub fn res(cpu: &mut CPU, bit: u8, register: Register8bits)
    requires
        old(cpu)@.wf(),
        bit < 8,
    ensures
        final(cpu)@ == spec_res_reg(old(cpu)@, bit, register),
        final(cpu)@.wf(),
{
    let mask = (0x1u8 << bit) ^ 0xFF;
    let initial_val = cpu.registers.read(&register);
    let new_val = initial_val & mask;

    cpu.registers.write(&register, new_val);
}

pub fn res_hl(cpu: &mut CPU, bit: u8)
    requires
        old(cpu)@.wf(),
        bit < 8,
    ensures
        final(cpu)@ == spec_res_at_hl(old(cpu)@, bit),
        final(cpu)@.wf(),
{
    let mem_address = cpu.registers.read_16b(&Register16bits::HL);
    let initial_val = cpu.memory.read_byte(mem_address);
    let mask = (0x1u8 << bit) ^ 0xFF;
    let new_val = initial_val & mask;

    cpu.memory.write_byte(mem_address, new_val);
}

pub fn set(cpu: &mut CPU, bit: u8, register: Register8bits)
    requires
        old(cpu)@.wf(),
        bit < 8,
    ensures
        final(cpu)@ == spec_set_reg(old(cpu)@, bit, register),
        final(cpu)@.wf(),
{
    let mask = 0x1u8 << bit;
    let initial_val = cpu.registers.read(&register);
    let new_val = initial_val | mask;

    cpu.registers.write(&register, new_val);
}

pub fn set_hl(cpu: &mut CPU, bit: u8)
    requires
        old(cpu)@.wf(),
        bit < 8,
    ensures
        final(cpu)@ == spec_set_at_hl(old(cpu)@, bit),
        final(cpu)@.wf(),
{
    let mem_address = cpu.registers.read_16b(&Register16bits::HL);
    let initial_val = cpu.memory.read_byte(mem_address);
    let mask = 0x1u8 << bit;
    let new_val = initial_val | mask;

    cpu.memory.write_byte(mem_address, new_val);
}

fn write_flags_for_bit(cpu: &mut CPU, bit_value: u8)
    requires
        old(cpu)@.wf(),
    ensures
        final(cpu)@ == old(cpu)@.with_regs(
            old(cpu)@.regs.with_flags(bit_value == 0, false, true, old(cpu)@.regs.flags.c),
        ),
        final(cpu)@.wf(),
{
    cpu.registers.write_z_flag(bit_value == 0);
    cpu.registers.write_s_flag(false);
    cpu.registers.write_hc_flag(true);
}

} // verus!
