//! The 8-bit load family: register-to-register moves, immediate loads,
//! loads through register pairs, the post-increment/decrement HL forms, and
//! the I/O-port forms addressed at 0xFF00 + offset.

use vstd::prelude::*;

use crate::arith::{wrap_add16, wrap_sub16};
use crate::cpu::{CpuView, CPU};
use crate::memory::IO_PORTS_BEGIN;
use crate::registers::{Register16bits, Register8bits};

verus! {

/// LD r,r': r takes r''s value.
pub open spec fn spec_ld_r8_r8(s: CpuView, r1: Register8bits, r2: Register8bits) -> CpuView {
    s.with_regs(s.regs.with_reg8(r1, s.reg8(r2)))
}

/// LD r,d8: r takes the immediate byte.
pub open spec fn spec_ld_r8_d8(s: CpuView, register: Register8bits) -> CpuView {
    let s1 = s.after_fetch();
    s1.with_regs(s1.regs.with_reg8(register, s.fetched_byte()))
}

/// LD (HL),d8: the byte at HL takes the immediate byte.
pub open spec fn spec_ld_hl_d8(s: CpuView) -> CpuView {
    let s1 = s.after_fetch();
    s1.write(s1.reg16(Register16bits::HL), s.fetched_byte())
}

/// LD r,(C)-form: r1 takes the byte at I/O port r2.
pub open spec fn spec_ld_r8_addr(s: CpuView, r1: Register8bits, r2: Register8bits) -> CpuView {
    s.with_regs(s.regs.with_reg8(r1, s.read((IO_PORTS_BEGIN + s.reg8(r2)) as u16)))
}

/// LD (C),r-form: the byte at I/O port r1 takes r2's value.
pub open spec fn spec_ld_addr_r8(s: CpuView, r1: Register8bits, r2: Register8bits) -> CpuView {
    s.write((IO_PORTS_BEGIN + s.reg8(r1)) as u16, s.reg8(r2))
}

/// LD A,(HL+): A takes the byte at HL, then HL rises by 1.
pub open spec fn spec_ld_a_hli(s: CpuView) -> CpuView {
    let s1 = s.with_regs(s.regs.with_reg8(Register8bits::A, s.read(s.reg16(Register16bits::HL))));
    s1.with_regs(
        s1.regs.with_reg16(
            Register16bits::HL,
            wrap_add16(s1.reg16(Register16bits::HL), 1),
        ),
    )
}

/// LD A,(HL-): A takes the byte at HL, then HL falls by 1.
pub open spec fn spec_ld_a_hld(s: CpuView) -> CpuView {
    let s1 = s.with_regs(s.regs.with_reg8(Register8bits::A, s.read(s.reg16(Register16bits::HL))));
    s1.with_regs(
        s1.regs.with_reg16(
            Register16bits::HL,
            wrap_sub16(s1.reg16(Register16bits::HL), 1),
        ),
    )
}

/// LD (HL+),A: the byte at HL takes A, then HL rises by 1.
pub open spec fn spec_ld_hli_a(s: CpuView) -> CpuView {
    let s1 = s.write(s.reg16(Register16bits::HL), s.regs.a);
    s1.with_regs(
        s1.regs.with_reg16(
            Register16bits::HL,
            wrap_add16(s1.reg16(Register16bits::HL), 1),
        ),
    )
}

/// LD (HL-),A: the byte at HL takes A, then HL falls by 1.
pub open spec fn spec_ld_hld_a(s: CpuView) -> CpuView {
    let s1 = s.write(s.reg16(Register16bits::HL), s.regs.a);
    s1.with_regs(
        s1.regs.with_reg16(
            Register16bits::HL,
            wrap_sub16(s1.reg16(Register16bits::HL), 1),
        ),
    )
}

/// LD (HL),r: the byte at HL takes r's value.
pub open spec fn spec_ld_hl_r8(s: CpuView, register: Register8bits) -> CpuView {
    s.write(s.reg16(Register16bits::HL), s.reg8(register))
}

/// LD r,(HL): r takes the byte at HL.
pub open spec fn spec_ld_r8_hl(s: CpuView, register: Register8bits) -> CpuView {
    s.with_regs(s.regs.with_reg8(register, s.read(s.reg16(Register16bits::HL))))
}

/// LD (rr),r: the byte at the pair's address takes r's value.
pub open spec fn spec_ld_r16_r8(s: CpuView, r16: Register16bits, r8: Register8bits) -> CpuView {
    s.write(s.reg16(r16), s.reg8(r8))
}

/// LD r,(rr): r takes the byte at the pair's address.
pub open spec fn spec_ld_r8_r16(s: CpuView, r8: Register8bits, r16: Register16bits) -> CpuView {
    s.with_regs(s.regs.with_reg8(r8, s.read(s.reg16(r16))))
}

/// LDH (a8),A: the byte at I/O port a8 takes A.
pub open spec fn spec_ld_a8_a(s: CpuView) -> CpuView {
    let s1 = s.after_fetch();
    s1.write((IO_PORTS_BEGIN + s.fetched_byte()) as u16, s1.regs.a)
}

/// LDH A,(a8): A takes the byte at I/O port a8.
pub open spec fn spec_ld_a_a8(s: CpuView) -> CpuView {
    let s1 = s.after_fetch();
    s1.with_regs(
        s1.regs.with_reg8(Register8bits::A, s1.read((IO_PORTS_BEGIN + s.fetched_byte()) as u16)),
    )
}

/// LD (a16),A: the byte at the immediate address takes A.
pub open spec fn spec_ld_a16_a(s: CpuView) -> CpuView {
    let s2 = s.after_fetch2();
    s2.write(s.fetched_word(), s2.regs.a)
}

/// LD A,(a16): A takes the byte at the immediate address.
pub open spec fn spec_ld_a_a16(s: CpuView) -> CpuView {
    let s2 = s.after_fetch2();
    s2.with_regs(s2.regs.with_reg8(Register8bits::A, s2.read(s.fetched_word())))
}

pub fn ld_r8_r8(cpu: &mut CPU, r1: Register8bits, r2: Register8bits)
    requires
        old(cpu)@.wf(),
    ensures
        final(cpu)@ == spec_ld_r8_r8(old(cpu)@, r1, r2),
        final(cpu)@.wf(),
{
    let val_src = cpu.registers.read(&r2);

    cpu.registers.write(&r1, val_src);
}

pub fn ld_r8_d8(cpu: &mut CPU, register: Register8bits)
    requires
        old(cpu)@.wf(),
    ensures
        final(cpu)@ == spec_ld_r8_d8(old(cpu)@, register),
        final(cpu)@.wf(),
{
    let data = cpu.read_d8();

    cpu.registers.write(&register, data);
}

pub fn ld_hl_d8(cpu: &mut CPU)
    requires
        old(cpu)@.wf(),
    ensures
        final(cpu)@ == spec_ld_hl_d8(old(cpu)@),
        final(cpu)@.wf(),
{
    let data = cpu.read_d8();
    let mem_address = cpu.registers.read_16b(&Register16bits::HL);

    cpu.memory.write_byte(mem_address, data);
}

pub fn ld_r8_addr(cpu: &mut CPU, r1: Register8bits, r2: Register8bits)
    requires
        old(cpu)@.wf(),
    ensures
        final(cpu)@ == spec_ld_r8_addr(old(cpu)@, r1, r2),
        final(cpu)@.wf(),
{
    let mem_address = IO_PORTS_BEGIN + cpu.registers.read(&r2) as u16;
    let data = cpu.memory.read_byte(mem_address);

    cpu.registers.write(&r1, data);
}

pub fn ld_addr_r8(cpu: &mut CPU, r1: Register8bits, r2: Register8bits)
    requires
        old(cpu)@.wf(),
    ensures
        final(cpu)@ == spec_ld_addr_r8(old(cpu)@, r1, r2),
        final(cpu)@.wf(),
{
    let mem_address = IO_PORTS_BEGIN + cpu.registers.read(&r1) as u16;
    let data = cpu.registers.read(&r2);

    cpu.memory.write_byte(mem_address, data);
}

pub fn ld_a_hli(cpu: &mut CPU)
    requires
        old(cpu)@.wf(),
    ensures
        final(cpu)@ == spec_ld_a_hli(old(cpu)@),
        final(cpu)@.wf(),
{
    let data = cpu.value_in_addr(&Register16bits::HL);

    cpu.registers.write(&Register8bits::A, data);

    let initial_val = cpu.registers.read_16b(&Register16bits::HL);
    let new_val = ((initial_val as u32 + 1) % 0x10000) as u16;

    cpu.registers.write_16b(&Register16bits::HL, new_val);
}

pub fn ld_a_hld(cpu: &mut CPU)
    requires
        old(cpu)@.wf(),
    ensures
        final(cpu)@ == spec_ld_a_hld(old(cpu)@),
        final(cpu)@.wf(),
{
    let data = cpu.value_in_addr(&Register16bits::HL);

    cpu.registers.write(&Register8bits::A, data);

    let initial_val = cpu.registers.read_16b(&Register16bits::HL);
    let new_val = ((initial_val as u32 + 0x10000 - 1) % 0x10000) as u16;

    cpu.registers.write_16b(&Register16bits::HL, new_val);
}

pub fn ld_hli_a(cpu: &mut CPU)
    requires
        old(cpu)@.wf(),
    ensures
        final(cpu)@ == spec_ld_hli_a(old(cpu)@),
        final(cpu)@.wf(),
{
    let mem_address = cpu.registers.read_16b(&Register16bits::HL);
    let data = cpu.registers.read(&Register8bits::A);

    cpu.memory.write_byte(mem_address, data);

    let initial_val = cpu.registers.read_16b(&Register16bits::HL);
    let new_val = ((initial_val as u32 + 1) % 0x10000) as u16;

    cpu.registers.write_16b(&Register16bits::HL, new_val);
}

pub fn ld_hld_a(cpu: &mut CPU)
    requires
        old(cpu)@.wf(),
    ensures
        final(cpu)@ == spec_ld_hld_a(old(cpu)@),
        final(cpu)@.wf(),
{
    let mem_address = cpu.registers.read_16b(&Register16bits::HL);
    let data = cpu.registers.read(&Register8bits::A);

    cpu.memory.write_byte(mem_address, data);

    let initial_val = cpu.registers.read_16b(&Register16bits::HL);
    let new_val = ((initial_val as u32 + 0x10000 - 1) % 0x10000) as u16;

    cpu.registers.write_16b(&Register16bits::HL, new_val);
}

pub fn ld_hl_r8(cpu: &mut CPU, register: Register8bits)
    requires
        old(cpu)@.wf(),
    ensures
        final(cpu)@ == spec_ld_hl_r8(old(cpu)@, register),
        final(cpu)@.wf(),
{
    let mem_address = cpu.registers.read_16b(&Register16bits::HL);
    let data = cpu.registers.read(&register);

    cpu.memory.write_byte(mem_address, data);
}

pub fn ld_r8_hl(cpu: &mut CPU, register: Register8bits)
    requires
        old(cpu)@.wf(),
    ensures
        final(cpu)@ == spec_ld_r8_hl(old(cpu)@, register),
        final(cpu)@.wf(),
{
    let data = cpu.value_in_addr(&Register16bits::HL);

    cpu.registers.write(&register, data);
}

pub fn ld_r16_r8(cpu: &mut CPU, r16: Register16bits, r8: Register8bits)
    requires
        old(cpu)@.wf(),
    ensures
        final(cpu)@ == spec_ld_r16_r8(old(cpu)@, r16, r8),
        final(cpu)@.wf(),
{
    let mem_address = cpu.registers.read_16b(&r16);
    let data = cpu.registers.read(&r8);

    cpu.memory.write_byte(mem_address, data);
}

pub fn ld_r8_r16(cpu: &mut CPU, r8: Register8bits, r16: Register16bits)
    requires
        old(cpu)@.wf(),
    ensures
        final(cpu)@ == spec_ld_r8_r16(old(cpu)@, r8, r16),
        final(cpu)@.wf(),
{
    let data = cpu.value_in_addr(&r16);
    cpu.registers.write(&r8, data);
}

pub fn ld_a8_a(cpu: &mut CPU)
    requires
        old(cpu)@.wf(),
    ensures
        final(cpu)@ == spec_ld_a8_a(old(cpu)@),
        final(cpu)@.wf(),
{
    let offset = cpu.fetch_byte();
    let mem_address = IO_PORTS_BEGIN + offset as u16;
    let data = cpu.registers.read(&Register8bits::A);

    cpu.memory.write_byte(mem_address, data);
}

pub fn ld_a_a8(cpu: &mut CPU)
    requires
        old(cpu)@.wf(),
    ensures
        final(cpu)@ == spec_ld_a_a8(old(cpu)@),
        final(cpu)@.wf(),
{
    let offset = cpu.fetch_byte();
    let mem_address = IO_PORTS_BEGIN + offset as u16;
    let data = cpu.memory.read_byte(mem_address);

    cpu.registers.write(&Register8bits::A, data);
}

pub fn ld_a16_a(cpu: &mut CPU)
    requires
        old(cpu)@.wf(),
    ensures
        final(cpu)@ == spec_ld_a16_a(old(cpu)@),
        final(cpu)@.wf(),
{
    let a16 = cpu.read_a16();
    let data = cpu.registers.read(&Register8bits::A);

    cpu.memory.write_byte(a16, data);
}

pub fn ld_a_a16(cpu: &mut CPU)
    requires
        old(cpu)@.wf(),
    ensures
        final(cpu)@ == spec_ld_a_a16(old(cpu)@),
        final(cpu)@.wf(),
{
    let a16 = cpu.read_a16();
    let data = cpu.memory.read_byte(a16);

    cpu.registers.write(&Register8bits::A, data);
}

} // verus!
