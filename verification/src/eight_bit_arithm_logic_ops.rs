//! The 8-bit arithmetic and logic family: ADD/ADC/SUB/SBC/AND/OR/XOR/CP with
//! their register, (HL) and d8 forms, INC/DEC, CPL and DAA.

use vstd::prelude::*;

use crate::arith::{hc_add, hc_sub, wrap_add8, wrap_sub8};
use crate::cpu::{CpuView, CPU};
use crate::registers::{Register16bits, Register8bits};

verus! {

/// ADD: A := A + value; flags Z 0 H C.
pub open spec fn spec_add_to_a(s: CpuView, value: u8) -> CpuView {
    let a = s.regs.a;
    let new_val = wrap_add8(a, value);
    s.with_regs(
        s.regs.with_reg8(Register8bits::A, new_val).with_flags(
            new_val == 0,
            false,
            hc_add(a, value, 0),
            a + value > 0xFF,
        ),
    )
}

/// ADC: A := A + value + carry; flags Z 0 H C.
pub open spec fn spec_adc_to_a(s: CpuView, value: u8) -> CpuView {
    let a = s.regs.a;
    let cy: u8 = if s.regs.flags.c {
        1
    } else {
        0
    };
    let new_val = ((a + value + cy) % 0x100) as u8;
    s.with_regs(
        s.regs.with_reg8(Register8bits::A, new_val).with_flags(
            new_val == 0,
            false,
            hc_add(a, value, cy),
            a + value + cy > 0xFF,
        ),
    )
}

/// SUB: A := A - value; flags Z 1 H C.
pub open spec fn spec_sub_from_a(s: CpuView, value: u8) -> CpuView {
    let a = s.regs.a;
    let new_val = wrap_sub8(a, value);
    s.with_regs(
        s.regs.with_reg8(Register8bits::A, new_val).with_flags(
            new_val == 0,
            true,
            hc_sub(a, value, 0),
            a < value,
        ),
    )
}

/// SBC: A := A - value - carry; flags Z 1 H C.
pub open spec fn spec_sbc_from_a(s: CpuView, value: u8) -> CpuView {
    let a = s.regs.a;
    let cy: u8 = if s.regs.flags.c {
        1
    } else {
        0
    };
    let new_val = ((a + 0x200 - value - cy) % 0x100) as u8;
    s.with_regs(
        s.regs.with_reg8(Register8bits::A, new_val).with_flags(
            new_val == 0,
            true,
            hc_sub(a, value, cy),
            a < value + cy,
        ),
    )
}

/// AND: A := A & value; flags Z 0 1 0.
pub open spec fn spec_and_with_a(s: CpuView, value: u8) -> CpuView {
    let new_val = s.regs.a & value;
    s.with_regs(
        s.regs.with_reg8(Register8bits::A, new_val).with_flags(new_val == 0, false, true, false),
    )
}

/// OR: A := A | value; flags Z 0 0 0.
pub open spec fn spec_or_with_a(s: CpuView, value: u8) -> CpuView {
    let new_val = s.regs.a | value;
    s.with_regs(
        s.regs.with_reg8(Register8bits::A, new_val).with_flags(new_val == 0, false, false, false),
    )
}

/// XOR: A := A ^ value; flags Z 0 0 0.
pub open spec fn spec_xor_with_a(s: CpuView, value: u8) -> CpuView {
    let new_val = s.regs.a ^ value;
    s.with_regs(
        s.regs.with_reg8(Register8bits::A, new_val).with_flags(new_val == 0, false, false, false),
    )
}

/// CP: compare A with value; the flags of SUB, but A is left untouched.
pub open spec fn spec_cp_with_a(s: CpuView, value: u8) -> CpuView {
    let a = s.regs.a;
    let new_val = wrap_sub8(a, value);
    s.with_regs(s.regs.with_flags(new_val == 0, true, hc_sub(a, value, 0), a < value))
}

/// INC r: the register rises by 1; flags Z 0 H -, carry untouched.
pub open spec fn spec_inc_reg(s: CpuView, register: Register8bits) -> CpuView {
    let initial = s.reg8(register);
    let new_val = wrap_add8(initial, 1);
    s.with_regs(
        s.regs.with_reg8(register, new_val).with_flags(
            new_val == 0,
            false,
            hc_add(initial, 1, 0),
            s.regs.flags.c,
        ),
    )
}

/// INC (HL): the byte at HL rises by 1; flags Z 0 H -, carry untouched.
pub open spec fn spec_inc_at_hl(s: CpuView) -> CpuView {
    let address = s.reg16(Register16bits::HL);
    let initial = s.read(address);
    let new_val = wrap_add8(initial, 1);
    let s1 = s.write(address, new_val);
    s1.with_regs(
        s1.regs.with_flags(new_val == 0, false, hc_add(initial, 1, 0), s1.regs.flags.c),
    )
}

/// DEC r: the register falls by 1; flags Z 1 H -, carry untouched.
pub open spec fn spec_dec_reg(s: CpuView, register: Register8bits) -> CpuView {
    let initial = s.reg8(register);
    let new_val = wrap_sub8(initial, 1);
    s.with_regs(
        s.regs.with_reg8(register, new_val).with_flags(
            new_val == 0,
            true,
            hc_sub(initial, 1, 0),
            s.regs.flags.c,
        ),
    )
}

/// DEC (HL): the byte at HL falls by 1; flags Z 1 H -, carry untouched.
pub open spec fn spec_dec_at_hl(s: CpuView) -> CpuView {
    let address = s.reg16(Register16bits::HL);
    let initial = s.read(address);
    let new_val = wrap_sub8(initial, 1);
    let s1 = s.write(address, new_val);
    s1.with_regs(s1.regs.with_flags(new_val == 0, true, hc_sub(initial, 1, 0), s1.regs.flags.c))
}

/// CPL: A := !A; flags - 1 1 -.
pub open spec fn spec_cpl(s: CpuView) -> CpuView {
    let f = s.regs.flags;
    s.with_regs(
        s.regs.with_reg8(Register8bits::A, s.regs.a ^ 0xFF).with_flags(f.z, true, true, f.c),
    )
}

/// DAA: adjust A to packed BCD after a binary add or subtract.
/// Flags: Z set from the result, N untouched, H cleared, C set when the
/// high-digit correction fired, else untouched.
pub open spec fn spec_daa(s: CpuView) -> CpuView {
    let a = s.regs.a;
    let f = s.regs.flags;
    let low_corr: int = if f.hc || (!f.s && a % 16 > 9) {
        0x06
    } else {
        0
    };
    let set_c = f.c || (!f.s && a > 0x99);
    let correction: int = low_corr + if set_c {
        0x60int
    } else {
        0int
    };
    let new_val: u8 = if f.s {
        ((a + 0x100 - correction) % 0x100) as u8
    } else {
        ((a + correction) % 0x100) as u8
    };
    s.with_regs(
        s.regs.with_reg8(Register8bits::A, new_val).with_flags(
            new_val == 0,
            f.s,
            false,
            set_c || f.c,
        ),
    )
}

pub fn add(cpu: &mut CPU, register: Register8bits)
    requires
        old(cpu)@.wf(),
    ensures
        final(cpu)@ == spec_add_to_a(old(cpu)@, old(cpu)@.reg8(register)),
        final(cpu)@.wf(),
{
    let value = cpu.registers.read(&register);
    add_value_in_register_a(cpu, value);
}

pub fn add_hl(cpu: &mut CPU)
    requires
        old(cpu)@.wf(),
    ensures
        final(cpu)@ == spec_add_to_a(old(cpu)@, old(cpu)@.read(old(cpu)@.reg16(Register16bits::HL))),
        final(cpu)@.wf(),
{
    let value = cpu.value_in_addr(&Register16bits::HL);
    add_value_in_register_a(cpu, value);
}

pub fn add_d8(cpu: &mut CPU)
    requires
        old(cpu)@.wf(),
    ensures
        final(cpu)@ == spec_add_to_a(old(cpu)@.after_fetch(), old(cpu)@.fetched_byte()),
        final(cpu)@.wf(),
{
    let value = cpu.read_d8();
    add_value_in_register_a(cpu, value);
}

pub fn adc(cpu: &mut CPU, register: Register8bits)
    requires
        old(cpu)@.wf(),
    ensures
        final(cpu)@ == spec_adc_to_a(old(cpu)@, old(cpu)@.reg8(register)),
        final(cpu)@.wf(),
{
    let value = cpu.registers.read(&register);
    adc_value_in_register_a(cpu, value);
}

pub fn adc_hl(cpu: &mut CPU)
    requires
        old(cpu)@.wf(),
    ensures
        final(cpu)@ == spec_adc_to_a(old(cpu)@, old(cpu)@.read(old(cpu)@.reg16(Register16bits::HL))),
        final(cpu)@.wf(),
{
    let value = cpu.value_in_addr(&Register16bits::HL);
    adc_value_in_register_a(cpu, value);
}

pub fn adc_d8(cpu: &mut CPU)
    requires
        old(cpu)@.wf(),
    ensures
        final(cpu)@ == spec_adc_to_a(old(cpu)@.after_fetch(), old(cpu)@.fetched_byte()),
        final(cpu)@.wf(),
{
    let value = cpu.read_d8();
    adc_value_in_register_a(cpu, value);
}

pub fn sub(cpu: &mut CPU, register: Register8bits)
    requires
        old(cpu)@.wf(),
    ensures
        final(cpu)@ == spec_sub_from_a(old(cpu)@, old(cpu)@.reg8(register)),
        final(cpu)@.wf(),
{
    let value = cpu.registers.read(&register);
    sub_value_in_register_a(cpu, value);
}

pub fn sub_hl(cpu: &mut CPU)
    requires
        old(cpu)@.wf(),
    ensures
        final(cpu)@ == spec_sub_from_a(
            old(cpu)@,
            old(cpu)@.read(old(cpu)@.reg16(Register16bits::HL)),
        ),
        final(cpu)@.wf(),
{
    let value = cpu.value_in_addr(&Register16bits::HL);
    sub_value_in_register_a(cpu, value);
}

pub fn sub_d8(cpu: &mut CPU)
    requires
        old(cpu)@.wf(),
    ensures
        final(cpu)@ == spec_sub_from_a(old(cpu)@.after_fetch(), old(cpu)@.fetched_byte()),
        final(cpu)@.wf(),
{
    let value = cpu.read_d8();
    sub_value_in_register_a(cpu, value);
}

pub fn and(cpu: &mut CPU, register: Register8bits)
    requires
        old(cpu)@.wf(),
    ensures
        final(cpu)@ == spec_and_with_a(old(cpu)@, old(cpu)@.reg8(register)),
        final(cpu)@.wf(),
{
    let value = cpu.registers.read(&register);
    and_value_in_register_a(cpu, value);
}

pub fn and_hl(cpu: &mut CPU)
    requires
        old(cpu)@.wf(),
    ensures
        final(cpu)@ == spec_and_with_a(
            old(cpu)@,
            old(cpu)@.read(old(cpu)@.reg16(Register16bits::HL)),
        ),
        final(cpu)@.wf(),
{
    let value = cpu.value_in_addr(&Register16bits::HL);
    and_value_in_register_a(cpu, value);
}

pub fn and_d8(cpu: &mut CPU)
    requires
        old(cpu)@.wf(),
    ensures
        final(cpu)@ == spec_and_with_a(old(cpu)@.after_fetch(), old(cpu)@.fetched_byte()),
        final(cpu)@.wf(),
{
    let value = cpu.read_d8();
    and_value_in_register_a(cpu, value);
}

pub fn or(cpu: &mut CPU, register: Register8bits)
    requires
        old(cpu)@.wf(),
    ensures
        final(cpu)@ == spec_or_with_a(old(cpu)@, old(cpu)@.reg8(register)),
        final(cpu)@.wf(),
{
    let value = cpu.registers.read(&register);
    or_value_in_register_a(cpu, value);
}

pub fn or_hl(cpu: &mut CPU)
    requires
        old(cpu)@.wf(),
    ensures
        final(cpu)@ == spec_or_with_a(
            old(cpu)@,
            old(cpu)@.read(old(cpu)@.reg16(Register16bits::HL)),
        ),
        final(cpu)@.wf(),
{
    let value = cpu.value_in_addr(&Register16bits::HL);
    or_value_in_register_a(cpu, value);
}

pub fn or_d8(cpu: &mut CPU)
    requires
        old(cpu)@.wf(),
    ensures
        final(cpu)@ == spec_or_with_a(old(cpu)@.after_fetch(), old(cpu)@.fetched_byte()),
        final(cpu)@.wf(),
{
    let value = cpu.read_d8();
    or_value_in_register_a(cpu, value);
}

pub fn xor(cpu: &mut CPU, register: Register8bits)
    requires
        old(cpu)@.wf(),
    ensures
        final(cpu)@ == spec_xor_with_a(old(cpu)@, old(cpu)@.reg8(register)),
        final(cpu)@.wf(),
{
    let value = cpu.registers.read(&register);
    xor_value_in_register_a(cpu, value);
}

pub fn xor_hl(cpu: &mut CPU)
    requires
        old(cpu)@.wf(),
    ensures
        final(cpu)@ == spec_xor_with_a(
            old(cpu)@,
            old(cpu)@.read(old(cpu)@.reg16(Register16bits::HL)),
        ),
        final(cpu)@.wf(),
{
    let value = cpu.value_in_addr(&Register16bits::HL);
    xor_value_in_register_a(cpu, value);
}

pub fn xor_d8(cpu: &mut CPU)
    requires
        old(cpu)@.wf(),
    ensures
        final(cpu)@ == spec_xor_with_a(old(cpu)@.after_fetch(), old(cpu)@.fetched_byte()),
        final(cpu)@.wf(),
{
    let value = cpu.read_d8();
    xor_value_in_register_a(cpu, value);
}

pub fn cp(cpu: &mut CPU, register: Register8bits)
    requires
        old(cpu)@.wf(),
    ensures
        final(cpu)@ == spec_cp_with_a(old(cpu)@, old(cpu)@.reg8(register)),
        final(cpu)@.wf(),
{
    let value = cpu.registers.read(&register);
    cp_value_in_register_a(cpu, value);
}

pub fn cp_hl(cpu: &mut CPU)
    requires
        old(cpu)@.wf(),
    ensures
        final(cpu)@ == spec_cp_with_a(
            old(cpu)@,
            old(cpu)@.read(old(cpu)@.reg16(Register16bits::HL)),
        ),
        final(cpu)@.wf(),
{
    let value = cpu.value_in_addr(&Register16bits::HL);
    cp_value_in_register_a(cpu, value);
}

pub fn cp_d8(cpu: &mut CPU)
    requires
        old(cpu)@.wf(),
    ensures
        final(cpu)@ == spec_cp_with_a(old(cpu)@.after_fetch(), old(cpu)@.fetched_byte()),
        final(cpu)@.wf(),
{
    let value = cpu.read_d8();
    cp_value_in_register_a(cpu, value);
}

pub fn sbc(cpu: &mut CPU, register: Register8bits)
    requires
        old(cpu)@.wf(),
    ensures
        final(cpu)@ == spec_sbc_from_a(old(cpu)@, old(cpu)@.reg8(register)),
        final(cpu)@.wf(),
{
    let value = cpu.registers.read(&register);
    sbc_value_in_register_a(cpu, value);
}

pub fn sbc_hl(cpu: &mut CPU)
    requires
        old(cpu)@.wf(),
    ensures
        final(cpu)@ == spec_sbc_from_a(
            old(cpu)@,
            old(cpu)@.read(old(cpu)@.reg16(Register16bits::HL)),
        ),
        final(cpu)@.wf(),
{
    let value = cpu.value_in_addr(&Register16bits::HL);
    sbc_value_in_register_a(cpu, value);
}

pub fn sbc_d8(cpu: &mut CPU)
    requires
        old(cpu)@.wf(),
    ensures
        final(cpu)@ == spec_sbc_from_a(old(cpu)@.after_fetch(), old(cpu)@.fetched_byte()),
        final(cpu)@.wf(),
{
    let value = cpu.read_d8();
    sbc_value_in_register_a(cpu, value);
}

pub fn inc(cpu: &mut CPU, register: Register8bits)
    requires
        old(cpu)@.wf(),
    ensures
        final(cpu)@ == spec_inc_reg(old(cpu)@, register),
        final(cpu)@.wf(),
{
    let initial_val = cpu.registers.read(&register);
    let new_val = ((initial_val as u16 + 1) % 0x100) as u8;

    cpu.registers.write(&register, new_val);

    write_flags_for_inc(cpu, initial_val, new_val)
}

pub fn inc_hl(cpu: &mut CPU)
    requires
        old(cpu)@.wf(),
    ensures
        final(cpu)@ == spec_inc_at_hl(old(cpu)@),
        final(cpu)@.wf(),
{
    let mem_address = cpu.registers.read_16b(&Register16bits::HL);
    let initial_val = cpu.memory.read_byte(mem_address);
    let new_val = ((initial_val as u16 + 1) % 0x100) as u8;

    cpu.memory.write_byte(mem_address, new_val);

    write_flags_for_inc(cpu, initial_val, new_val)
}

pub fn dec(cpu: &mut CPU, register: Register8bits)
    requires
        old(cpu)@.wf(),
    ensures
        final(cpu)@ == spec_dec_reg(old(cpu)@, register),
        final(cpu)@.wf(),
{
    let initial_val = cpu.registers.read(&register);
    let new_val = ((initial_val as u16 + 0x100 - 1) % 0x100) as u8;

    cpu.registers.write(&register, new_val);

    write_flags_for_dec(cpu, initial_val, new_val)
}

pub fn dec_hl(cpu: &mut CPU)
    requires
        old(cpu)@.wf(),
    ensures
        final(cpu)@ == spec_dec_at_hl(old(cpu)@),
        final(cpu)@.wf(),
{
    let mem_address = cpu.registers.read_16b(&Register16bits::HL);
    let initial_val = cpu.memory.read_byte(mem_address);
    let new_val = ((initial_val as u16 + 0x100 - 1) % 0x100) as u8;

    cpu.memory.write_byte(mem_address, new_val);

    write_flags_for_dec(cpu, initial_val, new_val)
}

pub fn cpl(cpu: &mut CPU)
    requires
        old(cpu)@.wf(),
    ensures
        final(cpu)@ == spec_cpl(old(cpu)@),
        final(cpu)@.wf(),
{
    let initial_val = cpu.registers.read(&Register8bits::A);
    let new_val = initial_val ^ 0xFF;

    cpu.registers.write(&Register8bits::A, new_val);

    cpu.registers.write_s_flag(true);
    cpu.registers.write_hc_flag(true);
}

pub fn daa(cpu: &mut CPU)
    requires
        old(cpu)@.wf(),
    ensures
        final(cpu)@ == spec_daa(old(cpu)@),
        final(cpu)@.wf(),
{
    let value = cpu.registers.read(&Register8bits::A);

    let mut correction: u16 = 0;

    let mut set_c = false;

    if cpu.registers.read_hc_flag() || (!cpu.registers.read_s_flag() && (value % 16) > 9) {
        correction += 0x6;
    }

    if cpu.registers.read_c_flag() || (!cpu.registers.read_s_flag() && value > 0x99) {
        correction += 0x60;
        set_c = true;
    }

    let new_val = if cpu.registers.read_s_flag() {
        ((value as u16 + 0x100 - correction) % 0x100) as u8
    } else {
        ((value as u16 + correction) % 0x100) as u8
    };

    cpu.registers.write(&Register8bits::A, new_val);

    let c = if set_c {
        true
    } else {
        cpu.registers.read_c_flag()
    };

    let s = cpu.registers.read_s_flag();
    cpu.registers.write_flags(new_val == 0, s, false, c);
}

fn add_value_in_register_a(cpu: &mut CPU, value: u8)
    requires
        old(cpu)@.wf(),
    ensures
        final(cpu)@ == spec_add_to_a(old(cpu)@, value),
        final(cpu)@.wf(),
{
    let register_a_val = cpu.registers.read(&Register8bits::A);
    let sum = register_a_val as u16 + value as u16;
    let new_val = (sum % 0x100) as u8;

    cpu.registers.write(&Register8bits::A, new_val);

    cpu.registers.write_flags(
        new_val == 0,
        false,
        (register_a_val % 16) + (value % 16) > 15,
        sum > 0xFF,
    );
}

fn adc_value_in_register_a(cpu: &mut CPU, value: u8)
    requires
        old(cpu)@.wf(),
    ensures
        final(cpu)@ == spec_adc_to_a(old(cpu)@, value),
        final(cpu)@.wf(),
{
    let register_a_val = cpu.registers.read(&Register8bits::A);
    let carry: u8 = if cpu.registers.read_c_flag() {
        1
    } else {
        0
    };
    let sum = register_a_val as u16 + value as u16 + carry as u16;
    let new_val = (sum % 0x100) as u8;

    cpu.registers.write(&Register8bits::A, new_val);

    cpu.registers.write_flags(
        new_val == 0,
        false,
        (register_a_val % 16) + (value % 16) + carry > 15,
        sum > 0xFF,
    );
}

fn sub_value_in_register_a(cpu: &mut CPU, value: u8)
    requires
        old(cpu)@.wf(),
    ensures
        final(cpu)@ == spec_sub_from_a(old(cpu)@, value),
        final(cpu)@.wf(),
{
    let register_a_val = cpu.registers.read(&Register8bits::A);
    let new_val = ((register_a_val as u16 + 0x100 - value as u16) % 0x100) as u8;

    cpu.registers.write(&Register8bits::A, new_val);

    cpu.registers.write_flags(
        new_val == 0,
        true,
        (register_a_val % 16) < (value % 16),
        register_a_val < value,
    );
}

fn and_value_in_register_a(cpu: &mut CPU, value: u8)
    requires
        old(cpu)@.wf(),
    ensures
        final(cpu)@ == spec_and_with_a(old(cpu)@, value),
        final(cpu)@.wf(),
{
    let register_a_val = cpu.registers.read(&Register8bits::A);
    let new_val = register_a_val & value;

    cpu.registers.write(&Register8bits::A, new_val);

    cpu.registers.write_flags(new_val == 0, false, true, false);
}

fn or_value_in_register_a(cpu: &mut CPU, value: u8)
    requires
        old(cpu)@.wf(),
    ensures
        final(cpu)@ == spec_or_with_a(old(cpu)@, value),
        final(cpu)@.wf(),
{
    let register_a_val = cpu.registers.read(&Register8bits::A);
    let new_val = register_a_val | value;

    cpu.registers.write(&Register8bits::A, new_val);

    cpu.registers.write_flags(new_val == 0, false, false, false);
}

fn xor_value_in_register_a(cpu: &mut CPU, value: u8)
    requires
        old(cpu)@.wf(),
    ensures
        final(cpu)@ == spec_xor_with_a(old(cpu)@, value),
        final(cpu)@.wf(),
{
    let register_a_val = cpu.registers.read(&Register8bits::A);
    let new_val = register_a_val ^ value;

    cpu.registers.write(&Register8bits::A, new_val);

    cpu.registers.write_flags(new_val == 0, false, false, false);
}

fn cp_value_in_register_a(cpu: &mut CPU, value: u8)
    requires
        old(cpu)@.wf(),
    ensures
        final(cpu)@ == spec_cp_with_a(old(cpu)@, value),
        final(cpu)@.wf(),
{
    let register_a_val = cpu.registers.read(&Register8bits::A);
    let new_val = ((register_a_val as u16 + 0x100 - value as u16) % 0x100) as u8;

    cpu.registers.write_flags(
        new_val == 0,
        true,
        (register_a_val % 16) < (value % 16),
        register_a_val < value,
    );
}

fn sbc_value_in_register_a(cpu: &mut CPU, value: u8)
    requires
        old(cpu)@.wf(),
    ensures
        final(cpu)@ == spec_sbc_from_a(old(cpu)@, value),
        final(cpu)@.wf(),
{
    let register_a_val = cpu.registers.read(&Register8bits::A);
    let carry: u8 = if cpu.registers.read_c_flag() {
        1
    } else {
        0
    };
    let new_val = ((register_a_val as u16 + 0x200 - value as u16 - carry as u16) % 0x100) as u8;

    cpu.registers.write(&Register8bits::A, new_val);

    cpu.registers.write_flags(
        new_val == 0,
        true,
        (register_a_val % 16) < (value % 16) + carry,
        (register_a_val as u16) < value as u16 + carry as u16,
    );
}

fn write_flags_for_inc(cpu: &mut CPU, initial_val: u8, new_val: u8)
    requires
        old(cpu)@.wf(),
    ensures
        final(cpu)@ == old(cpu)@.with_regs(
            old(cpu)@.regs.with_flags(
                new_val == 0,
                false,
                hc_add(initial_val, 1, 0),
                old(cpu)@.regs.flags.c,
            ),
        ),
        final(cpu)@.wf(),
{
    cpu.registers.write_z_flag(new_val == 0);
    cpu.registers.write_s_flag(false);
    cpu.registers.write_hc_flag((initial_val % 16) + 1 > 15);
}

fn write_flags_for_dec(cpu: &mut CPU, initial_val: u8, new_val: u8)
    requires
        old(cpu)@.wf(),
    ensures
        final(cpu)@ == old(cpu)@.with_regs(
            old(cpu)@.regs.with_flags(
                new_val == 0,
                true,
                hc_sub(initial_val, 1, 0),
                old(cpu)@.regs.flags.c,
            ),
        ),
        final(cpu)@.wf(),
{
    cpu.registers.write_z_flag(new_val == 0);
    cpu.registers.write_s_flag(true);
    cpu.registers.write_hc_flag((initial_val % 16) < 1);
}

} // verus!
