use gb_core::cpu::CPU;
use gb_core::memory::Memory;
use gb_core::registers::{Register16bits, Register8bits};
use gb_core::eight_bit_arithm_logic_ops;

#[test]
fn add_op() {
    let mem: Memory = Memory::new();
    let mut cpu: CPU = CPU::new(mem);
    cpu.registers.write(&Register8bits::B, 2);
    cpu.registers.write(&Register8bits::A, 1);

    eight_bit_arithm_logic_ops::add(&mut cpu, Register8bits::B);

    assert_eq!(cpu.registers.read(&Register8bits::A), 3);
    assert_eq!(cpu.registers.read_z_flag(), false);
    assert_eq!(cpu.registers.read_s_flag(), false);
    assert_eq!(cpu.registers.read_hc_flag(), false);
    assert_eq!(cpu.registers.read_c_flag(), false);
}

#[test]
fn add_equals_0() {
    let mem: Memory = Memory::new();
    let mut cpu: CPU = CPU::new(mem);

    eight_bit_arithm_logic_ops::add(&mut cpu, Register8bits::B);

    assert_eq!(cpu.registers.read(&Register8bits::A), 0);
    assert_eq!(cpu.registers.read_z_flag(), true)
}

#[test]
fn add_with_hc() {
    let mem: Memory = Memory::new();
    let mut cpu: CPU = CPU::new(mem);
    cpu.registers.write(&Register8bits::A, 15);
    cpu.registers.write(&Register8bits::B, 1);

    eight_bit_arithm_logic_ops::add(&mut cpu, Register8bits::B);

    assert_eq!(cpu.registers.read(&Register8bits::A), 16);
    assert_eq!(cpu.registers.read_hc_flag(), true)
}

#[test]
fn add_with_carry() {
    let mem: Memory = Memory::new();
    let mut cpu: CPU = CPU::new(mem);
    cpu.registers.write(&Register8bits::A, 255);
    cpu.registers.write(&Register8bits::B, 2);

    eight_bit_arithm_logic_ops::add(&mut cpu, Register8bits::B);

    assert_eq!(cpu.registers.read(&Register8bits::A), 1);
    assert_eq!(cpu.registers.read_c_flag(), true)
}

#[test]
fn add_hl_op() {
    let mut mem: Memory = Memory::new();
    let addr: u16 = 1;
    mem.write_byte(addr, 2);
    let mut cpu: CPU = CPU::new(mem);
    cpu.registers.write_16b(&Register16bits::HL, addr);
    cpu.registers.write(&Register8bits::A, 1);

    eight_bit_arithm_logic_ops::add_hl(&mut cpu);

    assert_eq!(cpu.registers.read(&Register8bits::A), 3);
}

#[test]
fn add_d8_op() {
    let mut mem: Memory = Memory::new();
    let initial_pc = 0x200;
    mem.write_byte(initial_pc, 2);
    let mut cpu: CPU = CPU::new(mem);
    cpu.registers.write_pc(initial_pc);
    cpu.registers.write(&Register8bits::A, 1);

    eight_bit_arithm_logic_ops::add_d8(&mut cpu);

    assert_eq!(cpu.registers.read(&Register8bits::A), 3);
}

#[test]
fn inc_op() {
    let mem: Memory = Memory::new();
    let mut cpu: CPU = CPU::new(mem);
    eight_bit_arithm_logic_ops::inc(&mut cpu, Register8bits::C);
    assert_eq!(cpu.registers.read(&Register8bits::C), 1);
}

#[test]
fn inc_equals_0() {
    let mem: Memory = Memory::new();
    let mut cpu: CPU = CPU::new(mem);
    cpu.registers.write(&Register8bits::B, 255);

    eight_bit_arithm_logic_ops::inc(&mut cpu, Register8bits::B);

    assert_eq!(cpu.registers.read(&Register8bits::B), 0);
    assert_eq!(cpu.registers.read_z_flag(), true)
}

#[test]
fn inc_with_hc() {
    let mem: Memory = Memory::new();
    let mut cpu: CPU = CPU::new(mem);
    cpu.registers.write(&Register8bits::B, 15);

    eight_bit_arithm_logic_ops::inc(&mut cpu, Register8bits::B);

    assert_eq!(cpu.registers.read(&Register8bits::B), 16);
    assert_eq!(cpu.registers.read_hc_flag(), true)
}

#[test]
fn inc_hl_op() {
    let mut mem: Memory = Memory::new();
    let addr: u16 = 1;
    mem.write_byte(addr, 2);
    let mut cpu: CPU = CPU::new(mem);
    cpu.registers.write_16b(&Register16bits::HL, addr);

    eight_bit_arithm_logic_ops::inc_hl(&mut cpu);

    assert_eq!(cpu.memory.read_byte(addr), 3);
}

#[test]
fn adc_with_carry_flag_set() {
    let mem: Memory = Memory::new();
    let mut cpu: CPU = CPU::new(mem);
    cpu.registers.write_flags(false, false, false, true);
    cpu.registers.write(&Register8bits::A, 1);
    cpu.registers.write(&Register8bits::B, 2);

    eight_bit_arithm_logic_ops::adc(&mut cpu, Register8bits::B);

    assert_eq!(cpu.registers.read(&Register8bits::A), 4);
    assert_eq!(cpu.registers.read_z_flag(), false);
    assert_eq!(cpu.registers.read_s_flag(), false);
    assert_eq!(cpu.registers.read_hc_flag(), false);
    assert_eq!(cpu.registers.read_c_flag(), false);
}

#[test]
fn adc_without_carry_flag_set() {
    let mem: Memory = Memory::new();
    let mut cpu: CPU = CPU::new(mem);
    cpu.registers.write_flags(false, false, false, false);
    cpu.registers.write(&Register8bits::A, 1);
    cpu.registers.write(&Register8bits::B, 2);

    eight_bit_arithm_logic_ops::adc(&mut cpu, Register8bits::B);

    assert_eq!(cpu.registers.read(&Register8bits::A), 3);
    assert_eq!(cpu.registers.read_z_flag(), false);
    assert_eq!(cpu.registers.read_s_flag(), false);
    assert_eq!(cpu.registers.read_hc_flag(), false);
    assert_eq!(cpu.registers.read_c_flag(), false);
}

#[test]
fn adc_equals_0() {
    let mem: Memory = Memory::new();
    let mut cpu: CPU = CPU::new(mem);

    eight_bit_arithm_logic_ops::adc(&mut cpu, Register8bits::B);

    assert_eq!(cpu.registers.read(&Register8bits::A), 0);
    assert_eq!(cpu.registers.read_z_flag(), true)
}

#[test]
fn adc_with_hc() {
    let mem: Memory = Memory::new();
    let mut cpu: CPU = CPU::new(mem);
    cpu.registers.write(&Register8bits::A, 15);
    cpu.registers.write(&Register8bits::B, 1);

    eight_bit_arithm_logic_ops::adc(&mut cpu, Register8bits::B);

    assert_eq!(cpu.registers.read(&Register8bits::A), 16);
    assert_eq!(cpu.registers.read_hc_flag(), true);
}

#[test]
fn adc_with_carry() {
    let mem: Memory = Memory::new();
    let mut cpu: CPU = CPU::new(mem);
    cpu.registers.write(&Register8bits::A, 255);
    cpu.registers.write(&Register8bits::B, 2);

    eight_bit_arithm_logic_ops::adc(&mut cpu, Register8bits::B);

    assert_eq!(cpu.registers.read(&Register8bits::A), 1);
    assert_eq!(cpu.registers.read_c_flag(), true)
}

#[test]
fn adc_hl_op() {
    let mut mem: Memory = Memory::new();
    let addr: u16 = 1;
    mem.write_byte(addr, 2);
    let mut cpu: CPU = CPU::new(mem);
    cpu.registers.write_flags(false, false, false, true);
    cpu.registers.write_16b(&Register16bits::HL, addr);
    cpu.registers.write(&Register8bits::A, 1);

    eight_bit_arithm_logic_ops::adc_hl(&mut cpu);

    assert_eq!(cpu.registers.read(&Register8bits::A), 4);
}

#[test]
fn adc_d8_op() {
    let mut mem: Memory = Memory::new();
    let initial_pc = 0x200;
    mem.write_byte(initial_pc, 2);
    let mut cpu: CPU = CPU::new(mem);
    cpu.registers.write_pc(initial_pc);
    cpu.registers.write(&Register8bits::A, 1);

    eight_bit_arithm_logic_ops::adc_d8(&mut cpu);

    assert_eq!(cpu.registers.read(&Register8bits::A), 3);
}

#[test]
fn sub_op() {
    let mem: Memory = Memory::new();
    let mut cpu: CPU = CPU::new(mem);
    cpu.registers.write(&Register8bits::A, 2);
    cpu.registers.write(&Register8bits::B, 1);

    eight_bit_arithm_logic_ops::sub(&mut cpu, Register8bits::B);

    assert_eq!(cpu.registers.read(&Register8bits::A), 1);
    assert_eq!(cpu.registers.read_z_flag(), false);
    assert_eq!(cpu.registers.read_s_flag(), true);
    assert_eq!(cpu.registers.read_hc_flag(), false);
    assert_eq!(cpu.registers.read_c_flag(), false);
}

#[test]
fn sub_equals_0() {
    let mem: Memory = Memory::new();
    let mut cpu: CPU = CPU::new(mem);

    eight_bit_arithm_logic_ops::sub(&mut cpu, Register8bits::B);

    assert_eq!(cpu.registers.read(&Register8bits::A), 0);
    assert_eq!(cpu.registers.read_z_flag(), true)
}

#[test]
fn sub_with_hc() {
    let mem: Memory = Memory::new();
    let mut cpu: CPU = CPU::new(mem);
    cpu.registers.write(&Register8bits::A, 0b10000100);
    cpu.registers.write(&Register8bits::B, 0b00001000);

    eight_bit_arithm_logic_ops::sub(&mut cpu, Register8bits::B);

    assert_eq!(cpu.registers.read(&Register8bits::A), 0b01111100);
    assert_eq!(cpu.registers.read_hc_flag(), true);
}

#[test]
fn sub_with_carry() {
    let mem: Memory = Memory::new();
    let mut cpu: CPU = CPU::new(mem);
    cpu.registers.write(&Register8bits::B, 1);

    eight_bit_arithm_logic_ops::sub(&mut cpu, Register8bits::B);

    assert_eq!(cpu.registers.read(&Register8bits::A), 255);
    assert_eq!(cpu.registers.read_c_flag(), true)
}

#[test]
fn sub_hl_op() {
    let mut mem: Memory = Memory::new();
    let addr: u16 = 1;
    mem.write_byte(addr, 2);
    let mut cpu: CPU = CPU::new(mem);
    cpu.registers.write_16b(&Register16bits::HL, addr);
    cpu.registers.write(&Register8bits::A, 10);

    eight_bit_arithm_logic_ops::sub_hl(&mut cpu);

    assert_eq!(cpu.registers.read(&Register8bits::A), 8);
}

#[test]
fn sub_d8_op() {
    let mut mem: Memory = Memory::new();
    let initial_pc = 0x200;
    mem.write_byte(initial_pc, 2);
    let mut cpu: CPU = CPU::new(mem);
    cpu.registers.write(&Register8bits::A, 3);
    cpu.registers.write_pc(initial_pc);

    eight_bit_arithm_logic_ops::sub_d8(&mut cpu);

    assert_eq!(cpu.registers.read(&Register8bits::A), 1);
}

#[test]
fn and_op() {
    let mem: Memory = Memory::new();
    let mut cpu: CPU = CPU::new(mem);
    cpu.registers.write(&Register8bits::A, 0b100);
    cpu.registers.write(&Register8bits::B, 0b101);

    eight_bit_arithm_logic_ops::and(&mut cpu, Register8bits::B);

    assert_eq!(cpu.registers.read(&Register8bits::A), 0b100);
    assert_eq!(cpu.registers.read_z_flag(), false);
    assert_eq!(cpu.registers.read_s_flag(), false);
    assert_eq!(cpu.registers.read_hc_flag(), true);
    assert_eq!(cpu.registers.read_c_flag(), false);
}

#[test]
fn and_equals_0() {
    let mem: Memory = Memory::new();
    let mut cpu: CPU = CPU::new(mem);
    cpu.registers.write(&Register8bits::A, 0b100);
    cpu.registers.write(&Register8bits::B, 0b001);

    eight_bit_arithm_logic_ops::and(&mut cpu, Register8bits::B);

    assert_eq!(cpu.registers.read(&Register8bits::A), 0);
    assert_eq!(cpu.registers.read_z_flag(), true);
}

#[test]
fn and_hl_op() {
    let mut mem: Memory = Memory::new();
    let addr: u16 = 1;
    mem.write_byte(addr, 0b101);
    let mut cpu: CPU = CPU::new(mem);
    cpu.registers.write_16b(&Register16bits::HL, addr);
    cpu.registers.write(&Register8bits::A, 0b110);

    eight_bit_arithm_logic_ops::and_hl(&mut cpu);

    assert_eq!(cpu.registers.read(&Register8bits::A), 0b100);
}

#[test]
fn and_d8_op() {
    let mut mem: Memory = Memory::new();
    let initial_pc = 0x200;
    mem.write_byte(initial_pc, 0b101);
    let mut cpu: CPU = CPU::new(mem);
    cpu.registers.write_pc(initial_pc);
    cpu.registers.write(&Register8bits::A, 0b110);

    eight_bit_arithm_logic_ops::and_d8(&mut cpu);

    assert_eq!(cpu.registers.read(&Register8bits::A), 0b100);
}

#[test]
fn or_op() {
    let mem: Memory = Memory::new();
    let mut cpu: CPU = CPU::new(mem);
    cpu.registers.write(&Register8bits::A, 0b100);
    cpu.registers.write(&Register8bits::B, 0b001);

    eight_bit_arithm_logic_ops::or(&mut cpu, Register8bits::B);

    assert_eq!(cpu.registers.read(&Register8bits::A), 0b101);
    assert_eq!(cpu.registers.read_z_flag(), false);
    assert_eq!(cpu.registers.read_s_flag(), false);
    assert_eq!(cpu.registers.read_hc_flag(), false);
    assert_eq!(cpu.registers.read_c_flag(), false);
}

#[test]
fn or_equals_0() {
    let mem: Memory = Memory::new();
    let mut cpu: CPU = CPU::new(mem);

    eight_bit_arithm_logic_ops::or(&mut cpu, Register8bits::B);

    assert_eq!(cpu.registers.read(&Register8bits::A), 0);
    assert_eq!(cpu.registers.read_z_flag(), true);
}

#[test]
fn or_hl_op() {
    let mut mem: Memory = Memory::new();
    let addr: u16 = 1;
    mem.write_byte(addr, 0b101);
    let mut cpu: CPU = CPU::new(mem);
    cpu.registers.write_16b(&Register16bits::HL, addr);
    cpu.registers.write(&Register8bits::A, 0b110);

    eight_bit_arithm_logic_ops::or_hl(&mut cpu);

    assert_eq!(cpu.registers.read(&Register8bits::A), 0b111);
}

#[test]
fn or_d8_op() {
    let mut mem: Memory = Memory::new();
    let initial_pc = 0x200;
    mem.write_byte(initial_pc, 0b101);
    let mut cpu: CPU = CPU::new(mem);
    cpu.registers.write(&Register8bits::A, 0b110);
    cpu.registers.write_pc(initial_pc);

    eight_bit_arithm_logic_ops::or_d8(&mut cpu);

    assert_eq!(cpu.registers.read(&Register8bits::A), 0b111);
}

#[test]
fn xor_op() {
    let mem: Memory = Memory::new();
    let mut cpu: CPU = CPU::new(mem);
    cpu.registers.write(&Register8bits::A, 0b11);
    cpu.registers.write(&Register8bits::B, 0b01);

    eight_bit_arithm_logic_ops::xor(&mut cpu, Register8bits::B);

    assert_eq!(cpu.registers.read(&Register8bits::A), 0b10);
    assert_eq!(cpu.registers.read_z_flag(), false);
    assert_eq!(cpu.registers.read_s_flag(), false);
    assert_eq!(cpu.registers.read_hc_flag(), false);
    assert_eq!(cpu.registers.read_c_flag(), false);
}

#[test]
fn xor_equals_0() {
    let mem: Memory = Memory::new();
    let mut cpu: CPU = CPU::new(mem);
    cpu.registers.write(&Register8bits::A, 0b101);
    cpu.registers.write(&Register8bits::B, 0b101);

    eight_bit_arithm_logic_ops::xor(&mut cpu, Register8bits::B);

    assert_eq!(cpu.registers.read(&Register8bits::A), 0);
    assert_eq!(cpu.registers.read_z_flag(), true);
}

#[test]
fn xor_hl_op() {
    let mut mem: Memory = Memory::new();
    let addr: u16 = 1;
    mem.write_byte(addr, 0b101);
    let mut cpu: CPU = CPU::new(mem);
    cpu.registers.write_16b(&Register16bits::HL, addr);
    cpu.registers.write(&Register8bits::A, 0b110);

    eight_bit_arithm_logic_ops::xor_hl(&mut cpu);

    assert_eq!(cpu.registers.read(&Register8bits::A), 0b011);
}

#[test]
fn xor_d8_op() {
    let mut mem: Memory = Memory::new();
    let initial_pc = 0x200;
    mem.write_byte(initial_pc, 0b101);
    let mut cpu: CPU = CPU::new(mem);
    cpu.registers.write_pc(initial_pc);
    cpu.registers.write(&Register8bits::A, 0b110);

    eight_bit_arithm_logic_ops::xor_d8(&mut cpu);

    assert_eq!(cpu.registers.read(&Register8bits::A), 0b011);
}

#[test]
fn cp_op() {
    let mem: Memory = Memory::new();
    let mut cpu: CPU = CPU::new(mem);
    cpu.registers.write(&Register8bits::A, 2);
    cpu.registers.write(&Register8bits::B, 1);

    eight_bit_arithm_logic_ops::cp(&mut cpu, Register8bits::B);

    assert_eq!(cpu.registers.read_z_flag(), false);
    assert_eq!(cpu.registers.read_s_flag(), true);
    assert_eq!(cpu.registers.read_hc_flag(), false);
    assert_eq!(cpu.registers.read_c_flag(), false);
}

#[test]
fn cp_equals_0() {
    let mem: Memory = Memory::new();
    let mut cpu: CPU = CPU::new(mem);

    eight_bit_arithm_logic_ops::cp(&mut cpu, Register8bits::B);

    assert_eq!(cpu.registers.read_z_flag(), true)
}

#[test]
fn cp_with_hc() {
    let mem: Memory = Memory::new();
    let mut cpu: CPU = CPU::new(mem);
    cpu.registers.write(&Register8bits::A, 0b10000100);
    cpu.registers.write(&Register8bits::B, 0b00001000);

    eight_bit_arithm_logic_ops::cp(&mut cpu, Register8bits::B);

    assert_eq!(cpu.registers.read(&Register8bits::A), 0b10000100);
    assert_eq!(cpu.registers.read_hc_flag(), true);
}

#[test]
fn cp_with_carry() {
    let mem: Memory = Memory::new();
    let mut cpu: CPU = CPU::new(mem);
    cpu.registers.write(&Register8bits::B, 1);

    eight_bit_arithm_logic_ops::cp(&mut cpu, Register8bits::B);

    assert_eq!(cpu.registers.read(&Register8bits::A), 0);
    assert_eq!(cpu.registers.read_c_flag(), true)
}

#[test]
fn cp_hl_op() {
    let mut mem: Memory = Memory::new();
    let addr: u16 = 1;
    mem.write_byte(addr, 2);
    let mut cpu: CPU = CPU::new(mem);
    cpu.registers.write_16b(&Register16bits::HL, addr);
    cpu.registers.write(&Register8bits::A, 3);

    eight_bit_arithm_logic_ops::cp_hl(&mut cpu);

    assert_eq!(cpu.registers.read_z_flag(), false);
    assert_eq!(cpu.registers.read_s_flag(), true);
    assert_eq!(cpu.registers.read_hc_flag(), false);
    assert_eq!(cpu.registers.read_c_flag(), false);
}

#[test]
fn cp_d8_op() {
    let mut mem: Memory = Memory::new();
    let initial_pc = 0x200;
    mem.write_byte(initial_pc, 2);
    let mut cpu: CPU = CPU::new(mem);
    cpu.registers.write(&Register8bits::A, 3);

    eight_bit_arithm_logic_ops::cp_d8(&mut cpu);

    assert_eq!(cpu.registers.read_z_flag(), false);
    assert_eq!(cpu.registers.read_s_flag(), true);
    assert_eq!(cpu.registers.read_hc_flag(), false);
    assert_eq!(cpu.registers.read_c_flag(), false);
}

#[test]
fn dec_op() {
    let mem: Memory = Memory::new();
    let mut cpu: CPU = CPU::new(mem);
    cpu.registers.write(&Register8bits::C, 2);

    eight_bit_arithm_logic_ops::dec(&mut cpu, Register8bits::C);

    assert_eq!(cpu.registers.read(&Register8bits::C), 1);
    assert_eq!(cpu.registers.read_z_flag(), false);
    assert_eq!(cpu.registers.read_s_flag(), true);
    assert_eq!(cpu.registers.read_hc_flag(), false);
    assert_eq!(cpu.registers.read_c_flag(), false);
}

#[test]
fn dec_equals_0() {
    let mem: Memory = Memory::new();
    let mut cpu: CPU = CPU::new(mem);
    cpu.registers.write(&Register8bits::B, 1);

    eight_bit_arithm_logic_ops::dec(&mut cpu, Register8bits::B);

    assert_eq!(cpu.registers.read(&Register8bits::B), 0);
    assert_eq!(cpu.registers.read_z_flag(), true)
}

#[test]
fn dec_with_hc() {
    let mem: Memory = Memory::new();
    let mut cpu: CPU = CPU::new(mem);
    cpu.registers.write(&Register8bits::B, 0b10000);

    eight_bit_arithm_logic_ops::dec(&mut cpu, Register8bits::B);

    assert_eq!(cpu.registers.read(&Register8bits::B), 0b1111);
    assert_eq!(cpu.registers.read_hc_flag(), true)
}

#[test]
fn dec_hl_op() {
    let mut mem: Memory = Memory::new();
    let addr: u16 = 1;
    mem.write_byte(addr, 2);
    let mut cpu: CPU = CPU::new(mem);
    cpu.registers.write_16b(&Register16bits::HL, addr);

    eight_bit_arithm_logic_ops::dec_hl(&mut cpu);

    assert_eq!(cpu.memory.read_byte(addr), 1);
}

#[test]
fn sbc_with_carry_flag_set() {
    let mem: Memory = Memory::new();
    let mut cpu: CPU = CPU::new(mem);
    cpu.registers.write_flags(false, false, false, true);
    cpu.registers.write(&Register8bits::A, 3);
    cpu.registers.write(&Register8bits::B, 1);

    eight_bit_arithm_logic_ops::sbc(&mut cpu, Register8bits::B);

    assert_eq!(cpu.registers.read(&Register8bits::A), 1);
    assert_eq!(cpu.registers.read_z_flag(), false);
    assert_eq!(cpu.registers.read_s_flag(), true);
    assert_eq!(cpu.registers.read_hc_flag(), false);
    assert_eq!(cpu.registers.read_c_flag(), false);
}

#[test]
fn sbc_without_carry_flag_set() {
    let mem: Memory = Memory::new();
    let mut cpu: CPU = CPU::new(mem);
    cpu.registers.write_flags(false, false, false, false);
    cpu.registers.write(&Register8bits::A, 3);
    cpu.registers.write(&Register8bits::B, 1);

    eight_bit_arithm_logic_ops::sbc(&mut cpu, Register8bits::B);

    assert_eq!(cpu.registers.read(&Register8bits::A), 2);
    assert_eq!(cpu.registers.read_z_flag(), false);
    assert_eq!(cpu.registers.read_s_flag(), true);
    assert_eq!(cpu.registers.read_hc_flag(), false);
    assert_eq!(cpu.registers.read_c_flag(), false);
}

#[test]
fn sbc_equals_0() {
    let mem: Memory = Memory::new();
    let mut cpu: CPU = CPU::new(mem);

    eight_bit_arithm_logic_ops::sbc(&mut cpu, Register8bits::B);

    assert_eq!(cpu.registers.read(&Register8bits::A), 0);
    assert_eq!(cpu.registers.read_z_flag(), true)
}

#[test]
fn sbc_with_hc() {
    let mem: Memory = Memory::new();
    let mut cpu: CPU = CPU::new(mem);
    cpu.registers.write(&Register8bits::A, 0b10000);
    cpu.registers.write(&Register8bits::B, 0b1000);

    eight_bit_arithm_logic_ops::sbc(&mut cpu, Register8bits::B);

    assert_eq!(cpu.registers.read(&Register8bits::A), 0b1000);
    assert_eq!(cpu.registers.read_hc_flag(), true);
}

#[test]
fn sbc_with_carry() {
    let mem: Memory = Memory::new();
    let mut cpu: CPU = CPU::new(mem);
    cpu.registers.write(&Register8bits::A, 1);
    cpu.registers.write(&Register8bits::B, 2);

    eight_bit_arithm_logic_ops::sbc(&mut cpu, Register8bits::B);

    assert_eq!(cpu.registers.read(&Register8bits::A), 255);
    assert_eq!(cpu.registers.read_c_flag(), true)
}

#[test]
fn sbc_hl_op() {
    let mut mem: Memory = Memory::new();
    let addr: u16 = 1;
    mem.write_byte(addr, 1);
    let mut cpu: CPU = CPU::new(mem);
    cpu.registers.write_flags(false, false, false, true);
    cpu.registers.write_16b(&Register16bits::HL, addr);
    cpu.registers.write(&Register8bits::A, 3);

    eight_bit_arithm_logic_ops::sbc_hl(&mut cpu);

    assert_eq!(cpu.registers.read(&Register8bits::A), 1);
}

#[test]
fn sbc_d8_op() {
    let mut mem: Memory = Memory::new();
    let initial_pc = 0x200;
    mem.write_byte(initial_pc, 1);
    let mut cpu: CPU = CPU::new(mem);
    cpu.registers.write_pc(initial_pc);
    cpu.registers.write_flags(false, false, false, true);
    cpu.registers.write(&Register8bits::A, 3);

    eight_bit_arithm_logic_ops::sbc_d8(&mut cpu);

    assert_eq!(cpu.registers.read(&Register8bits::A), 1);
}

#[test]
fn cpl_op() {
    let mem: Memory = Memory::new();
    let mut cpu: CPU = CPU::new(mem);
    cpu.registers.write(&Register8bits::A, 0b10101010);

    eight_bit_arithm_logic_ops::cpl(&mut cpu);

    assert_eq!(cpu.registers.read(&Register8bits::A), 0b01010101);
    assert_eq!(cpu.registers.read_z_flag(), false);
    assert_eq!(cpu.registers.read_s_flag(), true);
    assert_eq!(cpu.registers.read_hc_flag(), true);
    assert_eq!(cpu.registers.read_c_flag(), false);
}
