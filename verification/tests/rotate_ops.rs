use gb_core::cpu::CPU;
use gb_core::memory::Memory;
use gb_core::registers::{Register16bits, Register8bits};
use gb_core::rotate_ops;

#[test]
fn rl_with_carry_set() {
    let mem: Memory = Memory::new();
    let mut cpu: CPU = CPU::new(mem);
    cpu.registers.write_flags(false, false, false, true);
    cpu.registers.write(&Register8bits::B, 0b00101111);

    rotate_ops::rl(&mut cpu, Register8bits::B);

    assert_eq!(cpu.registers.read(&Register8bits::B), 0b01011111);
    assert_eq!(cpu.registers.read_z_flag(), false);
    assert_eq!(cpu.registers.read_s_flag(), false);
    assert_eq!(cpu.registers.read_hc_flag(), false);
    assert_eq!(cpu.registers.read_c_flag(), false);
}

#[test]
fn rl_with_carry_not_set() {
    let mem: Memory = Memory::new();
    let mut cpu: CPU = CPU::new(mem);
    cpu.registers.write(&Register8bits::B, 0b00101111);

    rotate_ops::rl(&mut cpu, Register8bits::B);

    assert_eq!(cpu.registers.read(&Register8bits::B), 0b01011110);
    assert_eq!(cpu.registers.read_z_flag(), false);
    assert_eq!(cpu.registers.read_s_flag(), false);
    assert_eq!(cpu.registers.read_hc_flag(), false);
    assert_eq!(cpu.registers.read_c_flag(), false);
}

#[test]
fn rl_equals_0() {
    let mem: Memory = Memory::new();
    let mut cpu: CPU = CPU::new(mem);

    rotate_ops::rl(&mut cpu, Register8bits::B);

    assert_eq!(cpu.registers.read(&Register8bits::B), 0);
    assert_eq!(cpu.registers.read_z_flag(), true);
}

#[test]
fn rl_old_bit_7_is_0() {
    let mem: Memory = Memory::new();
    let mut cpu: CPU = CPU::new(mem);
    cpu.registers.write(&Register8bits::B, 0b00101111);

    rotate_ops::rl(&mut cpu, Register8bits::B);

    assert_eq!(cpu.registers.read(&Register8bits::B), 0b01011110);
    assert_eq!(cpu.registers.read_z_flag(), false);
    assert_eq!(cpu.registers.read_s_flag(), false);
    assert_eq!(cpu.registers.read_hc_flag(), false);
    assert_eq!(cpu.registers.read_c_flag(), false);
}

#[test]
fn rl_old_bit_7_is_1() {
    let mem: Memory = Memory::new();
    let mut cpu: CPU = CPU::new(mem);
    cpu.registers.write(&Register8bits::B, 0b10101111);

    rotate_ops::rl(&mut cpu, Register8bits::B);

    assert_eq!(cpu.registers.read(&Register8bits::B), 0b01011110);
    assert_eq!(cpu.registers.read_z_flag(), false);
    assert_eq!(cpu.registers.read_s_flag(), false);
    assert_eq!(cpu.registers.read_hc_flag(), false);
    assert_eq!(cpu.registers.read_c_flag(), true);
}

#[test]
fn rla_with_carry_set() {
    let mem: Memory = Memory::new();
    let mut cpu: CPU = CPU::new(mem);
    cpu.registers.write_flags(false, false, false, true);
    cpu.registers.write(&Register8bits::A, 0b00101111);

    rotate_ops::rla(&mut cpu);

    assert_eq!(cpu.registers.read(&Register8bits::A), 0b01011111);
    assert_eq!(cpu.registers.read_z_flag(), false);
    assert_eq!(cpu.registers.read_s_flag(), false);
    assert_eq!(cpu.registers.read_hc_flag(), false);
    assert_eq!(cpu.registers.read_c_flag(), false);
}

#[test]
fn rla_with_carry_not_set() {
    let mem: Memory = Memory::new();
    let mut cpu: CPU = CPU::new(mem);
    cpu.registers.write(&Register8bits::A, 0b00101111);

    rotate_ops::rla(&mut cpu);

    assert_eq!(cpu.registers.read(&Register8bits::A), 0b01011110);
    assert_eq!(cpu.registers.read_z_flag(), false);
    assert_eq!(cpu.registers.read_s_flag(), false);
    assert_eq!(cpu.registers.read_hc_flag(), false);
    assert_eq!(cpu.registers.read_c_flag(), false);
}

#[test]
fn rla_old_bit_7_is_0() {
    let mem: Memory = Memory::new();
    let mut cpu: CPU = CPU::new(mem);
    cpu.registers.write(&Register8bits::A, 0b00101111);

    rotate_ops::rla(&mut cpu);

    assert_eq!(cpu.registers.read(&Register8bits::A), 0b01011110);
    assert_eq!(cpu.registers.read_c_flag(), false);
}

#[test]
fn rla_old_bit_7_is_1() {
    let mem: Memory = Memory::new();
    let mut cpu: CPU = CPU::new(mem);
    cpu.registers.write(&Register8bits::A, 0b10101111);

    rotate_ops::rla(&mut cpu);

    assert_eq!(cpu.registers.read(&Register8bits::A), 0b01011110);
    assert_eq!(cpu.registers.read_c_flag(), true);
}

#[test]
fn rla_result_is_0() {
    let mem: Memory = Memory::new();
    let mut cpu: CPU = CPU::new(mem);

    rotate_ops::rla(&mut cpu);

    assert_eq!(cpu.registers.read(&Register8bits::A), 0);
    assert_eq!(cpu.registers.read_z_flag(), false);
    assert_eq!(cpu.registers.read_s_flag(), false);
    assert_eq!(cpu.registers.read_hc_flag(), false);
    assert_eq!(cpu.registers.read_c_flag(), false);
}

#[test]
fn rl_hl_with_carry_set() {
    let mut mem: Memory = Memory::new();
    let addr: u16 = 1;
    mem.write_byte(addr, 0b00101111);
    let mut cpu: CPU = CPU::new(mem);
    cpu.registers.write_flags(false, false, false, true);
    cpu.registers.write_16b(&Register16bits::HL, addr);

    rotate_ops::rl_hl(&mut cpu);

    assert_eq!(cpu.memory.read_byte(addr), 0b01011111);
}

#[test]
fn rl_hl_with_carry_not_set() {
    let mut mem: Memory = Memory::new();
    let addr: u16 = 1;
    mem.write_byte(addr, 0b00101111);
    let mut cpu: CPU = CPU::new(mem);
    cpu.registers.write_16b(&Register16bits::HL, addr);

    rotate_ops::rl_hl(&mut cpu);

    assert_eq!(cpu.memory.read_byte(addr), 0b01011110);
}

#[test]
fn rlc_op() {
    let mem: Memory = Memory::new();
    let mut cpu: CPU = CPU::new(mem);
    cpu.registers.write(&Register8bits::B, 0b00101111);

    rotate_ops::rlc(&mut cpu, Register8bits::B);

    assert_eq!(cpu.registers.read(&Register8bits::B), 0b01011110);
    assert_eq!(cpu.registers.read_z_flag(), false);
    assert_eq!(cpu.registers.read_s_flag(), false);
    assert_eq!(cpu.registers.read_hc_flag(), false);
    assert_eq!(cpu.registers.read_c_flag(), false);
}

#[test]
fn rlc_equals_0() {
    let mem: Memory = Memory::new();
    let mut cpu: CPU = CPU::new(mem);

    rotate_ops::rlc(&mut cpu, Register8bits::B);

    assert_eq!(cpu.registers.read(&Register8bits::B), 0);
    assert_eq!(cpu.registers.read_z_flag(), true);
}

#[test]
fn rlc_old_bit_7_is_0() {
    let mem: Memory = Memory::new();
    let mut cpu: CPU = CPU::new(mem);
    cpu.registers.write(&Register8bits::B, 0b00101100);

    rotate_ops::rlc(&mut cpu, Register8bits::B);

    assert_eq!(cpu.registers.read(&Register8bits::B), 0b01011000);
    assert_eq!(cpu.registers.read_c_flag(), false);
}

#[test]
fn rlc_old_bit_7_is_1() {
    let mem: Memory = Memory::new();
    let mut cpu: CPU = CPU::new(mem);
    cpu.registers.write(&Register8bits::B, 0b10101111);

    rotate_ops::rlc(&mut cpu, Register8bits::B);

    assert_eq!(cpu.registers.read(&Register8bits::B), 0b01011111);
    assert_eq!(cpu.registers.read_c_flag(), true);
}

#[test]
fn rlca_old_bit_7_is_0() {
    let mem: Memory = Memory::new();
    let mut cpu: CPU = CPU::new(mem);
    cpu.registers.write(&Register8bits::A, 0b00101100);

    rotate_ops::rlca(&mut cpu);

    assert_eq!(cpu.registers.read(&Register8bits::A), 0b01011000);
    assert_eq!(cpu.registers.read_z_flag(), false);
    assert_eq!(cpu.registers.read_s_flag(), false);
    assert_eq!(cpu.registers.read_hc_flag(), false);
    assert_eq!(cpu.registers.read_c_flag(), false);
}

#[test]
fn rlca_old_bit_7_is_1() {
    let mem: Memory = Memory::new();
    let mut cpu: CPU = CPU::new(mem);
    cpu.registers.write(&Register8bits::A, 0b10101111);

    rotate_ops::rlca(&mut cpu);

    assert_eq!(cpu.registers.read(&Register8bits::A), 0b01011111);
    assert_eq!(cpu.registers.read_z_flag(), false);
    assert_eq!(cpu.registers.read_s_flag(), false);
    assert_eq!(cpu.registers.read_hc_flag(), false);
    assert_eq!(cpu.registers.read_c_flag(), true);
}

#[test]
fn rlca_result_is_0() {
    let mem: Memory = Memory::new();
    let mut cpu: CPU = CPU::new(mem);

    rotate_ops::rlca(&mut cpu);

    assert_eq!(cpu.registers.read(&Register8bits::A), 0);
    assert_eq!(cpu.registers.read_z_flag(), false);
    assert_eq!(cpu.registers.read_s_flag(), false);
    assert_eq!(cpu.registers.read_hc_flag(), false);
    assert_eq!(cpu.registers.read_c_flag(), false);
}

#[test]
fn rlc_hl_op() {
    let mut mem: Memory = Memory::new();
    let addr: u16 = 1;
    mem.write_byte(addr, 0b10101111);
    let mut cpu: CPU = CPU::new(mem);
    cpu.registers.write_16b(&Register16bits::HL, addr);

    rotate_ops::rlc_hl(&mut cpu);

    assert_eq!(cpu.memory.read_byte(addr), 0b01011111)
}

#[test]
fn rr_with_carry_set() {
    let mem: Memory = Memory::new();
    let mut cpu: CPU = CPU::new(mem);
    cpu.registers.write_flags(false, false, false, true);
    cpu.registers.write(&Register8bits::B, 0b00101110);

    rotate_ops::rr(&mut cpu, Register8bits::B);

    assert_eq!(cpu.registers.read(&Register8bits::B), 0b10010111);
    assert_eq!(cpu.registers.read_z_flag(), false);
    assert_eq!(cpu.registers.read_s_flag(), false);
    assert_eq!(cpu.registers.read_hc_flag(), false);
    assert_eq!(cpu.registers.read_c_flag(), false);
}

#[test]
fn rr_with_carry_not_set() {
    let mem: Memory = Memory::new();
    let mut cpu: CPU = CPU::new(mem);
    cpu.registers.write(&Register8bits::B, 0b00101110);

    rotate_ops::rr(&mut cpu, Register8bits::B);

    assert_eq!(cpu.registers.read(&Register8bits::B), 0b00010111);
    assert_eq!(cpu.registers.read_z_flag(), false);
    assert_eq!(cpu.registers.read_s_flag(), false);
    assert_eq!(cpu.registers.read_hc_flag(), false);
    assert_eq!(cpu.registers.read_c_flag(), false);
}

#[test]
fn rr_equals_0() {
    let mem: Memory = Memory::new();
    let mut cpu: CPU = CPU::new(mem);

    rotate_ops::rr(&mut cpu, Register8bits::B);

    assert_eq!(cpu.registers.read(&Register8bits::B), 0);
    assert_eq!(cpu.registers.read_z_flag(), true);
}

#[test]
fn rr_old_bit_0_is_0() {
    let mem: Memory = Memory::new();
    let mut cpu: CPU = CPU::new(mem);
    cpu.registers.write(&Register8bits::B, 0b00100000);

    rotate_ops::rr(&mut cpu, Register8bits::B);

    assert_eq!(cpu.registers.read(&Register8bits::B), 0b00010000);
    assert_eq!(cpu.registers.read_z_flag(), false);
    assert_eq!(cpu.registers.read_s_flag(), false);
    assert_eq!(cpu.registers.read_hc_flag(), false);
    assert_eq!(cpu.registers.read_c_flag(), false);
}

#[test]
fn rr_old_bit_0_is_1() {
    let mem: Memory = Memory::new();
    let mut cpu: CPU = CPU::new(mem);
    cpu.registers.write(&Register8bits::B, 0b00101111);

    rotate_ops::rr(&mut cpu, Register8bits::B);

    assert_eq!(cpu.registers.read(&Register8bits::B), 0b00010111);
    assert_eq!(cpu.registers.read_z_flag(), false);
    assert_eq!(cpu.registers.read_s_flag(), false);
    assert_eq!(cpu.registers.read_hc_flag(), false);
    assert_eq!(cpu.registers.read_c_flag(), true);
}

#[test]
fn rra_with_carry_set() {
    let mem: Memory = Memory::new();
    let mut cpu: CPU = CPU::new(mem);
    cpu.registers.write_flags(false, false, false, true);
    cpu.registers.write(&Register8bits::A, 0b00101110);

    rotate_ops::rra(&mut cpu);

    assert_eq!(cpu.registers.read(&Register8bits::A), 0b10010111);
    assert_eq!(cpu.registers.read_z_flag(), false);
    assert_eq!(cpu.registers.read_s_flag(), false);
    assert_eq!(cpu.registers.read_hc_flag(), false);
    assert_eq!(cpu.registers.read_c_flag(), false);
}

#[test]
fn rra_with_carry_not_set() {
    let mem: Memory = Memory::new();
    let mut cpu: CPU = CPU::new(mem);
    cpu.registers.write(&Register8bits::A, 0b00101110);

    rotate_ops::rra(&mut cpu);

    assert_eq!(cpu.registers.read(&Register8bits::A), 0b00010111);
    assert_eq!(cpu.registers.read_z_flag(), false);
    assert_eq!(cpu.registers.read_s_flag(), false);
    assert_eq!(cpu.registers.read_hc_flag(), false);
    assert_eq!(cpu.registers.read_c_flag(), false);
}

#[test]
fn rra_old_bit_0_is_0() {
    let mem: Memory = Memory::new();
    let mut cpu: CPU = CPU::new(mem);
    cpu.registers.write(&Register8bits::A, 0b00100000);

    rotate_ops::rra(&mut cpu);

    assert_eq!(cpu.registers.read(&Register8bits::A), 0b00010000);
    assert_eq!(cpu.registers.read_c_flag(), false);
}

#[test]
fn rra_old_bit_0_is_1() {
    let mem: Memory = Memory::new();
    let mut cpu: CPU = CPU::new(mem);
    cpu.registers.write(&Register8bits::A, 0b00101111);

    rotate_ops::rra(&mut cpu);

    assert_eq!(cpu.registers.read(&Register8bits::A), 0b00010111);
    assert_eq!(cpu.registers.read_c_flag(), true);
}

#[test]
fn rra_result_is_0() {
    let mem: Memory = Memory::new();
    let mut cpu: CPU = CPU::new(mem);

    rotate_ops::rra(&mut cpu);

    assert_eq!(cpu.registers.read(&Register8bits::A), 0);
    assert_eq!(cpu.registers.read_z_flag(), false);
    assert_eq!(cpu.registers.read_s_flag(), false);
    assert_eq!(cpu.registers.read_hc_flag(), false);
    assert_eq!(cpu.registers.read_c_flag(), false);
}

#[test]
fn rr_hl_with_carry_set() {
    let mut mem: Memory = Memory::new();
    let addr: u16 = 1;
    mem.write_byte(addr, 0b00101110);
    let mut cpu: CPU = CPU::new(mem);
    cpu.registers.write_flags(false, false, false, true);
    cpu.registers.write_16b(&Register16bits::HL, addr);

    rotate_ops::rr_hl(&mut cpu);

    assert_eq!(cpu.memory.read_byte(addr), 0b10010111);
}

#[test]
fn rr_hl_with_carry_not_set() {
    let mut mem: Memory = Memory::new();
    let addr: u16 = 1;
    mem.write_byte(addr, 0b00101110);
    let mut cpu: CPU = CPU::new(mem);
    cpu.registers.write_16b(&Register16bits::HL, addr);

    rotate_ops::rr_hl(&mut cpu);

    assert_eq!(cpu.memory.read_byte(addr), 0b00010111);
}

#[test]
fn rrc_op() {
    let mem: Memory = Memory::new();
    let mut cpu: CPU = CPU::new(mem);
    cpu.registers.write(&Register8bits::B, 0b10101110);

    rotate_ops::rrc(&mut cpu, Register8bits::B);

    assert_eq!(cpu.registers.read(&Register8bits::B), 0b01010111);
    assert_eq!(cpu.registers.read_z_flag(), false);
    assert_eq!(cpu.registers.read_s_flag(), false);
    assert_eq!(cpu.registers.read_hc_flag(), false);
    assert_eq!(cpu.registers.read_c_flag(), false);
}

#[test]
fn rrc_equals_0() {
    let mem: Memory = Memory::new();
    let mut cpu: CPU = CPU::new(mem);

    rotate_ops::rrc(&mut cpu, Register8bits::B);

    assert_eq!(cpu.registers.read(&Register8bits::B), 0);
    assert_eq!(cpu.registers.read_z_flag(), true);
}

#[test]
fn rrc_old_bit_0_is_0() {
    let mem: Memory = Memory::new();
    let mut cpu: CPU = CPU::new(mem);
    cpu.registers.write(&Register8bits::B, 0b10000000);

    rotate_ops::rrc(&mut cpu, Register8bits::B);

    assert_eq!(cpu.registers.read(&Register8bits::B), 0b01000000);
    assert_eq!(cpu.registers.read_c_flag(), false);
}

#[test]
fn rrc_old_bit_0_is_1() {
    let mem: Memory = Memory::new();
    let mut cpu: CPU = CPU::new(mem);
    cpu.registers.write(&Register8bits::B, 0b10000001);

    rotate_ops::rrc(&mut cpu, Register8bits::B);

    assert_eq!(cpu.registers.read(&Register8bits::B), 0b11000000);
    assert_eq!(cpu.registers.read_c_flag(), true);
}

#[test]
fn rrca_old_bit_0_is_0() {
    let mem: Memory = Memory::new();
    let mut cpu: CPU = CPU::new(mem);
    cpu.registers.write(&Register8bits::A, 0b10000000);

    rotate_ops::rrca(&mut cpu);

    assert_eq!(cpu.registers.read(&Register8bits::A), 0b01000000);
    assert_eq!(cpu.registers.read_c_flag(), false);
}

#[test]
fn rrca_old_bit_0_is_1() {
    let mem: Memory = Memory::new();
    let mut cpu: CPU = CPU::new(mem);
    cpu.registers.write(&Register8bits::A, 0b10000001);

    rotate_ops::rrca(&mut cpu);

    assert_eq!(cpu.registers.read(&Register8bits::A), 0b11000000);
    assert_eq!(cpu.registers.read_c_flag(), true);
}

#[test]
fn rrca_result_is_0() {
    let mem: Memory = Memory::new();
    let mut cpu: CPU = CPU::new(mem);

    rotate_ops::rrca(&mut cpu);

    assert_eq!(cpu.registers.read(&Register8bits::A), 0);
    assert_eq!(cpu.registers.read_z_flag(), false);
    assert_eq!(cpu.registers.read_s_flag(), false);
    assert_eq!(cpu.registers.read_hc_flag(), false);
    assert_eq!(cpu.registers.read_c_flag(), false);
}

#[test]
fn rrc_hl_old_bit_0_is_0() {
    let mut mem: Memory = Memory::new();
    let addr: u16 = 1;
    mem.write_byte(addr, 0b10000000);
    let mut cpu: CPU = CPU::new(mem);
    cpu.registers.write_16b(&Register16bits::HL, addr);

    rotate_ops::rrc_hl(&mut cpu);

    assert_eq!(cpu.registers.read_c_flag(), false);
    assert_eq!(cpu.memory.read_byte(addr), 0b01000000);
}

#[test]
fn rrc_hl_old_bit_0_is_1() {
    let mut mem: Memory = Memory::new();
    let addr: u16 = 1;
    mem.write_byte(addr, 0b10000001);
    let mut cpu: CPU = CPU::new(mem);
    cpu.registers.write_16b(&Register16bits::HL, addr);

    rotate_ops::rrc_hl(&mut cpu);

    assert_eq!(cpu.registers.read_c_flag(), true);
    assert_eq!(cpu.memory.read_byte(addr), 0b11000000);
}

#[test]
fn sla_old_bit_7_is_0() {
    let mem: Memory = Memory::new();
    let mut cpu: CPU = CPU::new(mem);
    cpu.registers.write(&Register8bits::B, 0b00101110);

    rotate_ops::sla(&mut cpu, Register8bits::B);

    assert_eq!(cpu.registers.read(&Register8bits::B), 0b01011100);
    assert_eq!(cpu.registers.read_z_flag(), false);
    assert_eq!(cpu.registers.read_s_flag(), false);
    assert_eq!(cpu.registers.read_hc_flag(), false);
    assert_eq!(cpu.registers.read_c_flag(), false);
}

#[test]
fn sla_old_bit_7_is_1() {
    let mem: Memory = Memory::new();
    let mut cpu: CPU = CPU::new(mem);
    cpu.registers.write(&Register8bits::B, 0b10101110);

    rotate_ops::sla(&mut cpu, Register8bits::B);

    assert_eq!(cpu.registers.read(&Register8bits::B), 0b01011100);
    assert_eq!(cpu.registers.read_z_flag(), false);
    assert_eq!(cpu.registers.read_s_flag(), false);
    assert_eq!(cpu.registers.read_hc_flag(), false);
    assert_eq!(cpu.registers.read_c_flag(), true);
}

#[test]
fn sla_equals_0() {
    let mem: Memory = Memory::new();
    let mut cpu: CPU = CPU::new(mem);

    rotate_ops::sla(&mut cpu, Register8bits::B);

    assert_eq!(cpu.registers.read(&Register8bits::B), 0);
    assert_eq!(cpu.registers.read_z_flag(), true);
}

#[test]
fn sla_hl_old_bit_7_is_0() {
    let mut mem: Memory = Memory::new();
    let addr: u16 = 1;
    mem.write_byte(addr, 0b00101110);
    let mut cpu: CPU = CPU::new(mem);
    cpu.registers.write_16b(&Register16bits::HL, addr);

    rotate_ops::sla_hl(&mut cpu);

    assert_eq!(cpu.registers.read_z_flag(), false);
    assert_eq!(cpu.registers.read_s_flag(), false);
    assert_eq!(cpu.registers.read_hc_flag(), false);
    assert_eq!(cpu.registers.read_c_flag(), false);
    assert_eq!(cpu.memory.read_byte(addr), 0b01011100);
}

#[test]
fn sla_hl_old_bit_7_is_1() {
    let mut mem: Memory = Memory::new();
    let addr: u16 = 1;
    mem.write_byte(addr, 0b10101110);
    let mut cpu: CPU = CPU::new(mem);
    cpu.registers.write_16b(&Register16bits::HL, addr);

    rotate_ops::sla_hl(&mut cpu);

    assert_eq!(cpu.registers.read_z_flag(), false);
    assert_eq!(cpu.registers.read_s_flag(), false);
    assert_eq!(cpu.registers.read_hc_flag(), false);
    assert_eq!(cpu.registers.read_c_flag(), true);
    assert_eq!(cpu.memory.read_byte(addr), 0b01011100);
}

#[test]
fn sra_old_bit_7_is_0() {
    let mem: Memory = Memory::new();
    let mut cpu: CPU = CPU::new(mem);
    cpu.registers.write(&Register8bits::B, 0b00101110);

    rotate_ops::sra(&mut cpu, Register8bits::B);

    assert_eq!(cpu.registers.read(&Register8bits::B), 0b00010111);
    assert_eq!(cpu.registers.read_z_flag(), false);
    assert_eq!(cpu.registers.read_s_flag(), false);
    assert_eq!(cpu.registers.read_hc_flag(), false);
    assert_eq!(cpu.registers.read_c_flag(), false);
}

#[test]
fn sra_old_bit_7_is_1() {
    let mem: Memory = Memory::new();
    let mut cpu: CPU = CPU::new(mem);
    cpu.registers.write(&Register8bits::B, 0b10101110);

    rotate_ops::sra(&mut cpu, Register8bits::B);

    assert_eq!(cpu.registers.read(&Register8bits::B), 0b11010111);
    assert_eq!(cpu.registers.read_z_flag(), false);
    assert_eq!(cpu.registers.read_s_flag(), false);
    assert_eq!(cpu.registers.read_hc_flag(), false);
    assert_eq!(cpu.registers.read_c_flag(), false);
}

#[test]
fn sra_equals_0() {
    let mem: Memory = Memory::new();
    let mut cpu: CPU = CPU::new(mem);

    rotate_ops::sra(&mut cpu, Register8bits::B);

    assert_eq!(cpu.registers.read(&Register8bits::B), 0);
    assert_eq!(cpu.registers.read_z_flag(), true);
}

#[test]
fn sra_old_bit_0_is_0() {
    let mem: Memory = Memory::new();
    let mut cpu: CPU = CPU::new(mem);
    cpu.registers.write(&Register8bits::B, 0b00101110);

    rotate_ops::sra(&mut cpu, Register8bits::B);

    assert_eq!(cpu.registers.read(&Register8bits::B), 0b00010111);
    assert_eq!(cpu.registers.read_c_flag(), false);
}

#[test]
fn sra_old_bit_0_is_1() {
    let mem: Memory = Memory::new();
    let mut cpu: CPU = CPU::new(mem);
    cpu.registers.write(&Register8bits::B, 0b00101111);

    rotate_ops::sra(&mut cpu, Register8bits::B);

    assert_eq!(cpu.registers.read(&Register8bits::B), 0b00010111);
    assert_eq!(cpu.registers.read_c_flag(), true);
}

#[test]
fn sra_hl_old_bit_7_is_0() {
    let mut mem: Memory = Memory::new();
    let addr: u16 = 1;
    mem.write_byte(addr, 0b00101110);
    let mut cpu: CPU = CPU::new(mem);
    cpu.registers.write_16b(&Register16bits::HL, addr);

    rotate_ops::sra_hl(&mut cpu);

    assert_eq!(cpu.registers.read_z_flag(), false);
    assert_eq!(cpu.registers.read_s_flag(), false);
    assert_eq!(cpu.registers.read_hc_flag(), false);
    assert_eq!(cpu.registers.read_c_flag(), false);
    assert_eq!(cpu.memory.read_byte(addr), 0b00010111);
}

#[test]
fn sra_hl_old_bit_7_is_1() {
    let mut mem: Memory = Memory::new();
    let addr: u16 = 1;
    mem.write_byte(addr, 0b10101110);
    let mut cpu: CPU = CPU::new(mem);
    cpu.registers.write_16b(&Register16bits::HL, addr);

    rotate_ops::sra_hl(&mut cpu);

    assert_eq!(cpu.registers.read_z_flag(), false);
    assert_eq!(cpu.registers.read_s_flag(), false);
    assert_eq!(cpu.registers.read_hc_flag(), false);
    assert_eq!(cpu.registers.read_c_flag(), false);
    assert_eq!(cpu.memory.read_byte(addr), 0b11010111);
}

#[test]
fn srl_old_bit_0_is_0() {
    let mem: Memory = Memory::new();
    let mut cpu: CPU = CPU::new(mem);
    cpu.registers.write(&Register8bits::B, 0b10101110);

    rotate_ops::srl(&mut cpu, Register8bits::B);

    assert_eq!(cpu.registers.read(&Register8bits::B), 0b01010111);
    assert_eq!(cpu.registers.read_c_flag(), false);
}

#[test]
fn srl_old_bit_0_is_1() {
    let mem: Memory = Memory::new();
    let mut cpu: CPU = CPU::new(mem);
    cpu.registers.write(&Register8bits::B, 0b10101111);

    rotate_ops::srl(&mut cpu, Register8bits::B);

    assert_eq!(cpu.registers.read(&Register8bits::B), 0b01010111);
    assert_eq!(cpu.registers.read_c_flag(), true);
}

#[test]
fn srl_equals_0() {
    let mem: Memory = Memory::new();
    let mut cpu: CPU = CPU::new(mem);

    rotate_ops::srl(&mut cpu, Register8bits::B);

    assert_eq!(cpu.registers.read(&Register8bits::B), 0);
    assert_eq!(cpu.registers.read_z_flag(), true);
}

#[test]
fn srl_hl_old_bit_0_is_0() {
    let mut mem: Memory = Memory::new();
    let addr: u16 = 1;
    mem.write_byte(addr, 0b10101110);
    let mut cpu: CPU = CPU::new(mem);
    cpu.registers.write_16b(&Register16bits::HL, addr);

    rotate_ops::srl_hl(&mut cpu);

    assert_eq!(cpu.registers.read_c_flag(), false);
    assert_eq!(cpu.memory.read_byte(addr), 0b01010111);
}

#[test]
fn srl_hl_old_bit_0_is_1() {
    let mut mem: Memory = Memory::new();
    let addr: u16 = 1;
    mem.write_byte(addr, 0b10101111);
    let mut cpu: CPU = CPU::new(mem);
    cpu.registers.write_16b(&Register16bits::HL, addr);

    rotate_ops::srl_hl(&mut cpu);

    assert_eq!(cpu.registers.read_c_flag(), true);
    assert_eq!(cpu.memory.read_byte(addr), 0b01010111);
}

#[test]
fn swap_op() {
    let mem: Memory = Memory::new();
    let mut cpu: CPU = CPU::new(mem);
    cpu.registers.write(&Register8bits::B, 0b10100101);

    rotate_ops::swap(&mut cpu, Register8bits::B);

    assert_eq!(cpu.registers.read(&Register8bits::B), 0b01011010);
    assert_eq!(cpu.registers.read_z_flag(), false);
    assert_eq!(cpu.registers.read_s_flag(), false);
    assert_eq!(cpu.registers.read_hc_flag(), false);
    assert_eq!(cpu.registers.read_c_flag(), false);
}

#[test]
fn swap_equals_0() {
    let mem: Memory = Memory::new();
    let mut cpu: CPU = CPU::new(mem);

    rotate_ops::swap(&mut cpu, Register8bits::B);

    assert_eq!(cpu.registers.read(&Register8bits::B), 0);
    assert_eq!(cpu.registers.read_z_flag(), true);
}

#[test]
fn swap_hl_op() {
    let mut mem: Memory = Memory::new();
    let addr: u16 = 1;
    mem.write_byte(addr, 0b10100101);
    let mut cpu: CPU = CPU::new(mem);
    cpu.registers.write_16b(&Register16bits::HL, addr);

    rotate_ops::swap_hl(&mut cpu);

    assert_eq!(cpu.memory.read_byte(addr), 0b01011010);
}
