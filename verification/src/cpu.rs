//! The CPU: the register file, the owned memory, the IME boolean, and the
//! fetch/decode/execute machinery with interrupt dispatch between steps.

use vstd::prelude::*;

use crate::arith::{word_of, wrap_add16, wrap_sub16};
use crate::instructions::{
    spec_decode, spec_decode_prefixed, spec_undefined_opcode, Instruction, PREFIX_INSTR_CODE,
};
use crate::interrupts::{spec_isr_addr, Interrupts};
use crate::memory::{Memory, MemView};
use crate::registers::{FlagsRegister, ProgramCounter, Register16bits, Register8bits, Registers, StackPointer};

use crate::bit_ops as bits;
use crate::control_ops as ctl;
use crate::eight_bit_arithm_logic_ops as alu8;
use crate::eight_bit_load_ops as ld8;
use crate::jump_ops as jmp;
use crate::rotate_ops as rot;
use crate::sixteen_bit_arithm_logic_ops as alu16;
use crate::sixteen_bit_load_ops as ld16;

verus! {

/// A fatal condition that stops the execution loop.
#[derive(Debug, Clone, Copy, PartialEq, Eq, Structural)]
pub enum CpuFault {
    /// The byte at PC names no instruction. PC has consumed the byte.
    UnknownOpcode(u8),
}

pub struct CPU {
    pub registers: Registers,
    pub memory: Memory,
    pub interrupts_enabled: bool,
}

/// The mathematical model of the whole machine: the register file, the
/// memory model, and the IME (interrupt master enable) boolean.
#[verifier::ext_equal]
pub struct CpuView {
    pub regs: Registers,
    pub mem: MemView,
    pub ime: bool,
}

impl View for CPU {
    type V = CpuView;

    open spec fn view(&self) -> CpuView {
        CpuView { regs: self.registers, mem: self.memory@, ime: self.interrupts_enabled }
    }
}

impl CpuView {
    pub open spec fn wf(self) -> bool {
        self.mem.wf()
    }

    pub open spec fn with_regs(self, regs: Registers) -> CpuView {
        CpuView { regs, ..self }
    }

    pub open spec fn with_mem(self, mem: MemView) -> CpuView {
        CpuView { mem, ..self }
    }

    pub open spec fn with_ime(self, ime: bool) -> CpuView {
        CpuView { ime, ..self }
    }

    pub open spec fn reg8(self, register: Register8bits) -> u8 {
        self.regs.spec_reg8(register)
    }

    pub open spec fn reg16(self, register: Register16bits) -> u16 {
        self.regs.spec_reg16(register)
    }

    pub open spec fn read(self, address: u16) -> u8 {
        self.mem.read(address)
    }

    pub open spec fn write(self, address: u16, value: u8) -> CpuView {
        self.with_mem(self.mem.write(address, value))
    }

    /// The byte the next fetch returns: the byte PC points at.
    pub open spec fn fetched_byte(self) -> u8 {
        self.mem.read(self.regs.pc.0)
    }

    /// The state after one fetch: PC advanced by one, wrapping.
    pub open spec fn after_fetch(self) -> CpuView {
        self.with_regs(self.regs.with_pc(wrap_add16(self.regs.pc.0, 1)))
    }

    /// The state after two fetches: PC advanced by two.
    pub open spec fn after_fetch2(self) -> CpuView {
        self.after_fetch().after_fetch()
    }

    /// The little-endian word two fetches return: low byte first.
    pub open spec fn fetched_word(self) -> u16 {
        word_of(self.after_fetch().fetched_byte(), self.fetched_byte())
    }

    /// The state after a 16-bit push: SP lowered by 2 before the write.
    pub open spec fn pushed(self, value: u16) -> CpuView {
        let sp2 = wrap_sub16(self.regs.sp.0, 2);
        let s1 = self.with_regs(self.regs.with_sp(sp2));
        s1.with_mem(s1.mem.write_word(sp2, value))
    }

    /// The word a pop returns: the little-endian word at SP.
    pub open spec fn popped_value(self) -> u16 {
        self.mem.read_word(self.regs.sp.0)
    }

    /// The state after a pop: SP raised by 2; memory untouched.
    pub open spec fn after_pop(self) -> CpuView {
        self.with_regs(self.regs.with_sp(wrap_add16(self.regs.sp.0, 2)))
    }

    /// Interrupt dispatch. When IME is set and some enabled interrupt is
    /// pending, the highest-priority one is serviced: IME cleared, its
    /// pending bit cleared, PC pushed, PC set to the service address. The
    /// boolean says whether a dispatch happened.
    pub open spec fn spec_attend(self) -> (CpuView, bool) {
        if self.ime {
            match self.mem.interrupts.spec_first_pending() {
                Some(kind) => {
                    let s1 = self.with_ime(false).with_mem(
                        MemView {
                            interrupts: Interrupts {
                                pending: self.mem.interrupts.pending.with_kind(kind, false),
                                ..self.mem.interrupts
                            },
                            ..self.mem
                        },
                    );
                    let s2 = s1.pushed(s1.regs.pc.0);
                    (s2.with_regs(s2.regs.with_pc(spec_isr_addr(kind))), true)
                },
                None => (self, false),
            }
        } else {
            (self, false)
        }
    }
}

impl CPU {
    pub fn new(memory: Memory) -> (r: CPU)
        ensures
            r@ == (CpuView {
                regs: Registers {
                    a: 0,
                    b: 0,
                    c: 0,
                    d: 0,
                    e: 0,
                    h: 0,
                    l: 0,
                    flags: FlagsRegister { z: false, s: false, hc: false, c: false },
                    pc: ProgramCounter(0),
                    sp: StackPointer(0),
                },
                mem: memory@,
                ime: true,
            }),
    {
        CPU { registers: Registers::new(), memory, interrupts_enabled: true }
    }

    /// ROMs start running at PC = 0x100 after the bootloader. This
    /// constructor installs the post-boot machine state: PC = 0x0100,
    /// SP = 0xFFFE, AF = 0x1180, BC = 0x0000, DE = 0xFF56, HL = 0x000D,
    /// IME clear, and IF = 0xE1.
    pub fn new_at_0x100(memory: Memory) -> (r: CPU)
        requires
            memory@.wf(),
        ensures
            r@ == (CpuView {
                regs: Registers {
                    a: 0x11,
                    b: 0,
                    c: 0,
                    d: 0xFF,
                    e: 0x56,
                    h: 0,
                    l: 0x0D,
                    flags: FlagsRegister { z: true, s: false, hc: false, c: false },
                    pc: ProgramCounter(0x100),
                    sp: StackPointer(0xFFFE),
                },
                mem: memory@.write(0xFF0F, 0xE1),
                ime: false,
            }),
            r@.wf(),
    {
        let mut memory = memory;
        let mut registers = Registers::new();

        registers.write_pc(0x100);
        registers.write_sp(0xFFFE);

        registers.write_16b(&Register16bits::AF, 0x1180);
        registers.write_16b(&Register16bits::BC, 0x0000);
        registers.write_16b(&Register16bits::DE, 0xFF56);
        registers.write_16b(&Register16bits::HL, 0x000D);

        registers.write_flags(true, false, false, false);

        memory.write_byte(0xFF0F, 0xE1);

        CPU { registers, memory, interrupts_enabled: false }
    }

    /// Whether a 16-bit addition carries out of bit 11.
    pub(crate) fn half_carry_in_add_16(x: u16, y: u16) -> (r: bool)
        ensures
            r == crate::arith::hc_add16(x, y),
    {
        (x % 0x1000) + (y % 0x1000) > 0xFFF
    }

    /// Read the byte PC points at and advance PC past it.
    pub(crate) fn fetch_byte(&mut self) -> (r: u8)
        requires
            old(self)@.wf(),
        ensures
            r == old(self)@.fetched_byte(),
            final(self)@ == old(self)@.after_fetch(),
            final(self)@.wf(),
    {
        let byte = self.memory.read_byte(self.registers.pc());
        self.registers.increase_pc(1);
        byte
    }

    /// Read the little-endian word PC points at and advance PC past it.
    pub(crate) fn fetch_word(&mut self) -> (r: u16)
        requires
            old(self)@.wf(),
        ensures
            r == old(self)@.fetched_word(),
            final(self)@ == old(self)@.after_fetch2(),
            final(self)@.wf(),
    {
        let low = self.fetch_byte();
        let hi = self.fetch_byte();
        hi as u16 * 0x100 + low as u16
    }

    pub(crate) fn read_d8(&mut self) -> (r: u8)
        requires
            old(self)@.wf(),
        ensures
            r == old(self)@.fetched_byte(),
            final(self)@ == old(self)@.after_fetch(),
            final(self)@.wf(),
    {
        self.fetch_byte()
    }

    pub(crate) fn read_d16(&mut self) -> (r: u16)
        requires
            old(self)@.wf(),
        ensures
            r == old(self)@.fetched_word(),
            final(self)@ == old(self)@.after_fetch2(),
            final(self)@.wf(),
    {
        self.fetch_word()
    }

    pub(crate) fn read_a16(&mut self) -> (r: u16)
        requires
            old(self)@.wf(),
        ensures
            r == old(self)@.fetched_word(),
            final(self)@ == old(self)@.after_fetch2(),
            final(self)@.wf(),
    {
        self.fetch_word()
    }

    /// Lower SP by 2, then store `value` there, low byte first.
    pub(crate) fn push_to_stack(&mut self, value: u16)
        requires
            old(self)@.wf(),
        ensures
            final(self)@ == old(self)@.pushed(value),
            final(self)@.wf(),
    {
        self.registers.decrease_sp(2);
        self.memory.write_word(self.registers.sp(), value);
    }

    /// Read the word at SP, then raise SP by 2.
    pub(crate) fn pop_from_stack(&mut self) -> (r: u16)
        requires
            old(self)@.wf(),
        ensures
            r == old(self)@.popped_value(),
            final(self)@ == old(self)@.after_pop(),
            final(self)@.wf(),
    {
        let value = self.memory.read_word(self.registers.sp());
        self.registers.increase_sp(2);
        value
    }

    // Uses the value stored in a 16 bit register as an address and returns
    // the byte stored in that memory address.
    pub(crate) fn value_in_addr(&self, register: &Register16bits) -> (r: u8)
        requires
            self@.wf(),
        ensures
            r == self@.read(self@.reg16(*register)),
    {
        let register_val = self.registers.read_16b(register);
        self.memory.read_byte(register_val)
    }

    /// Dispatch the highest-priority enabled-and-pending interrupt, if IME
    /// allows one; the result says whether a dispatch happened.
    pub(crate) fn attend_pending_interrupt(&mut self) -> (r: bool)
        requires
            old(self)@.wf(),
        ensures
            final(self)@ == old(self)@.spec_attend().0,
            r == old(self)@.spec_attend().1,
            final(self)@.wf(),
    {
        if self.interrupts_enabled {
            let isr_addr = self.memory.interrupts.isr_of_first_pending();

            match isr_addr {
                Some(addr) => {
                    self.interrupts_enabled = false;
                    let pc = self.registers.pc();
                    self.push_to_stack(pc);
                    self.registers.write_pc(addr);
                    true
                },
                None => false,
            }
        } else {
            false
        }
    }
}


/// What one instruction does to the machine state. This is the
/// mathematical model of the executor: each arm hands the state to the
/// specification of its operation family.
pub open spec fn spec_execute(s: CpuView, instruction: Instruction) -> CpuView {
    match instruction {
        //  8-bit arithmetic and logic
        Instruction::ADD(register) => alu8::spec_add_to_a(s, s.reg8(register)),
        Instruction::ADDHL => alu8::spec_add_to_a(s, s.read(s.reg16(Register16bits::HL))),
        Instruction::ADDD8 => alu8::spec_add_to_a(s.after_fetch(), s.fetched_byte()),
        Instruction::INC(register) => alu8::spec_inc_reg(s, register),
        Instruction::INCHL => alu8::spec_inc_at_hl(s),
        Instruction::ADC(register) => alu8::spec_adc_to_a(s, s.reg8(register)),
        Instruction::ADCHL => alu8::spec_adc_to_a(s, s.read(s.reg16(Register16bits::HL))),
        Instruction::ADCD8 => alu8::spec_adc_to_a(s.after_fetch(), s.fetched_byte()),
        Instruction::SUB(register) => alu8::spec_sub_from_a(s, s.reg8(register)),
        Instruction::SUBHL => alu8::spec_sub_from_a(s, s.read(s.reg16(Register16bits::HL))),
        Instruction::SUBD8 => alu8::spec_sub_from_a(s.after_fetch(), s.fetched_byte()),
        Instruction::AND(register) => alu8::spec_and_with_a(s, s.reg8(register)),
        Instruction::ANDHL => alu8::spec_and_with_a(s, s.read(s.reg16(Register16bits::HL))),
        Instruction::ANDD8 => alu8::spec_and_with_a(s.after_fetch(), s.fetched_byte()),
        Instruction::OR(register) => alu8::spec_or_with_a(s, s.reg8(register)),
        Instruction::ORHL => alu8::spec_or_with_a(s, s.read(s.reg16(Register16bits::HL))),
        Instruction::ORD8 => alu8::spec_or_with_a(s.after_fetch(), s.fetched_byte()),
        Instruction::XOR(register) => alu8::spec_xor_with_a(s, s.reg8(register)),
        Instruction::XORHL => alu8::spec_xor_with_a(s, s.read(s.reg16(Register16bits::HL))),
        Instruction::XORD8 => alu8::spec_xor_with_a(s.after_fetch(), s.fetched_byte()),
        Instruction::CP(register) => alu8::spec_cp_with_a(s, s.reg8(register)),
        Instruction::CPHL => alu8::spec_cp_with_a(s, s.read(s.reg16(Register16bits::HL))),
        Instruction::CPD8 => alu8::spec_cp_with_a(s.after_fetch(), s.fetched_byte()),
        Instruction::DEC(register) => alu8::spec_dec_reg(s, register),
        Instruction::DECHL => alu8::spec_dec_at_hl(s),
        Instruction::SBC(register) => alu8::spec_sbc_from_a(s, s.reg8(register)),
        Instruction::SBCHL => alu8::spec_sbc_from_a(s, s.read(s.reg16(Register16bits::HL))),
        Instruction::SBCD8 => alu8::spec_sbc_from_a(s.after_fetch(), s.fetched_byte()),
        Instruction::CPL => alu8::spec_cpl(s),
        Instruction::DAA => alu8::spec_daa(s),
        // 16-bit arithmetic and logic
        Instruction::ADD16(register) => alu16::spec_add16(s, register),
        Instruction::DEC16(register) => alu16::spec_dec16(s, register),
        Instruction::DECSP => alu16::spec_dec_sp(s),
        Instruction::INC16(register) => alu16::spec_inc16(s, register),
        Instruction::INCSP => alu16::spec_inc_sp(s),
        // Bit operations
        Instruction::BIT(bit_n, register) => bits::spec_bit_reg(s, bit_n, register),
        Instruction::BITHL(bit_n) => bits::spec_bit_at_hl(s, bit_n),
        Instruction::RES(bit_n, register) => bits::spec_res_reg(s, bit_n, register),
        Instruction::RESHL(bit_n) => bits::spec_res_at_hl(s, bit_n),
        Instruction::SET(bit_n, register) => bits::spec_set_reg(s, bit_n, register),
        Instruction::SETHL(bit_n) => bits::spec_set_at_hl(s, bit_n),
        // Rotates and shifts
        Instruction::RL(register) => rot::spec_rl_reg(s, register),
        Instruction::RLA => rot::spec_rla(s),
        Instruction::RLHL => rot::spec_rl_at_hl(s),
        Instruction::RLC(register) => rot::spec_rlc_reg(s, register),
        Instruction::RLCA => rot::spec_rlca(s),
        Instruction::RLCHL => rot::spec_rlc_at_hl(s),
        Instruction::RR(register) => rot::spec_rr_reg(s, register),
        Instruction::RRA => rot::spec_rra(s),
        Instruction::RRHL => rot::spec_rr_at_hl(s),
        Instruction::RRC(register) => rot::spec_rrc_reg(s, register),
        Instruction::RRCA => rot::spec_rrca(s),
        Instruction::RRCHL => rot::spec_rrc_at_hl(s),
        Instruction::SLA(register) => rot::spec_sla_reg(s, register),
        Instruction::SLAHL => rot::spec_sla_at_hl(s),
        Instruction::SRA(register) => rot::spec_sra_reg(s, register),
        Instruction::SRAHL => rot::spec_sra_at_hl(s),
        Instruction::SRL(register) => rot::spec_srl_reg(s, register),
        Instruction::SRLHL => rot::spec_srl_at_hl(s),
        Instruction::SWAP(register) => rot::spec_swap_reg(s, register),
        Instruction::SWAPHL => rot::spec_swap_at_hl(s),
        // 8-bit load
        Instruction::LDR8R8(r1, r2) => ld8::spec_ld_r8_r8(s, r1, r2),
        Instruction::LDR8D8(register) => ld8::spec_ld_r8_d8(s, register),
        Instruction::LDHLD8 => ld8::spec_ld_hl_d8(s),
        Instruction::LDR8ADDR(r1, r2) => ld8::spec_ld_r8_addr(s, r1, r2),
        Instruction::LDADDRR8(r1, r2) => ld8::spec_ld_addr_r8(s, r1, r2),
        Instruction::LDAHLI => ld8::spec_ld_a_hli(s),
        Instruction::LDAHLD => ld8::spec_ld_a_hld(s),
        Instruction::LDHLIA => ld8::spec_ld_hli_a(s),
        Instruction::LDHLDA => ld8::spec_ld_hld_a(s),
        Instruction::LDHLR8(register) => ld8::spec_ld_hl_r8(s, register),
        Instruction::LDR8HL(register) => ld8::spec_ld_r8_hl(s, register),
        Instruction::LDR16R8(r16, r8) => ld8::spec_ld_r16_r8(s, r16, r8),
        Instruction::LDR8R16(r8, r16) => ld8::spec_ld_r8_r16(s, r8, r16),
        Instruction::LDA8A => ld8::spec_ld_a8_a(s),
        Instruction::LDAA8 => ld8::spec_ld_a_a8(s),
        Instruction::LDA16A => ld8::spec_ld_a16_a(s),
        Instruction::LDAA16 => ld8::spec_ld_a_a16(s),
        // 16-bit load
        Instruction::LDR16D16(register) => ld16::spec_ld_r16_d16(s, register),
        Instruction::LDSPD16 => ld16::spec_ld_sp_d16(s),
        Instruction::LDA16SP => ld16::spec_ld_a16_sp(s),
        Instruction::ADDHLSP => ld16::spec_add_hl_sp(s),
        Instruction::LDSPHL => ld16::spec_ld_sp_hl(s),
        Instruction::ADDSPr8 => ld16::spec_add_sp_r8(s),
        Instruction::LDHLSPr8 => ld16::spec_ld_hl_sp_r8(s),
        Instruction::PUSH(register) => ld16::spec_push(s, register),
        Instruction::POP(register) => ld16::spec_pop(s, register),
        // Control
        Instruction::CCF => ctl::spec_ccf(s),
        Instruction::NOP => s,
        Instruction::SCF => ctl::spec_scf(s),
        Instruction::HALT => s,
        Instruction::STOP => s,
        Instruction::DI => ctl::spec_di(s),
        Instruction::EI => ctl::spec_ei(s),
        Instruction::PREFIX => s,
        // Jumps
        Instruction::JP(condition) => jmp::spec_jp(s, condition),
        Instruction::JPHL => jmp::spec_jp_hl(s),
        Instruction::JR(condition) => jmp::spec_jr(s, condition),
        Instruction::RST(offset) => jmp::spec_rst(s, offset),
        Instruction::RET(condition) => jmp::spec_ret(s, condition),
        Instruction::RETI => jmp::spec_reti(s),
        Instruction::CALL(condition) => jmp::spec_call(s, condition),
        Instruction::UNUSED => s,
    }
}

/// What one whole step does: an interrupt dispatch when one is due, else
/// fetch, decode and execute. The second component carries the opcode byte
/// of a fatal decode, with PC having consumed it.
pub open spec fn spec_step(s: CpuView) -> (CpuView, Option<u8>) {
    let attended = s.spec_attend();
    if attended.1 {
        (attended.0, None)
    } else {
        let opcode = s.fetched_byte();
        let s1 = s.after_fetch();
        if opcode == PREFIX_INSTR_CODE {
            let prefixed_opcode = s1.fetched_byte();
            let s2 = s1.after_fetch();
            (spec_execute(s2, spec_decode_prefixed(prefixed_opcode)), None)
        } else if spec_undefined_opcode(opcode) {
            (s1, Some(opcode))
        } else {
            (spec_execute(s1, spec_decode(opcode)), None)
        }
    }
}

/// Whether an instruction belongs to the 8-bit arithmetic and logic family.
pub open spec fn is_eight_bit_alu_instr(instruction: Instruction) -> bool {
    match instruction {
        Instruction::ADD(_) => true,
        Instruction::ADDHL => true,
        Instruction::ADDD8 => true,
        Instruction::INC(_) => true,
        Instruction::INCHL => true,
        Instruction::ADC(_) => true,
        Instruction::ADCHL => true,
        Instruction::ADCD8 => true,
        Instruction::SUB(_) => true,
        Instruction::SUBHL => true,
        Instruction::SUBD8 => true,
        Instruction::AND(_) => true,
        Instruction::ANDHL => true,
        Instruction::ANDD8 => true,
        Instruction::OR(_) => true,
        Instruction::ORHL => true,
        Instruction::ORD8 => true,
        Instruction::XOR(_) => true,
        Instruction::XORHL => true,
        Instruction::XORD8 => true,
        Instruction::CP(_) => true,
        Instruction::CPHL => true,
        Instruction::CPD8 => true,
        Instruction::DEC(_) => true,
        Instruction::DECHL => true,
        Instruction::SBC(_) => true,
        Instruction::SBCHL => true,
        Instruction::SBCD8 => true,
        Instruction::CPL => true,
        Instruction::DAA => true,
        _ => false,
    }
}

/// Whether an instruction belongs to the 16-bit arithmetic family.
pub open spec fn is_sixteen_bit_alu_instr(instruction: Instruction) -> bool {
    match instruction {
        Instruction::ADD16(_) => true,
        Instruction::DEC16(_) => true,
        Instruction::DECSP => true,
        Instruction::INC16(_) => true,
        Instruction::INCSP => true,
        _ => false,
    }
}

/// Whether an instruction belongs to the single-bit BIT/RES/SET family.
pub open spec fn is_bit_op_instr(instruction: Instruction) -> bool {
    match instruction {
        Instruction::BIT(_, _) => true,
        Instruction::BITHL(_) => true,
        Instruction::RES(_, _) => true,
        Instruction::RESHL(_) => true,
        Instruction::SET(_, _) => true,
        Instruction::SETHL(_) => true,
        _ => false,
    }
}

/// Whether an instruction belongs to the rotate and shift family.
pub open spec fn is_rotate_instr(instruction: Instruction) -> bool {
    match instruction {
        Instruction::RL(_) => true,
        Instruction::RLA => true,
        Instruction::RLHL => true,
        Instruction::RLC(_) => true,
        Instruction::RLCA => true,
        Instruction::RLCHL => true,
        Instruction::RR(_) => true,
        Instruction::RRA => true,
        Instruction::RRHL => true,
        Instruction::RRC(_) => true,
        Instruction::RRCA => true,
        Instruction::RRCHL => true,
        Instruction::SLA(_) => true,
        Instruction::SLAHL => true,
        Instruction::SRA(_) => true,
        Instruction::SRAHL => true,
        Instruction::SRL(_) => true,
        Instruction::SRLHL => true,
        Instruction::SWAP(_) => true,
        Instruction::SWAPHL => true,
        _ => false,
    }
}

/// Whether an instruction belongs to the 8-bit load family.
pub open spec fn is_eight_bit_load_instr(instruction: Instruction) -> bool {
    match instruction {
        Instruction::LDR8R8(_, _) => true,
        Instruction::LDR8D8(_) => true,
        Instruction::LDHLD8 => true,
        Instruction::LDR8ADDR(_, _) => true,
        Instruction::LDADDRR8(_, _) => true,
        Instruction::LDAHLI => true,
        Instruction::LDAHLD => true,
        Instruction::LDHLIA => true,
        Instruction::LDHLDA => true,
        Instruction::LDHLR8(_) => true,
        Instruction::LDR8HL(_) => true,
        Instruction::LDR16R8(_, _) => true,
        Instruction::LDR8R16(_, _) => true,
        Instruction::LDA8A => true,
        Instruction::LDAA8 => true,
        Instruction::LDA16A => true,
        Instruction::LDAA16 => true,
        _ => false,
    }
}

/// Whether an instruction belongs to the 16-bit load family.
pub open spec fn is_sixteen_bit_load_instr(instruction: Instruction) -> bool {
    match instruction {
        Instruction::LDR16D16(_) => true,
        Instruction::LDSPD16 => true,
        Instruction::LDA16SP => true,
        Instruction::ADDHLSP => true,
        Instruction::LDSPHL => true,
        Instruction::ADDSPr8 => true,
        Instruction::LDHLSPr8 => true,
        Instruction::PUSH(_) => true,
        Instruction::POP(_) => true,
        _ => false,
    }
}

/// Whether an instruction belongs to the jump, call and return family.
pub open spec fn is_jump_instr(instruction: Instruction) -> bool {
    match instruction {
        Instruction::JP(_) => true,
        Instruction::JPHL => true,
        Instruction::JR(_) => true,
        Instruction::RST(_) => true,
        Instruction::RET(_) => true,
        Instruction::RETI => true,
        Instruction::CALL(_) => true,
        _ => false,
    }
}

/// Whether an instruction belongs to the CPU control family.
pub open spec fn is_control_instr(instruction: Instruction) -> bool {
    match instruction {
        Instruction::CCF => true,
        Instruction::NOP => true,
        Instruction::SCF => true,
        Instruction::HALT => true,
        Instruction::STOP => true,
        Instruction::DI => true,
        Instruction::EI => true,
        Instruction::PREFIX => true,
        _ => false,
    }
}

impl CPU {
    /// Service one interrupt if one is due, else fetch, decode and run one
    /// instruction. An undefined opcode is fatal: it is reported, PC having
    /// consumed the byte, and nothing else moves.
    pub fn run_next_instruction(&mut self) -> (r: Result<(), CpuFault>)
        requires
            old(self)@.wf(),
        ensures
            final(self)@ == spec_step(old(self)@).0,
            final(self)@.wf(),
            r == match spec_step(old(self)@).1 {
                Some(opcode) => Err::<(), CpuFault>(CpuFault::UnknownOpcode(opcode)),
                None => Ok::<(), CpuFault>(()),
            },
    {
        if self.attend_pending_interrupt() {
            return Ok(());
        }

        let mut instruction_byte = self.fetch_byte();

        let prefixed = instruction_byte == PREFIX_INSTR_CODE;

        let instruction = if prefixed {
            instruction_byte = self.fetch_byte();
            Instruction::decode_prefixed(instruction_byte)
        } else {
            Instruction::decode(instruction_byte)
        };

        match instruction {
            Instruction::UNUSED => Err(CpuFault::UnknownOpcode(instruction_byte)),
            _ => {
                self.execute(instruction);
                Ok(())
            },
        }
    }

    /// Run one pre-decoded instruction. Undefined instructions are refused
    /// by contract: the caller screens them out first.
    pub fn execute(&mut self, instruction: Instruction)
        requires
            old(self)@.wf(),
            instruction.wf(),
            !(instruction is UNUSED),
        ensures
            final(self)@ == spec_execute(old(self)@, instruction),
            final(self)@.wf(),
    {
        match instruction {
            Instruction::ADD(_) | Instruction::ADDHL | Instruction::ADDD8 | Instruction::INC(_) | Instruction::INCHL | Instruction::ADC(_) | Instruction::ADCHL | Instruction::ADCD8 | Instruction::SUB(_) | Instruction::SUBHL | Instruction::SUBD8 | Instruction::AND(_) | Instruction::ANDHL | Instruction::ANDD8 | Instruction::OR(_) | Instruction::ORHL | Instruction::ORD8 | Instruction::XOR(_) | Instruction::XORHL | Instruction::XORD8 | Instruction::CP(_) | Instruction::CPHL | Instruction::CPD8 | Instruction::DEC(_) | Instruction::DECHL | Instruction::SBC(_) | Instruction::SBCHL | Instruction::SBCD8 | Instruction::CPL | Instruction::DAA => self.execute_eight_bit_alu(instruction),
            Instruction::ADD16(_) | Instruction::DEC16(_) | Instruction::DECSP | Instruction::INC16(_) | Instruction::INCSP => self.execute_sixteen_bit_alu(instruction),
            Instruction::BIT(_, _) | Instruction::BITHL(_) | Instruction::RES(_, _) | Instruction::RESHL(_) | Instruction::SET(_, _) | Instruction::SETHL(_) => self.execute_bit_op(instruction),
            Instruction::RL(_) | Instruction::RLA | Instruction::RLHL | Instruction::RLC(_) | Instruction::RLCA | Instruction::RLCHL | Instruction::RR(_) | Instruction::RRA | Instruction::RRHL | Instruction::RRC(_) | Instruction::RRCA | Instruction::RRCHL | Instruction::SLA(_) | Instruction::SLAHL | Instruction::SRA(_) | Instruction::SRAHL | Instruction::SRL(_) | Instruction::SRLHL | Instruction::SWAP(_) | Instruction::SWAPHL => self.execute_rotate(instruction),
            Instruction::LDR8R8(_, _) | Instruction::LDR8D8(_) | Instruction::LDHLD8 | Instruction::LDR8ADDR(_, _) | Instruction::LDADDRR8(_, _) | Instruction::LDAHLI | Instruction::LDAHLD | Instruction::LDHLIA | Instruction::LDHLDA | Instruction::LDHLR8(_) | Instruction::LDR8HL(_) | Instruction::LDR16R8(_, _) | Instruction::LDR8R16(_, _) | Instruction::LDA8A | Instruction::LDAA8 | Instruction::LDA16A | Instruction::LDAA16 => self.execute_eight_bit_load(instruction),
            Instruction::LDR16D16(_) | Instruction::LDSPD16 | Instruction::LDA16SP | Instruction::ADDHLSP | Instruction::LDSPHL | Instruction::ADDSPr8 | Instruction::LDHLSPr8 | Instruction::PUSH(_) | Instruction::POP(_) => self.execute_sixteen_bit_load(instruction),
            Instruction::JP(_) | Instruction::JPHL | Instruction::JR(_) | Instruction::RST(_) | Instruction::RET(_) | Instruction::RETI | Instruction::CALL(_) => self.execute_jump(instruction),
            Instruction::CCF | Instruction::NOP | Instruction::SCF | Instruction::HALT | Instruction::STOP | Instruction::DI | Instruction::EI | Instruction::PREFIX => self.execute_control(instruction),
            Instruction::UNUSED => (),
        }
    }

    fn execute_eight_bit_alu(&mut self, instruction: Instruction)
        requires
            old(self)@.wf(),
            instruction.wf(),
            is_eight_bit_alu_instr(instruction),
        ensures
            final(self)@ == spec_execute(old(self)@, instruction),
            final(self)@.wf(),
    {
        match instruction {
            Instruction::ADD(register) => alu8::add(self, register),
            Instruction::ADDHL => alu8::add_hl(self),
            Instruction::ADDD8 => alu8::add_d8(self),
            Instruction::INC(register) => alu8::inc(self, register),
            Instruction::INCHL => alu8::inc_hl(self),
            Instruction::ADC(register) => alu8::adc(self, register),
            Instruction::ADCHL => alu8::adc_hl(self),
            Instruction::ADCD8 => alu8::adc_d8(self),
            Instruction::SUB(register) => alu8::sub(self, register),
            Instruction::SUBHL => alu8::sub_hl(self),
            Instruction::SUBD8 => alu8::sub_d8(self),
            Instruction::AND(register) => alu8::and(self, register),
            Instruction::ANDHL => alu8::and_hl(self),
            Instruction::ANDD8 => alu8::and_d8(self),
            Instruction::OR(register) => alu8::or(self, register),
            Instruction::ORHL => alu8::or_hl(self),
            Instruction::ORD8 => alu8::or_d8(self),
            Instruction::XOR(register) => alu8::xor(self, register),
            Instruction::XORHL => alu8::xor_hl(self),
            Instruction::XORD8 => alu8::xor_d8(self),
            Instruction::CP(register) => alu8::cp(self, register),
            Instruction::CPHL => alu8::cp_hl(self),
            Instruction::CPD8 => alu8::cp_d8(self),
            Instruction::DEC(register) => alu8::dec(self, register),
            Instruction::DECHL => alu8::dec_hl(self),
            Instruction::SBC(register) => alu8::sbc(self, register),
            Instruction::SBCHL => alu8::sbc_hl(self),
            Instruction::SBCD8 => alu8::sbc_d8(self),
            Instruction::CPL => alu8::cpl(self),
            Instruction::DAA => alu8::daa(self),
            _ => (),
        }
    }

    fn execute_sixteen_bit_alu(&mut self, instruction: Instruction)
        requires
            old(self)@.wf(),
            instruction.wf(),
            is_sixteen_bit_alu_instr(instruction),
        ensures
            final(self)@ == spec_execute(old(self)@, instruction),
            final(self)@.wf(),
    {
        match instruction {
            Instruction::ADD16(register) => alu16::add16(self, register),
            Instruction::DEC16(register) => alu16::dec16(self, register),
            Instruction::DECSP => alu16::dec_sp(self),
            Instruction::INC16(register) => alu16::inc16(self, register),
            Instruction::INCSP => alu16::inc_sp(self),
            _ => (),
        }
    }

    fn execute_bit_op(&mut self, instruction: Instruction)
        requires
            old(self)@.wf(),
            instruction.wf(),
            is_bit_op_instr(instruction),
        ensures
            final(self)@ == spec_execute(old(self)@, instruction),
            final(self)@.wf(),
    {
        match instruction {
            Instruction::BIT(bit_n, register) => bits::bit(self, bit_n, register),
            Instruction::BITHL(bit_n) => bits::bit_hl(self, bit_n),
            Instruction::RES(bit_n, register) => bits::res(self, bit_n, register),
            Instruction::RESHL(bit_n) => bits::res_hl(self, bit_n),
            Instruction::SET(bit_n, register) => bits::set(self, bit_n, register),
            Instruction::SETHL(bit_n) => bits::set_hl(self, bit_n),
            _ => (),
        }
    }

    fn execute_rotate(&mut self, instruction: Instruction)
        requires
            old(self)@.wf(),
            instruction.wf(),
            is_rotate_instr(instruction),
        ensures
            final(self)@ == spec_execute(old(self)@, instruction),
            final(self)@.wf(),
    {
        match instruction {
            Instruction::RL(register) => rot::rl(self, register),
            Instruction::RLA => rot::rla(self),
            Instruction::RLHL => rot::rl_hl(self),
            Instruction::RLC(register) => rot::rlc(self, register),
            Instruction::RLCA => rot::rlca(self),
            Instruction::RLCHL => rot::rlc_hl(self),
            Instruction::RR(register) => rot::rr(self, register),
            Instruction::RRA => rot::rra(self),
            Instruction::RRHL => rot::rr_hl(self),
            Instruction::RRC(register) => rot::rrc(self, register),
            Instruction::RRCA => rot::rrca(self),
            Instruction::RRCHL => rot::rrc_hl(self),
            Instruction::SLA(register) => rot::sla(self, register),
            Instruction::SLAHL => rot::sla_hl(self),
            Instruction::SRA(register) => rot::sra(self, register),
            Instruction::SRAHL => rot::sra_hl(self),
            Instruction::SRL(register) => rot::srl(self, register),
            Instruction::SRLHL => rot::srl_hl(self),
            Instruction::SWAP(register) => rot::swap(self, register),
            Instruction::SWAPHL => rot::swap_hl(self),
            _ => (),
        }
    }

    fn execute_eight_bit_load(&mut self, instruction: Instruction)
        requires
            old(self)@.wf(),
            instruction.wf(),
            is_eight_bit_load_instr(instruction),
        ensures
            final(self)@ == spec_execute(old(self)@, instruction),
            final(self)@.wf(),
    {
        match instruction {
            Instruction::LDR8R8(r1, r2) => ld8::ld_r8_r8(self, r1, r2),
            Instruction::LDR8D8(register) => ld8::ld_r8_d8(self, register),
            Instruction::LDHLD8 => ld8::ld_hl_d8(self),
            Instruction::LDR8ADDR(r1, r2) => ld8::ld_r8_addr(self, r1, r2),
            Instruction::LDADDRR8(r1, r2) => ld8::ld_addr_r8(self, r1, r2),
            Instruction::LDAHLI => ld8::ld_a_hli(self),
            Instruction::LDAHLD => ld8::ld_a_hld(self),
            Instruction::LDHLIA => ld8::ld_hli_a(self),
            Instruction::LDHLDA => ld8::ld_hld_a(self),
            Instruction::LDHLR8(register) => ld8::ld_hl_r8(self, register),
            Instruction::LDR8HL(register) => ld8::ld_r8_hl(self, register),
            Instruction::LDR16R8(r16, r8) => ld8::ld_r16_r8(self, r16, r8),
            Instruction::LDR8R16(r8, r16) => ld8::ld_r8_r16(self, r8, r16),
            Instruction::LDA8A => ld8::ld_a8_a(self),
            Instruction::LDAA8 => ld8::ld_a_a8(self),
            Instruction::LDA16A => ld8::ld_a16_a(self),
            Instruction::LDAA16 => ld8::ld_a_a16(self),
            _ => (),
        }
    }

    fn execute_sixteen_bit_load(&mut self, instruction: Instruction)
        requires
            old(self)@.wf(),
            instruction.wf(),
            is_sixteen_bit_load_instr(instruction),
        ensures
            final(self)@ == spec_execute(old(self)@, instruction),
            final(self)@.wf(),
    {
        match instruction {
            Instruction::LDR16D16(register) => ld16::ld_r16_d16(self, register),
            Instruction::LDSPD16 => ld16::ld_sp_d16(self),
            Instruction::LDA16SP => ld16::ld_a16_sp(self),
            Instruction::ADDHLSP => ld16::add_hl_sp(self),
            Instruction::LDSPHL => ld16::ld_sp_hl(self),
            Instruction::ADDSPr8 => ld16::add_sp_r8(self),
            Instruction::LDHLSPr8 => ld16::ld_hl_sp_r8(self),
            Instruction::PUSH(register) => ld16::push(self, register),
            Instruction::POP(register) => ld16::pop(self, register),
            _ => (),
        }
    }

    fn execute_jump(&mut self, instruction: Instruction)
        requires
            old(self)@.wf(),
            instruction.wf(),
            is_jump_instr(instruction),
        ensures
            final(self)@ == spec_execute(old(self)@, instruction),
            final(self)@.wf(),
    {
        match instruction {
            Instruction::JP(condition) => jmp::jp(self, condition),
            Instruction::JPHL => jmp::jp_hl(self),
            Instruction::JR(condition) => jmp::jr(self, condition),
            Instruction::RST(offset) => jmp::rst(self, offset),
            Instruction::RET(condition) => jmp::ret(self, condition),
            Instruction::RETI => jmp::reti(self),
            Instruction::CALL(condition) => jmp::call(self, condition),
            _ => (),
        }
    }

    fn execute_control(&mut self, instruction: Instruction)
        requires
            old(self)@.wf(),
            instruction.wf(),
            is_control_instr(instruction),
        ensures
            final(self)@ == spec_execute(old(self)@, instruction),
            final(self)@.wf(),
    {
        match instruction {
            Instruction::CCF => ctl::ccf(self),
            Instruction::NOP => ctl::nop(),
            Instruction::SCF => ctl::scf(self),
            Instruction::HALT => ctl::halt(),
            Instruction::STOP => ctl::stop(),
            Instruction::DI => ctl::di(self),
            Instruction::EI => ctl::ei(self),
            Instruction::PREFIX => (),
            _ => (),
        }
    }
}

} // verus!
