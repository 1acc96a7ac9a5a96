//! The register file: seven 8-bit registers, the four flags, PC and SP,
//! and the virtual 16-bit pairs AF, BC, DE and HL.

use vstd::prelude::*;

use crate::arith::{hi_byte, lo_byte, word_of, wrap_add16, wrap_sub16};

verus! {

#[derive(Clone, Copy, PartialEq, Eq, Structural)]
pub enum Register8bits {
    A,
    B,
    C,
    D,
    E,
    H,
    L,
}

// 16 bit virtual registers.
// These registers allow operations to read and write 16 bits instead of 8.
// There are 4: "af" ("a" and "f" combined), "bc", "de" and "hl".
// The first register represents the most significant byte.
#[derive(Clone, Copy, PartialEq, Eq, Structural)]
pub enum Register16bits {
    AF,
    BC,
    DE,
    HL,
}

#[derive(Debug, Clone, Copy, PartialEq, Eq, Structural)]
pub struct FlagsRegister {
    // Zero. Set when the result of an instruction is 0.
    pub z: bool,
    // Add/Sub. Set when the instruction executed was a subtraction.
    pub s: bool,
    // Half-carry.
    pub hc: bool,
    // Carry.
    pub c: bool,
}

// Each of the 4 most significant bits of the flags register corresponds to a
// flag. The other 4 bits are not used and read as zero.
impl FlagsRegister {
    /// The flags materialised as the virtual F register byte.
    pub open spec fn spec_byte(self) -> u8 {
        ((if self.z {
            0x80int
        } else {
            0int
        }) + (if self.s {
            0x40int
        } else {
            0int
        }) + (if self.hc {
            0x20int
        } else {
            0int
        }) + (if self.c {
            0x10int
        } else {
            0int
        })) as u8
    }

    /// The flags encoded in bits 7..4 of a byte; bits 3..0 are ignored.
    pub open spec fn spec_of_byte(value: u8) -> FlagsRegister {
        FlagsRegister {
            z: value / 0x80 % 2 == 1,
            s: value / 0x40 % 2 == 1,
            hc: value / 0x20 % 2 == 1,
            c: value / 0x10 % 2 == 1,
        }
    }

    pub fn new() -> (r: FlagsRegister)
        ensures
            r == (FlagsRegister { z: false, s: false, hc: false, c: false }),
    {
        FlagsRegister { z: false, s: false, hc: false, c: false }
    }

    /// Pack the four flags into the F register byte.
    pub fn byte_value(&self) -> (r: u8)
        ensures
            r == self.spec_byte(),
    {
        (if self.z {
            0x80u8
        } else {
            0u8
        }) + (if self.s {
            0x40u8
        } else {
            0u8
        }) + (if self.hc {
            0x20u8
        } else {
            0u8
        }) + (if self.c {
            0x10u8
        } else {
            0u8
        })
    }

    /// Unpack the F register byte into the four flags.
    pub fn of_byte(value: u8) -> (r: FlagsRegister)
        ensures
            r == FlagsRegister::spec_of_byte(value),
    {
        FlagsRegister {
            z: value / 0x80 % 2 == 1,
            s: value / 0x40 % 2 == 1,
            hc: value / 0x20 % 2 == 1,
            c: value / 0x10 % 2 == 1,
        }
    }
}

pub struct ProgramCounter(pub u16);

impl ProgramCounter {
    pub fn new() -> (r: ProgramCounter)
        ensures
            r.0 == 0,
    {
        ProgramCounter(0)
    }

    pub fn address(&self) -> (r: u16)
        ensures
            r == self.0,
    {
        self.0
    }

    pub fn set(&mut self, address: u16)
        ensures
            final(self).0 == address,
    {
        self.0 = address
    }

    pub fn inc(&mut self, steps: u16)
        ensures
            final(self).0 == wrap_add16(old(self).0, steps),
    {
        self.0 = ((self.0 as u32 + steps as u32) % 0x10000) as u16;
    }

    pub fn dec(&mut self, steps: u16)
        ensures
            final(self).0 == wrap_sub16(old(self).0, steps),
    {
        self.0 = ((self.0 as u32 + 0x10000 - steps as u32) % 0x10000) as u16;
    }
}

pub struct StackPointer(pub u16);

impl StackPointer {
    pub fn new() -> (r: StackPointer)
        ensures
            r.0 == 0,
    {
        StackPointer(0)
    }

    pub fn address(&self) -> (r: u16)
        ensures
            r == self.0,
    {
        self.0
    }

    pub fn set(&mut self, address: u16)
        ensures
            final(self).0 == address,
    {
        self.0 = address
    }

    pub fn inc(&mut self, bytes: u16)
        ensures
            final(self).0 == wrap_add16(old(self).0, bytes),
    {
        self.0 = ((self.0 as u32 + bytes as u32) % 0x10000) as u16;
    }

    pub fn dec(&mut self, bytes: u16)
        ensures
            final(self).0 == wrap_sub16(old(self).0, bytes),
    {
        self.0 = ((self.0 as u32 + 0x10000 - bytes as u32) % 0x10000) as u16;
    }
}

pub struct Registers {
    pub a: u8,
    pub b: u8,
    pub c: u8,
    pub d: u8,
    pub e: u8,
    pub h: u8,
    pub l: u8,
    pub flags: FlagsRegister,
    pub pc: ProgramCounter,
    pub sp: StackPointer,
}

impl Registers {
    /// The value of one 8-bit register.
    pub open spec fn spec_reg8(self, register: Register8bits) -> u8 {
        match register {
            Register8bits::A => self.a,
            Register8bits::B => self.b,
            Register8bits::C => self.c,
            Register8bits::D => self.d,
            Register8bits::E => self.e,
            Register8bits::H => self.h,
            Register8bits::L => self.l,
        }
    }

    /// The register file with one 8-bit register replaced.
    pub open spec fn with_reg8(self, register: Register8bits, value: u8) -> Registers {
        match register {
            Register8bits::A => Registers { a: value, ..self },
            Register8bits::B => Registers { b: value, ..self },
            Register8bits::C => Registers { c: value, ..self },
            Register8bits::D => Registers { d: value, ..self },
            Register8bits::E => Registers { e: value, ..self },
            Register8bits::H => Registers { h: value, ..self },
            Register8bits::L => Registers { l: value, ..self },
        }
    }

    /// The value of a virtual 16-bit pair; AF materialises the flags byte.
    pub open spec fn spec_reg16(self, register: Register16bits) -> u16 {
        match register {
            Register16bits::AF => word_of(self.a, self.flags.spec_byte()),
            Register16bits::BC => word_of(self.b, self.c),
            Register16bits::DE => word_of(self.d, self.e),
            Register16bits::HL => word_of(self.h, self.l),
        }
    }

    /// The register file with one 16-bit pair replaced; writing AF
    /// decomposes the low byte back into the four flags.
    pub open spec fn with_reg16(self, register: Register16bits, value: u16) -> Registers {
        let high = hi_byte(value);
        let low = lo_byte(value);
        match register {
            Register16bits::AF => Registers {
                a: high,
                flags: FlagsRegister::spec_of_byte(low),
                ..self
            },
            Register16bits::BC => Registers { b: high, c: low, ..self },
            Register16bits::DE => Registers { d: high, e: low, ..self },
            Register16bits::HL => Registers { h: high, l: low, ..self },
        }
    }

    /// The register file with the four flags replaced.
    pub open spec fn with_flags(self, z: bool, s: bool, hc: bool, c: bool) -> Registers {
        Registers { flags: FlagsRegister { z, s, hc, c }, ..self }
    }

    /// The register file with PC replaced.
    pub open spec fn with_pc(self, value: u16) -> Registers {
        Registers { pc: ProgramCounter(value), ..self }
    }

    /// The register file with SP replaced.
    pub open spec fn with_sp(self, value: u16) -> Registers {
        Registers { sp: StackPointer(value), ..self }
    }

    pub fn new() -> (r: Registers)
        ensures
            r == (Registers {
                a: 0,
                b: 0,
                c: 0,
                d: 0,
                e: 0,
                h: 0,
                l: 0,
                flags: FlagsRegister { z: false, s: false, hc: false, c: false },
                pc: ProgramCounter(0),
                sp: StackPointer(0),
            }),
    {
        Registers {
            a: 0,
            b: 0,
            c: 0,
            d: 0,
            e: 0,
            h: 0,
            l: 0,
            flags: FlagsRegister::new(),
            pc: ProgramCounter::new(),
            sp: StackPointer::new(),
        }
    }

    pub fn read(&self, register: &Register8bits) -> (r: u8)
        ensures
            r == self.spec_reg8(*register),
    {
        match register {
            Register8bits::A => self.a,
            Register8bits::B => self.b,
            Register8bits::C => self.c,
            Register8bits::D => self.d,
            Register8bits::E => self.e,
            Register8bits::H => self.h,
            Register8bits::L => self.l,
        }
    }

    pub fn write(&mut self, register: &Register8bits, value: u8)
        ensures
            *final(self) == old(self).with_reg8(*register, value),
    {
        match register {
            Register8bits::A => self.a = value,
            Register8bits::B => self.b = value,
            Register8bits::C => self.c = value,
            Register8bits::D => self.d = value,
            Register8bits::E => self.e = value,
            Register8bits::H => self.h = value,
            Register8bits::L => self.l = value,
        }
    }

    pub fn read_16b(&self, register: &Register16bits) -> (r: u16)
        ensures
            r == self.spec_reg16(*register),
    {
        match register {
            Register16bits::AF => Registers::read_16b_from(self.a, self.flags.byte_value()),
            Register16bits::BC => Registers::read_16b_from(self.b, self.c),
            Register16bits::DE => Registers::read_16b_from(self.d, self.e),
            Register16bits::HL => Registers::read_16b_from(self.h, self.l),
        }
    }

    pub fn write_16b(&mut self, register: &Register16bits, value: u16)
        ensures
            *final(self) == old(self).with_reg16(*register, value),
    {
        let (high, low) = Registers::split_16b(value);
        match register {
            Register16bits::AF => {
                self.a = high;
                self.flags = FlagsRegister::of_byte(low);
            }
            Register16bits::BC => {
                self.b = high;
                self.c = low;
            }
            Register16bits::DE => {
                self.d = high;
                self.e = low;
            }
            Register16bits::HL => {
                self.h = high;
                self.l = low;
            }
        }
    }

    pub fn write_flags(&mut self, z: bool, s: bool, hc: bool, c: bool)
        ensures
            *final(self) == old(self).with_flags(z, s, hc, c),
    {
        self.flags = FlagsRegister { z, s, hc, c };
    }

    pub fn read_z_flag(&self) -> (r: bool)
        ensures
            r == self.flags.z,
    {
        self.flags.z
    }

    pub fn write_z_flag(&mut self, z: bool)
        ensures
            *final(self) == (Registers { flags: FlagsRegister { z, ..old(self).flags }, ..*old(self) }),
    {
        self.flags.z = z
    }

    pub fn read_s_flag(&self) -> (r: bool)
        ensures
            r == self.flags.s,
    {
        self.flags.s
    }

    pub fn write_s_flag(&mut self, s: bool)
        ensures
            *final(self) == (Registers { flags: FlagsRegister { s, ..old(self).flags }, ..*old(self) }),
    {
        self.flags.s = s
    }

    pub fn read_hc_flag(&self) -> (r: bool)
        ensures
            r == self.flags.hc,
    {
        self.flags.hc
    }

    pub fn write_hc_flag(&mut self, hc: bool)
        ensures
            *final(self) == (Registers {
                flags: FlagsRegister { hc, ..old(self).flags },
                ..*old(self)
            }),
    {
        self.flags.hc = hc
    }

    pub fn read_c_flag(&self) -> (r: bool)
        ensures
            r == self.flags.c,
    {
        self.flags.c
    }

    pub fn write_c_flag(&mut self, c: bool)
        ensures
            *final(self) == (Registers { flags: FlagsRegister { c, ..old(self).flags }, ..*old(self) }),
    {
        self.flags.c = c
    }

    pub fn increase_pc(&mut self, steps: u16)
        ensures
            *final(self) == old(self).with_pc(wrap_add16(old(self).pc.0, steps)),
    {
        self.pc.inc(steps);
    }

    pub fn decrease_pc(&mut self, steps: u16)
        ensures
            *final(self) == old(self).with_pc(wrap_sub16(old(self).pc.0, steps)),
    {
        self.pc.dec(steps);
    }

    pub fn write_pc(&mut self, value: u16)
        ensures
            *final(self) == old(self).with_pc(value),
    {
        self.pc.set(value);
    }

    pub fn increase_sp(&mut self, bytes: u16)
        ensures
            *final(self) == old(self).with_sp(wrap_add16(old(self).sp.0, bytes)),
    {
        self.sp.inc(bytes);
    }

    pub fn decrease_sp(&mut self, bytes: u16)
        ensures
            *final(self) == old(self).with_sp(wrap_sub16(old(self).sp.0, bytes)),
    {
        self.sp.dec(bytes);
    }

    pub fn write_sp(&mut self, value: u16)
        ensures
            *final(self) == old(self).with_sp(value),
    {
        self.sp.set(value);
    }

    pub fn sp(&self) -> (r: u16)
        ensures
            r == self.sp.0,
    {
        self.sp.address()
    }

    pub fn pc(&self) -> (r: u16)
        ensures
            r == self.pc.0,
    {
        self.pc.address()
    }

    fn read_16b_from(r1: u8, r2: u8) -> (r: u16)
        ensures
            r == word_of(r1, r2),
    {
        r1 as u16 * 0x100 + r2 as u16
    }

    fn split_16b(value: u16) -> (r: (u8, u8))
        ensures
            r.0 == hi_byte(value),
            r.1 == lo_byte(value),
    {
        let high = (value / 0x100) as u8;
        let low = (value % 0x100) as u8;
        (high, low)
    }
}

} // verus!
