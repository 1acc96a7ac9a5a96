//! The flat 64 KiB memory. Reads and writes of the two interrupt registers
//! (IF at 0xFF0F, IE at 0xFFFF) are forwarded to the interrupt controller,
//! and a write to the serial control register (0xFF02) emits the serial data
//! byte (0xFF01) to an output buffer that the host can drain.

use vstd::prelude::*;

use crate::arith::{hi_byte, lo_byte, word_of, wrap_add16};
use crate::interrupts::{
    Interrupts, InterruptRegister, ENABLED_INTERRUPTS_ADDR, PENDING_INTERRUPTS_ADDR,
};

verus! {

/// First address of the I/O port region; LDH addresses are relative to it.
pub const IO_PORTS_BEGIN: u16 = 0xFF00;

/// Address of the serial transfer data register.
pub const SERIAL_TRANSFER_DATA: u16 = 0xFF01;

/// Address of the serial transfer control register.
pub const SERIAL_TRANSFER_CONTROL: u16 = 0xFF02;

pub struct Memory {
    pub mem: Vec<u8>,
    pub interrupts: Interrupts,
    /// Bytes mirrored from the serial data register; the host's output channel.
    pub serial_out: Vec<u8>,
}

/// The mathematical model of the memory: the backing bytes, the interrupt
/// controller, and the serial bytes emitted so far.
#[verifier::ext_equal]
pub struct MemView {
    pub bytes: Seq<u8>,
    pub interrupts: Interrupts,
    pub serial: Seq<u8>,
}

impl MemView {
    pub open spec fn wf(self) -> bool {
        self.bytes.len() == 0x10000
    }

    /// The byte a read of `address` returns: the materialised IF or IE
    /// bitmap at their addresses, the backing byte elsewhere.
    pub open spec fn read(self, address: u16) -> u8 {
        if address == PENDING_INTERRUPTS_ADDR {
            self.interrupts.pending.spec_value()
        } else if address == ENABLED_INTERRUPTS_ADDR {
            self.interrupts.enabled.spec_value()
        } else {
            self.bytes[address as int]
        }
    }

    /// The memory after a write of `value` to `address`: the backing byte is
    /// always stored; IF and IE writes also replace the bitmaps; a write to
    /// the serial control register emits the serial data byte.
    pub open spec fn write(self, address: u16, value: u8) -> MemView {
        MemView {
            bytes: self.bytes.update(address as int, value),
            interrupts: if address == PENDING_INTERRUPTS_ADDR {
                Interrupts {
                    pending: InterruptRegister::spec_of_byte(value),
                    ..self.interrupts
                }
            } else if address == ENABLED_INTERRUPTS_ADDR {
                Interrupts {
                    enabled: InterruptRegister::spec_of_byte(value),
                    ..self.interrupts
                }
            } else {
                self.interrupts
            },
            serial: if address == SERIAL_TRANSFER_CONTROL {
                self.serial.push(self.bytes[SERIAL_TRANSFER_DATA as int])
            } else {
                self.serial
            },
        }
    }

    /// The little-endian word read at `address`; the high byte comes from
    /// `address + 1`, wrapping at the top of the address space.
    pub open spec fn read_word(self, address: u16) -> u16 {
        word_of(self.read(wrap_add16(address, 1)), self.read(address))
    }

    /// The memory after a little-endian word write: low byte at `address`,
    /// high byte at `address + 1`, wrapping at the top of the address space.
    pub open spec fn write_word(self, address: u16, value: u16) -> MemView {
        self.write(address, lo_byte(value)).write(wrap_add16(address, 1), hi_byte(value))
    }
}

impl View for Memory {
    type V = MemView;

    open spec fn view(&self) -> MemView {
        MemView { bytes: self.mem@, interrupts: self.interrupts, serial: self.serial_out@ }
    }
}

impl Memory {
    pub fn new() -> (r: Memory)
        ensures
            r@.wf(),
            forall|i: int| 0 <= i < 0x10000 ==> r@.bytes[i] == 0u8,
            r@.interrupts == (Interrupts {
                enabled: InterruptRegister {
                    vblank: false,
                    lcdstat: false,
                    timer: false,
                    serial: false,
                    joypad: false,
                },
                pending: InterruptRegister {
                    vblank: false,
                    lcdstat: false,
                    timer: false,
                    serial: false,
                    joypad: false,
                },
            }),
            r@.serial == Seq::<u8>::empty(),
    {
        let mut mem: Vec<u8> = Vec::new();
        while mem.len() < 0x10000
            invariant
                mem@.len() <= 0x10000,
                forall|i: int| 0 <= i < mem@.len() ==> mem@[i] == 0u8,
            decreases 0x10000 - mem@.len(),
        {
            mem.push(0);
        }
        Memory { mem, interrupts: Interrupts::new(), serial_out: Vec::new() }
    }

    pub fn read_byte(&self, address: u16) -> (r: u8)
        requires
            self@.wf(),
        ensures
            r == self@.read(address),
    {
        if address == PENDING_INTERRUPTS_ADDR {
            self.interrupts.if_value()
        } else if address == ENABLED_INTERRUPTS_ADDR {
            self.interrupts.ie_value()
        } else {
            self.mem[address as usize]
        }
    }

    pub fn write_byte(&mut self, address: u16, value: u8)
        requires
            old(self)@.wf(),
        ensures
            final(self)@ == old(self)@.write(address, value),
            final(self)@.wf(),
    {
        self.mem.set(address as usize, value);
        if address == PENDING_INTERRUPTS_ADDR {
            self.interrupts.add_interrupts(value);
        } else if address == ENABLED_INTERRUPTS_ADDR {
            self.interrupts.enable_or_disable_interrupts(value);
        } else if address == SERIAL_TRANSFER_CONTROL {
            // Blargg's test ROMs report their results through the game link
            // port, so mirroring the serial data byte to the host makes the
            // outcome visible without any graphics.
            let data = self.mem[SERIAL_TRANSFER_DATA as usize];
            self.serial_out.push(data);
        }
    }

    pub fn read_word(&self, address: u16) -> (r: u16)
        requires
            self@.wf(),
        ensures
            r == self@.read_word(address),
    {
        let low = self.read_byte(address);
        let next = ((address as u32 + 1) % 0x10000) as u16;
        let high = self.read_byte(next);
        high as u16 * 0x100 + low as u16
    }

    pub fn write_word(&mut self, address: u16, value: u16)
        requires
            old(self)@.wf(),
        ensures
            final(self)@ == old(self)@.write_word(address, value),
            final(self)@.wf(),
    {
        let low = (value % 0x100) as u8;
        let high = (value / 0x100) as u8;
        self.write_byte(address, low);
        let next = ((address as u32 + 1) % 0x10000) as u16;
        self.write_byte(next, high);
    }
}

} // verus!
